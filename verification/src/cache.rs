//! The per-handle delivery cache: mailboxes already looked up, by actor name,
//! remembered with the actor type they were looked up for.
//!
//! A cached mailbox is only used for a send of the same actor type; an entry
//! for another type is stale and is dropped, as is an entry whose send failed.
use vstd::prelude::*;
use crate::registry::{ActorRecord, Registry};
use crate::LifeCycle;

verus! {

/// The result of consulting the cache for a send.
pub enum CacheLookup<'a, H> {
    /// A mailbox cached for the same actor type.
    Hit(&'a H),
    /// A mailbox cached for another actor type: drop it and look up afresh.
    Stale,
    /// Nothing cached under the name.
    Miss,
}

/// The mailbox a cache hands out for a send of `actor_type` to `name`:
/// only one cached for that very type.
pub open spec fn cache_hit<H>(view: Map<Seq<char>, (Seq<char>, H)>, name: Seq<char>, actor_type: Seq<char>) -> Option<H> {
    if view.contains_key(name) && view[name].0 == actor_type {
        Some(view[name].1)
    } else {
        None
    }
}

/// What follows a send through a cached mailbox.
#[derive(Debug, Clone, Copy, PartialEq, Eq, Structural)]
pub enum CachedSend {
    /// The send went through: the send is done.
    Delivered,
    /// The send failed and the entry was dropped: look the actor up afresh,
    /// send through what the lookup finds, and remember it.
    Resolve,
}

/// Mailboxes already looked up, by actor name.
#[derive(Clone)]
pub struct TxCache<H> {
    entries: Registry<H>,
}

impl<H> TxCache<H> {
    /// The cache as a map from actor names to (actor type, mailbox).
    pub closed spec fn view(&self) -> Map<Seq<char>, (Seq<char>, H)> {
        Map::new(
            |k: Seq<char>| self.entries.view().contains_key(k),
            |k: Seq<char>| (self.entries.view()[k].actor_type, self.entries.view()[k].handle),
        )
    }

    /// Well-formedness of the backing table.
    pub closed spec fn wf(&self) -> bool {
        self.entries.wf()
    }

    /// An empty cache.
    pub fn new() -> (c: Self)
        ensures
            c.wf(),
            c.view() == Map::<Seq<char>, (Seq<char>, H)>::empty(),
    {
        let c = TxCache { entries: Registry::new() };
        assert(c.view() =~= Map::<Seq<char>, (Seq<char>, H)>::empty());
        c
    }

    /// Consults the cache for a send of type `actor_type` to `name`: a hit
    /// only when the mailbox was cached for that very type.
    pub fn lookup(&self, name: &str, actor_type: &str) -> (r: CacheLookup<'_, H>)
        requires
            self.wf(),
        ensures
            r is Hit == cache_hit(self.view(), name@, actor_type@) is Some,
            r matches CacheLookup::Hit(h) ==> cache_hit(self.view(), name@, actor_type@) == Some(*h),
            !self.view().contains_key(name@) ==> r is Miss,
            self.view().contains_key(name@) && self.view()[name@].0 != actor_type@ ==> r is Stale,
    {
        match self.entries.record(name) {
            None => CacheLookup::Miss,
            Some(rec) => {
                if rec.actor_type.as_str().eq(actor_type) {
                    CacheLookup::Hit(&rec.handle)
                } else {
                    CacheLookup::Stale
                }
            },
        }
    }

    /// Remembers `handle` as the mailbox of `name` for `actor_type`,
    /// replacing an earlier entry.
    pub fn remember(&mut self, name: String, actor_type: String, handle: H)
        requires
            old(self).wf(),
        ensures
            final(self).wf(),
            final(self).view() == old(self).view().insert(name@, (actor_type@, handle)),
    {
        let ghost n = name@;
        let ghost t = actor_type@;
        let _ = self.entries.register(name, actor_type, handle, LifeCycle::Receiving, true);
        assert(self.view() =~= old(self).view().insert(n, (t, handle)));
    }

    /// Remembers `handle` as the mailbox of `name` for `actor_type` unless
    /// something is cached under `name` already.
    pub fn remember_if_absent(&mut self, name: String, actor_type: String, handle: H)
        requires
            old(self).wf(),
        ensures
            final(self).wf(),
            final(self).view() == (if old(self).view().contains_key(name@) {
                old(self).view()
            } else {
                old(self).view().insert(name@, (actor_type@, handle))
            }),
    {
        if self.entries.record(name.as_str()).is_none() {
            self.remember(name, actor_type, handle);
        }
    }

    /// Settles a send through the mailbox cached under `name`: one that went
    /// through is done and leaves the cache as it is; a failed one drops the
    /// entry and asks for a fresh lookup.
    pub fn after_cached_send(&mut self, name: &str, delivered: bool) -> (r: CachedSend)
        requires
            old(self).wf(),
        ensures
            final(self).wf(),
            delivered ==> r == CachedSend::Delivered && final(self).view() == old(self).view(),
            !delivered ==> r == CachedSend::Resolve && final(self).view() == old(self).view().remove(name@),
    {
        if delivered {
            CachedSend::Delivered
        } else {
            self.evict(name);
            CachedSend::Resolve
        }
    }

    /// Records the mailbox a job start resolved for `name`: with the cache in
    /// use it is remembered unless something is cached under `name` already;
    /// a start without the cache leaves the cache untouched.
    pub fn remember_job_target(&mut self, use_cache: bool, name: String, actor_type: String, handle: H)
        requires
            old(self).wf(),
        ensures
            final(self).wf(),
            !use_cache ==> final(self).view() == old(self).view(),
            use_cache ==> final(self).view() == (if old(self).view().contains_key(name@) {
                old(self).view()
            } else {
                old(self).view().insert(name@, (actor_type@, handle))
            }),
    {
        if use_cache {
            self.remember_if_absent(name, actor_type, handle);
        }
    }

    /// Drops whatever is cached under `name`.
    pub fn evict(&mut self, name: &str)
        requires
            old(self).wf(),
        ensures
            final(self).wf(),
            final(self).view() == old(self).view().remove(name@),
    {
        let _ = self.entries.remove(name);
        assert(self.view() =~= old(self).view().remove(name@));
    }
}

/// A cached mailbox is only ever handed out for a send of the type it was
/// cached for: after remembering a mailbox for a type, a send of that type
/// gets it and a send of any other type gets nothing; after an eviction no
/// send gets anything under that name; other names are unaffected.
pub proof fn lemma_cache_type_safety<H>(
    view: Map<Seq<char>, (Seq<char>, H)>,
    name: Seq<char>,
    cached_type: Seq<char>,
    handle: H,
    asked_type: Seq<char>,
    other: Seq<char>,
)
    ensures
        cache_hit(view.insert(name, (cached_type, handle)), name, cached_type) == Some(handle),
        asked_type != cached_type ==> cache_hit(view.insert(name, (cached_type, handle)), name, asked_type) is None,
        cache_hit(view.remove(name), name, asked_type) is None,
        other != name ==> cache_hit(view.insert(name, (cached_type, handle)), other, asked_type) == cache_hit(view, other, asked_type),
        other != name ==> cache_hit(view.remove(name), other, asked_type) == cache_hit(view, other, asked_type),
{
}

} // verus!
