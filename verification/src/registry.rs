//! The actor registry: which actor lives at which address, of which type, in
//! which lifecycle phase, reachable through which handle.
//!
//! This is the state that the actor system's command loop owns; each command
//! of that loop (register, restart, unregister, filter, find, set lifecycle)
//! is one method here. `H` is whatever the embedding program uses to reach an
//! actor (its mailbox and control senders); the registry only carries it.
use vstd::prelude::*;
use crate::error::ActorError;
use crate::pattern::{AddressPattern, wildcard_compiles, wildcard_matches};
use crate::LifeCycle;
use crate::inter_node::address::{Address, accepts, address_text, registration_name};

verus! {

/// One registered actor.
#[derive(Clone)]
pub struct ActorRecord<H> {
    /// The actor's name (its address on this node).
    pub name: String,
    /// The actor's type name; lookups only hand a ready actor to callers of
    /// the same type.
    pub actor_type: String,
    /// The actor's lifecycle phase.
    pub life_cycle: LifeCycle,
    /// How the embedding program reaches the actor.
    pub handle: H,
}

/// What the registry knows of an actor, as a mathematical value.
pub struct RecordView<H> {
    pub actor_type: Seq<char>,
    pub life_cycle: LifeCycle,
    pub handle: H,
}

impl<H> ActorRecord<H> {
    pub open spec fn record_view(&self) -> RecordView<H> {
        RecordView {
            actor_type: self.actor_type@,
            life_cycle: self.life_cycle,
            handle: self.handle,
        }
    }
}

/// The answer of a lookup: nothing, or the actor's handle with whether it is
/// ready (in `Receiving`) to take messages.
pub open spec fn find_spec<H>(view: Map<Seq<char>, RecordView<H>>, name: Seq<char>, actor_type: Seq<char>) -> Option<(H, bool)> {
    if !view.contains_key(name) {
        None
    } else {
        let r = view[name];
        if r.life_cycle == LifeCycle::Receiving {
            if r.actor_type == actor_type {
                Some((r.handle, true))
            } else {
                None
            }
        } else {
            Some((r.handle, false))
        }
    }
}

/// The predicate "matches the wildcard pattern `p`" on names.
pub open spec fn matching(p: Seq<char>) -> spec_fn(Seq<char>) -> bool {
    |k: Seq<char>| wildcard_matches(p, k)
}

/// The predicate "does not match the wildcard pattern `p`" on names.
pub open spec fn not_matching(p: Seq<char>) -> spec_fn(Seq<char>) -> bool {
    |k: Seq<char>| !wildcard_matches(p, k)
}

/// The registry after every actor whose name matches `p` was marked
/// `Restarting`.
pub open spec fn mark_restarting<H>(view: Map<Seq<char>, RecordView<H>>, p: Seq<char>) -> Map<Seq<char>, RecordView<H>> {
    Map::new(
        |k: Seq<char>| view.contains_key(k),
        |k: Seq<char>|
            if wildcard_matches(p, k) {
                RecordView { life_cycle: LifeCycle::Restarting, ..view[k] }
            } else {
                view[k]
            },
    )
}

/// The registry without the actors whose names match `p`.
pub open spec fn without_matching<H>(view: Map<Seq<char>, RecordView<H>>, p: Seq<char>) -> Map<Seq<char>, RecordView<H>> {
    Map::new(|k: Seq<char>| view.contains_key(k) && !wildcard_matches(p, k), |k: Seq<char>| view[k])
}

/// Growing a prefix by one element adds exactly that element.
pub(crate) proof fn lemma_take_step<A>(s: Seq<A>, k: int)
    requires
        0 <= k < s.len(),
    ensures
        forall|x: A| #[trigger] s.take(k + 1).contains(x) == (s.take(k).contains(x) || x == s[k]),
{
    let t0 = s.take(k);
    let t1 = s.take(k + 1);
    assert forall|x: A| #[trigger] t1.contains(x) == (t0.contains(x) || x == s[k]) by {
        if t1.contains(x) {
            let j = choose|j: int| 0 <= j < t1.len() && t1[j] == x;
            if j < k {
                assert(t0[j] == x);
            }
        }
        if t0.contains(x) {
            let j = choose|j: int| 0 <= j < t0.len() && t0[j] == x;
            assert(t1[j] == x);
        }
        if x == s[k] {
            assert(t1[k] == x);
        }
    }
}

/// The actors of a node, in registration order, with distinct names.
#[derive(Clone)]
pub struct Registry<H> {
    entries: Vec<ActorRecord<H>>,
}

impl<H> Registry<H> {
    /// The registered actors in registration order.
    pub closed spec fn entries(&self) -> Seq<ActorRecord<H>> {
        self.entries@
    }

    /// The registered names in registration order.
    pub open spec fn names(&self) -> Seq<Seq<char>> {
        self.entries().map_values(|r: ActorRecord<H>| r.name@)
    }

    /// Well-formedness: no name is registered twice.
    pub open spec fn wf(&self) -> bool {
        self.names().no_duplicates()
    }

    /// The registry as a map from names to what is known of each actor.
    pub open spec fn view(&self) -> Map<Seq<char>, RecordView<H>> {
        Map::new(
            |k: Seq<char>| self.names().contains(k),
            |k: Seq<char>| self.entries()[self.names().index_of(k)].record_view(),
        )
    }

    proof fn lemma_view_at(&self, i: int)
        requires
            self.wf(),
            0 <= i < self.entries().len(),
        ensures
            self.view().contains_key(self.entries()[i].name@),
            self.view()[self.entries()[i].name@] == self.entries()[i].record_view(),
            self.names()[i] == self.entries()[i].name@,
    {
        let k = self.entries()[i].name@;
        assert(self.names()[i] == k);
        assert(self.names().contains(k));
        let j = self.names().index_of(k);
        assert(self.names()[j] == k);
    }

    proof fn lemma_absent(&self, k: Seq<char>)
        requires
            forall|i: int| 0 <= i < self.entries().len() ==> #[trigger] self.entries()[i].name@ != k,
        ensures
            !self.view().contains_key(k),
    {
        if self.names().contains(k) {
            let j = choose|j: int| 0 <= j < self.names().len() && self.names()[j] == k;
            assert(self.entries()[j].name@ == k);
        }
    }

    proof fn lemma_push(a: &Self, b: &Self, r: ActorRecord<H>)
        requires
            a.wf(),
            !a.view().contains_key(r.name@),
            b.entries() == a.entries().push(r),
        ensures
            b.wf(),
            b.names() == a.names().push(r.name@),
            b.view() == a.view().insert(r.name@, r.record_view()),
    {
        assert(b.names() =~= a.names().push(r.name@));
        assert forall|i: int| 0 <= i < a.entries().len() implies #[trigger] a.entries()[i].name@ != r.name@ by {
            a.lemma_view_at(i);
        }
        assert forall|x: int, y: int| 0 <= x < b.names().len() && 0 <= y < b.names().len() && x != y
            implies b.names()[x] != b.names()[y] by {
            if x < a.names().len() && y < a.names().len() {
            } else if x < a.names().len() {
                assert(a.entries()[x].name@ != r.name@);
            } else {
                assert(a.entries()[y].name@ != r.name@);
            }
        }
        assert forall|k: Seq<char>| #![trigger b.view().contains_key(k)]
            b.view().contains_key(k) == a.view().insert(r.name@, r.record_view()).contains_key(k) by {
            if b.names().contains(k) {
                let j = choose|j: int| 0 <= j < b.names().len() && b.names()[j] == k;
                if j < a.names().len() {
                    assert(a.names()[j] == k);
                }
            }
            if a.names().contains(k) {
                let j = choose|j: int| 0 <= j < a.names().len() && a.names()[j] == k;
                assert(b.names()[j] == k);
            }
            if k == r.name@ {
                assert(b.names()[a.names().len() as int] == k);
            }
        }
        assert forall|k: Seq<char>| #[trigger] b.view().contains_key(k) implies
            b.view()[k] == a.view().insert(r.name@, r.record_view())[k] by {
            let j = choose|j: int| 0 <= j < b.names().len() && b.names()[j] == k;
            b.lemma_view_at(j);
            if j < a.names().len() {
                a.lemma_view_at(j);
            }
        }
        assert(b.view() =~= a.view().insert(r.name@, r.record_view()));
    }

    proof fn lemma_update(a: &Self, b: &Self, i: int, r: ActorRecord<H>)
        requires
            a.wf(),
            0 <= i < a.entries().len(),
            r.name@ == a.entries()[i].name@,
            b.entries() == a.entries().update(i, r),
        ensures
            b.wf(),
            b.names() == a.names(),
            b.view() == a.view().insert(r.name@, r.record_view()),
    {
        assert(b.names() =~= a.names());
        a.lemma_view_at(i);
        assert forall|k: Seq<char>| #[trigger] b.view().contains_key(k) implies
            b.view()[k] == a.view().insert(r.name@, r.record_view())[k] by {
            let j = choose|j: int| 0 <= j < b.names().len() && b.names()[j] == k;
            b.lemma_view_at(j);
            a.lemma_view_at(j);
        }
        assert(b.view() =~= a.view().insert(r.name@, r.record_view()));
    }

    proof fn lemma_remove(a: &Self, b: &Self, i: int)
        requires
            a.wf(),
            0 <= i < a.entries().len(),
            b.entries() == a.entries().remove(i),
        ensures
            b.wf(),
            b.names() == a.names().remove(i),
            b.view() == a.view().remove(a.entries()[i].name@),
    {
        let n = a.entries()[i].name@;
        assert(b.names() =~= a.names().remove(i));
        a.lemma_view_at(i);
        assert forall|x: int, y: int| 0 <= x < b.names().len() && 0 <= y < b.names().len() && x != y
            implies b.names()[x] != b.names()[y] by {
            let x0 = if x < i { x } else { x + 1 };
            let y0 = if y < i { y } else { y + 1 };
            assert(b.names()[x] == a.names()[x0]);
            assert(b.names()[y] == a.names()[y0]);
        }
        assert forall|k: Seq<char>| #![trigger b.view().contains_key(k)]
            b.view().contains_key(k) == a.view().remove(n).contains_key(k) by {
            if b.names().contains(k) {
                let j = choose|j: int| 0 <= j < b.names().len() && b.names()[j] == k;
                let j0 = if j < i { j } else { j + 1 };
                assert(a.names()[j0] == k);
                assert(j0 != i);
            }
            if a.names().contains(k) && k != n {
                let j = choose|j: int| 0 <= j < a.names().len() && a.names()[j] == k;
                assert(j != i);
                let j1 = if j < i { j } else { j - 1 };
                assert(b.names()[j1] == k);
            }
        }
        assert forall|k: Seq<char>| #[trigger] b.view().contains_key(k) implies
            b.view()[k] == a.view().remove(n)[k] by {
            let j = choose|j: int| 0 <= j < b.names().len() && b.names()[j] == k;
            let j0 = if j < i { j } else { j + 1 };
            b.lemma_view_at(j);
            a.lemma_view_at(j0);
        }
        assert(b.view() =~= a.view().remove(n));
    }

    /// An empty registry.
    pub fn new() -> (r: Self)
        ensures
            r.wf(),
            r.view() == Map::<Seq<char>, RecordView<H>>::empty(),
            r.names() == Seq::<Seq<char>>::empty(),
    {
        let r = Registry { entries: Vec::new() };
        assert(r.view() =~= Map::<Seq<char>, RecordView<H>>::empty());
        assert(r.names() =~= Seq::<Seq<char>>::empty());
        r
    }

    /// The record of the actor registered under `name`, if any.
    pub fn record(&self, name: &str) -> (r: Option<&ActorRecord<H>>)
        requires
            self.wf(),
        ensures
            r is Some == self.view().contains_key(name@),
            r matches Some(rec) ==> rec.name@ == name@ && self.view()[name@] == rec.record_view(),
    {
        match self.position(name) {
            Some(i) => {
                proof {
                    self.lemma_view_at(i as int);
                }
                Some(&self.entries[i])
            },
            None => None,
        }
    }

    /// Registers an actor. A name that is already registered is refused with
    /// `AddressAlreadyExist` unless the registration is a restart, which
    /// replaces the record in place.
    pub fn register(
        &mut self,
        name: String,
        actor_type: String,
        handle: H,
        life_cycle: LifeCycle,
        is_restarted: bool,
    ) -> (r: Result<(), ActorError>)
        requires
            old(self).wf(),
        ensures
            final(self).wf(),
            (old(self).view().contains_key(name@) && !is_restarted) ==> (
                r == Err::<(), ActorError>(ActorError::AddressAlreadyExist(name))
                && final(self).view() == old(self).view()
                && final(self).names() == old(self).names()),
            !(old(self).view().contains_key(name@) && !is_restarted) ==> (
                r is Ok
                && final(self).view() == old(self).view().insert(
                    name@,
                    RecordView { actor_type: actor_type@, life_cycle, handle },
                )
                && final(self).names() == (if old(self).view().contains_key(name@) {
                    old(self).names()
                } else {
                    old(self).names().push(name@)
                })),
    {
        match self.position(name.as_str()) {
            Some(i) => {
                if !is_restarted {
                    return Err(ActorError::AddressAlreadyExist(name));
                }
                let rec = ActorRecord { name, actor_type, life_cycle, handle };
                let ghost before = *self;
                self.entries.set(i, rec);
                proof {
                    Self::lemma_update(&before, self, i as int, rec);
                }
                Ok(())
            },
            None => {
                let rec = ActorRecord { name, actor_type, life_cycle, handle };
                let ghost before = *self;
                self.entries.push(rec);
                proof {
                    Self::lemma_push(&before, self, rec);
                }
                Ok(())
            },
        }
    }

    /// Removes the actor registered under exactly `name`, returning its
    /// record; `None`, and no change, when no actor has that name.
    pub fn remove(&mut self, name: &str) -> (r: Option<ActorRecord<H>>)
        requires
            old(self).wf(),
        ensures
            final(self).wf(),
            r is Some == old(self).view().contains_key(name@),
            r matches Some(rec) ==> rec.name@ == name@ && old(self).view()[name@] == rec.record_view(),
            final(self).view() == old(self).view().remove(name@),
    {
        match self.position(name) {
            Some(i) => {
                let ghost before = *self;
                proof {
                    before.lemma_view_at(i as int);
                }
                let rec = self.entries.remove(i);
                proof {
                    Self::lemma_remove(&before, self, i as int);
                }
                Some(rec)
            },
            None => {
                assert(self.view() =~= self.view().remove(name@));
                None
            },
        }
    }

    /// Registers an actor at a fully qualified address on the node
    /// `node_name`: an address of another node is refused with
    /// `AddressNotOwned("node:name")` and nothing changes; otherwise the actor
    /// is registered under the address's name as `register` does.
    pub fn register_address(
        &mut self,
        address: Address,
        node_name: &str,
        actor_type: String,
        handle: H,
        life_cycle: LifeCycle,
        is_restarted: bool,
    ) -> (r: Result<(), ActorError>)
        requires
            old(self).wf(),
        ensures
            final(self).wf(),
            !accepts(node_name@, address.node@) ==> (r matches Err(ActorError::AddressNotOwned(text))
                && text@ == address_text(address.node@, address.name@)
                && final(self).view() == old(self).view() && final(self).names() == old(self).names()),
            accepts(node_name@, address.node@) && old(self).view().contains_key(address.name@) && !is_restarted ==> (
                r == Err::<(), ActorError>(ActorError::AddressAlreadyExist(address.name))
                && final(self).view() == old(self).view()
                && final(self).names() == old(self).names()),
            accepts(node_name@, address.node@) && !(old(self).view().contains_key(address.name@) && !is_restarted) ==> (
                r is Ok
                && final(self).view() == old(self).view().insert(
                    address.name@,
                    RecordView { actor_type: actor_type@, life_cycle, handle },
                )),
    {
        let name = match registration_name(address, node_name) {
            Ok(n) => n,
            Err(e) => return Err(e),
        };
        self.register(name, actor_type, handle, life_cycle, is_restarted)
    }

    /// Looks up the actor at `name` for a caller of type `actor_type`: absent
    /// names give `None`; an actor in `Receiving` is handed out (ready) only
    /// to a caller of its own type; an actor in any other phase is handed out
    /// as not ready, whatever its type.
    pub fn find(&self, name: &str, actor_type: &str) -> (r: Option<(&H, bool)>)
        requires
            self.wf(),
        ensures
            r is Some == find_spec(self.view(), name@, actor_type@) is Some,
            r matches Some((h, ready)) ==> find_spec(self.view(), name@, actor_type@) == Some((*h, ready)),
    {
        match self.position(name) {
            None => None,
            Some(i) => {
                proof {
                    self.lemma_view_at(i as int);
                }
                let rec = &self.entries[i];
                match rec.life_cycle {
                    LifeCycle::Receiving => {
                        if rec.actor_type.as_str().eq(actor_type) {
                            Some((&rec.handle, true))
                        } else {
                            None
                        }
                    },
                    _ => Some((&rec.handle, false)),
                }
            },
        }
    }

    /// Sets the lifecycle phase of the actor at `name`; unknown names are
    /// ignored.
    pub fn set_life_cycle(&mut self, name: &str, life_cycle: LifeCycle)
        requires
            old(self).wf(),
        ensures
            final(self).wf(),
            final(self).names() == old(self).names(),
            final(self).view() == (if old(self).view().contains_key(name@) {
                old(self).view().insert(name@, RecordView { life_cycle, ..old(self).view()[name@] })
            } else {
                old(self).view()
            }),
    {
        match self.position(name) {
            Some(i) => {
                let ghost before = *self;
                proof {
                    before.lemma_view_at(i as int);
                }
                self.entries[i].life_cycle = life_cycle;
                proof {
                    assert(self.entries() == before.entries().update(i as int, self.entries()[i as int]));
                    Self::lemma_update(&before, self, i as int, self.entries()[i as int]);
                }
            },
            None => {},
        }
    }

    /// The registered names that match the wildcard pattern, in registration
    /// order; an error when the pattern does not compile.
    pub fn filter(&self, pattern: &str) -> (r: Result<Vec<String>, regex::Error>)
        requires
            self.wf(),
        ensures
            r.is_ok() == wildcard_compiles(pattern@),
            r matches Ok(v) ==> v@.map_values(|s: String| s@) == self.names().filter(matching(pattern@)),
    {
        let compiled = match AddressPattern::compile(pattern) {
            Ok(c) => c,
            Err(e) => return Err(e),
        };
        let ghost pred = matching(pattern@);
        let mut out: Vec<String> = Vec::new();
        let mut i: usize = 0;
        assert(self.names().take(0).filter(pred) =~= Seq::<Seq<char>>::empty()) by {
            reveal(Seq::filter);
        }
        while i < self.entries.len()
            invariant
                self.wf(),
                i <= self.entries.len(),
                compiled.source() == crate::pattern::anchored_regex(pattern@),
                pred == matching(pattern@),
                out@.map_values(|s: String| s@) == self.names().take(i as int).filter(pred),
            decreases self.entries.len() - i,
        {
            let name = &self.entries[i].name;
            let hit = compiled.matches(name.as_str());
            proof {
                assert(self.names().take(i + 1).drop_last() =~= self.names().take(i as int));
                assert(self.names()[i as int] == name@);
                assert(self.names().take(i + 1).last() == name@);
                assert(hit == pred(name@));
                reveal(Seq::filter);
            }
            if hit {
                out.push(name.clone());
                assert(out@.map_values(|s: String| s@) =~= self.names().take(i as int).filter(pred).push(name@));
            } else {
                assert(self.names().take(i + 1).filter(pred) == self.names().take(i as int).filter(pred));
            }
            i = i + 1;
        }
        assert(self.names().take(self.entries.len() as int) =~= self.names());
        Ok(out)
    }

    proof fn lemma_same_names_view(a: &Self, b: &Self, p: Seq<char>)
        requires
            a.wf(),
            b.names() == a.names(),
            forall|j: int| 0 <= j < a.entries().len() ==> #[trigger] b.entries()[j].record_view() == (
                if wildcard_matches(p, a.entries()[j].name@) {
                    RecordView { life_cycle: LifeCycle::Restarting, ..a.entries()[j].record_view() }
                } else {
                    a.entries()[j].record_view()
                }),
        ensures
            b.wf(),
            b.view() == mark_restarting(a.view(), p),
    {
        assert(b.entries().len() == b.names().len());
        assert forall|k: Seq<char>| #[trigger] b.view().contains_key(k) implies
            b.view()[k] == mark_restarting(a.view(), p)[k] by {
            let j = choose|j: int| 0 <= j < b.names().len() && b.names()[j] == k;
            b.lemma_view_at(j);
            a.lemma_view_at(j);
        }
        assert(b.view() =~= mark_restarting(a.view(), p));
    }

    /// Marks every actor whose name matches the wildcard pattern as
    /// `Restarting` and returns their names in registration order (the
    /// embedding program then signals each of them to restart). An error, and
    /// no change, when the pattern does not compile.
    pub fn restart_matching(&mut self, pattern: &str) -> (r: Result<Vec<String>, regex::Error>)
        requires
            old(self).wf(),
        ensures
            final(self).wf(),
            r.is_ok() == wildcard_compiles(pattern@),
            r is Err ==> final(self).view() == old(self).view() && final(self).names() == old(self).names(),
            r matches Ok(v) ==> v@.map_values(|s: String| s@) == old(self).names().filter(matching(pattern@)),
            r is Ok ==> final(self).view() == mark_restarting(old(self).view(), pattern@)
                && final(self).names() == old(self).names(),
    {
        let compiled = match AddressPattern::compile(pattern) {
            Ok(c) => c,
            Err(e) => return Err(e),
        };
        let ghost before = *self;
        let ghost pred = matching(pattern@);
        let mut out: Vec<String> = Vec::new();
        let mut i: usize = 0;
        assert(before.names().take(0).filter(pred) =~= Seq::<Seq<char>>::empty()) by {
            reveal(Seq::filter);
        }
        while i < self.entries.len()
            invariant
                before.wf(),
                self.names() == before.names(),
                self.entries().len() == before.entries().len(),
                i <= self.entries.len(),
                compiled.source() == crate::pattern::anchored_regex(pattern@),
                pred == matching(pattern@),
                forall|j: int| 0 <= j < before.entries().len() ==> #[trigger] self.entries()[j].record_view() == (
                    if j < i && wildcard_matches(pattern@, before.entries()[j].name@) {
                        RecordView { life_cycle: LifeCycle::Restarting, ..before.entries()[j].record_view() }
                    } else {
                        before.entries()[j].record_view()
                    }),
                out@.map_values(|s: String| s@) == before.names().take(i as int).filter(pred),
            decreases self.entries.len() - i,
        {
            let hit = compiled.matches(self.entries[i].name.as_str());
            let ghost name = self.entries()[i as int].name@;
            proof {
                assert(self.names()[i as int] == name);
                assert(before.names()[i as int] == name);
                assert(before.entries()[i as int].name@ == name);
                assert(before.names().take(i + 1).drop_last() =~= before.names().take(i as int));
                assert(before.names().take(i + 1).last() == name);
                assert(hit == pred(name));
                reveal(Seq::filter);
            }
            if hit {
                let ghost prev = *self;
                self.entries[i].life_cycle = LifeCycle::Restarting;
                out.push(self.entries[i].name.clone());
                proof {
                    assert(self.entries() == prev.entries().update(i as int, self.entries()[i as int]));
                    assert(self.names() =~= prev.names());
                }
                assert(out@.map_values(|s: String| s@) =~= before.names().take(i as int).filter(pred).push(name));
            } else {
                assert(before.names().take(i + 1).filter(pred) == before.names().take(i as int).filter(pred));
            }
            i = i + 1;
        }
        assert(before.names().take(self.entries.len() as int) =~= before.names());
        proof {
            Self::lemma_same_names_view(&before, self, pattern@);
        }
        Ok(out)
    }

    /// Removes every actor whose name matches the wildcard pattern and
    /// returns the removed records in registration order (the embedding
    /// program then signals each of them to stop). An error, and no change,
    /// when the pattern does not compile.
    pub fn unregister_matching(&mut self, pattern: &str) -> (r: Result<Vec<ActorRecord<H>>, regex::Error>)
        requires
            old(self).wf(),
        ensures
            final(self).wf(),
            r.is_ok() == wildcard_compiles(pattern@),
            r is Err ==> final(self).view() == old(self).view() && final(self).names() == old(self).names(),
            r is Ok ==> final(self).view() == without_matching(old(self).view(), pattern@)
                && final(self).names() == old(self).names().filter(not_matching(pattern@)),
            r matches Ok(v) ==> v@.map_values(|x: ActorRecord<H>| x.name@) == old(self).names().filter(matching(pattern@)),
            r matches Ok(v) ==> forall|j: int| 0 <= j < v@.len() ==> #[trigger] old(self).view()[v@[j].name@] == v@[j].record_view(),
    {
        let compiled = match AddressPattern::compile(pattern) {
            Ok(c) => c,
            Err(e) => return Err(e),
        };
        let ghost before = *self;
        let ghost n0 = before.names();
        let ghost keep = not_matching(pattern@);
        let ghost pick = matching(pattern@);
        let mut removed: Vec<ActorRecord<H>> = Vec::new();
        let mut i: usize = 0;
        let ghost mut k: int = 0;
        proof {
            reveal(Seq::filter);
            assert(n0.take(0).filter(keep) =~= Seq::<Seq<char>>::empty());
            assert(n0.take(0).filter(pick) =~= Seq::<Seq<char>>::empty());
            assert(self.names() =~= n0.take(0).filter(keep) + n0.skip(0));
            assert(self.view() =~= Map::new(
                |x: Seq<char>| before.view().contains_key(x) && !(n0.take(0).contains(x) && wildcard_matches(pattern@, x)),
                |x: Seq<char>| before.view()[x],
            ));
        }
        while i < self.entries.len()
            invariant
                before.wf(),
                self.wf(),
                n0 == before.names(),
                keep == not_matching(pattern@),
                pick == matching(pattern@),
                compiled.source() == crate::pattern::anchored_regex(pattern@),
                0 <= k <= n0.len(),
                i <= self.entries.len(),
                i == n0.take(k).filter(keep).len(),
                self.names() == n0.take(k).filter(keep) + n0.skip(k),
                self.view() == Map::new(
                    |x: Seq<char>| before.view().contains_key(x) && !(n0.take(k).contains(x) && wildcard_matches(pattern@, x)),
                    |x: Seq<char>| before.view()[x],
                ),
                removed@.map_values(|x: ActorRecord<H>| x.name@) == n0.take(k).filter(pick),
                forall|j: int| 0 <= j < removed@.len() ==> #[trigger] before.view()[removed@[j].name@] == removed@[j].record_view(),
            decreases self.entries.len() - i,
        {
            let ghost name = n0[k];
            proof {
                assert(self.names()[i as int] == (n0.take(k).filter(keep) + n0.skip(k))[i as int]);
                assert(self.names()[i as int] == name);
                self.lemma_view_at(i as int);
                assert(n0.take(k + 1).drop_last() =~= n0.take(k));
                assert(n0.take(k + 1).last() == name);
                assert(n0.contains(name));
                assert(!n0.take(k).contains(name)) by {
                    if n0.take(k).contains(name) {
                        let j = choose|j: int| 0 <= j < n0.take(k).len() && n0.take(k)[j] == name;
                        assert(n0[j] == n0[k]);
                    }
                }
                reveal(Seq::filter);
            }
            let hit = compiled.matches(self.entries[i].name.as_str());
            if hit {
                let ghost prev = *self;
                let rec = self.entries.remove(i);
                proof {
                    Self::lemma_remove(&prev, self, i as int);
                    assert(n0.take(k + 1).filter(keep) == n0.take(k).filter(keep));
                    assert(n0.take(k + 1).filter(pick) == n0.take(k).filter(pick).push(name));
                    assert(self.names() =~= n0.take(k + 1).filter(keep) + n0.skip(k + 1));
                    lemma_take_step(n0, k);
                    assert(self.view() =~= Map::new(
                        |x: Seq<char>| before.view().contains_key(x) && !(n0.take(k + 1).contains(x) && wildcard_matches(pattern@, x)),
                        |x: Seq<char>| before.view()[x],
                    ));
                }
                removed.push(rec);
                proof {
                    assert(removed@.map_values(|x: ActorRecord<H>| x.name@) =~= n0.take(k + 1).filter(pick));
                    k = k + 1;
                }
            } else {
                proof {
                    assert(n0.take(k + 1).filter(keep) == n0.take(k).filter(keep).push(name));
                    assert(n0.take(k + 1).filter(pick) == n0.take(k).filter(pick));
                    assert(self.names() =~= n0.take(k + 1).filter(keep) + n0.skip(k + 1));
                    lemma_take_step(n0, k);
                    assert(self.view() =~= Map::new(
                        |x: Seq<char>| before.view().contains_key(x) && !(n0.take(k + 1).contains(x) && wildcard_matches(pattern@, x)),
                        |x: Seq<char>| before.view()[x],
                    ));
                    k = k + 1;
                }
                i = i + 1;
            }
        }
        proof {
            assert(k == n0.len());
            assert(n0.take(k) =~= n0);
            assert(n0.skip(k) =~= Seq::<Seq<char>>::empty());
            assert(self.names() =~= n0.filter(keep));
            assert(self.view() =~= without_matching(before.view(), pattern@));
        }
        Ok(removed)
    }

    /// Position of `name`, if registered.
    fn position(&self, name: &str) -> (r: Option<usize>)
        requires
            self.wf(),
        ensures
            r matches Some(i) ==> i < self.entries().len() && self.entries()[i as int].name@ == name@,
            r is None ==> forall|i: int| 0 <= i < self.entries().len() ==> #[trigger] self.entries()[i].name@ != name@,
            r is None <==> !self.view().contains_key(name@),
    {
        let mut i: usize = 0;
        while i < self.entries.len()
            invariant
                self.wf(),
                i <= self.entries.len(),
                forall|j: int| 0 <= j < i ==> #[trigger] self.entries()[j].name@ != name@,
            decreases self.entries.len() - i,
        {
            if self.entries[i].name.as_str().eq(name) {
                proof {
                    self.lemma_view_at(i as int);
                }
                return Some(i);
            }
            i = i + 1;
        }
        proof {
            self.lemma_absent(name@);
        }
        None
    }
}

} // verus!

verus! {

/// A job's control handle under its id.
pub struct JobEntry<C> {
    pub id: String,
    pub controller: C,
}

/// The control handles of running jobs, by job id (distinct ids).
pub struct JobTable<C> {
    entries: Vec<JobEntry<C>>,
}

impl<C> JobTable<C> {
    /// The entries in insertion order.
    pub closed spec fn entries(&self) -> Seq<JobEntry<C>> {
        self.entries@
    }

    /// The ids in insertion order.
    pub open spec fn ids(&self) -> Seq<Seq<char>> {
        self.entries().map_values(|e: JobEntry<C>| e.id@)
    }

    /// Well-formedness: no id occurs twice.
    pub open spec fn wf(&self) -> bool {
        self.ids().no_duplicates()
    }

    /// The table as a map from job ids to control handles.
    pub open spec fn view(&self) -> Map<Seq<char>, C> {
        Map::new(
            |k: Seq<char>| self.ids().contains(k),
            |k: Seq<char>| self.entries()[self.ids().index_of(k)].controller,
        )
    }

    proof fn lemma_view_at(&self, i: int)
        requires
            self.wf(),
            0 <= i < self.entries().len(),
        ensures
            self.view().contains_key(self.entries()[i].id@),
            self.view()[self.entries()[i].id@] == self.entries()[i].controller,
    {
        let k = self.entries()[i].id@;
        assert(self.ids()[i] == k);
        assert(self.ids().contains(k));
    }

    /// An empty table.
    pub fn new() -> (t: Self)
        ensures
            t.wf(),
            t.view() == Map::<Seq<char>, C>::empty(),
    {
        let t = JobTable { entries: Vec::new() };
        assert(t.view() =~= Map::<Seq<char>, C>::empty());
        t
    }

    fn position(&self, id: &str) -> (r: Option<usize>)
        requires
            self.wf(),
        ensures
            r matches Some(i) ==> i < self.entries().len() && self.entries()[i as int].id@ == id@,
            r is None ==> !self.view().contains_key(id@),
            r is None ==> forall|j: int| 0 <= j < self.entries().len() ==> #[trigger] self.entries()[j].id@ != id@,
    {
        let mut i: usize = 0;
        while i < self.entries.len()
            invariant
                self.wf(),
                i <= self.entries.len(),
                forall|j: int| 0 <= j < i ==> #[trigger] self.entries()[j].id@ != id@,
            decreases self.entries.len() - i,
        {
            if self.entries[i].id.as_str().eq(id) {
                return Some(i);
            }
            i = i + 1;
        }
        proof {
            if self.ids().contains(id@) {
                let j = choose|j: int| 0 <= j < self.ids().len() && self.ids()[j] == id@;
                assert(self.entries()[j].id@ == id@);
            }
        }
        None
    }

    /// Records the control handle of job `id`, replacing an earlier one
    /// under the same id.
    pub fn insert(&mut self, id: String, controller: C)
        requires
            old(self).wf(),
        ensures
            final(self).wf(),
            final(self).view() == old(self).view().insert(id@, controller),
    {
        let ghost before = *self;
        match self.position(id.as_str()) {
            Some(i) => {
                let e = JobEntry { id, controller };
                self.entries.set(i, e);
                proof {
                    assert(self.ids() =~= before.ids());
                    assert forall|k: Seq<char>| #[trigger] self.view().contains_key(k) implies
                        self.view()[k] == before.view().insert(e.id@, e.controller)[k] by {
                        let j = choose|j: int| 0 <= j < self.ids().len() && self.ids()[j] == k;
                        self.lemma_view_at(j);
                        before.lemma_view_at(j);
                        before.lemma_view_at(i as int);
                        if j != i {
                            assert(self.entries()[j] == before.entries()[j]);
                            assert(before.ids()[j] != before.ids()[i as int]);
                        } else {
                            assert(self.entries()[j] == e);
                        }
                    }
                    before.lemma_view_at(i as int);
                    assert(self.view() =~= before.view().insert(e.id@, e.controller));
                }
            },
            None => {
                let e = JobEntry { id, controller };
                self.entries.push(e);
                proof {
                    assert(self.ids() =~= before.ids().push(e.id@));
                    assert forall|x: int, y: int| 0 <= x < self.ids().len() && 0 <= y < self.ids().len() && x != y
                        implies self.ids()[x] != self.ids()[y] by {
                        if x < before.ids().len() && y < before.ids().len() {
                        } else if x < before.ids().len() {
                            assert(before.entries()[x].id@ != e.id@);
                        } else {
                            assert(before.entries()[y].id@ != e.id@);
                        }
                    }
                    assert forall|k: Seq<char>| #![trigger self.view().contains_key(k)]
                        self.view().contains_key(k) == before.view().insert(e.id@, e.controller).contains_key(k) by {
                        if self.ids().contains(k) {
                            let j = choose|j: int| 0 <= j < self.ids().len() && self.ids()[j] == k;
                            if j < before.ids().len() {
                                assert(before.ids()[j] == k);
                            }
                        }
                        if before.ids().contains(k) {
                            let j = choose|j: int| 0 <= j < before.ids().len() && before.ids()[j] == k;
                            assert(self.ids()[j] == k);
                        }
                        if k == e.id@ {
                            assert(self.ids()[before.ids().len() as int] == k);
                        }
                    }
                    assert forall|k: Seq<char>| #[trigger] self.view().contains_key(k) implies
                        self.view()[k] == before.view().insert(e.id@, e.controller)[k] by {
                        let j = choose|j: int| 0 <= j < self.ids().len() && self.ids()[j] == k;
                        self.lemma_view_at(j);
                        if j < before.ids().len() {
                            before.lemma_view_at(j);
                        }
                    }
                    assert(self.view() =~= before.view().insert(e.id@, e.controller));
                }
            },
        }
    }

    proof fn lemma_remove(a: &Self, b: &Self, i: int)
        requires
            a.wf(),
            0 <= i < a.entries().len(),
            b.entries() == a.entries().remove(i),
        ensures
            b.wf(),
            b.view() == a.view().remove(a.entries()[i].id@),
    {
        let n = a.entries()[i].id@;
        assert(b.ids() =~= a.ids().remove(i));
        a.lemma_view_at(i);
        assert forall|x: int, y: int| 0 <= x < b.ids().len() && 0 <= y < b.ids().len() && x != y
            implies b.ids()[x] != b.ids()[y] by {
            let x0 = if x < i { x } else { x + 1 };
            let y0 = if y < i { y } else { y + 1 };
            assert(b.ids()[x] == a.ids()[x0]);
            assert(b.ids()[y] == a.ids()[y0]);
        }
        assert forall|k: Seq<char>| #![trigger b.view().contains_key(k)]
            b.view().contains_key(k) == a.view().remove(n).contains_key(k) by {
            if b.ids().contains(k) {
                let j = choose|j: int| 0 <= j < b.ids().len() && b.ids()[j] == k;
                let j0 = if j < i { j } else { j + 1 };
                assert(a.ids()[j0] == k);
                assert(j0 != i);
                assert(a.ids().contains(k));
                assert(a.ids()[i] == n);
                assert(k != n);
            }
            if a.ids().contains(k) && k != n {
                let j = choose|j: int| 0 <= j < a.ids().len() && a.ids()[j] == k;
                assert(j != i);
                let j1 = if j < i { j } else { j - 1 };
                assert(b.ids()[j1] == k);
            }
        }
        assert forall|k: Seq<char>| #[trigger] b.view().contains_key(k) implies
            b.view()[k] == a.view().remove(n)[k] by {
            let j = choose|j: int| 0 <= j < b.ids().len() && b.ids()[j] == k;
            let j0 = if j < i { j } else { j + 1 };
            b.lemma_view_at(j);
            a.lemma_view_at(j0);
        }
        assert(b.view() =~= a.view().remove(n));
    }

    /// Takes the control handle of job `id` out of the table: it is returned
    /// if the id was recorded, and the id is no longer found afterwards; the
    /// other jobs stay as they were.
    pub fn remove(&mut self, id: &str) -> (r: Option<C>)
        requires
            old(self).wf(),
        ensures
            final(self).wf(),
            r is Some == old(self).view().contains_key(id@),
            r matches Some(c) ==> c == old(self).view()[id@],
            final(self).view() == old(self).view().remove(id@),
    {
        match self.position(id) {
            Some(i) => {
                let ghost before = *self;
                proof {
                    before.lemma_view_at(i as int);
                }
                let e = self.entries.remove(i);
                proof {
                    Self::lemma_remove(&before, self, i as int);
                }
                Some(e.controller)
            },
            None => {
                assert(self.view() =~= self.view().remove(id@));
                None
            },
        }
    }

    /// The control handle of job `id`, if any.
    pub fn get(&self, id: &str) -> (r: Option<&C>)
        requires
            self.wf(),
        ensures
            r is Some == self.view().contains_key(id@),
            r matches Some(c) ==> *c == self.view()[id@],
    {
        match self.position(id) {
            Some(i) => {
                proof {
                    self.lemma_view_at(i as int);
                }
                Some(&self.entries[i].controller)
            },
            None => None,
        }
    }
}

} // verus!

verus! {

/// Read after register: an actor registered as `Receiving` is found ready by
/// callers of its type and not found by callers of another type; one
/// registered in any other phase is found not ready.
pub proof fn lemma_find_after_register<H>(
    view: Map<Seq<char>, RecordView<H>>,
    name: Seq<char>,
    actor_type: Seq<char>,
    handle: H,
    life_cycle: LifeCycle,
    asked_type: Seq<char>,
)
    ensures
        ({
            let after = view.insert(name, RecordView { actor_type, life_cycle, handle });
            &&& life_cycle == LifeCycle::Receiving && asked_type == actor_type ==> find_spec(after, name, asked_type) == Some((handle, true))
            &&& life_cycle == LifeCycle::Receiving && asked_type != actor_type ==> find_spec(after, name, asked_type) is None
            &&& life_cycle != LifeCycle::Receiving ==> find_spec(after, name, asked_type) == Some((handle, false))
        }),
{
}

/// A name that is not registered is never found, whoever asks.
pub proof fn lemma_find_absent<H>(view: Map<Seq<char>, RecordView<H>>, name: Seq<char>, asked_type: Seq<char>)
    requires
        !view.contains_key(name),
    ensures
        find_spec(view, name, asked_type) is None,
{
}

/// A restart by pattern keeps every registered actor, marks exactly the
/// matching ones `Restarting` (keeping their type and handle) and leaves the
/// others as they were; an unregister by pattern removes exactly the
/// matching actors and leaves the others as they were.
pub proof fn lemma_restart_and_unregister_effects<H>(
    view: Map<Seq<char>, RecordView<H>>,
    pattern: Seq<char>,
    k: Seq<char>,
)
    ensures
        mark_restarting(view, pattern).contains_key(k) == view.contains_key(k),
        view.contains_key(k) && wildcard_matches(pattern, k) ==> (
            mark_restarting(view, pattern)[k].life_cycle == LifeCycle::Restarting
            && mark_restarting(view, pattern)[k].actor_type == view[k].actor_type
            && mark_restarting(view, pattern)[k].handle == view[k].handle),
        view.contains_key(k) && !wildcard_matches(pattern, k) ==> mark_restarting(view, pattern)[k] == view[k],
        without_matching(view, pattern).contains_key(k) == (view.contains_key(k) && !wildcard_matches(pattern, k)),
        without_matching(view, pattern).contains_key(k) ==> without_matching(view, pattern)[k] == view[k],
{
}

/// After an unregister, no actor whose name matched the pattern can be found,
/// and every other actor is found exactly as before.
pub proof fn lemma_find_after_unregister<H>(
    view: Map<Seq<char>, RecordView<H>>,
    pattern: Seq<char>,
    name: Seq<char>,
    asked_type: Seq<char>,
)
    ensures
        wildcard_matches(pattern, name) ==> find_spec(without_matching(view, pattern), name, asked_type) is None,
        !wildcard_matches(pattern, name) ==> find_spec(without_matching(view, pattern), name, asked_type)
            == find_spec(view, name, asked_type),
{
}

/// After a restart command, every matched actor is found not ready (until it
/// reports `Receiving` again), still through the same handle; unmatched actors
/// are found as before.
pub proof fn lemma_find_after_restart<H>(
    view: Map<Seq<char>, RecordView<H>>,
    pattern: Seq<char>,
    name: Seq<char>,
    asked_type: Seq<char>,
)
    ensures
        view.contains_key(name) && wildcard_matches(pattern, name) ==> find_spec(mark_restarting(view, pattern), name, asked_type)
            == Some((view[name].handle, false)),
        !wildcard_matches(pattern, name) ==> find_spec(mark_restarting(view, pattern), name, asked_type)
            == find_spec(view, name, asked_type),
{
}

/// A registered actor that reports `Receiving` becomes ready for callers of
/// its type, through the handle it registered.
pub proof fn lemma_ready_after_receiving<H>(
    view: Map<Seq<char>, RecordView<H>>,
    name: Seq<char>,
)
    requires
        view.contains_key(name),
    ensures
        find_spec(
            view.insert(name, RecordView { life_cycle: LifeCycle::Receiving, ..view[name] }),
            name,
            view[name].actor_type,
        ) == Some((view[name].handle, true)),
{
}

/// The answer of a filter lists every registered name that matches the
/// pattern, each once, and nothing else.
pub proof fn lemma_filter_exact(names: Seq<Seq<char>>, pattern: Seq<char>, k: Seq<char>)
    requires
        names.no_duplicates(),
    ensures
        names.filter(matching(pattern)).contains(k) <==> (names.contains(k) && wildcard_matches(pattern, k)),
        names.filter(matching(pattern)).no_duplicates(),
    decreases names.len(),
{
    reveal(Seq::filter);
    if names.len() > 0 {
        let rest = names.drop_last();
        assert(rest.no_duplicates());
        lemma_filter_exact(rest, pattern, k);
        lemma_filter_exact(rest, pattern, names.last());
        assert(!rest.contains(names.last())) by {
            if rest.contains(names.last()) {
                let j = choose|j: int| 0 <= j < rest.len() && rest[j] == names.last();
                assert(names[j] == names[names.len() - 1]);
            }
        }
        if names.contains(k) && k != names.last() {
            let j = choose|j: int| 0 <= j < names.len() && names[j] == k;
            assert(rest[j] == k);
        }
        if rest.contains(k) {
            let j = choose|j: int| 0 <= j < rest.len() && rest[j] == k;
            assert(names[j] == k);
        }
        if names.last() == k {
            assert(names[names.len() - 1] == k);
        }
    }
}

/// A job's control handle is found under its id once recorded, and a later
/// record under the same id replaces it.
pub proof fn lemma_job_read_after_insert<C>(view: Map<Seq<char>, C>, id: Seq<char>, c: C, later: C, other: Seq<char>)
    ensures
        view.insert(id, c).contains_key(id) && view.insert(id, c)[id] == c,
        view.insert(id, c).insert(id, later)[id] == later,
        other != id ==> view.insert(id, c).contains_key(other) == view.contains_key(other),
        other != id && view.contains_key(other) ==> view.insert(id, c)[other] == view[other],
{
}

/// Once a job is removed (as an abort does), its id is no longer found, so
/// later stop and resume requests for it find nothing; the other jobs are
/// found as before.
pub proof fn lemma_job_gone_after_remove<C>(view: Map<Seq<char>, C>, id: Seq<char>, other: Seq<char>)
    ensures
        !view.remove(id).contains_key(id),
        other != id ==> view.remove(id).contains_key(other) == view.contains_key(other),
        other != id && view.contains_key(other) ==> view.remove(id)[other] == view[other],
{
}

} // verus!
