//! The course of one local send: through the cached mailbox if there is one,
//! else (or when that delivery fails) through a mailbox freshly found in the
//! registry, looked up again while the actor is not ready yet.
//!
//! The embedding program performs the actions (deliver, look up, pause) and
//! reports what came of them; the machine decides what comes next and keeps
//! the cache up to date.
use vstd::prelude::*;
use crate::cache::{cache_hit, CacheLookup, CachedSend, TxCache};
use crate::delivery::{after_lookup, attempt_kind, AttemptKind, Lookup, NextAttempt, READY_RETRY_LIMIT};
use crate::error::ActorError;

verus! {

/// Where a send stands.
#[derive(Debug, Clone, Copy, PartialEq, Eq, Structural)]
pub enum SendStage {
    /// A delivery through the cached mailbox is under way.
    TryingCached,
    /// The actor is being looked up in the registry.
    Resolving,
    /// A delivery through the freshly found mailbox is under way.
    Delivering,
    /// The send is over.
    Over,
}

/// What the send does next.
#[derive(Debug)]
pub enum SendAction<H> {
    /// Deliver the message through this mailbox, then report whether the
    /// delivery went through.
    Deliver(H),
    /// Look the actor up and report the registry's answer.
    Find,
    /// Pause, then look the actor up again and report the answer.
    PauseThenFind,
    /// The send is over; its outcome is that of the last delivery.
    Finish,
    /// The send fails with `error`, after a pause when `pause` is set.
    Fail { error: ActorError, pause: bool },
}

/// The stage after a delivery: a failed delivery through the cached mailbox
/// leads to a fresh lookup; any other delivery ends the send.
pub open spec fn stage_after_delivery(stage: SendStage, delivered: bool) -> SendStage {
    if stage == SendStage::TryingCached && !delivered {
        SendStage::Resolving
    } else {
        SendStage::Over
    }
}

/// The stage after a lookup, when `not_ready_before` earlier lookups found
/// the actor not ready: a ready actor is delivered to, a not-ready one is
/// looked up again while the budget lasts, and the send is over otherwise.
pub open spec fn stage_after_lookup(found: Lookup, not_ready_before: nat) -> SendStage {
    match attempt_kind(found, not_ready_before) {
        AttemptKind::Deliver => SendStage::Delivering,
        AttemptKind::Retry => SendStage::Resolving,
        _ => SendStage::Over,
    }
}

/// What the registry's answer says of the actor.
pub open spec fn lookup_kind<H>(found: Option<(H, bool)>) -> Lookup {
    match found {
        None => Lookup::Missing,
        Some((_, false)) => Lookup::NotReady,
        Some((_, true)) => Lookup::Ready,
    }
}

/// The state of one send.
pub struct SendMachine {
    stage: SendStage,
    not_ready: u32,
    use_cache: bool,
}

impl SendMachine {
    #[verifier::type_invariant]
    spec fn budget_left(&self) -> bool {
        &&& self.stage == SendStage::Resolving ==> self.not_ready < READY_RETRY_LIMIT
        &&& self.stage == SendStage::TryingCached ==> self.not_ready == 0
    }

    /// The current stage.
    pub closed spec fn spec_stage(&self) -> SendStage {
        self.stage
    }

    /// How many lookups found the actor not ready so far.
    pub closed spec fn spec_not_ready(&self) -> nat {
        self.not_ready as nat
    }

    /// Whether the send uses the cache.
    pub closed spec fn spec_use_cache(&self) -> bool {
        self.use_cache
    }

    /// The current stage.
    pub fn stage(&self) -> (r: SendStage)
        ensures
            r == self.spec_stage(),
    {
        self.stage
    }

    /// Starts a send of type `actor_type` to `name`. With the cache, a mailbox
    /// cached for that very type is delivered to first (a clone of it); an
    /// entry cached for another type is dropped. Otherwise the actor is
    /// looked up.
    pub fn start<H: Clone>(cache: &mut TxCache<H>, use_cache: bool, name: &str, actor_type: &str) -> (r: (
        Self,
        SendAction<H>,
    ))
        requires
            old(cache).wf(),
        ensures
            final(cache).wf(),
            r.0.spec_use_cache() == use_cache,
            r.0.spec_not_ready() == 0,
            use_cache && cache_hit(old(cache).view(), name@, actor_type@) is Some ==> (
                r.0.spec_stage() == SendStage::TryingCached
                && (r.1 matches SendAction::Deliver(h) && cloned(
                    cache_hit(old(cache).view(), name@, actor_type@)->Some_0,
                    h,
                ))
                && final(cache).view() == old(cache).view()),
            use_cache && cache_hit(old(cache).view(), name@, actor_type@) is None ==> (
                r.0.spec_stage() == SendStage::Resolving
                && r.1 is Find
                && final(cache).view() == old(cache).view().remove(name@)),
            !use_cache ==> (r.0.spec_stage() == SendStage::Resolving
                && r.1 is Find
                && final(cache).view() == old(cache).view()),
    {
        if use_cache {
            let hit = match cache.lookup(name, actor_type) {
                CacheLookup::Hit(h) => Some(h.clone()),
                CacheLookup::Stale => None,
                CacheLookup::Miss => None,
            };
            match hit {
                Some(h) => (SendMachine { stage: SendStage::TryingCached, not_ready: 0, use_cache }, SendAction::Deliver(h)),
                None => {
                    cache.evict(name);
                    (SendMachine { stage: SendStage::Resolving, not_ready: 0, use_cache }, SendAction::Find)
                },
            }
        } else {
            (SendMachine { stage: SendStage::Resolving, not_ready: 0, use_cache }, SendAction::Find)
        }
    }

    /// Whether the send waits for the outcome of a delivery.
    pub fn awaits_delivery(&self) -> (r: bool)
        ensures
            r == (self.spec_stage() == SendStage::TryingCached || self.spec_stage() == SendStage::Delivering),
    {
        self.stage == SendStage::TryingCached || self.stage == SendStage::Delivering
    }

    /// Takes the outcome of a delivery: one through the cached mailbox that
    /// went through ends the send and keeps the entry; one that failed drops
    /// the entry and leads to a lookup; a delivery through a freshly found
    /// mailbox ends the send whatever its outcome.
    pub fn on_delivered<H>(&mut self, cache: &mut TxCache<H>, name: &str, delivered: bool) -> (r: SendAction<H>)
        requires
            old(self).spec_stage() == SendStage::TryingCached || old(self).spec_stage() == SendStage::Delivering,
            old(cache).wf(),
        ensures
            final(cache).wf(),
            final(self).spec_stage() == stage_after_delivery(old(self).spec_stage(), delivered),
            final(self).spec_not_ready() == old(self).spec_not_ready(),
            final(self).spec_use_cache() == old(self).spec_use_cache(),
            final(self).spec_stage() == SendStage::Over ==> r is Finish && final(cache).view() == old(cache).view(),
            final(self).spec_stage() == SendStage::Resolving ==> r is Find && final(cache).view() == old(cache).view().remove(name@),
    {
        proof {
            use_type_invariant(&*self);
        }
        if self.stage == SendStage::TryingCached {
            match cache.after_cached_send(name, delivered) {
                CachedSend::Delivered => {
                    self.stage = SendStage::Over;
                    SendAction::Finish
                },
                CachedSend::Resolve => {
                    self.stage = SendStage::Resolving;
                    SendAction::Find
                },
            }
        } else {
            self.stage = SendStage::Over;
            SendAction::Finish
        }
    }

    /// Whether the send waits for the registry's answer.
    pub fn awaits_lookup(&self) -> (r: bool)
        ensures
            r == (self.spec_stage() == SendStage::Resolving),
    {
        self.stage == SendStage::Resolving
    }

    /// Takes the registry's answer for a sender of type `actor_type`: a ready
    /// actor's mailbox is delivered to (and, with the cache, a clone of it is
    /// remembered under `name`); a not-ready actor is looked up again after a
    /// pause while the budget lasts, and fails with `ActorNotReady(name)`
    /// after one once it is spent; a missing one fails with
    /// `AddressNotFound(name)` at once.
    pub fn on_found<H: Clone>(
        &mut self,
        cache: &mut TxCache<H>,
        name: &str,
        actor_type: &str,
        found: Option<(H, bool)>,
    ) -> (r: SendAction<H>)
        requires
            old(self).spec_stage() == SendStage::Resolving,
            old(cache).wf(),
        ensures
            final(cache).wf(),
            final(self).spec_use_cache() == old(self).spec_use_cache(),
            final(self).spec_stage() == stage_after_lookup(lookup_kind(found), old(self).spec_not_ready()),
            final(self).spec_not_ready() == (if lookup_kind(found) == Lookup::NotReady {
                old(self).spec_not_ready() + 1
            } else {
                old(self).spec_not_ready()
            }),
            found matches Some((h, true)) ==> (r == SendAction::Deliver(h)),
            found matches Some((h, true)) ==> (old(self).spec_use_cache() ==> (
                final(cache).view().contains_key(name@)
                && final(cache).view()[name@].0 == actor_type@
                && cloned(h, final(cache).view()[name@].1)
                && final(cache).view() == old(cache).view().insert(name@, final(cache).view()[name@]))),
            !(found matches Some((_, true)) && old(self).spec_use_cache()) ==> final(cache).view() == old(cache).view(),
            attempt_kind(lookup_kind(found), old(self).spec_not_ready()) == AttemptKind::Retry ==> r is PauseThenFind,
            found is None ==> final(self).spec_stage() == SendStage::Over,
            found is None ==> (r matches SendAction::Fail { error: ActorError::AddressNotFound(n), pause: false } && n@ == name@),
            found matches Some((_, false)) ==> (old(self).spec_not_ready() + 1 < READY_RETRY_LIMIT ==> (
                r is PauseThenFind && final(self).spec_stage() == SendStage::Resolving)),
            found matches Some((_, false)) ==> (old(self).spec_not_ready() + 1 >= READY_RETRY_LIMIT ==> (
                r matches SendAction::Fail { error: ActorError::ActorNotReady(n), pause: true } && n@ == name@)),
            found matches Some((_, true)) ==> final(self).spec_stage() == SendStage::Delivering,
            r is PauseThenFind ==> (found matches Some((_, false))
                && final(self).spec_not_ready() == old(self).spec_not_ready() + 1),
            attempt_kind(lookup_kind(found), old(self).spec_not_ready()) == AttemptKind::GiveUpNotReady ==> (
                r matches SendAction::Fail { error: ActorError::ActorNotReady(n), pause: true } && n@ == name@),
            attempt_kind(lookup_kind(found), old(self).spec_not_ready()) == AttemptKind::GiveUpMissing ==> (
                r matches SendAction::Fail { error: ActorError::AddressNotFound(n), pause: false } && n@ == name@),
    {
        proof {
            use_type_invariant(&*self);
        }
        let kind = match &found {
            None => Lookup::Missing,
            Some((_, false)) => Lookup::NotReady,
            Some((_, true)) => Lookup::Ready,
        };
        let (next, count) = after_lookup(kind, self.not_ready, name);
        match next {
            NextAttempt::Deliver => {
                match found {
                    Some((h, _)) => {
                        if self.use_cache {
                            let kept = h.clone();
                            cache.remember(String::from_str(name), String::from_str(actor_type), kept);
                        }
                        self.stage = SendStage::Delivering;
                        SendAction::Deliver(h)
                    },
                    None => {
                        self.stage = SendStage::Over;
                        SendAction::Fail { error: ActorError::AddressNotFound(String::from_str(name)), pause: false }
                    },
                }
            },
            NextAttempt::RetryAfterPause => {
                self.not_ready = count;
                SendAction::PauseThenFind
            },
            NextAttempt::FailAfterPause(e) => {
                self.stage = SendStage::Over;
                self.not_ready = count;
                SendAction::Fail { error: e, pause: true }
            },
            NextAttempt::Fail(e) => {
                self.stage = SendStage::Over;
                SendAction::Fail { error: e, pause: false }
            },
        }
    }
}

/// A send delivers at most twice, and never again once a delivery went
/// through: through the cached mailbox only at its start, then at most once
/// through a freshly found one; a delivery through the cached mailbox that
/// went through ends the send, a failed one leads to a lookup, and the fresh
/// delivery ends the send whatever its outcome. A lookup never leads back to
/// the cached mailbox, and leads to a delivery exactly when the actor is
/// ready for the sender's type.
pub proof fn lemma_send_attempts(delivered: bool, found: Lookup, not_ready_before: nat)
    ensures
        stage_after_delivery(SendStage::TryingCached, true) == SendStage::Over,
        stage_after_delivery(SendStage::TryingCached, false) == SendStage::Resolving,
        stage_after_delivery(SendStage::Delivering, delivered) == SendStage::Over,
        stage_after_lookup(found, not_ready_before) != SendStage::TryingCached,
        (stage_after_lookup(found, not_ready_before) == SendStage::Delivering) == (found == Lookup::Ready),
{
}

} // verus!
