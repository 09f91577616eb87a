//! The readiness retry policy of sends.
//!
//! A send looks its target up in the registry. A ready actor gets the message;
//! an unknown address fails at once; an actor that exists but is not ready yet
//! is looked up again after a pause, up to a fixed number of times.
use vstd::prelude::*;
use crate::error::ActorError;

verus! {

/// How many times a not-ready actor is looked up before a send gives up.
pub const READY_RETRY_LIMIT: u32 = 10;

/// The pause between two lookups of a not-ready actor, in milliseconds.
pub const READY_RETRY_PAUSE_MS: u64 = 100;

/// The registry's answer to a lookup.
#[derive(Debug, Clone, Copy, PartialEq, Eq, Structural)]
pub enum Lookup {
    /// No actor of the requested type at the address.
    Missing,
    /// The actor exists but is not receiving yet.
    NotReady,
    /// The actor is receiving.
    Ready,
}

/// What a send does after a lookup.
#[derive(Debug)]
pub enum NextAttempt {
    /// Hand the message to the actor's mailbox.
    Deliver,
    /// Pause, then look the actor up again.
    RetryAfterPause,
    /// Pause, then fail with the error.
    FailAfterPause(ActorError),
    /// Fail with the error now.
    Fail(ActorError),
}

/// The kind of decision a send takes after a lookup.
#[derive(Debug, Clone, Copy, PartialEq, Eq, Structural)]
pub enum AttemptKind {
    Deliver,
    Retry,
    GiveUpNotReady,
    GiveUpMissing,
}

/// The decision after a lookup that found `found`, when `not_ready_before`
/// earlier lookups found the actor not ready.
pub open spec fn attempt_kind(found: Lookup, not_ready_before: nat) -> AttemptKind {
    match found {
        Lookup::Ready => AttemptKind::Deliver,
        Lookup::Missing => AttemptKind::GiveUpMissing,
        Lookup::NotReady => if not_ready_before + 1 < READY_RETRY_LIMIT {
            AttemptKind::Retry
        } else {
            AttemptKind::GiveUpNotReady
        },
    }
}

/// The number of lookups a send makes, from one that found the actor not
/// ready `not_ready_before` times, when the actor never becomes ready.
pub open spec fn lookups_while_not_ready(not_ready_before: nat) -> nat
    decreases READY_RETRY_LIMIT - not_ready_before,
{
    if attempt_kind(Lookup::NotReady, not_ready_before) == AttemptKind::Retry {
        1 + lookups_while_not_ready(not_ready_before + 1)
    } else {
        1
    }
}

/// What a send to `name` does after a lookup, when `not_ready_before` earlier
/// lookups found the actor not ready. Returns the decision and the updated
/// count of not-ready answers.
pub fn after_lookup(found: Lookup, not_ready_before: u32, name: &str) -> (r: (NextAttempt, u32))
    requires
        not_ready_before < READY_RETRY_LIMIT,
    ensures
        r.1 == (if found == Lookup::NotReady { not_ready_before + 1 } else { not_ready_before as int }),
        attempt_kind(found, not_ready_before as nat) == AttemptKind::Deliver ==> r.0 is Deliver,
        attempt_kind(found, not_ready_before as nat) == AttemptKind::Retry ==> r.0 is RetryAfterPause,
        attempt_kind(found, not_ready_before as nat) == AttemptKind::GiveUpMissing ==> (
            r.0 matches NextAttempt::Fail(ActorError::AddressNotFound(n)) && n@ == name@),
        attempt_kind(found, not_ready_before as nat) == AttemptKind::GiveUpNotReady ==> (
            r.0 matches NextAttempt::FailAfterPause(ActorError::ActorNotReady(n)) && n@ == name@),
        found == Lookup::Missing ==> (r.0 matches NextAttempt::Fail(ActorError::AddressNotFound(n)) && n@ == name@),
        found == Lookup::Ready ==> r.0 is Deliver,
        r.0 is RetryAfterPause ==> found == Lookup::NotReady && r.1 == not_ready_before + 1 && r.1 < READY_RETRY_LIMIT,
{
    match found {
        Lookup::Ready => (NextAttempt::Deliver, not_ready_before),
        Lookup::Missing => (NextAttempt::Fail(ActorError::AddressNotFound(String::from_str(name))), not_ready_before),
        Lookup::NotReady => {
            let count = not_ready_before + 1;
            if count < READY_RETRY_LIMIT {
                (NextAttempt::RetryAfterPause, count)
            } else {
                (NextAttempt::FailAfterPause(ActorError::ActorNotReady(String::from_str(name))), count)
            }
        },
    }
}

/// The target of a delivery that comes from another node, which looks the
/// actor up once and does not retry: the handle of an actor found ready for
/// the sender's type; `ActorNotReady(name)` for one found not ready;
/// `AddressNotFound(name)` when none is found.
pub fn single_lookup_target<H>(found: Option<(H, bool)>, name: &str) -> (r: Result<H, ActorError>)
    ensures
        found matches Some((h, true)) ==> r == Ok::<H, ActorError>(h),
        found matches Some((_, false)) ==> (r matches Err(ActorError::ActorNotReady(n)) && n@ == name@),
        found is None ==> (r matches Err(ActorError::AddressNotFound(n)) && n@ == name@),
{
    match found {
        Some((h, true)) => Ok(h),
        Some((_, false)) => Err(ActorError::ActorNotReady(String::from_str(name))),
        None => Err(ActorError::AddressNotFound(String::from_str(name))),
    }
}

/// The number of lookups a send makes when the registry answers `answers`
/// in turn, from a send whose earlier lookups found the actor not ready
/// `not_ready_before` times: it stops at the first answer that is not
/// followed by a retry (or when the answers run out).
pub open spec fn lookups_made(answers: Seq<Lookup>, not_ready_before: nat) -> nat
    decreases answers.len(),
{
    if answers.len() == 0 {
        0
    } else if attempt_kind(answers[0], not_ready_before) == AttemptKind::Retry {
        1 + lookups_made(
            answers.drop_first(),
            if answers[0] == Lookup::NotReady { not_ready_before + 1 } else { not_ready_before },
        )
    } else {
        1
    }
}

/// Only a not-ready actor is looked up again, and only while the budget
/// lasts: an actor found missing ends the send with `AddressNotFound` and a
/// ready one is delivered to, whatever came before. Hence a send makes at
/// most `READY_RETRY_LIMIT` lookups, whatever the registry answers.
pub proof fn lemma_lookups_bounded(answers: Seq<Lookup>, not_ready_before: nat)
    ensures
        attempt_kind(Lookup::Missing, not_ready_before) == AttemptKind::GiveUpMissing,
        attempt_kind(Lookup::Ready, not_ready_before) == AttemptKind::Deliver,
        answers.len() > 0 && attempt_kind(answers[0], not_ready_before) == AttemptKind::Retry ==> (
            answers[0] == Lookup::NotReady && not_ready_before + 1 < READY_RETRY_LIMIT),
        not_ready_before < READY_RETRY_LIMIT ==> lookups_made(answers, not_ready_before)
            <= READY_RETRY_LIMIT - not_ready_before,
    decreases answers.len(),
{
    if answers.len() > 0 {
        lemma_lookups_bounded(
            answers.drop_first(),
            if answers[0] == Lookup::NotReady { not_ready_before + 1 } else { not_ready_before },
        );
    }
}

/// A send to an actor that never becomes ready looks it up exactly
/// `READY_RETRY_LIMIT` times before it gives up with `ActorNotReady`.
pub proof fn lemma_retry_budget()
    ensures
        lookups_while_not_ready(0) == READY_RETRY_LIMIT,
        lookups_while_not_ready(0) == 10,
{
    assert(lookups_while_not_ready(9) == 1);
    assert(lookups_while_not_ready(8) == 2);
    assert(lookups_while_not_ready(7) == 3);
    assert(lookups_while_not_ready(6) == 4);
    assert(lookups_while_not_ready(5) == 5);
    assert(lookups_while_not_ready(4) == 6);
    assert(lookups_while_not_ready(3) == 7);
    assert(lookups_while_not_ready(2) == 8);
    assert(lookups_while_not_ready(1) == 9);
    assert(lookups_while_not_ready(0) == 10);
}

} // verus!
