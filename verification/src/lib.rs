//! Akka-style actor library: the routing, registry, lifecycle and job
//! scheduling decisions of an actor system, with their contracts.
//!
//! The library holds the state that an actor system keeps (which actor lives
//! at which address, in which lifecycle phase, which job is controlled by
//! which handle) and decides, for every command or event, what the next state
//! is and what has to be done. Running tasks, channels and the broker
//! connection are the embedding program's business: it performs the actions
//! and feeds the outcomes back.
use vstd::prelude::*;

pub mod cache;
pub mod delivery;
pub mod error;
pub mod inter_node;
pub mod job;
pub mod lifecycle;
pub mod pattern;
pub mod registry;
pub mod send;

pub use error::ActorError;

verus! {

/// Default per-actor mailbox capacity, used when no explicit channel size is
/// given at registration or system construction.
pub const CHANNEL_SIZE: usize = 4096;

/// Lifecycle state of a registered actor as tracked by the registry.
///
/// - `Starting` / `Restarting`: the mailbox exists but lookups report the
///   actor as not ready yet.
/// - `Receiving`: normal operation; sends go through immediately.
/// - `Stopping` / `Terminated`: the actor task is winding down or finished.
#[derive(Clone, Copy, Debug, PartialEq, Eq, Structural)]
pub enum LifeCycle {
    /// Right after registration is accepted, before `pre_start` finishes.
    Starting,
    /// Active state: the actor consumes messages from its mailbox.
    Receiving,
    /// Entered on a kill or restart signal, or a handler error under
    /// `ErrorHandling::Stop`; `post_stop` (or `pre_restart`) is about to run.
    Stopping,
    /// Final state after `post_stop`; the actor's task has exited.
    Terminated,
    /// Between `Stopping` and the next registration of a restarting actor.
    Restarting,
}

/// Policy applied when an actor's handler returns an error.
#[derive(Clone, Copy, Debug, PartialEq, Eq, Structural)]
pub enum ErrorHandling {
    /// Drop the failed message and keep consuming the same mailbox.
    Resume,
    /// Tear down the mailbox, run the restart hooks and re-register at the
    /// same address with a fresh mailbox.
    Restart,
    /// Run `post_stop` and terminate the actor.
    Stop,
}

/// Choice of task primitive that hosts an actor's receive loop.
#[derive(Clone, Copy, Debug, PartialEq, Eq, Structural)]
pub enum Blocking {
    /// A dedicated blocking thread driving the actor's future.
    Blocking,
    /// An ordinary cooperative task.
    NonBlocking,
}

/// Control status of a running job.
#[derive(Clone, Copy, Debug, PartialEq, Eq, Structural)]
pub enum JobStatus {
    /// The job loop is iterating (between sleeps and dispatches).
    Running,
    /// The job loop is paused after a stop signal and waits for a resume.
    Stopped,
}

/// Bound carried by actor message and result types. Every type satisfies it;
/// the embedding program adds the serialization requirement where messages
/// travel between nodes.
pub trait MaybeCodec {}

/// `<str as PartialEq>::eq`: two string slices are equal exactly when they
/// hold the same characters.
pub assume_specification[ <str as PartialEq>::eq ](a: &str, b: &str) -> (r: bool)
    ensures
        r == (a@ == b@),
;

/// `<String as From<&str>>::from`: a new `String` holding the characters of
/// the slice.
pub assume_specification<'a>[ <String as From<&'a str>>::from ](s: &str) -> (r: String)
    ensures
        r@ == s@,
;

impl<T: ?Sized> MaybeCodec for T {}

} // verus!
