//! The lifecycle of an actor task: the phases it reports to the registry and
//! how its receive loop reacts to handler errors, kill and restart signals.
use vstd::prelude::*;
use crate::error::ActorError;
use crate::{ErrorHandling, LifeCycle};

verus! {

/// How an actor's receive loop ends.
#[derive(Debug, Clone, Copy, PartialEq, Eq, Structural)]
pub enum LoopExit {
    /// The actor stops for good (`post_stop`, then `Terminated`).
    Stop,
    /// The actor restarts (`pre_restart`, then registration with a fresh
    /// mailbox at the same address).
    Restart,
}

/// An event in an actor task's life, as the task reports it.
#[derive(Debug, Clone, Copy, PartialEq, Eq, Structural)]
pub enum ActorEvent {
    /// The registry accepted the actor's (re-)registration.
    Registered,
    /// `pre_start` returned; the actor starts consuming its mailbox.
    Started,
    /// The receive loop was left (kill, restart signal or handler error).
    LeftLoop,
    /// The teardown hook of the given exit returned.
    TornDown(LoopExit),
}

/// The phase an actor registers with: `Starting` the first time, and the
/// phase a restarting actor moves to on registration when it comes back.
pub open spec fn registration_phase_spec(is_restarted: bool) -> LifeCycle {
    if is_restarted { next_phase_spec(LifeCycle::Restarting, ActorEvent::Registered) } else { LifeCycle::Starting }
}

/// The phase an actor registers with.
pub fn registration_phase(is_restarted: bool) -> (r: LifeCycle)
    ensures
        r == registration_phase_spec(is_restarted),
        r == LifeCycle::Starting,
{
    if is_restarted { next_phase(LifeCycle::Restarting, ActorEvent::Registered) } else { LifeCycle::Starting }
}

/// The lifecycle transition function: the phase an actor is in after an
/// event. Events that do not fit the current phase leave it unchanged.
pub open spec fn next_phase_spec(phase: LifeCycle, event: ActorEvent) -> LifeCycle {
    match (phase, event) {
        (LifeCycle::Restarting, ActorEvent::Registered) => LifeCycle::Starting,
        (LifeCycle::Starting, ActorEvent::Started) => LifeCycle::Receiving,
        (LifeCycle::Restarting, ActorEvent::Started) => LifeCycle::Receiving,
        (LifeCycle::Receiving, ActorEvent::LeftLoop) => LifeCycle::Stopping,
        (LifeCycle::Stopping, ActorEvent::TornDown(LoopExit::Stop)) => LifeCycle::Terminated,
        (LifeCycle::Stopping, ActorEvent::TornDown(LoopExit::Restart)) => LifeCycle::Restarting,
        _ => phase,
    }
}

/// The phase an actor is in after `event`.
pub fn next_phase(phase: LifeCycle, event: ActorEvent) -> (r: LifeCycle)
    ensures
        r == next_phase_spec(phase, event),
{
    match (phase, event) {
        (LifeCycle::Restarting, ActorEvent::Registered) => LifeCycle::Starting,
        (LifeCycle::Starting, ActorEvent::Started) => LifeCycle::Receiving,
        (LifeCycle::Restarting, ActorEvent::Started) => LifeCycle::Receiving,
        (LifeCycle::Receiving, ActorEvent::LeftLoop) => LifeCycle::Stopping,
        (LifeCycle::Stopping, ActorEvent::TornDown(LoopExit::Stop)) => LifeCycle::Terminated,
        (LifeCycle::Stopping, ActorEvent::TornDown(LoopExit::Restart)) => LifeCycle::Restarting,
        _ => phase,
    }
}

/// What a handler error leads to under the actor's policy: `Resume` keeps
/// the loop going (`None`), `Restart` and `Stop` leave it.
pub open spec fn on_handler_error_spec(policy: ErrorHandling) -> Option<LoopExit> {
    match policy {
        ErrorHandling::Resume => None,
        ErrorHandling::Restart => Some(LoopExit::Restart),
        ErrorHandling::Stop => Some(LoopExit::Stop),
    }
}

/// What a handler error leads to under the actor's policy.
pub fn on_handler_error(policy: ErrorHandling) -> (r: Option<LoopExit>)
    ensures
        r == on_handler_error_spec(policy),
{
    match policy {
        ErrorHandling::Resume => None,
        ErrorHandling::Restart => Some(LoopExit::Restart),
        ErrorHandling::Stop => Some(LoopExit::Stop),
    }
}

/// The phases an actor reports, in order, when it leaves its receive loop.
pub fn exit_phases(exit: LoopExit) -> (r: Vec<LifeCycle>)
    ensures
        r@ == seq![
            next_phase_spec(LifeCycle::Receiving, ActorEvent::LeftLoop),
            next_phase_spec(LifeCycle::Stopping, ActorEvent::TornDown(exit)),
        ],
        exit == LoopExit::Stop ==> r@ == seq![LifeCycle::Stopping, LifeCycle::Terminated],
        exit == LoopExit::Restart ==> r@ == seq![LifeCycle::Stopping, LifeCycle::Restarting],
{
    let mut v = Vec::new();
    v.push(next_phase(LifeCycle::Receiving, ActorEvent::LeftLoop));
    v.push(next_phase(LifeCycle::Stopping, ActorEvent::TornDown(exit)));
    v
}

/// A terminated actor stays terminated, whatever happens.
pub proof fn lemma_terminated_is_final(event: ActorEvent)
    ensures
        next_phase_spec(LifeCycle::Terminated, event) == LifeCycle::Terminated,
{
}

/// An actor only comes to receive messages by starting from `Starting` or
/// `Restarting`, and only stops receiving by leaving its loop.
pub proof fn lemma_receiving_entry_and_exit(phase: LifeCycle, event: ActorEvent)
    ensures
        phase != LifeCycle::Receiving && next_phase_spec(phase, event) == LifeCycle::Receiving ==> (
            (phase == LifeCycle::Starting || phase == LifeCycle::Restarting) && event == ActorEvent::Started),
        phase == LifeCycle::Receiving && next_phase_spec(phase, event) != LifeCycle::Receiving ==> (
            event == ActorEvent::LeftLoop && next_phase_spec(phase, event) == LifeCycle::Stopping),
{
}

/// Under each policy, a run that starts, hits a handler error and finishes
/// its teardown ends where the policy says: `Resume` keeps receiving,
/// `Stop` terminates, `Restart` goes `Receiving -> Stopping -> Restarting`,
/// then back to `Starting` on registration and to `Receiving` once started.
pub proof fn lemma_policy_outcome(policy: ErrorHandling, is_restarted: bool)
    ensures
        ({
            let receiving = next_phase_spec(registration_phase_spec(is_restarted), ActorEvent::Started);
            &&& receiving == LifeCycle::Receiving
            &&& on_handler_error_spec(policy) matches Some(exit) ==> ({
                let after = next_phase_spec(next_phase_spec(receiving, ActorEvent::LeftLoop), ActorEvent::TornDown(exit));
                &&& policy == ErrorHandling::Stop ==> after == LifeCycle::Terminated
                &&& policy == ErrorHandling::Restart ==> after == LifeCycle::Restarting
                    && next_phase_spec(after, ActorEvent::Registered) == registration_phase_spec(true)
                    && registration_phase_spec(true) == LifeCycle::Starting
                    && next_phase_spec(registration_phase_spec(true), ActorEvent::Started) == LifeCycle::Receiving
            })
            &&& policy == ErrorHandling::Resume ==> on_handler_error_spec(policy) is None
        }),
{
}

/// How many times a registration request that could not be sent is sent
/// again before the actor gives up on the system.
pub const REGISTER_RETRY_LIMIT: u32 = 10;

/// What an actor task does after trying to send its registration request.
#[derive(Debug)]
pub enum RegisterStep {
    /// The request went out: wait for the registry's answer.
    AwaitAnswer,
    /// The request could not be sent: send it again.
    Resend,
    /// Too many sends failed: report the error and end the task.
    GiveUp(ActorError),
}

/// Whether the task gives up after a failed send, when `failures_before`
/// earlier sends failed: once more than `REGISTER_RETRY_LIMIT` sends failed.
pub open spec fn register_gives_up(failures_before: nat) -> bool {
    failures_before + 1 > REGISTER_RETRY_LIMIT
}

/// The number of sends a task makes, from one with `failures_before` failed
/// sends behind it, when no send ever goes through.
pub open spec fn register_sends_while_failing(failures_before: nat) -> nat
    decreases REGISTER_RETRY_LIMIT - failures_before,
{
    if register_gives_up(failures_before) {
        1
    } else {
        1 + register_sends_while_failing(failures_before + 1)
    }
}

/// The step after a registration send: a send that went out waits for the
/// answer; a failed one is sent again, unless more than
/// `REGISTER_RETRY_LIMIT` sends have failed, in which case the task gives up
/// with `UnhealthyActorSystem`. Returns the step and the updated count of
/// failed sends.
pub fn after_register_send(sent: bool, failures_before: u32) -> (r: (RegisterStep, u32))
    requires
        failures_before <= REGISTER_RETRY_LIMIT,
    ensures
        r.1 == (if sent { failures_before as int } else { failures_before + 1 }),
        sent ==> r.0 is AwaitAnswer,
        !sent && !register_gives_up(failures_before as nat) ==> r.0 is Resend,
        !sent && register_gives_up(failures_before as nat) ==> r.0 matches RegisterStep::GiveUp(
            ActorError::UnhealthyActorSystem,
        ),
{
    if sent {
        (RegisterStep::AwaitAnswer, failures_before)
    } else {
        let failures = failures_before + 1;
        if failures > REGISTER_RETRY_LIMIT {
            (RegisterStep::GiveUp(ActorError::UnhealthyActorSystem), failures)
        } else {
            (RegisterStep::Resend, failures)
        }
    }
}

/// A task whose registration request can never be sent sends it exactly
/// `REGISTER_RETRY_LIMIT + 1` times (the first send and its retries), then
/// gives up.
pub proof fn lemma_register_retry_budget()
    ensures
        register_sends_while_failing(0) == REGISTER_RETRY_LIMIT + 1,
        register_sends_while_failing(0) == 11,
        forall|k: nat| k < REGISTER_RETRY_LIMIT ==> !#[trigger] register_gives_up(k),
        register_gives_up(REGISTER_RETRY_LIMIT as nat),
{
    assert(register_sends_while_failing(10) == 1);
    assert(register_sends_while_failing(9) == 2);
    assert(register_sends_while_failing(8) == 3);
    assert(register_sends_while_failing(7) == 4);
    assert(register_sends_while_failing(6) == 5);
    assert(register_sends_while_failing(5) == 6);
    assert(register_sends_while_failing(4) == 7);
    assert(register_sends_while_failing(3) == 8);
    assert(register_sends_while_failing(2) == 9);
    assert(register_sends_while_failing(1) == 10);
    assert(register_sends_while_failing(0) == 11);
}

/// What an actor task does with the registry's answer to its registration.
#[derive(Debug)]
pub enum RegistrationOutcome {
    /// Accepted: run `pre_start` and start receiving.
    Proceed,
    /// Refused or unanswered: report `report` to the registering caller and
    /// end the task with `exit`.
    Abort { report: ActorError, exit: ActorError },
}

/// The task's reaction to the registry's answer: an acceptance proceeds; a
/// refusal `e` is reported as is and ends the task with
/// `AddressAlreadyExist(name)`; an answer that never comes (the registry
/// dropped it) is reported as `OneshotRecv` and ends the task with
/// `UnhealthyActorSystem`.
pub fn registration_outcome(
    answer: Result<Result<(), ActorError>, tokio::sync::oneshot::error::RecvError>,
    name: &str,
) -> (r: RegistrationOutcome)
    ensures
        answer matches Ok(Ok(())) ==> r matches RegistrationOutcome::Proceed,
        answer matches Ok(Err(e)) ==> (r matches RegistrationOutcome::Abort { report, exit }
            && report == e && (exit matches ActorError::AddressAlreadyExist(n) && n@ == name@)),
        answer matches Err(recv) ==> (r matches RegistrationOutcome::Abort { report, exit }
            && report == ActorError::OneshotRecv(recv) && exit == ActorError::UnhealthyActorSystem),
{
    match answer {
        Ok(Ok(())) => RegistrationOutcome::Proceed,
        Ok(Err(e)) => RegistrationOutcome::Abort {
            report: e,
            exit: ActorError::AddressAlreadyExist(String::from_str(name)),
        },
        Err(recv) => RegistrationOutcome::Abort {
            report: ActorError::OneshotRecv(recv),
            exit: ActorError::UnhealthyActorSystem,
        },
    }
}

/// A lifecycle hook of an actor.
#[derive(Debug, Clone, Copy, PartialEq, Eq, Structural)]
pub enum Hook {
    /// Startup work, once the registration is accepted.
    PreStart,
    /// Cleanup as the actor enters `Stopping`.
    PostStop,
    /// Preparation for the next incarnation, after `post_stop`.
    PreRestart,
    /// The start of a restarted incarnation, before its registration.
    PostRestart,
}

/// The hooks run, in order, when the receive loop is left: `post_stop`
/// always, then `pre_restart` when the actor restarts.
pub open spec fn teardown_hooks_spec(exit: LoopExit) -> Seq<Hook> {
    match exit {
        LoopExit::Stop => seq![Hook::PostStop],
        LoopExit::Restart => seq![Hook::PostStop, Hook::PreRestart],
    }
}

/// The hooks an incarnation runs, in order, as it starts: `post_restart`
/// first when it is a restart (before registering), then `pre_start` (once
/// the registration is accepted).
pub open spec fn startup_hooks_spec(is_restarted: bool) -> Seq<Hook> {
    if is_restarted { seq![Hook::PostRestart, Hook::PreStart] } else { seq![Hook::PreStart] }
}

/// The hooks run, in order, when the receive loop is left with `exit`.
pub fn teardown_hooks(exit: LoopExit) -> (r: Vec<Hook>)
    ensures
        r@ == teardown_hooks_spec(exit),
{
    match exit {
        LoopExit::Stop => vec![Hook::PostStop],
        LoopExit::Restart => vec![Hook::PostStop, Hook::PreRestart],
    }
}

/// The hooks an incarnation runs, in order, as it starts.
pub fn startup_hooks(is_restarted: bool) -> (r: Vec<Hook>)
    ensures
        r@ == startup_hooks_spec(is_restarted),
{
    if is_restarted { vec![Hook::PostRestart, Hook::PreStart] } else { vec![Hook::PreStart] }
}

/// A restart, by signal or by a handler error under `Restart`, runs
/// `post_stop`, `pre_restart`, `post_restart` and `pre_start` in that order;
/// a stop runs `post_stop` alone; the first incarnation runs only
/// `pre_start`, and `post_restart` never runs before the first restart.
pub proof fn lemma_hook_order()
    ensures
        on_handler_error_spec(ErrorHandling::Restart) == Some(LoopExit::Restart),
        teardown_hooks_spec(LoopExit::Restart) + startup_hooks_spec(true)
            == seq![Hook::PostStop, Hook::PreRestart, Hook::PostRestart, Hook::PreStart],
        teardown_hooks_spec(LoopExit::Stop) == seq![Hook::PostStop],
        startup_hooks_spec(false) == seq![Hook::PreStart],
        !startup_hooks_spec(false).contains(Hook::PostRestart),
{
    assert(teardown_hooks_spec(LoopExit::Restart) + startup_hooks_spec(true)
        =~= seq![Hook::PostStop, Hook::PreRestart, Hook::PostRestart, Hook::PreStart]);
    assert(startup_hooks_spec(false)[0] == Hook::PreStart);
}

} // verus!
