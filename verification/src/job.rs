//! Jobs: repeated deliveries of one message on a schedule, with stop, resume
//! and abort control.
//!
//! The job loop of the embedding program waits (for the start time, between
//! iterations, or while paused), dispatches, and asks this module what comes
//! next.
use vstd::prelude::*;
use crate::JobStatus;

verus! {

/// A point in time of the system clock (carried, never inspected).
#[verifier::external_type_specification]
#[verifier::external_body]
pub struct ExSystemTime(std::time::SystemTime);

/// A sender of the bounded channel of `tokio` (carried, never inspected).
#[verifier::external_type_specification]
#[verifier::external_body]
#[verifier::reject_recursive_types(T)]
pub struct ExSender<T>(tokio::sync::mpsc::Sender<T>);

/// `Clone` of a `tokio` channel sender: another sender of the same channel.
/// Nothing is stated of the value (it is opaque).
pub assume_specification<T>[ <tokio::sync::mpsc::Sender<T> as Clone>::clone ](sender: &tokio::sync::mpsc::Sender<T>) -> tokio::sync::mpsc::Sender<T>;

/// `std::time::SystemTime::now`: the current time. Nothing is stated of it.
#[verifier::external_body]
fn system_time_now() -> std::time::SystemTime {
    std::time::SystemTime::now()
}

/// `uuid::Uuid::new_v4`: a random version-4 UUID, handed out as its 16 bytes
/// (`into_bytes`). The crate masks the random value so that the high half of
/// byte 6 is the version, 4, and the two top bits of byte 8 are the variant,
/// `10`; the other bits are random and left unsaid.
#[verifier::external_body]
fn uuid_new_v4() -> (b: [u8; 16])
    ensures
        b@.len() == 16,
        b@[6] / 16 == 4,
        b@[8] / 64 == 2,
{
    uuid::Uuid::new_v4().into_bytes()
}

/// The lowercase hexadecimal digit of `n` (`0 <= n < 16`).
pub open spec fn hex_digit(n: int) -> char {
    if n < 10 { (48 + n) as char } else { (87 + n) as char }
}

/// Whether position `i` of a hyphenated UUID holds a hyphen.
pub open spec fn is_hyphen_position(i: int) -> bool {
    i == 8 || i == 13 || i == 18 || i == 23
}

/// Which of the 32 hex digits position `i` of a hyphenated UUID holds.
pub open spec fn digit_at(i: int) -> int {
    i - (if i < 8 { 0int } else if i < 13 { 1 } else if i < 18 { 2 } else if i < 23 { 3 } else { 4 })
}

/// The hyphenated lowercase text of the UUID with bytes `b`: each byte as two
/// hex digits, high half first, in groups of 8, 4, 4, 4 and 12 digits.
pub open spec fn hyphenated_hex(b: Seq<u8>) -> Seq<char> {
    Seq::new(
        36,
        |i: int|
            if is_hyphen_position(i) {
                '-'
            } else if digit_at(i) % 2 == 0 {
                hex_digit((b[digit_at(i) / 2] / 16) as int)
            } else {
                hex_digit((b[digit_at(i) / 2] % 16) as int)
            },
    )
}

/// A lowercase hexadecimal digit.
pub open spec fn is_lower_hex_digit(c: char) -> bool {
    ('0' <= c && c <= '9') || ('a' <= c && c <= 'f')
}

/// The hyphenated text form of a UUID: 36 characters, hyphens at positions
/// 8, 13, 18 and 23, and lowercase hexadecimal digits everywhere else.
pub open spec fn is_uuid_text(s: Seq<char>) -> bool {
    &&& s.len() == 36
    &&& forall|i: int| 0 <= i < 36 ==> (if is_hyphen_position(i) {
        s[i] == '-'
    } else {
        is_lower_hex_digit(#[trigger] s[i])
    })
}

/// The hyphenated text of a version-4 UUID of the RFC variant: the version
/// digit (position 14) is `4` and the variant digit (position 19) is one of
/// `8`, `9`, `a`, `b`.
pub open spec fn is_uuid_v4_text(s: Seq<char>) -> bool {
    &&& is_uuid_text(s)
    &&& s[14] == '4'
    &&& (s[19] == '8' || s[19] == '9' || s[19] == 'a' || s[19] == 'b')
}

/// The `Display` text of the UUID with bytes `bytes`
/// (`uuid::Uuid::from_bytes`, then `ToString::to_string`), which the `uuid`
/// crate writes as the hyphenated lowercase hex of the bytes.
#[verifier::external_body]
fn uuid_text(bytes: [u8; 16]) -> (s: String)
    ensures
        s@ == hyphenated_hex(bytes@),
{
    uuid::Uuid::from_bytes(bytes).to_string()
}

/// The hyphenated text of any 16 bytes has the UUID text form, and that of a
/// version-4 UUID of the RFC variant shows its version and variant digits.
pub proof fn lemma_hyphenated_hex_form(b: Seq<u8>)
    requires
        b.len() == 16,
    ensures
        is_uuid_text(hyphenated_hex(b)),
        b[6] / 16 == 4 && b[8] / 64 == 2 ==> is_uuid_v4_text(hyphenated_hex(b)),
{
    let s = hyphenated_hex(b);
    assert forall|i: int| 0 <= i < 36 implies (if is_hyphen_position(i) {
        s[i] == '-'
    } else {
        is_lower_hex_digit(#[trigger] s[i])
    }) by {
        if !is_hyphen_position(i) {
            let d = digit_at(i);
            assert(0 <= d < 32);
            let byte = b[d / 2];
            let n: int = if d % 2 == 0 { (byte / 16) as int } else { (byte % 16) as int };
            assert(0 <= n < 16);
            assert(s[i] == hex_digit(n));
        }
    }
    if b[6] / 16 == 4 && b[8] / 64 == 2 {
        assert(s[14] == hex_digit(4));
        let v: int = (b[8] / 16) as int;
        assert(8 <= v < 12);
        assert(s[19] == hex_digit(v));
    }
}

/// The id of a new job: the one supplied, or else a fresh random version-4
/// UUID in its hyphenated text form.
pub fn job_id_or_fresh(job_id: Option<String>) -> (r: String)
    ensures
        job_id matches Some(id) ==> r == id,
        job_id is None ==> is_uuid_v4_text(r@),
{
    match job_id {
        Some(id) => id,
        None => {
            let bytes = uuid_new_v4();
            let text = uuid_text(bytes);
            proof {
                lemma_hyphenated_hex_form(bytes@);
            }
            text
        },
    }
}

/// Schedule of a job.
///
/// - `max_iter`: cap on iterations, `None` for no cap.
/// - `interval`: wait between iterations; `None` makes a single-shot job.
/// - `start_at`: earliest moment of the first iteration.
#[derive(Debug, Clone, Copy)]
pub struct JobSpec {
    max_iter: Option<usize>,
    interval: Option<core::time::Duration>,
    start_at: std::time::SystemTime,
}

impl JobSpec {
    /// The iteration cap.
    pub closed spec fn spec_max_iter(&self) -> Option<usize> {
        self.max_iter
    }

    /// The wait between iterations.
    pub closed spec fn spec_interval(&self) -> Option<core::time::Duration> {
        self.interval
    }

    /// The earliest start.
    pub closed spec fn spec_start_at(&self) -> std::time::SystemTime {
        self.start_at
    }

    /// A schedule. Without an interval the job is single-shot: its cap is
    /// forced to one iteration whatever `max_iter` says.
    pub fn new(
        max_iter: Option<usize>,
        interval: Option<core::time::Duration>,
        start_at: std::time::SystemTime,
    ) -> (r: Self)
        ensures
            r.spec_max_iter() == (if interval is None { Some(1usize) } else { max_iter }),
            r.spec_interval() == interval,
            r.spec_start_at() == start_at,
    {
        if interval.is_none() {
            JobSpec { max_iter: Some(1), interval, start_at }
        } else {
            JobSpec { max_iter, interval, start_at }
        }
    }

    /// Maximum number of iterations, or `None` for no cap.
    pub fn max_iter(&self) -> (r: Option<usize>)
        ensures
            r == self.spec_max_iter(),
    {
        self.max_iter
    }

    /// Earliest moment of the first iteration.
    pub fn start_at(&self) -> (r: std::time::SystemTime)
        ensures
            r == self.spec_start_at(),
    {
        self.start_at
    }

    /// Time between iterations, or `None` for a single-shot job.
    pub fn interval(&self) -> (r: Option<core::time::Duration>)
        ensures
            r == self.spec_interval(),
    {
        self.interval
    }
}

impl Default for JobSpec {
    /// Single-shot, starting now.
    fn default() -> (r: Self)
        ensures
            r.spec_max_iter() == Some(1usize),
            r.spec_interval() is None,
    {
        JobSpec { max_iter: Some(1), interval: None, start_at: system_time_now() }
    }
}

/// What a job does after a dispatch.
#[derive(Debug, Clone, Copy)]
pub enum JobStep {
    /// The job is over.
    Finish,
    /// Wait this long (staying responsive to control signals), then run the
    /// next iteration.
    Wait(core::time::Duration),
}

/// What follows the `done`-th dispatch of a job: the end once the cap is
/// reached or the job is single-shot, otherwise a wait of one interval.
pub open spec fn step_after(max_iter: Option<usize>, interval: Option<core::time::Duration>, done: nat) -> JobStep {
    if max_iter matches Some(m) && done >= m {
        JobStep::Finish
    } else {
        match interval {
            None => JobStep::Finish,
            Some(d) => JobStep::Wait(d),
        }
    }
}

/// Whether a job that has made `done` dispatches may make another: not once
/// its cap is reached (so a cap of zero allows none).
pub open spec fn may_dispatch(max_iter: Option<usize>, done: nat) -> bool {
    !(max_iter matches Some(m) && done >= m)
}

/// The iteration count of a running job.
pub struct JobRun {
    done: usize,
}

impl JobRun {
    /// Dispatches made so far.
    pub closed spec fn spec_done(&self) -> nat {
        self.done as nat
    }

    /// A job that has not dispatched yet.
    pub fn new() -> (r: Self)
        ensures
            r.spec_done() == 0,
    {
        JobRun { done: 0 }
    }

    /// Dispatches made so far.
    pub fn done(&self) -> (r: usize)
        ensures
            r == self.spec_done(),
    {
        self.done
    }

    /// Whether the job may dispatch again, checked before each dispatch.
    pub fn should_dispatch(&self, spec: &JobSpec) -> (r: bool)
        ensures
            r == may_dispatch(spec.spec_max_iter(), self.spec_done()),
    {
        match spec.max_iter {
            Some(m) => self.done < m,
            None => true,
        }
    }

    /// Records one dispatch and decides what follows it.
    pub fn after_dispatch(&mut self, spec: &JobSpec) -> (r: JobStep)
        requires
            old(self).spec_done() < usize::MAX,
        ensures
            final(self).spec_done() == old(self).spec_done() + 1,
            r == step_after(spec.spec_max_iter(), spec.spec_interval(), final(self).spec_done()),
    {
        self.done = self.done + 1;
        match spec.max_iter {
            Some(m) => {
                if self.done >= m {
                    return JobStep::Finish;
                }
            },
            None => {},
        }
        match spec.interval {
            None => JobStep::Finish,
            Some(d) => JobStep::Wait(d),
        }
    }
}

/// A control signal or timer event that a waiting job reacts to.
#[derive(Debug, Clone, Copy, PartialEq, Eq, Structural)]
pub enum JobSignal {
    /// The wait's timer ran out.
    Elapsed,
    /// `abort_job` was called.
    Abort,
    /// `stop_job` was called.
    Stop,
    /// `resume_job` was called.
    Resume,
}

/// What a waiting job does on a signal.
#[derive(Debug, Clone, Copy, PartialEq, Eq, Structural)]
pub enum JobControl {
    /// Run the next iteration.
    Proceed,
    /// End the job.
    Exit,
    /// Keep waiting, now paused until a resume (or an abort).
    Pause,
}

/// The signals a waiting job listens to: while running, its timer, abort and
/// stop; while stopped, resume and abort.
pub open spec fn listens(status: JobStatus, signal: JobSignal) -> bool {
    match status {
        JobStatus::Running => signal != JobSignal::Resume,
        JobStatus::Stopped => signal == JobSignal::Resume || signal == JobSignal::Abort,
    }
}

/// The reaction of a waiting job to a signal.
pub open spec fn on_signal_spec(status: JobStatus, signal: JobSignal) -> (JobStatus, JobControl) {
    match signal {
        JobSignal::Abort => (status, JobControl::Exit),
        JobSignal::Stop => (JobStatus::Stopped, JobControl::Pause),
        JobSignal::Resume => (JobStatus::Running, JobControl::Proceed),
        JobSignal::Elapsed => (JobStatus::Running, JobControl::Proceed),
    }
}

/// The reaction of a waiting job to a signal it listens to: an abort always
/// ends the job; a stop pauses a running job; a resume, or the timer, lets it
/// proceed.
pub fn on_signal(status: JobStatus, signal: JobSignal) -> (r: (JobStatus, JobControl))
    requires
        listens(status, signal),
    ensures
        r == on_signal_spec(status, signal),
        signal == JobSignal::Abort ==> r.1 == JobControl::Exit,
        signal == JobSignal::Stop ==> r == (JobStatus::Stopped, JobControl::Pause),
        signal == JobSignal::Resume ==> r == (JobStatus::Running, JobControl::Proceed),
        signal == JobSignal::Elapsed ==> r == (JobStatus::Running, JobControl::Proceed),
        r.1 == JobControl::Exit ==> r.0 == status,
{
    match signal {
        JobSignal::Abort => (status, JobControl::Exit),
        JobSignal::Stop => (JobStatus::Stopped, JobControl::Pause),
        JobSignal::Resume => (JobStatus::Running, JobControl::Proceed),
        JobSignal::Elapsed => (JobStatus::Running, JobControl::Proceed),
    }
}

/// A job with a cap of `n` iterations runs exactly `n` dispatches: it may
/// dispatch while fewer than `n` were made (so never with a cap of zero), and
/// with an interval it waits one interval after each of the first `n - 1`
/// and ends after the `n`-th. A single-shot job (no interval) ends after its
/// first dispatch, and a job without a cap never ends on its own.
pub proof fn lemma_job_iterations(max_iter: Option<usize>, interval: Option<core::time::Duration>, done: nat)
    ensures
        max_iter matches Some(n) ==> (may_dispatch(max_iter, done) <==> done < n),
        max_iter == Some(0usize) ==> !may_dispatch(max_iter, 0),
        max_iter is None ==> may_dispatch(max_iter, done),
        max_iter matches Some(n) ==> (interval matches Some(d) ==> (
            1 <= done < n ==> step_after(max_iter, interval, done) == JobStep::Wait(d))),
        max_iter matches Some(n) ==> (n >= 1 && done == n ==> step_after(max_iter, interval, done) is Finish),
        interval is None ==> step_after(max_iter, interval, done) is Finish,
        max_iter is None ==> (interval matches Some(d) ==> step_after(max_iter, interval, done) == JobStep::Wait(d)),
{
}

/// A running job that is stopped pauses, and proceeds once resumed; an abort
/// ends the job whether it is running or paused; the timer lets a running job
/// proceed.
pub proof fn lemma_stop_resume_abort()
    ensures
        on_signal_spec(JobStatus::Running, JobSignal::Stop) == (JobStatus::Stopped, JobControl::Pause),
        on_signal_spec(on_signal_spec(JobStatus::Running, JobSignal::Stop).0, JobSignal::Resume)
            == (JobStatus::Running, JobControl::Proceed),
        on_signal_spec(JobStatus::Running, JobSignal::Abort).1 == JobControl::Exit,
        on_signal_spec(JobStatus::Stopped, JobSignal::Abort).1 == JobControl::Exit,
        on_signal_spec(JobStatus::Running, JobSignal::Elapsed) == (JobStatus::Running, JobControl::Proceed),
{
}

/// Where a job's loop stands.
#[derive(Debug, Clone, Copy, PartialEq, Eq, Structural)]
pub enum JobPhase {
    /// Waiting for the start time of the next iteration.
    AwaitingStart,
    /// A dispatch is under way.
    Dispatching,
    /// Waiting one interval after a dispatch.
    AwaitingInterval,
    /// Paused by a stop; `true` when the stop came during the start wait
    /// (a resume then dispatches), `false` when it came during the interval
    /// wait (a resume then waits for the start time again).
    Paused(bool),
    /// The job is over.
    Finished,
}

/// What the job's loop reports back to its state machine.
#[derive(Debug, Clone, Copy)]
pub enum JobEvent {
    /// The current wait ended with this signal.
    Signal(JobSignal),
    /// The dispatch finished.
    Dispatched,
}

/// What the job's loop does next.
#[derive(Debug, Clone, Copy)]
pub enum JobAction {
    /// Wait until the start time, listening to abort and stop.
    WaitForStart,
    /// Deliver the message once.
    Dispatch,
    /// Wait this long, listening to abort and stop.
    WaitInterval(core::time::Duration),
    /// Wait for a resume or an abort.
    WaitForResume,
    /// End the job.
    Exit,
}

/// The events a job in `phase` can get: while waiting, the signals of a
/// running job; while paused, those of a stopped one; while dispatching, the
/// end of the dispatch. A finished job ignores whatever comes.
pub open spec fn fits(phase: JobPhase, event: JobEvent) -> bool {
    match phase {
        JobPhase::AwaitingStart => event matches JobEvent::Signal(sig) && listens(JobStatus::Running, sig),
        JobPhase::AwaitingInterval => event matches JobEvent::Signal(sig) && listens(JobStatus::Running, sig),
        JobPhase::Paused(_) => event matches JobEvent::Signal(sig) && listens(JobStatus::Stopped, sig),
        JobPhase::Dispatching => event is Dispatched,
        JobPhase::Finished => true,
    }
}

/// Where a wait that ended normally leads: after the start wait, to a
/// dispatch if the cap allows one and to the end otherwise; after the
/// interval wait, to the start wait of the next iteration.
pub open spec fn proceed_from_wait(start_wait: bool, max_iter: Option<usize>, done: nat) -> (JobPhase, nat, JobAction) {
    if !start_wait {
        (JobPhase::AwaitingStart, done, JobAction::WaitForStart)
    } else if may_dispatch(max_iter, done) {
        (JobPhase::Dispatching, done, JobAction::Dispatch)
    } else {
        (JobPhase::Finished, done, JobAction::Exit)
    }
}

/// The job's state machine: from a phase and the number of dispatches made,
/// an event leads to the next phase, the new count and the next action.
pub open spec fn job_transition(
    phase: JobPhase,
    done: nat,
    max_iter: Option<usize>,
    interval: Option<core::time::Duration>,
    event: JobEvent,
) -> (JobPhase, nat, JobAction) {
    match event {
        JobEvent::Dispatched => if phase == JobPhase::Dispatching {
            match step_after(max_iter, interval, done + 1) {
                JobStep::Finish => (JobPhase::Finished, done + 1, JobAction::Exit),
                JobStep::Wait(d) => (JobPhase::AwaitingInterval, done + 1, JobAction::WaitInterval(d)),
            }
        } else {
            (JobPhase::Finished, done, JobAction::Exit)
        },
        JobEvent::Signal(sig) => match phase {
            JobPhase::Paused(start_wait) => if on_signal_spec(JobStatus::Stopped, sig).1 == JobControl::Proceed {
                proceed_from_wait(start_wait, max_iter, done)
            } else {
                (JobPhase::Finished, done, JobAction::Exit)
            },
            JobPhase::AwaitingStart => match on_signal_spec(JobStatus::Running, sig).1 {
                JobControl::Proceed => proceed_from_wait(true, max_iter, done),
                JobControl::Exit => (JobPhase::Finished, done, JobAction::Exit),
                JobControl::Pause => (JobPhase::Paused(true), done, JobAction::WaitForResume),
            },
            JobPhase::AwaitingInterval => match on_signal_spec(JobStatus::Running, sig).1 {
                JobControl::Proceed => proceed_from_wait(false, max_iter, done),
                JobControl::Exit => (JobPhase::Finished, done, JobAction::Exit),
                JobControl::Pause => (JobPhase::Paused(false), done, JobAction::WaitForResume),
            },
            _ => (JobPhase::Finished, done, JobAction::Exit),
        },
    }
}

/// What holds of every state the machine reaches: the count never passes
/// the cap, and a dispatch is under way only when the cap allows it.
pub open spec fn job_invariant(phase: JobPhase, done: nat, max_iter: Option<usize>) -> bool {
    &&& max_iter matches Some(m) ==> done <= m
    &&& phase == JobPhase::Dispatching ==> may_dispatch(max_iter, done)
}

/// The state machine of one job: its phase and its dispatch count.
pub struct JobMachine {
    run: JobRun,
    phase: JobPhase,
}

impl JobMachine {
    /// The current phase.
    pub closed spec fn spec_phase(&self) -> JobPhase {
        self.phase
    }

    /// Dispatches made so far.
    pub closed spec fn spec_done(&self) -> nat {
        self.run.spec_done()
    }

    /// A job that has not started: it first waits for its start time.
    pub fn start() -> (r: (Self, JobAction))
        ensures
            r.0.spec_phase() == JobPhase::AwaitingStart,
            r.0.spec_done() == 0,
            r.1 matches JobAction::WaitForStart,
    {
        (JobMachine { run: JobRun::new(), phase: JobPhase::AwaitingStart }, JobAction::WaitForStart)
    }

    /// Dispatches made so far.
    pub fn done(&self) -> (r: usize)
        ensures
            r == self.spec_done(),
    {
        self.run.done()
    }

    /// Whether the machine can take `event` in its current phase.
    pub fn accepts(&self, event: JobEvent) -> (r: bool)
        ensures
            r == fits(self.spec_phase(), event),
    {
        match self.phase {
            JobPhase::AwaitingStart | JobPhase::AwaitingInterval => match event {
                JobEvent::Signal(sig) => sig != JobSignal::Resume,
                JobEvent::Dispatched => false,
            },
            JobPhase::Paused(_) => match event {
                JobEvent::Signal(sig) => sig == JobSignal::Resume || sig == JobSignal::Abort,
                JobEvent::Dispatched => false,
            },
            JobPhase::Dispatching => match event {
                JobEvent::Signal(_) => false,
                JobEvent::Dispatched => true,
            },
            JobPhase::Finished => true,
        }
    }

    fn proceed(&mut self, spec: &JobSpec, start_wait: bool) -> (r: JobAction)
        ensures
            final(self).spec_done() == old(self).spec_done(),
            (final(self).spec_phase(), final(self).spec_done(), r)
                == proceed_from_wait(start_wait, spec.spec_max_iter(), old(self).spec_done()),
    {
        if !start_wait {
            self.phase = JobPhase::AwaitingStart;
            JobAction::WaitForStart
        } else if self.run.should_dispatch(spec) {
            self.phase = JobPhase::Dispatching;
            JobAction::Dispatch
        } else {
            self.phase = JobPhase::Finished;
            JobAction::Exit
        }
    }

    /// Takes one event and returns the next action, as `job_transition`
    /// says; the invariant is kept.
    pub fn step(&mut self, spec: &JobSpec, event: JobEvent) -> (r: JobAction)
        requires
            fits(old(self).spec_phase(), event),
            event is Dispatched ==> old(self).spec_done() < usize::MAX,
        ensures
            (final(self).spec_phase(), final(self).spec_done(), r) == job_transition(
                old(self).spec_phase(),
                old(self).spec_done(),
                spec.spec_max_iter(),
                spec.spec_interval(),
                event,
            ),
            job_invariant(old(self).spec_phase(), old(self).spec_done(), spec.spec_max_iter())
                ==> job_invariant(final(self).spec_phase(), final(self).spec_done(), spec.spec_max_iter()),
    {
        match event {
            JobEvent::Dispatched => {
                if self.phase == JobPhase::Dispatching {
                    match self.run.after_dispatch(spec) {
                        JobStep::Finish => {
                            self.phase = JobPhase::Finished;
                            JobAction::Exit
                        },
                        JobStep::Wait(d) => {
                            self.phase = JobPhase::AwaitingInterval;
                            JobAction::WaitInterval(d)
                        },
                    }
                } else {
                    self.phase = JobPhase::Finished;
                    JobAction::Exit
                }
            },
            JobEvent::Signal(sig) => match self.phase {
                JobPhase::Paused(start_wait) => {
                    let (_, control) = on_signal(JobStatus::Stopped, sig);
                    if control == JobControl::Proceed {
                        self.proceed(spec, start_wait)
                    } else {
                        self.phase = JobPhase::Finished;
                        JobAction::Exit
                    }
                },
                JobPhase::AwaitingStart | JobPhase::AwaitingInterval => {
                    let start_wait = self.phase == JobPhase::AwaitingStart;
                    let (_, control) = on_signal(JobStatus::Running, sig);
                    match control {
                        JobControl::Proceed => self.proceed(spec, start_wait),
                        JobControl::Exit => {
                            self.phase = JobPhase::Finished;
                            JobAction::Exit
                        },
                        JobControl::Pause => {
                            self.phase = JobPhase::Paused(start_wait);
                            JobAction::WaitForResume
                        },
                    }
                },
                _ => {
                    self.phase = JobPhase::Finished;
                    JobAction::Exit
                },
            },
        }
    }
}

/// Every step keeps the invariant; a dispatch is only ever asked for while
/// the cap allows one; the count grows by one exactly on the end of a
/// dispatch; an abort ends a waiting or paused job; a finished job stays
/// finished and asks for nothing but its end.
pub proof fn lemma_job_machine_safety(
    phase: JobPhase,
    done: nat,
    max_iter: Option<usize>,
    interval: Option<core::time::Duration>,
    event: JobEvent,
)
    requires
        job_invariant(phase, done, max_iter),
        fits(phase, event),
    ensures
        ({
            let (p, n, a) = job_transition(phase, done, max_iter, interval, event);
            &&& job_invariant(p, n, max_iter)
            &&& a is Dispatch ==> p == JobPhase::Dispatching && may_dispatch(max_iter, n)
            &&& n == (if phase == JobPhase::Dispatching && event is Dispatched { done + 1 } else { done })
            &&& event == JobEvent::Signal(JobSignal::Abort) ==> p == JobPhase::Finished && a is Exit
            &&& phase == JobPhase::Finished ==> p == JobPhase::Finished && n == done && a is Exit
        }),
{
}

/// The event a job gets when nobody stops or aborts it: each wait runs out
/// (or, if paused, is resumed) and each dispatch finishes.
pub open spec fn quiet_event(phase: JobPhase) -> JobEvent {
    match phase {
        JobPhase::Dispatching => JobEvent::Dispatched,
        JobPhase::Paused(_) => JobEvent::Signal(JobSignal::Resume),
        _ => JobEvent::Signal(JobSignal::Elapsed),
    }
}

/// The phase and count after `steps` undisturbed steps.
pub open spec fn quiet_run(
    phase: JobPhase,
    done: nat,
    max_iter: Option<usize>,
    interval: Option<core::time::Duration>,
    steps: nat,
) -> (JobPhase, nat)
    decreases steps,
{
    if steps == 0 {
        (phase, done)
    } else {
        let (p, n, _) = job_transition(phase, done, max_iter, interval, quiet_event(phase));
        quiet_run(p, n, max_iter, interval, (steps - 1) as nat)
    }
}

/// A finished job stays finished, with its count, however long it runs on.
pub proof fn lemma_finished_stays(
    done: nat,
    max_iter: Option<usize>,
    interval: Option<core::time::Duration>,
    steps: nat,
)
    ensures
        quiet_run(JobPhase::Finished, done, max_iter, interval, steps) == (JobPhase::Finished, done),
    decreases steps,
{
    if steps > 0 {
        lemma_finished_stays(done, max_iter, interval, (steps - 1) as nat);
    }
}

/// A job with a cap of `n` (an interval, or a cap of at most one) that is
/// never stopped or aborted makes exactly `n` dispatches and ends: from the
/// start wait with `k <= n` dispatches made, enough steps bring it to the end
/// with `n` dispatches, a cap of zero included.
pub proof fn lemma_exactly_cap_dispatches(
    n: usize,
    interval: Option<core::time::Duration>,
    k: nat,
    steps: nat,
)
    requires
        k <= n,
        interval is None ==> n <= 1,
        steps >= 3 * (n - k) + 1,
    ensures
        quiet_run(JobPhase::AwaitingStart, k, Some(n), interval, steps) == (JobPhase::Finished, n as nat),
    decreases n - k,
{
    let max_iter = Some(n);
    if k == n {
        assert(job_transition(JobPhase::AwaitingStart, k, max_iter, interval, quiet_event(JobPhase::AwaitingStart))
            == (JobPhase::Finished, k, JobAction::Exit));
        lemma_finished_stays(k, max_iter, interval, (steps - 1) as nat);
    } else {
        let s1 = (steps - 1) as nat;
        let s2 = (steps - 2) as nat;
        assert(job_transition(JobPhase::AwaitingStart, k, max_iter, interval, quiet_event(JobPhase::AwaitingStart)).0
            == JobPhase::Dispatching);
        assert(quiet_run(JobPhase::AwaitingStart, k, max_iter, interval, steps)
            == quiet_run(JobPhase::Dispatching, k, max_iter, interval, s1));
        if k + 1 == n {
            assert(quiet_run(JobPhase::Dispatching, k, max_iter, interval, s1)
                == quiet_run(JobPhase::Finished, k + 1, max_iter, interval, s2));
            lemma_finished_stays(k + 1, max_iter, interval, s2);
        } else {
            let s3 = (steps - 3) as nat;
            assert(quiet_run(JobPhase::Dispatching, k, max_iter, interval, s1)
                == quiet_run(JobPhase::AwaitingInterval, k + 1, max_iter, interval, s2));
            assert(quiet_run(JobPhase::AwaitingInterval, k + 1, max_iter, interval, s2)
                == quiet_run(JobPhase::AwaitingStart, k + 1, max_iter, interval, s3));
            lemma_exactly_cap_dispatches(n, interval, k + 1, s3);
        }
    }
}

/// A job without a cap that has an interval, and is never stopped or
/// aborted, never ends: every three undisturbed steps (start wait, dispatch,
/// interval wait) bring it back to the start wait with one more dispatch.
pub proof fn lemma_uncapped_runs_on(d: core::time::Duration, k: nat, m: nat)
    ensures
        quiet_run(JobPhase::AwaitingStart, k, None, Some(d), 3 * m) == (JobPhase::AwaitingStart, k + m),
    decreases m,
{
    if m > 0 {
        let rest = (3 * (m - 1)) as nat;
        assert(quiet_run(JobPhase::AwaitingStart, k, None, Some(d), 3 * m)
            == quiet_run(JobPhase::Dispatching, k, None, Some(d), rest + 2));
        assert(quiet_run(JobPhase::Dispatching, k, None, Some(d), rest + 2)
            == quiet_run(JobPhase::AwaitingInterval, k + 1, None, Some(d), rest + 1));
        assert(quiet_run(JobPhase::AwaitingInterval, k + 1, None, Some(d), rest + 1)
            == quiet_run(JobPhase::AwaitingStart, k + 1, None, Some(d), rest));
        lemma_uncapped_runs_on(d, k + 1, (m - 1) as nat);
    }
}

/// What a job listens to: while running (waiting), its timer, an abort and
/// a stop; while paused, a resume and an abort. The job's machine takes
/// exactly these while waiting or paused, and only the end of the dispatch
/// while dispatching.
pub proof fn lemma_job_listens(sig: JobSignal, start_wait: bool)
    ensures
        listens(JobStatus::Running, sig) <==> sig != JobSignal::Resume,
        listens(JobStatus::Stopped, sig) <==> (sig == JobSignal::Resume || sig == JobSignal::Abort),
        fits(JobPhase::AwaitingStart, JobEvent::Signal(sig)) <==> sig != JobSignal::Resume,
        fits(JobPhase::AwaitingInterval, JobEvent::Signal(sig)) <==> sig != JobSignal::Resume,
        fits(JobPhase::Paused(start_wait), JobEvent::Signal(sig)) <==> (sig == JobSignal::Resume || sig == JobSignal::Abort),
        fits(JobPhase::Dispatching, JobEvent::Dispatched),
        !fits(JobPhase::Dispatching, JobEvent::Signal(sig)),
        !fits(JobPhase::AwaitingStart, JobEvent::Dispatched),
{
}

/// A stop only pauses a job: a stop during either wait pauses it, and the
/// resume that follows takes the job exactly where the wait running out
/// would have, with the same count; an abort while paused ends the job.
pub proof fn lemma_pause_is_transparent(
    wait: JobPhase,
    done: nat,
    max_iter: Option<usize>,
    interval: Option<core::time::Duration>,
)
    requires
        wait == JobPhase::AwaitingStart || wait == JobPhase::AwaitingInterval,
    ensures
        ({
            let (paused, n1, a1) = job_transition(wait, done, max_iter, interval, JobEvent::Signal(JobSignal::Stop));
            &&& n1 == done
            &&& a1 is WaitForResume
            &&& job_transition(paused, n1, max_iter, interval, JobEvent::Signal(JobSignal::Resume))
                == job_transition(wait, done, max_iter, interval, JobEvent::Signal(JobSignal::Elapsed))
            &&& job_transition(paused, n1, max_iter, interval, JobEvent::Signal(JobSignal::Abort)).0 == JobPhase::Finished
        }),
{
}

/// A job only ends for one of three reasons: it was aborted, its cap is
/// reached, or it is single-shot and has dispatched. In particular a timer
/// or a resume never ends a job that may still dispatch.
pub proof fn lemma_job_ends_only_when_due(
    phase: JobPhase,
    done: nat,
    max_iter: Option<usize>,
    interval: Option<core::time::Duration>,
    event: JobEvent,
)
    requires
        fits(phase, event),
        phase != JobPhase::Finished,
    ensures
        ({
            let (p, n, a) = job_transition(phase, done, max_iter, interval, event);
            (p == JobPhase::Finished || a is Exit) ==> (
                event == JobEvent::Signal(JobSignal::Abort)
                || (max_iter matches Some(m) && n >= m)
                || (interval is None && event is Dispatched && n >= 1))
        }),
        ({
            let (p, n, a) = job_transition(phase, done, max_iter, interval, event);
            (phase == JobPhase::AwaitingInterval && event == JobEvent::Signal(JobSignal::Elapsed)) ==> (
                p == JobPhase::AwaitingStart && n == done && a is WaitForStart)
        }),
        ({
            let (p, n, a) = job_transition(phase, done, max_iter, interval, event);
            (phase == JobPhase::Dispatching && max_iter is None) ==> (interval matches Some(d) ==> (
                p == JobPhase::AwaitingInterval && n == done + 1 && a == JobAction::WaitInterval(d)))
        }),
{
}

/// Control senders of a running job, kept under its id.
#[derive(Clone)]
pub struct JobController {
    /// Ends the job at its next wait.
    pub abort_tx: tokio::sync::mpsc::Sender<()>,
    /// Pauses the job after its current iteration.
    pub stop_tx: tokio::sync::mpsc::Sender<()>,
    /// Lets a paused job continue.
    pub resume_tx: tokio::sync::mpsc::Sender<()>,
}

} // verus!
