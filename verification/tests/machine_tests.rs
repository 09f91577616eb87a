use std::time::{Duration, SystemTime};
use xan_actor::cache::{CacheLookup, TxCache};
use xan_actor::delivery::single_lookup_target;
use xan_actor::error::ActorError;
use xan_actor::job::{JobAction, JobEvent, JobMachine, JobPhase, JobSignal, JobSpec};
use xan_actor::send::{SendAction, SendMachine, SendStage};

fn quiet_dispatches(spec: &JobSpec) -> usize {
    let (mut m, mut action) = JobMachine::start();
    let mut dispatches = 0;
    for _ in 0..1000 {
        let event = match action {
            JobAction::Exit => return dispatches,
            JobAction::Dispatch => {
                dispatches += 1;
                JobEvent::Dispatched
            }
            JobAction::WaitForResume => JobEvent::Signal(JobSignal::Resume),
            JobAction::WaitForStart | JobAction::WaitInterval(_) => JobEvent::Signal(JobSignal::Elapsed),
        };
        assert!(m.accepts(event));
        action = m.step(spec, event);
    }
    panic!("job did not end");
}

#[test]
fn job_machine_dispatches_exactly_the_cap() {
    let t = SystemTime::now();
    assert_eq!(quiet_dispatches(&JobSpec::new(Some(3), Some(Duration::from_millis(5)), t)), 3);
    assert_eq!(quiet_dispatches(&JobSpec::new(Some(0), Some(Duration::from_millis(5)), t)), 0);
    assert_eq!(quiet_dispatches(&JobSpec::new(None, None, t)), 1);
}

#[test]
fn job_machine_stop_resume_abort() {
    let spec = JobSpec::new(None, Some(Duration::from_millis(5)), SystemTime::now());
    let (mut m, _) = JobMachine::start();
    assert!(matches!(m.step(&spec, JobEvent::Signal(JobSignal::Stop)), JobAction::WaitForResume));
    assert!(!m.accepts(JobEvent::Signal(JobSignal::Elapsed)));
    assert!(matches!(m.step(&spec, JobEvent::Signal(JobSignal::Resume)), JobAction::Dispatch));
    assert!(matches!(m.step(&spec, JobEvent::Dispatched), JobAction::WaitInterval(d) if d == Duration::from_millis(5)));
    assert_eq!(m.done(), 1);
    assert!(matches!(m.step(&spec, JobEvent::Signal(JobSignal::Stop)), JobAction::WaitForResume));
    assert!(matches!(m.step(&spec, JobEvent::Signal(JobSignal::Resume)), JobAction::WaitForStart));
    assert!(matches!(m.step(&spec, JobEvent::Signal(JobSignal::Abort)), JobAction::Exit));
    assert!(matches!(m.step(&spec, JobEvent::Signal(JobSignal::Elapsed)), JobAction::Exit));
    assert_eq!(m.done(), 1);
    let _ = JobPhase::Finished;
}

#[test]
fn single_lookup_targets() {
    assert_eq!(single_lookup_target(Some((7u8, true)), "/a").unwrap(), 7);
    assert!(matches!(single_lookup_target(Some((7u8, false)), "/a"), Err(ActorError::ActorNotReady(n)) if n == "/a"));
    assert!(matches!(single_lookup_target::<u8>(None, "/a"), Err(ActorError::AddressNotFound(n)) if n == "/a"));
}

#[test]
fn send_through_cache_then_fresh_lookup() {
    let mut cache: TxCache<u32> = TxCache::new();
    cache.remember("/a".to_string(), "T".to_string(), 1);
    let (mut m, action) = SendMachine::start(&mut cache, true, "/a", "T");
    assert!(matches!(action, SendAction::Deliver(1)));
    assert_eq!(m.stage(), SendStage::TryingCached);
    // The cached delivery fails: the entry goes and the actor is looked up.
    assert!(matches!(m.on_delivered(&mut cache, "/a", false), SendAction::Find));
    assert!(matches!(cache.lookup("/a", "T"), CacheLookup::Miss));
    assert!(matches!(m.on_found(&mut cache, "/a", "T", Some((2, false))), SendAction::PauseThenFind));
    assert!(matches!(m.on_found(&mut cache, "/a", "T", Some((2, true))), SendAction::Deliver(2)));
    assert!(matches!(cache.lookup("/a", "T"), CacheLookup::Hit(&2)));
    assert!(matches!(m.on_delivered(&mut cache, "/a", false), SendAction::Finish));
    assert_eq!(m.stage(), SendStage::Over);
}

#[test]
fn send_cached_success_and_budget() {
    let mut cache: TxCache<u32> = TxCache::new();
    cache.remember("/a".to_string(), "T".to_string(), 1);
    let (mut m, _) = SendMachine::start(&mut cache, true, "/a", "T");
    assert!(matches!(m.on_delivered(&mut cache, "/a", true), SendAction::Finish));
    assert!(matches!(cache.lookup("/a", "T"), CacheLookup::Hit(&1)));
    // An entry of another type is dropped; without the cache nothing changes.
    let (_, action) = SendMachine::start(&mut cache, true, "/a", "U");
    assert!(matches!(action, SendAction::Find));
    assert!(matches!(cache.lookup("/a", "T"), CacheLookup::Miss));
    let (mut m, action) = SendMachine::start(&mut cache, false, "/b", "T");
    assert!(matches!(action, SendAction::Find));
    let mut lookups = 1;
    loop {
        match m.on_found(&mut cache, "/b", "T", Some((3, false))) {
            SendAction::PauseThenFind => lookups += 1,
            SendAction::Fail { error: ActorError::ActorNotReady(n), pause: true } => {
                assert_eq!(n, "/b");
                break;
            }
            other => panic!("unexpected {:?}", other),
        }
    }
    assert_eq!(lookups, 10);
    assert!(matches!(cache.lookup("/b", "T"), CacheLookup::Miss));
    let (mut m, _) = SendMachine::start(&mut cache, false, "/c", "T");
    assert!(matches!(m.on_found(&mut cache, "/c", "T", None), SendAction::Fail { error: ActorError::AddressNotFound(_), pause: false }));
}
