use std::time::{Duration, SystemTime};
use xan_actor::job::{job_id_or_fresh, on_signal, JobControl, JobRun, JobSignal, JobSpec, JobStep};
use xan_actor::JobStatus;

#[test]
fn single_shot_job_is_capped_at_one() {
    let t = SystemTime::now();
    let spec = JobSpec::new(Some(5), None, t);
    assert_eq!(spec.max_iter(), Some(1));
    assert_eq!(spec.interval(), None);
    assert_eq!(spec.start_at(), t);
    let spec = JobSpec::new(None, None, t);
    assert_eq!(spec.max_iter(), Some(1));
    let spec = JobSpec::new(None, Some(Duration::from_millis(50)), t);
    assert_eq!(spec.max_iter(), None);
    assert_eq!(spec.interval(), Some(Duration::from_millis(50)));
    let d = JobSpec::default();
    assert_eq!(d.max_iter(), Some(1));
    assert_eq!(d.interval(), None);
}

#[test]
fn capped_job_runs_exactly_max_iter_times() {
    let spec = JobSpec::new(Some(3), Some(Duration::from_millis(50)), SystemTime::now());
    let mut run = JobRun::new();
    let mut steps = Vec::new();
    loop {
        let step = run.after_dispatch(&spec);
        steps.push(step);
        if let JobStep::Finish = step {
            break;
        }
    }
    assert_eq!(run.done(), 3);
    assert!(matches!(steps[0], JobStep::Wait(d) if d == Duration::from_millis(50)));
    assert!(matches!(steps[1], JobStep::Wait(_)));
    assert!(matches!(steps[2], JobStep::Finish));
}

#[test]
fn single_shot_job_finishes_after_one_dispatch() {
    let spec = JobSpec::new(Some(2), None, SystemTime::now());
    let mut run = JobRun::new();
    assert!(matches!(run.after_dispatch(&spec), JobStep::Finish));
    assert_eq!(run.done(), 1);
}

#[test]
fn uncapped_job_keeps_going() {
    let spec = JobSpec::new(None, Some(Duration::from_millis(1)), SystemTime::now());
    let mut run = JobRun::new();
    for _ in 0..100 {
        assert!(matches!(run.after_dispatch(&spec), JobStep::Wait(_)));
    }
    assert_eq!(run.done(), 100);
}

#[test]
fn control_signals() {
    assert_eq!(on_signal(JobStatus::Running, JobSignal::Elapsed), (JobStatus::Running, JobControl::Proceed));
    assert_eq!(on_signal(JobStatus::Running, JobSignal::Stop), (JobStatus::Stopped, JobControl::Pause));
    assert_eq!(on_signal(JobStatus::Stopped, JobSignal::Resume), (JobStatus::Running, JobControl::Proceed));
    assert_eq!(on_signal(JobStatus::Stopped, JobSignal::Abort), (JobStatus::Stopped, JobControl::Exit));
    assert_eq!(on_signal(JobStatus::Running, JobSignal::Abort), (JobStatus::Running, JobControl::Exit));
}

#[test]
fn job_ids() {
    assert_eq!(job_id_or_fresh(Some("job".to_string())), "job");
    let a = job_id_or_fresh(None);
    let b = job_id_or_fresh(None);
    assert_eq!(a.len(), 36);
    assert_ne!(a, b);
    for id in [&a, &b] {
        let chars: Vec<char> = id.chars().collect();
        assert_eq!(chars[14], '4', "version digit of {}", id);
        assert!(matches!(chars[19], '8' | '9' | 'a' | 'b'), "variant digit of {}", id);
        for (i, c) in id.chars().enumerate() {
            if i == 8 || i == 13 || i == 18 || i == 23 {
                assert_eq!(c, '-');
            } else {
                assert!(c.is_ascii_digit() || ('a'..='f').contains(&c), "{} in {}", c, id);
            }
        }
    }
}

#[test]
fn cap_of_zero_never_dispatches() {
    let spec = JobSpec::new(Some(0), Some(Duration::from_millis(5)), SystemTime::now());
    let run = JobRun::new();
    assert!(!run.should_dispatch(&spec));
    assert_eq!(run.done(), 0);
}

#[test]
fn dispatch_allowed_until_cap() {
    let spec = JobSpec::new(Some(2), Some(Duration::from_millis(5)), SystemTime::now());
    let mut run = JobRun::new();
    let mut dispatched = 0;
    while run.should_dispatch(&spec) {
        dispatched += 1;
        if let JobStep::Finish = run.after_dispatch(&spec) {
            break;
        }
    }
    assert_eq!(dispatched, 2);
    assert!(!run.should_dispatch(&spec));
    let uncapped = JobSpec::new(None, Some(Duration::from_millis(5)), SystemTime::now());
    assert!(run.should_dispatch(&uncapped));
}
