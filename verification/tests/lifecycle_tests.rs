use xan_actor::error::ActorError;
use xan_actor::lifecycle::{
    after_register_send, exit_phases, next_phase, on_handler_error, registration_outcome, registration_phase, startup_hooks,
    teardown_hooks, ActorEvent, Hook, LoopExit, RegisterStep, RegistrationOutcome, REGISTER_RETRY_LIMIT,
};
use xan_actor::{ErrorHandling, LifeCycle};

#[test]
fn policies_map_to_loop_exits() {
    assert_eq!(on_handler_error(ErrorHandling::Resume), None);
    assert_eq!(on_handler_error(ErrorHandling::Restart), Some(LoopExit::Restart));
    assert_eq!(on_handler_error(ErrorHandling::Stop), Some(LoopExit::Stop));
}

#[test]
fn phases_of_a_run() {
    assert_eq!(registration_phase(false), LifeCycle::Starting);
    assert_eq!(registration_phase(true), LifeCycle::Starting);
    assert_eq!(next_phase(LifeCycle::Restarting, ActorEvent::Registered), LifeCycle::Starting);
    assert_eq!(next_phase(LifeCycle::Receiving, ActorEvent::Registered), LifeCycle::Receiving);
    assert_eq!(next_phase(LifeCycle::Starting, ActorEvent::Started), LifeCycle::Receiving);
    assert_eq!(next_phase(LifeCycle::Restarting, ActorEvent::Started), LifeCycle::Receiving);
    assert_eq!(next_phase(LifeCycle::Receiving, ActorEvent::LeftLoop), LifeCycle::Stopping);
    assert_eq!(next_phase(LifeCycle::Stopping, ActorEvent::TornDown(LoopExit::Stop)), LifeCycle::Terminated);
    assert_eq!(next_phase(LifeCycle::Stopping, ActorEvent::TornDown(LoopExit::Restart)), LifeCycle::Restarting);
    assert_eq!(next_phase(LifeCycle::Terminated, ActorEvent::Started), LifeCycle::Terminated);
    assert_eq!(exit_phases(LoopExit::Stop), vec![LifeCycle::Stopping, LifeCycle::Terminated]);
    assert_eq!(exit_phases(LoopExit::Restart), vec![LifeCycle::Stopping, LifeCycle::Restarting]);
}

#[test]
fn registration_answers() {
    assert!(matches!(registration_outcome(Ok(Ok(())), "/a"), RegistrationOutcome::Proceed));
    match registration_outcome(Ok(Err(ActorError::AddressNotOwned("b:/a".to_string()))), "/a") {
        RegistrationOutcome::Abort { report, exit } => {
            assert!(matches!(report, ActorError::AddressNotOwned(s) if s == "b:/a"));
            assert!(matches!(exit, ActorError::AddressAlreadyExist(s) if s == "/a"));
        }
        other => panic!("unexpected {:?}", other),
    }
    let (tx, rx) = tokio::sync::oneshot::channel::<Result<(), ActorError>>();
    drop(tx);
    let dropped = rx.blocking_recv();
    match registration_outcome(dropped, "/a") {
        RegistrationOutcome::Abort { report, exit } => {
            assert!(matches!(report, ActorError::OneshotRecv(_)));
            assert!(matches!(exit, ActorError::UnhealthyActorSystem));
        }
        other => panic!("unexpected {:?}", other),
    }
}

#[test]
fn registration_send_retries_then_gives_up() {
    assert!(matches!(after_register_send(true, 0), (RegisterStep::AwaitAnswer, 0)));
    assert!(matches!(after_register_send(true, 4), (RegisterStep::AwaitAnswer, 4)));
    let mut failures = 0u32;
    let mut sends = 0u32;
    loop {
        sends += 1;
        let (step, f) = after_register_send(false, failures);
        failures = f;
        match step {
            RegisterStep::Resend => continue,
            RegisterStep::GiveUp(e) => {
                assert!(matches!(e, ActorError::UnhealthyActorSystem));
                break;
            }
            RegisterStep::AwaitAnswer => panic!("a failed send never waits"),
        }
    }
    assert_eq!(sends, REGISTER_RETRY_LIMIT + 1);
    assert_eq!(failures, 11);
    assert!(matches!(after_register_send(false, 9), (RegisterStep::Resend, 10)));
    assert!(matches!(after_register_send(false, 10), (RegisterStep::GiveUp(ActorError::UnhealthyActorSystem), 11)));
}

#[test]
fn hooks_in_order() {
    assert_eq!(teardown_hooks(LoopExit::Stop), vec![Hook::PostStop]);
    assert_eq!(teardown_hooks(LoopExit::Restart), vec![Hook::PostStop, Hook::PreRestart]);
    assert_eq!(startup_hooks(false), vec![Hook::PreStart]);
    assert_eq!(startup_hooks(true), vec![Hook::PostRestart, Hook::PreStart]);
    let mut restart = teardown_hooks(LoopExit::Restart);
    restart.extend(startup_hooks(true));
    assert_eq!(restart, vec![Hook::PostStop, Hook::PreRestart, Hook::PostRestart, Hook::PreStart]);
}
