use winsvc::run_level::{RunLevel, RunLevelCoordinator};
use winsvc::service_dispatcher::{
    acknowledgement, ServiceEvent, ERROR_CALL_NOT_IMPLEMENTED, NO_ERROR, SERVICE_CONTROL_CONTINUE,
    SERVICE_CONTROL_INTERROGATE, SERVICE_CONTROL_PARAMCHANGE, SERVICE_CONTROL_PAUSE,
    SERVICE_CONTROL_STOP,
};
use winsvc::Error;

#[test]
fn decode_control_codes() {
    assert!(matches!(
        ServiceEvent::from_raw(SERVICE_CONTROL_INTERROGATE),
        Some(ServiceEvent::Interrogate)
    ));
    assert!(matches!(
        ServiceEvent::from_raw(SERVICE_CONTROL_PARAMCHANGE),
        Some(ServiceEvent::ParamChange)
    ));
    assert!(matches!(
        ServiceEvent::from_raw(SERVICE_CONTROL_PAUSE),
        Some(ServiceEvent::Pause)
    ));
    assert!(matches!(
        ServiceEvent::from_raw(SERVICE_CONTROL_CONTINUE),
        Some(ServiceEvent::Continue)
    ));
    assert!(matches!(
        ServiceEvent::from_raw(SERVICE_CONTROL_STOP),
        Some(ServiceEvent::Stop)
    ));
    assert!(ServiceEvent::from_raw(0).is_none());
    assert!(ServiceEvent::from_raw(5).is_none());
    assert!(ServiceEvent::from_raw(99).is_none());
    assert!(ServiceEvent::from_raw(u32::MAX).is_none());
}

#[test]
fn acknowledgement_maps_handler_outcomes() {
    assert_eq!(acknowledgement(SERVICE_CONTROL_PAUSE, Ok(())), NO_ERROR);
    assert_eq!(
        acknowledgement(SERVICE_CONTROL_PAUSE, Err(Error { code: 5 })),
        5
    );
    assert_eq!(acknowledgement(SERVICE_CONTROL_STOP, Ok(())), NO_ERROR);
    // Interrogate always acknowledges success, whatever the handler said.
    assert_eq!(
        acknowledgement(SERVICE_CONTROL_INTERROGATE, Err(Error { code: 5 })),
        NO_ERROR
    );
    assert_eq!(
        acknowledgement(SERVICE_CONTROL_INTERROGATE, Ok(())),
        NO_ERROR
    );
}

#[test]
fn initial_coordinator_is_started() {
    let c = RunLevelCoordinator::new();
    assert_eq!(c.intention, RunLevel::Started);
    assert!(c.running);
    assert!(!c.paused);
}

#[test]
fn pause_while_started_moves_signals() {
    let mut c = RunLevelCoordinator::new();
    let ack = c.handle_control(SERVICE_CONTROL_PAUSE);
    assert_eq!(ack, NO_ERROR);
    assert_eq!(c.intention, RunLevel::Paused);
    assert!(!c.running);
    assert!(c.paused);
}

#[test]
fn continue_while_paused_moves_signals() {
    let mut c = RunLevelCoordinator::new();
    assert_eq!(c.handle_control(SERVICE_CONTROL_PAUSE), NO_ERROR);
    let ack = c.handle_control(SERVICE_CONTROL_CONTINUE);
    assert_eq!(ack, NO_ERROR);
    assert_eq!(c.intention, RunLevel::Started);
    assert!(c.running);
    assert!(!c.paused);
}

#[test]
fn last_transition_decides_the_level() {
    // No Pause/Continue/Stop at all: the level stays Started.
    let mut c = RunLevelCoordinator::new();
    c.handle_control(SERVICE_CONTROL_INTERROGATE);
    c.handle_control(SERVICE_CONTROL_PARAMCHANGE);
    c.handle_control(77);
    assert_eq!(c.intention, RunLevel::Started);

    // The level follows the last Pause or Continue, and Interrogate,
    // ParamChange and unrecognized codes never move it.
    let mut c = RunLevelCoordinator::new();
    c.handle_control(SERVICE_CONTROL_INTERROGATE);
    c.handle_control(SERVICE_CONTROL_PAUSE);
    c.handle_control(SERVICE_CONTROL_PARAMCHANGE);
    assert_eq!(c.intention, RunLevel::Paused);
    c.handle_control(SERVICE_CONTROL_CONTINUE);
    c.handle_control(SERVICE_CONTROL_PAUSE);
    c.handle_control(SERVICE_CONTROL_CONTINUE);
    c.handle_control(99);
    assert_eq!(c.intention, RunLevel::Started);
    c.handle_control(SERVICE_CONTROL_PAUSE);
    c.handle_control(SERVICE_CONTROL_PAUSE);
    assert_eq!(c.intention, RunLevel::Paused);
}

#[test]
fn stop_is_terminal() {
    let mut c = RunLevelCoordinator::new();
    assert_eq!(c.handle_control(SERVICE_CONTROL_STOP), NO_ERROR);
    assert_eq!(c.intention, RunLevel::Stopped);
    assert!(!c.running);
    assert!(!c.paused);
    // No subsequent event moves the level or the signals.
    c.handle_control(SERVICE_CONTROL_PAUSE);
    assert_eq!(c.intention, RunLevel::Stopped);
    c.handle_control(SERVICE_CONTROL_CONTINUE);
    assert_eq!(c.intention, RunLevel::Stopped);
    c.handle_control(SERVICE_CONTROL_INTERROGATE);
    c.handle_control(123);
    assert_eq!(c.intention, RunLevel::Stopped);
    assert!(!c.running);
    assert!(!c.paused);
}

#[test]
fn unrecognized_control_changes_nothing() {
    // At every run level an unrecognized code is acknowledged as not
    // implemented and leaves intention and signals alone.
    let mut started = RunLevelCoordinator::new();
    assert_eq!(started.handle_control(200), ERROR_CALL_NOT_IMPLEMENTED);
    assert_eq!(started.intention, RunLevel::Started);
    assert!(started.running && !started.paused);

    let mut paused = RunLevelCoordinator::new();
    paused.handle_control(SERVICE_CONTROL_PAUSE);
    assert_eq!(paused.handle_control(200), ERROR_CALL_NOT_IMPLEMENTED);
    assert_eq!(paused.intention, RunLevel::Paused);
    assert!(!paused.running && paused.paused);

    let mut stopped = RunLevelCoordinator::new();
    stopped.handle_control(SERVICE_CONTROL_STOP);
    assert_eq!(stopped.handle_control(200), ERROR_CALL_NOT_IMPLEMENTED);
    assert_eq!(stopped.intention, RunLevel::Stopped);
    assert!(!stopped.running && !stopped.paused);
}

#[test]
fn param_change_is_not_implemented() {
    let mut c = RunLevelCoordinator::new();
    assert_eq!(
        c.handle_control(SERVICE_CONTROL_PARAMCHANGE),
        ERROR_CALL_NOT_IMPLEMENTED
    );
    assert_eq!(c.intention, RunLevel::Started);
}

#[test]
fn interrogate_acknowledges_success_without_moving() {
    let mut c = RunLevelCoordinator::new();
    c.handle_control(SERVICE_CONTROL_PAUSE);
    assert_eq!(c.handle_control(SERVICE_CONTROL_INTERROGATE), NO_ERROR);
    assert_eq!(c.intention, RunLevel::Paused);
}

#[test]
fn handle_event_outcomes() {
    let mut c = RunLevelCoordinator::new();
    assert!(c.handle_event(ServiceEvent::Pause).is_ok());
    assert!(c.handle_event(ServiceEvent::Continue).is_ok());
    assert!(c.handle_event(ServiceEvent::Stop).is_ok());
    let mut c = RunLevelCoordinator::new();
    assert_eq!(
        c.handle_event(ServiceEvent::Interrogate),
        Err(Error {
            code: ERROR_CALL_NOT_IMPLEMENTED
        })
    );
    assert_eq!(
        c.handle_event(ServiceEvent::ParamChange),
        Err(Error {
            code: ERROR_CALL_NOT_IMPLEMENTED
        })
    );
}
