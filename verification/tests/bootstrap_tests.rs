use duty_cycle::bootstrap::{
    bootstrap, initial_state, AcquisitionError, Fatal, OUTPUT_PIN, START_ON,
};
use duty_cycle::engine::{Action, Engine, Phase};
use duty_cycle::state::{Level, State};

/// An acquisition that never succeeds.
fn refuse(pin: u8) -> Result<Vec<u8>, AcquisitionError> {
    Err(AcquisitionError::PinNotAvailable { pin })
}

#[test]
fn built_in_configuration() {
    assert!(START_ON);
    assert_eq!(OUTPUT_PIN, 4);
    assert_eq!(initial_state(), State::On);
}

#[test]
fn failed_acquisition_is_fatal_and_starts_nothing() {
    let started = bootstrap(refuse(OUTPUT_PIN));
    assert_eq!(started, Err(Fatal { cause: AcquisitionError::PinNotAvailable { pin: 4 } }));
}

#[test]
fn every_cause_is_fatal() {
    let causes = [
        AcquisitionError::ControllerUnavailable,
        AcquisitionError::PinNotAvailable { pin: 4 },
        AcquisitionError::PermissionDenied,
        AcquisitionError::PinOutOfRange { pin: 200 },
    ];
    for cause in causes {
        let started = bootstrap::<()>(Err(cause));
        assert_eq!(started, Err(Fatal { cause }));
    }
}

#[test]
fn fatal_message_names_the_pin() {
    let fatal = Fatal { cause: AcquisitionError::PermissionDenied };
    assert_eq!(fatal.message(), "Pin not available.");
}

#[test]
fn acquired_line_starts_the_engine_on() {
    let started = bootstrap::<Vec<u8>>(Ok(vec![4]));
    let (line, engine) = started.expect("the line was acquired");
    assert_eq!(line, vec![4]);
    assert_eq!(engine, Engine { state: State::On, phase: Phase::Reflect });
    assert_eq!(engine.action(), Action::Reflect { state: State::On, level: Level::High });
}
