use duty_cycle::state::{Level, State};

#[test]
fn complement_swaps_on_and_off() {
    assert_eq!(!State::On, State::Off);
    assert_eq!(!State::Off, State::On);
}

#[test]
fn complement_twice_is_identity() {
    for state in [State::On, State::Off] {
        assert_eq!(!!state, state);
        assert_ne!(!state, state);
    }
}

#[test]
fn state_from_bool() {
    assert_eq!(State::from(true), State::On);
    assert_eq!(State::from(false), State::Off);
    let on: State = true.into();
    let off: State = false.into();
    assert_eq!(on, State::On);
    assert_eq!(off, State::Off);
}

#[test]
fn flipping_the_boolean_flips_the_state() {
    for b in [true, false] {
        assert_eq!(State::from(!b), !State::from(b));
    }
}

#[test]
fn level_follows_state() {
    assert_eq!(State::On.level(), Level::High);
    assert_eq!(State::Off.level(), Level::Low);
}

#[test]
fn marker_text() {
    assert_eq!(State::On.marker(), "On");
    assert_eq!(State::Off.marker(), "Off");
}
