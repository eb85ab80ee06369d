use duty_cycle::dwell::DwellParameters;
use duty_cycle::engine::{Action, Engine, Event, Phase};
use duty_cycle::state::{Level, State};

/// What a stand-in for the outside world saw, in the order it saw it.
#[derive(Debug, PartialEq)]
enum Seen {
    Drive(Level, &'static str),
    Draw(u32, u32),
    Sleep(u64),
}

/// Runs the engine through one iteration per sample, performing nothing and
/// recording everything. Returns the record and the states of the iterations.
fn rehearse(initial: State, samples: &[i64]) -> (Vec<Seen>, Vec<State>, Engine) {
    let mut engine = Engine::new(initial);
    let mut seen = Vec::new();
    let mut states = Vec::new();
    let mut action = engine.action();
    for &raw_millis in samples {
        states.push(engine.state);
        for _ in 0..3 {
            let event = match action {
                Action::Reflect { state, level } => {
                    seen.push(Seen::Drive(level, state.marker()));
                    Event::Reflected
                }
                Action::Sample { parameters } => {
                    seen.push(Seen::Draw(parameters.mean, parameters.std_dev));
                    Event::Sampled { raw_millis }
                }
                Action::Sleep { millis } => {
                    seen.push(Seen::Sleep(millis));
                    Event::Slept
                }
            };
            action = engine.step(event).expect("the event reports the pending action");
        }
    }
    (seen, states, engine)
}

#[test]
fn new_engine_waits_to_reflect_its_state() {
    let engine = Engine::new(State::On);
    assert_eq!(engine, Engine { state: State::On, phase: Phase::Reflect });
    assert_eq!(engine.action(), Action::Reflect { state: State::On, level: Level::High });
    let engine = Engine::new(State::Off);
    assert_eq!(engine.action(), Action::Reflect { state: State::Off, level: Level::Low });
}

#[test]
fn one_iteration_step_by_step() {
    let mut engine = Engine::new(State::On);
    assert_eq!(
        engine.step(Event::Reflected),
        Some(Action::Sample { parameters: DwellParameters { mean: 10000, std_dev: 1000 } })
    );
    assert_eq!(engine, Engine { state: State::On, phase: Phase::Sample });
    assert_eq!(
        engine.step(Event::Sampled { raw_millis: 9876 }),
        Some(Action::Sleep { millis: 9876 })
    );
    assert_eq!(engine, Engine { state: State::On, phase: Phase::Dwell { millis: 9876 } });
    assert_eq!(
        engine.step(Event::Slept),
        Some(Action::Reflect { state: State::Off, level: Level::Low })
    );
    assert_eq!(engine, Engine::new(State::Off));
}

#[test]
fn states_alternate_starting_on() {
    let (_, states, engine) = rehearse(State::On, &[1, 2, 3, 4, 5]);
    assert_eq!(states, vec![State::On, State::Off, State::On, State::Off, State::On]);
    assert_eq!(engine, Engine::new(State::Off));
}

#[test]
fn states_alternate_starting_off() {
    let (_, states, engine) = rehearse(State::Off, &[0, 0, 0, 0]);
    assert_eq!(states, vec![State::Off, State::On, State::Off, State::On]);
    assert_eq!(engine, Engine::new(State::Off));
}

#[test]
fn state_at_iteration_depends_on_parity() {
    for initial in [State::On, State::Off] {
        let samples = vec![100i64; 25];
        let (_, states, _) = rehearse(initial, &samples);
        for (k, state) in states.iter().enumerate() {
            let expected = if k % 2 == 0 { initial } else { !initial };
            assert_eq!(*state, expected);
        }
    }
}

#[test]
fn sampling_uses_the_parameters_of_the_current_state() {
    let (seen, _, _) = rehearse(State::Off, &[15000, 10000]);
    assert_eq!(seen[1], Seen::Draw(15000, 3000));
    assert_eq!(seen[4], Seen::Draw(10000, 1000));
}

#[test]
fn line_is_driven_before_each_dwell() {
    let samples = [12000i64, -40, 9000, 0];
    let (seen, _, _) = rehearse(State::On, &samples);
    assert_eq!(
        seen,
        vec![
            Seen::Drive(Level::High, "On"),
            Seen::Draw(10000, 1000),
            Seen::Sleep(12000),
            Seen::Drive(Level::Low, "Off"),
            Seen::Draw(15000, 3000),
            Seen::Sleep(0),
            Seen::Drive(Level::High, "On"),
            Seen::Draw(10000, 1000),
            Seen::Sleep(9000),
            Seen::Drive(Level::Low, "Off"),
            Seen::Draw(15000, 3000),
            Seen::Sleep(0),
        ]
    );
    for k in 0..samples.len() {
        let drive = seen
            .iter()
            .enumerate()
            .filter(|(_, s)| matches!(s, Seen::Drive(..)))
            .nth(k)
            .map(|(i, _)| i);
        let sleep = seen
            .iter()
            .enumerate()
            .filter(|(_, s)| matches!(s, Seen::Sleep(..)))
            .nth(k)
            .map(|(i, _)| i);
        assert!(drive.is_some() && sleep.is_some());
        assert!(drive < sleep);
    }
}

#[test]
fn negative_sample_means_no_dwell() {
    let mut engine = Engine::new(State::Off);
    engine.step(Event::Reflected);
    assert_eq!(engine.step(Event::Sampled { raw_millis: -1 }), Some(Action::Sleep { millis: 0 }));
    assert_eq!(
        engine.step(Event::Slept),
        Some(Action::Reflect { state: State::On, level: Level::High })
    );
}

#[test]
fn event_out_of_turn_changes_nothing() {
    let mut engine = Engine::new(State::On);
    assert_eq!(engine.step(Event::Slept), None);
    assert_eq!(engine.step(Event::Sampled { raw_millis: 5 }), None);
    assert_eq!(engine, Engine::new(State::On));

    engine.step(Event::Reflected);
    let waiting = engine;
    assert_eq!(engine.step(Event::Reflected), None);
    assert_eq!(engine.step(Event::Slept), None);
    assert_eq!(engine, waiting);

    engine.step(Event::Sampled { raw_millis: 5 });
    let dwelling = engine;
    assert_eq!(engine.step(Event::Reflected), None);
    assert_eq!(engine.step(Event::Sampled { raw_millis: 6 }), None);
    assert_eq!(engine, dwelling);
    assert_eq!(engine.action(), Action::Sleep { millis: 5 });
}
