//! The engine under a caller that keeps to the protocol: what it asks for,
//! in what order, and which state it is in after any number of iterations.

use vstd::prelude::*;
use crate::dwell::{clamp, parameters_of, DwellParameters};
use crate::engine::{Action, Engine, Event, Phase};
use crate::state::State;

verus! {

/// The state in iteration `k` of a run that began in `initial`: the initial
/// state when `k` is even, its complement when `k` is odd.
pub open spec fn state_at(initial: State, k: nat) -> State {
    if k % 2 == 0 {
        initial
    } else {
        initial.complement()
    }
}

/// The three reports of one iteration whose sample was `raw_millis`.
pub open spec fn iteration(raw_millis: i64) -> Seq<Event> {
    seq![Event::Reflected, Event::Sampled { raw_millis }, Event::Slept]
}

/// The reports of as many whole iterations as there are samples, one sample
/// for each, in order.
pub open spec fn iterations(samples: Seq<i64>) -> Seq<Event>
    decreases samples.len(),
{
    if samples.len() == 0 {
        Seq::empty()
    } else {
        iterations(samples.drop_last()) + iteration(samples.last())
    }
}

/// The three actions of one iteration in `state` whose sample was
/// `raw_millis`.
pub open spec fn iteration_actions(state: State, raw_millis: i64) -> Seq<Action> {
    seq![
        Action::Reflect { state, level: state.level_spec() },
        Action::Sample { parameters: parameters_of(state) },
        Action::Sleep { millis: clamp(raw_millis as int) as u64 },
    ]
}

/// Running two sequences of events one after the other is running their
/// concatenation, and the actions asked for are those of the first run
/// followed by those of the second.
pub proof fn lemma_run_concat(engine: Engine, first: Seq<Event>, second: Seq<Event>)
    ensures
        engine.run(first + second) == engine.run(first).run(second),
        engine.trace(first + second) == engine.trace(first) + engine.run(first).trace(second),
    decreases second.len(),
{
    if second.len() == 0 {
        assert(first + second =~= first);
        assert(engine.trace(first) + engine.run(first).trace(second) =~= engine.trace(first));
    } else {
        let all = first + second;
        assert(all.drop_last() =~= first + second.drop_last());
        assert(all.last() == second.last());
        lemma_run_concat(engine, first, second.drop_last());
        assert(engine.trace(all) =~= engine.trace(first) + engine.run(first).trace(second));
    }
}

/// One iteration, from its start: the engine asks for the reflection of its
/// state, then for a sample with that state's parameters, then for a sleep of
/// the clamped sample, and ends at the start of an iteration in the
/// complement state.
pub proof fn lemma_iteration(state: State, raw_millis: i64)
    ensures
        Engine::start(state).run(iteration(raw_millis)) == Engine::start(state.complement()),
        Engine::start(state).trace(iteration(raw_millis)) == iteration_actions(
            state,
            raw_millis,
        ),
{
    let engine = Engine::start(state);
    let events = iteration(raw_millis);
    let two = events.drop_last();
    let one = two.drop_last();
    let none = one.drop_last();
    assert(none.len() == 0);
    assert(engine.run(none) == engine);
    assert(engine.trace(none) =~= Seq::<Action>::empty());
    assert(one.last() == Event::Reflected);
    assert(engine.run(one) == Engine { state, phase: Phase::Sample });
    assert(two.last() == Event::Sampled { raw_millis });
    assert(engine.run(two) == Engine {
        state,
        phase: Phase::Dwell { millis: clamp(raw_millis as int) as u64 },
    });
    assert(events.last() == Event::Slept);
    assert(engine.trace(one) =~= seq![engine.pending()]);
    assert(engine.trace(two) =~= engine.trace(one).push(engine.run(one).pending()));
    assert(engine.trace(events) =~= engine.trace(two).push(engine.run(two).pending()));
    assert(engine.trace(events) =~= iteration_actions(state, raw_millis));
}

/// State alternation: after any number of whole iterations the engine is at
/// the start of an iteration, in the initial state when that number is even
/// and in its complement when it is odd.
pub proof fn lemma_alternation(initial: State, samples: Seq<i64>)
    ensures
        Engine::start(initial).run(iterations(samples)) == Engine::start(
            state_at(initial, samples.len()),
        ),
    decreases samples.len(),
{
    if samples.len() > 0 {
        let before = samples.drop_last();
        lemma_alternation(initial, before);
        lemma_run_concat(Engine::start(initial), iterations(before), iteration(samples.last()));
        lemma_iteration(state_at(initial, before.len()), samples.last());
    }
}

/// The phase that an iteration is in after `done` of its three reports, when
/// its sample was `raw_millis`.
pub open spec fn phase_at(done: int, raw_millis: i64) -> Phase {
    if done == 0 {
        Phase::Reflect
    } else if done == 1 {
        Phase::Sample
    } else {
        Phase::Dwell { millis: clamp(raw_millis as int) as u64 }
    }
}

/// Whole iterations are three reports each.
pub proof fn lemma_iterations_len(samples: Seq<i64>)
    ensures
        iterations(samples).len() == 3 * samples.len(),
    decreases samples.len(),
{
    if samples.len() > 0 {
        lemma_iterations_len(samples.drop_last());
    }
}

/// The engine at every moment: after `k` whole iterations and `done` reports
/// of the next one, the state is `state_at(initial, k)`, whatever the
/// samples were, and the phase is the one that `done` reports lead to.
pub proof fn lemma_engine_at(initial: State, samples: Seq<i64>, k: int, done: int)
    requires
        0 <= k < samples.len(),
        0 <= done < 3,
    ensures
        3 * k + done < iterations(samples).len(),
        Engine::start(initial).run(iterations(samples).take(3 * k + done)) == (Engine {
            state: state_at(initial, k as nat),
            phase: phase_at(done, samples[k]),
        }),
    decreases samples.len(),
{
    let engine = Engine::start(initial);
    let before = samples.drop_last();
    let last = samples.last();
    let head = iterations(before);
    let prefix = iterations(samples).take(3 * k + done);
    lemma_iterations_len(samples);
    lemma_iterations_len(before);
    if k < before.len() {
        lemma_engine_at(initial, before, k, done);
        assert(prefix =~= head.take(3 * k + done));
    } else {
        let part = iteration(last).take(done);
        let begun = Engine::start(state_at(initial, k as nat));
        assert(prefix =~= head + part);
        lemma_run_concat(engine, head, part);
        lemma_alternation(initial, before);
        assert(begun.run(part.take(0)) == begun);
        if done >= 1 {
            assert(part.take(1).drop_last() =~= part.take(0));
            assert(begun.run(part.take(1)) == begun.after(Event::Reflected));
        }
        if done >= 2 {
            assert(part.take(2).drop_last() =~= part.take(1));
            assert(begun.run(part.take(2)) == begun.after(Event::Reflected).after(
                Event::Sampled { raw_millis: last },
            ));
        }
        assert(part.take(done) =~= part);
    }
}

/// The whole trace: over `n` iterations the engine asks for `3 * n` actions,
/// and iteration `k` asks, in this order, for the reflection of
/// `state_at(initial, k)`, for a sample with that state's parameters, and for
/// a sleep of the clamped `k`-th sample.
pub proof fn lemma_trace(initial: State, samples: Seq<i64>)
    ensures
        Engine::start(initial).trace(iterations(samples)).len() == 3 * samples.len(),
        forall|k: int|
            #![trigger samples[k]]
            0 <= k < samples.len() ==> Engine::start(initial).trace(
                iterations(samples),
            ).subrange(3 * k, 3 * k + 3) == iteration_actions(
                state_at(initial, k as nat),
                samples[k],
            ),
    decreases samples.len(),
{
    let engine = Engine::start(initial);
    let trace = engine.trace(iterations(samples));
    if samples.len() > 0 {
        let before = samples.drop_last();
        let last = samples.last();
        let n = before.len() as int;
        lemma_trace(initial, before);
        lemma_alternation(initial, before);
        lemma_run_concat(engine, iterations(before), iteration(last));
        lemma_iteration(state_at(initial, before.len()), last);
        let head = engine.trace(iterations(before));
        let tail = iteration_actions(state_at(initial, before.len()), last);
        assert(trace == head + tail);
        assert forall|k: int| 0 <= k < samples.len() implies #[trigger] trace.subrange(
            3 * k,
            3 * k + 3,
        ) == iteration_actions(state_at(initial, k as nat), samples[k]) by {
            if k < n {
                assert(before[k] == samples[k]);
                assert(trace.subrange(3 * k, 3 * k + 3) =~= head.subrange(3 * k, 3 * k + 3));
            } else {
                assert(trace.subrange(3 * k, 3 * k + 3) =~= tail);
            }
        }
    }
}

/// Reflect before dwell: in iteration `k` the line is driven to the level of
/// that iteration's state strictly before that iteration's sleep is asked
/// for, and after the sleep of every earlier iteration.
pub proof fn lemma_reflect_before_dwell(initial: State, samples: Seq<i64>, k: int)
    requires
        0 <= k < samples.len(),
    ensures
        3 * k < 3 * k + 2 < Engine::start(initial).trace(iterations(samples)).len(),
        Engine::start(initial).trace(iterations(samples))[3 * k] == (Action::Reflect {
            state: state_at(initial, k as nat),
            level: state_at(initial, k as nat).level_spec(),
        }),
        Engine::start(initial).trace(iterations(samples))[3 * k + 2] == (Action::Sleep {
            millis: clamp(samples[k] as int) as u64,
        }),
        forall|j: int|
            0 <= j < 3 * k + 2 ==> !(#[trigger] Engine::start(initial).trace(
                iterations(samples),
            )[j] is Sleep) || j % 3 == 2 && j / 3 < k,
{
    let trace = Engine::start(initial).trace(iterations(samples));
    lemma_trace(initial, samples);
    let here = trace.subrange(3 * k, 3 * k + 3);
    assert(here == iteration_actions(state_at(initial, k as nat), samples[k]));
    assert(trace[3 * k] == here[0]);
    assert(trace[3 * k + 2] == here[2]);
    assert forall|j: int| 0 <= j < 3 * k + 2 && (#[trigger] trace[j]) is Sleep implies j % 3 == 2
        && j / 3 < k by {
        let i = j / 3;
        let part = trace.subrange(3 * i, 3 * i + 3);
        assert(part == iteration_actions(state_at(initial, i as nat), samples[i]));
        assert(trace[j] == part[j - 3 * i]);
    }
}

/// The sample of every iteration is drawn with the parameters of the state
/// that is on the line: around 15000 ms, deviation 3000 ms, while `Off`;
/// around 10000 ms, deviation 1000 ms, while `On`.
pub proof fn lemma_sample_parameters(initial: State, samples: Seq<i64>, k: int)
    requires
        0 <= k < samples.len(),
    ensures
        Engine::start(initial).trace(iterations(samples))[3 * k + 1] == (Action::Sample {
            parameters: parameters_of(state_at(initial, k as nat)),
        }),
        state_at(initial, k as nat) == State::Off ==> parameters_of(state_at(initial, k as nat))
            == (DwellParameters { mean: 15000, std_dev: 3000 }),
        state_at(initial, k as nat) == State::On ==> parameters_of(state_at(initial, k as nat))
            == (DwellParameters { mean: 10000, std_dev: 1000 }),
{
    let trace = Engine::start(initial).trace(iterations(samples));
    lemma_trace(initial, samples);
    let here = trace.subrange(3 * k, 3 * k + 3);
    assert(here == iteration_actions(state_at(initial, k as nat), samples[k]));
    assert(trace[3 * k + 1] == here[1]);
}

} // verus!
