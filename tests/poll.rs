use wavier_keys::poll::{Action, Event, PollLoop, Stage, Submission};
use wavier_keys::report::{encode, InputState, SWITCH_A_KEYCODE, SWITCH_B_KEYCODE};

fn state(a: bool, b: bool) -> InputState {
    InputState { switch_a: a, switch_b: b }
}

#[test]
fn new_loop_waits_for_a_tick() {
    let p = PollLoop::new();
    assert_eq!(p.stage, Stage::AwaitingTick);
    assert_eq!(p.pending(), Action::WaitForTick);
}

#[test]
fn one_cycle_runs_in_order() {
    let mut p = PollLoop::new();
    assert_eq!(p.step(Event::TickElapsed), Action::SampleInputs);
    let a = p.step(Event::Sampled(state(false, true)));
    assert_eq!(a, Action::Submit(encode(state(false, true))));
    match a {
        Action::Submit(r) => assert_eq!(r.keycodes, [SWITCH_B_KEYCODE, 0, 0, 0, 0, 0]),
        _ => panic!("expected a submission"),
    }
    assert_eq!(p.step(Event::Submitted(Submission::Accepted)), Action::DrainOutput);
    assert_eq!(p.step(Event::Drained), Action::ServiceBus);
    assert_eq!(p.step(Event::Serviced), Action::WaitForTick);
    assert_eq!(p.stage, Stage::AwaitingTick);
}

#[test]
fn unexpected_event_repeats_pending_action() {
    let mut p = PollLoop::new();
    assert_eq!(p.step(Event::Drained), Action::WaitForTick);
    assert_eq!(p.stage, Stage::AwaitingTick);
    p.step(Event::TickElapsed);
    assert_eq!(p.step(Event::TickElapsed), Action::SampleInputs);
    let a = p.step(Event::Sampled(state(true, false)));
    assert_eq!(p.step(Event::Serviced), a);
}

#[test]
fn rejected_submission_moves_on_like_accepted() {
    let mut accepted = PollLoop::new();
    let mut rejected = PollLoop::new();
    for p in [&mut accepted, &mut rejected] {
        p.step(Event::TickElapsed);
        p.step(Event::Sampled(state(true, true)));
    }
    let a1 = accepted.step(Event::Submitted(Submission::Accepted));
    let a2 = rejected.step(Event::Submitted(Submission::Rejected));
    assert_eq!(a1, a2);
    assert_eq!(accepted.stage, rejected.stage);
}

#[test]
fn n_ticks_give_n_cycles() {
    for n in [0usize, 1, 2, 7] {
        let inputs: Vec<InputState> = (0..n).map(|i| state(i % 2 == 0, i % 3 == 0)).collect();
        let outcomes = vec![Submission::Accepted; n];
        let mut p = PollLoop::new();
        let trace = p.run_ticks(&inputs, &outcomes);
        assert_eq!(trace.len(), 5 * n);
        let submits = trace.iter().filter(|a| matches!(a, Action::Submit(_))).count();
        let samples = trace.iter().filter(|a| **a == Action::SampleInputs).count();
        let waits = trace.iter().filter(|a| **a == Action::WaitForTick).count();
        assert_eq!((submits, samples, waits), (n, n, n));
        assert_eq!(p.stage, Stage::AwaitingTick);
    }
}

#[test]
fn each_tick_is_one_full_cycle() {
    let inputs = vec![state(false, false), state(true, false), state(false, true), state(true, true)];
    let outcomes = vec![Submission::Accepted; 4];
    let mut p = PollLoop::new();
    let trace = p.run_ticks(&inputs, &outcomes);
    for (i, s) in inputs.iter().enumerate() {
        assert_eq!(
            trace[5 * i..5 * i + 5].to_vec(),
            vec![
                Action::SampleInputs,
                Action::Submit(encode(*s)),
                Action::DrainOutput,
                Action::ServiceBus,
                Action::WaitForTick,
            ]
        );
    }
}

#[test]
fn failure_on_one_tick_does_not_disturb_the_next() {
    let inputs = vec![state(true, false), state(false, true), state(false, true)];
    let mut ok = PollLoop::new();
    let mut failing = PollLoop::new();
    let t_ok = ok.run_ticks(&inputs, &vec![Submission::Accepted; 3]);
    let t_fail = failing.run_ticks(
        &inputs,
        &vec![Submission::Accepted, Submission::Rejected, Submission::Accepted],
    );
    assert_eq!(t_ok, t_fail);
    match t_fail[5 * 2 + 1] {
        Action::Submit(r) => assert_eq!(r.keycodes, [SWITCH_B_KEYCODE, 0, 0, 0, 0, 0]),
        _ => panic!("expected a submission"),
    }
    match t_fail[1] {
        Action::Submit(r) => assert_eq!(r.keycodes[0], SWITCH_A_KEYCODE),
        _ => panic!("expected a submission"),
    }
}

#[test]
fn every_submission_rejected_still_keeps_cadence() {
    let inputs = vec![state(true, false); 5];
    let mut p = PollLoop::new();
    let trace = p.run_ticks(&inputs, &vec![Submission::Rejected; 5]);
    assert_eq!(trace.len(), 25);
    assert_eq!(trace.iter().filter(|a| matches!(a, Action::Submit(_))).count(), 5);
}
