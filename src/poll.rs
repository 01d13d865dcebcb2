//! The fixed-rate poll cycle as a state machine. Each tick runs one
//! wait → sample → encode/submit → drain → service cycle. The caller performs
//! each returned action and reports its outcome as the next event.
use vstd::prelude::*;
use crate::report::{encode, encodes, InputState, KeyReport};

verus! {

/// Rate of the tick timer: one full cycle per period.
pub const TICK_HZ: u32 = 100;

/// How the transport took a submitted report. A rejection (host not ready,
/// endpoint busy) is transient and ignored by design: the next tick submits
/// a fresh report.
#[derive(Clone, Copy, Debug, PartialEq, Eq, Structural)]
pub enum Submission {
    Accepted,
    Rejected,
}

/// Where the loop stands within one cycle.
#[derive(Clone, Copy, Debug, PartialEq, Eq)]
pub enum Stage {
    AwaitingTick,
    Sampling,
    Submitting(KeyReport),
    Draining,
    Servicing,
}

/// What the loop asks its driver to do next.
#[derive(Clone, Copy, Debug, PartialEq, Eq)]
pub enum Action {
    /// Block until the tick timer elapses.
    WaitForTick,
    /// Read both switch lines.
    SampleInputs,
    /// Hand this report to the transport's input queue.
    Submit(KeyReport),
    /// Read pending host-to-device data into scratch space and discard it.
    DrainOutput,
    /// Let the transport service bus housekeeping; its result is ignored.
    ServiceBus,
}

/// What the driver observed after performing an action.
#[derive(Clone, Copy, Debug, PartialEq, Eq)]
pub enum Event {
    TickElapsed,
    Sampled(InputState),
    Submitted(Submission),
    Drained,
    Serviced,
}

/// The action that a stage waits on.
pub open spec fn pending_action(stage: Stage) -> Action {
    match stage {
        Stage::AwaitingTick => Action::WaitForTick,
        Stage::Sampling => Action::SampleInputs,
        Stage::Submitting(r) => Action::Submit(r),
        Stage::Draining => Action::DrainOutput,
        Stage::Servicing => Action::ServiceBus,
    }
}

/// `after` is the stage that follows `event` in `before`. An event that does
/// not answer the pending action leaves the stage unchanged.
pub open spec fn steps_to(before: Stage, event: Event, after: Stage) -> bool {
    match (before, event) {
        (Stage::AwaitingTick, Event::TickElapsed) => after == Stage::Sampling,
        (Stage::Sampling, Event::Sampled(s)) => after matches Stage::Submitting(r) && encodes(s, r),
        (Stage::Submitting(_), Event::Submitted(_)) => after == Stage::Draining,
        (Stage::Draining, Event::Drained) => after == Stage::Servicing,
        (Stage::Servicing, Event::Serviced) => after == Stage::AwaitingTick,
        _ => after == before,
    }
}

/// Positions `5 * i .. 5 * i + 5` of `trace` are one full cycle for the
/// sampled state `s`: sample, submit its report, drain, service, wait.
pub open spec fn is_cycle_at(trace: Seq<Action>, i: int, s: InputState) -> bool {
    &&& trace[5 * i] == Action::SampleInputs
    &&& trace[5 * i + 1] matches Action::Submit(r) && encodes(s, r)
    &&& trace[5 * i + 2] == Action::DrainOutput
    &&& trace[5 * i + 3] == Action::ServiceBus
    &&& trace[5 * i + 4] == Action::WaitForTick
}

/// The poll loop's state.
pub struct PollLoop {
    pub stage: Stage,
}

impl PollLoop {
    /// A report waiting to be submitted satisfies the report invariant.
    pub open spec fn well_formed(self) -> bool {
        self.stage matches Stage::Submitting(r) ==> r.well_formed()
    }

    /// A loop that waits for its first tick.
    pub fn new() -> (r: PollLoop)
        ensures
            r.stage == Stage::AwaitingTick,
            r.well_formed(),
    {
        PollLoop { stage: Stage::AwaitingTick }
    }

    /// The action the loop currently waits on.
    pub fn pending(&self) -> (a: Action)
        ensures
            a == pending_action(self.stage),
    {
        match self.stage {
            Stage::AwaitingTick => Action::WaitForTick,
            Stage::Sampling => Action::SampleInputs,
            Stage::Submitting(r) => Action::Submit(r),
            Stage::Draining => Action::DrainOutput,
            Stage::Servicing => Action::ServiceBus,
        }
    }

    /// Takes the outcome of the pending action and returns the next action.
    /// An event that does not answer the pending action leaves the stage as
    /// it is and asks for the pending action again. A sampled state is encoded
    /// into the report to submit; the outcome of a submission does not matter.
    pub fn step(&mut self, event: Event) -> (a: Action)
        ensures
            steps_to(old(self).stage, event, final(self).stage),
            a == pending_action(final(self).stage),
            old(self).well_formed() ==> final(self).well_formed(),
    {
        let next: Option<Stage> = match (self.stage, event) {
            (Stage::AwaitingTick, Event::TickElapsed) => Some(Stage::Sampling),
            (Stage::Sampling, Event::Sampled(s)) => Some(Stage::Submitting(encode(s))),
            (Stage::Submitting(_), Event::Submitted(_)) => Some(Stage::Draining),
            (Stage::Draining, Event::Drained) => Some(Stage::Servicing),
            (Stage::Servicing, Event::Serviced) => Some(Stage::AwaitingTick),
            _ => None,
        };
        if let Some(st) = next {
            self.stage = st;
        }
        self.pending()
    }
}

impl PollLoop {
    /// Drives the loop through one tick per entry of `inputs`, against a
    /// simulated timer that fires once per tick and a transport that answers
    /// the tick's submission with the matching entry of `outcomes`. Returns
    /// every action the loop asked for: exactly one full cycle per tick, each
    /// submitting the report of that tick's sample, whatever the transport
    /// answered before.
    pub fn run_ticks(&mut self, inputs: &Vec<InputState>, outcomes: &Vec<Submission>) -> (trace: Vec<Action>)
        requires
            old(self).stage == Stage::AwaitingTick,
            inputs.len() == outcomes.len(),
            5 * inputs.len() <= usize::MAX,
        ensures
            final(self).stage == Stage::AwaitingTick,
            trace@.len() == 5 * inputs@.len(),
            forall|i: int| 0 <= i < inputs@.len() ==> #[trigger] is_cycle_at(trace@, i, inputs@[i]),
    {
        let mut trace: Vec<Action> = Vec::new();
        let mut k: usize = 0;
        while k < inputs.len()
            invariant
                self.stage == Stage::AwaitingTick,
                inputs.len() == outcomes.len(),
                k <= inputs.len(),
                trace@.len() == 5 * k,
                forall|i: int| 0 <= i < k ==> #[trigger] is_cycle_at(trace@, i, inputs@[i]),
            decreases inputs.len() - k,
        {
            let ghost before = trace@;
            let a0 = self.step(Event::TickElapsed);
            let a1 = self.step(Event::Sampled(inputs[k]));
            let a2 = self.step(Event::Submitted(outcomes[k]));
            let a3 = self.step(Event::Drained);
            let a4 = self.step(Event::Serviced);
            trace.push(a0);
            trace.push(a1);
            trace.push(a2);
            trace.push(a3);
            trace.push(a4);
            assert forall|i: int| 0 <= i < k + 1 implies #[trigger] is_cycle_at(trace@, i, inputs@[i]) by {
                if i < k {
                    assert(is_cycle_at(before, i, inputs@[i]));
                }
            }
            k = k + 1;
        }
        trace
    }
}

/// The outcome of a submission never changes what the loop does next: a
/// rejected report leaves the loop in the stage an accepted one would.
pub proof fn lemma_rejection_is_transient(before: Stage, after_accepted: Stage, after_rejected: Stage)
    requires
        steps_to(before, Event::Submitted(Submission::Accepted), after_accepted),
        steps_to(before, Event::Submitted(Submission::Rejected), after_rejected),
    ensures
        after_accepted == after_rejected,
        pending_action(after_accepted) == pending_action(after_rejected),
{
}

/// The loop is deterministic: one stage and one event lead to one stage.
pub proof fn lemma_step_deterministic(before: Stage, event: Event, after1: Stage, after2: Stage)
    requires
        steps_to(before, event, after1),
        steps_to(before, event, after2),
    ensures
        after1 == after2,
{
    if let (Stage::Sampling, Event::Sampled(s)) = (before, event) {
        if let (Stage::Submitting(r1), Stage::Submitting(r2)) = (after1, after2) {
            crate::report::lemma_encode_is_pure(s, s, r1, r2);
        }
    }
}

/// Runs over the same samples perform the same actions, tick for tick,
/// whatever the transport answered: a rejected submission on one tick leaves
/// every later tick's sampling, encoding and submission as it would have been.
pub proof fn lemma_runs_ignore_submission_outcomes(inputs: Seq<InputState>, t1: Seq<Action>, t2: Seq<Action>)
    requires
        t1.len() == 5 * inputs.len(),
        t2.len() == 5 * inputs.len(),
        forall|i: int| 0 <= i < inputs.len() ==> #[trigger] is_cycle_at(t1, i, inputs[i]),
        forall|i: int| 0 <= i < inputs.len() ==> #[trigger] is_cycle_at(t2, i, inputs[i]),
    ensures
        t1 == t2,
{
    assert forall|p: int| 0 <= p < t1.len() implies t1[p] == t2[p] by {
        let i = p / 5;
        assert(0 <= i < inputs.len() && 5 * i <= p < 5 * i + 5) by (nonlinear_arith)
            requires
                0 <= p < t1.len(),
                t1.len() == 5 * inputs.len(),
                i == p / 5,
        ;
        assert(is_cycle_at(t1, i, inputs[i]));
        assert(is_cycle_at(t2, i, inputs[i]));
        if p == 5 * i + 1 {
            if let (Action::Submit(r1), Action::Submit(r2)) = (t1[p], t2[p]) {
                crate::report::lemma_encode_is_pure(inputs[i], inputs[i], r1, r2);
            }
        }
    }
    assert(t1 =~= t2);
}

} // verus!
