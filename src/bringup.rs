//! The register-level bring-up that follows clock locking and precedes the
//! USB transport: clock recovery with automatic trimming first, then the USB
//! transceiver supply. The caller applies each step to the hardware in order.
use vstd::prelude::*;

verus! {

/// One register write of the bring-up.
#[derive(Clone, Copy, Debug, PartialEq, Eq, Structural)]
pub enum BringUpStep {
    /// Gate on the bus clock of the clock-recovery unit.
    EnableRecoveryClock,
    /// Arm automatic trimming of the 48 MHz oscillator.
    EnableAutoTrim,
    /// Start the clock-recovery unit against the USB start-of-frame.
    StartRecovery,
    /// Gate on the bus clock of the power controller.
    EnablePowerClock,
    /// Switch on the USB transceiver supply.
    EnableUsbSupply,
}

/// The bring-up steps in the order they are applied.
pub open spec fn bring_up_sequence() -> Seq<BringUpStep> {
    seq![
        BringUpStep::EnableRecoveryClock,
        BringUpStep::EnableAutoTrim,
        BringUpStep::StartRecovery,
        BringUpStep::EnablePowerClock,
        BringUpStep::EnableUsbSupply,
    ]
}

/// Step `a` is applied before step `b` in `plan`.
pub open spec fn precedes(plan: Seq<BringUpStep>, a: BringUpStep, b: BringUpStep) -> bool {
    exists|i: int, j: int| 0 <= i < j < plan.len() && plan[i] == a && plan[j] == b
}

/// The bring-up steps in the order they are applied.
pub fn bring_up_plan() -> (plan: [BringUpStep; 5])
    ensures
        plan@ == bring_up_sequence(),
{
    [
        BringUpStep::EnableRecoveryClock,
        BringUpStep::EnableAutoTrim,
        BringUpStep::StartRecovery,
        BringUpStep::EnablePowerClock,
        BringUpStep::EnableUsbSupply,
    ]
}

/// Ordering of the bring-up: each unit's bus clock is on before its
/// registers are written, trimming is armed before clock recovery starts,
/// recovery runs before the USB supply is switched on, and the USB supply is
/// the last step, so that the transport is built on a powered, trimmed bus.
/// Each step is applied exactly once.
pub proof fn lemma_bring_up_order()
    ensures
        precedes(bring_up_sequence(), BringUpStep::EnableRecoveryClock, BringUpStep::EnableAutoTrim),
        precedes(bring_up_sequence(), BringUpStep::EnableRecoveryClock, BringUpStep::StartRecovery),
        precedes(bring_up_sequence(), BringUpStep::EnableAutoTrim, BringUpStep::StartRecovery),
        precedes(bring_up_sequence(), BringUpStep::StartRecovery, BringUpStep::EnableUsbSupply),
        precedes(bring_up_sequence(), BringUpStep::EnablePowerClock, BringUpStep::EnableUsbSupply),
        bring_up_sequence().last() == BringUpStep::EnableUsbSupply,
        forall|i: int, j: int|
            0 <= i < j < bring_up_sequence().len() ==> bring_up_sequence()[i] != bring_up_sequence()[j],
{
    let p = bring_up_sequence();
    assert(p[0] == BringUpStep::EnableRecoveryClock && p[1] == BringUpStep::EnableAutoTrim);
    assert(p[2] == BringUpStep::StartRecovery);
    assert(p[3] == BringUpStep::EnablePowerClock && p[4] == BringUpStep::EnableUsbSupply);
}

} // verus!
