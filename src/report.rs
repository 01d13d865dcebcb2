//! Mapping from the sampled switch state to an 8-byte boot keyboard report.
use vstd::prelude::*;

verus! {

/// Keycode sent while switch A is closed (HID usage `K`).
pub const SWITCH_A_KEYCODE: u8 = 0x0e;

/// Keycode sent while switch B is closed and switch A is open (HID usage `B`).
pub const SWITCH_B_KEYCODE: u8 = 0x05;

/// Number of keycode slots in a keyboard report.
pub const KEYCODE_SLOTS: usize = 6;

/// The two switch lines as sampled on one tick; `true` means the line is active.
#[derive(Clone, Copy, Debug, PartialEq, Eq, Structural)]
pub struct InputState {
    pub switch_a: bool,
    pub switch_b: bool,
}

/// A keyboard input report: modifier, reserved and LED bytes and six keycode slots.
#[derive(Clone, Copy, Debug, PartialEq, Eq)]
pub struct KeyReport {
    pub modifier: u8,
    pub reserved: u8,
    pub leds: u8,
    pub keycodes: [u8; 6],
}

/// The keycode that the switch state calls for: A wins over B, none is 0.
pub open spec fn pressed_keycode(s: InputState) -> u8 {
    if s.switch_a {
        SWITCH_A_KEYCODE
    } else if s.switch_b {
        SWITCH_B_KEYCODE
    } else {
        0
    }
}

/// The keycode slots for a switch state: the pressed key first, the rest empty.
pub open spec fn slots_for(s: InputState) -> Seq<u8> {
    seq![pressed_keycode(s), 0u8, 0u8, 0u8, 0u8, 0u8]
}

/// `r` is the report that `s` encodes to.
pub open spec fn encodes(s: InputState, r: KeyReport) -> bool {
    &&& r.modifier == 0
    &&& r.reserved == 0
    &&& r.leds == 0
    &&& r.keycodes@ == slots_for(s)
}

/// No two keycode slots are both occupied.
pub open spec fn at_most_one_key(slots: Seq<u8>) -> bool {
    forall|i: int, j: int| 0 <= i < j < slots.len() ==> slots[i] == 0 || slots[j] == 0
}

impl KeyReport {
    /// The report invariant: at most one key, modifier and LED bytes unused.
    pub open spec fn well_formed(self) -> bool {
        &&& self.modifier == 0
        &&& self.leds == 0
        &&& self.keycodes@.len() == KEYCODE_SLOTS
        &&& at_most_one_key(self.keycodes@)
    }

    /// The idle report: nothing pressed.
    pub fn idle() -> (r: KeyReport)
        ensures
            r.modifier == 0,
            r.reserved == 0,
            r.leds == 0,
            r.keycodes@ == seq![0u8, 0u8, 0u8, 0u8, 0u8, 0u8],
    {
        KeyReport { modifier: 0, reserved: 0, leds: 0, keycodes: [0, 0, 0, 0, 0, 0] }
    }

    /// The report with a single key in the first slot.
    pub fn single_key(keycode: u8) -> (r: KeyReport)
        ensures
            r.modifier == 0,
            r.reserved == 0,
            r.leds == 0,
            r.keycodes@ == seq![keycode, 0u8, 0u8, 0u8, 0u8, 0u8],
    {
        KeyReport { modifier: 0, reserved: 0, leds: 0, keycodes: [keycode, 0, 0, 0, 0, 0] }
    }
}

/// Encodes the sampled switch state as a report. Switch A takes priority
/// over switch B; with neither active the report is idle.
pub fn encode(state: InputState) -> (r: KeyReport)
    ensures
        encodes(state, r),
        r.well_formed(),
{
    let keycode: u8 = if state.switch_a {
        SWITCH_A_KEYCODE
    } else if state.switch_b {
        SWITCH_B_KEYCODE
    } else {
        0
    };
    let r = KeyReport::single_key(keycode);
    r
}

/// Encoding is a function of the switch state alone: equal states give
/// identical reports.
pub proof fn lemma_encode_is_pure(s1: InputState, s2: InputState, r1: KeyReport, r2: KeyReport)
    requires
        s1 == s2,
        encodes(s1, r1),
        encodes(s2, r2),
    ensures
        r1 == r2,
{
    assert(r1.keycodes =~= r2.keycodes);
}

/// Every encoded report holds at most one key, in the first slot, and leaves
/// the modifier and LED bytes zero.
pub proof fn lemma_encoded_report_well_formed(s: InputState, r: KeyReport)
    requires
        encodes(s, r),
    ensures
        r.well_formed(),
        forall|i: int| 1 <= i < KEYCODE_SLOTS ==> r.keycodes@[i] == 0,
{
}

} // verus!
