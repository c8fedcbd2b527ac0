//! Keyboard actions, the modifier bitmask and the HID keyboard report.
use vstd::prelude::*;

use crate::keys::Keys;

verus! {

/// Modifier bit of CTRL.
pub const MODIFIER_CODE_CTRL: u8 = 1;

/// Modifier bit of SHIFT.
pub const MODIFIER_CODE_SHIFT: u8 = 2;

/// Modifier bit of ALT.
pub const MODIFIER_CODE_ALT: u8 = 4;

/// Modifier bit of META.
pub const MODIFIER_CODE_META: u8 = 8;

/// The modifier bitmask of the four flags: the sum of the bits of the flags
/// that are set.
pub open spec fn modifier_code(ctrl: bool, shift: bool, alt: bool, meta: bool) -> u8 {
    ((if ctrl { MODIFIER_CODE_CTRL as int } else { 0 }) + (if shift {
        MODIFIER_CODE_SHIFT as int
    } else {
        0
    }) + (if alt { MODIFIER_CODE_ALT as int } else { 0 }) + (if meta {
        MODIFIER_CODE_META as int
    } else {
        0
    })) as u8
}

/// Or-ing distinct single bits adds them.
proof fn lemma_or_is_sum(c: u8, s: u8, a: u8, m: u8)
    requires
        c == 0 || c == 1,
        s == 0 || s == 2,
        a == 0 || a == 4,
        m == 0 || m == 8,
    ensures
        c | s | a | m == (c + s + a + m) as u8,
{
    assert(((c == 0 || c == 1) && (s == 0 || s == 2) && (a == 0 || a == 4) && (m == 0 || m == 8))
        ==> c | s | a | m == ((c + s + a + m) as u8)) by (bit_vector);
}

/// Testing one of the four modifier bits with `&` reads that bit of `code`.
proof fn lemma_bit_test(code: u8)
    ensures
        (code & 1 != 0) == (code % 2 == 1),
        (code & 2 != 0) == ((code / 2) % 2 == 1),
        (code & 4 != 0) == ((code / 4) % 2 == 1),
        (code & 8 != 0) == ((code / 8) % 2 == 1),
{
    assert((code & 1 != 0) == (code % 2 == 1)) by (bit_vector);
    assert((code & 2 != 0) == ((code / 2) % 2 == 1)) by (bit_vector);
    assert((code & 4 != 0) == ((code / 4) % 2 == 1)) by (bit_vector);
    assert((code & 8 != 0) == ((code / 8) % 2 == 1)) by (bit_vector);
}

/// The four flags (ctrl, shift, alt, meta) that a modifier bitmask sets: bit
/// values 1, 2, 4 and 8.
pub open spec fn modifier_flags(code: u8) -> (bool, bool, bool, bool) {
    (code % 2 == 1, (code / 2) % 2 == 1, (code / 4) % 2 == 1, (code / 8) % 2 == 1)
}

/// The four flags (ctrl, shift, alt, meta) that a modifier bitmask sets.
pub fn decode_modifier_code(code: u8) -> (r: (bool, bool, bool, bool))
    ensures
        r == modifier_flags(code),
{
    proof {
        lemma_bit_test(code);
    }
    (
        code & MODIFIER_CODE_CTRL != 0,
        code & MODIFIER_CODE_SHIFT != 0,
        code & MODIFIER_CODE_ALT != 0,
        code & MODIFIER_CODE_META != 0,
    )
}

/// Decoding the bitmask of four flags gives back the four flags.
pub proof fn lemma_modifier_round_trip(ctrl: bool, shift: bool, alt: bool, meta: bool)
    ensures
        modifier_flags(modifier_code(ctrl, shift, alt, meta)) == (ctrl, shift, alt, meta),
{
}

/// The fields of a USB HID boot keyboard report.
#[derive(Debug, Clone, Copy, PartialEq, Eq)]
pub struct HidReport {
    /// Modifier bitmask
    pub modifier: u8,
    /// Reserved, always zero
    pub reserved: u8,
    /// LED state, always zero
    pub leds: u8,
    /// Usage-ids of the pressed keys, zero for an empty slot
    pub keycodes: [u8; 6],
}

/// A keyboard action, could be used for making key press/release events,
/// Defaults to no keys or modifiers.
#[derive(Debug, Clone, Copy)]
pub struct KeyboardAction {
    /// Keys included in action
    pub keys: [Keys; 6],
    /// Whether ALT is held
    pub alt: bool,
    /// Whether CTRL is held
    pub ctrl: bool,
    /// Whether SHIFT is held
    pub shift: bool,
    /// Whether META is held
    pub meta: bool,
}

impl Default for KeyboardAction {
    fn default() -> (r: KeyboardAction)
        ensures
            forall|i: int| 0 <= i < 6 ==> r.keys@[i] == Keys::NoKey,
            !r.alt && !r.ctrl && !r.shift && !r.meta,
    {
        KeyboardAction {
            keys: [Keys::NoKey, Keys::NoKey, Keys::NoKey, Keys::NoKey, Keys::NoKey, Keys::NoKey],
            alt: false,
            ctrl: false,
            shift: false,
            meta: false,
        }
    }
}

impl KeyboardAction {
    /// Get the modifiers as their code representation
    pub fn get_modifer_code(&self) -> (r: u8)
        ensures
            r == modifier_code(self.ctrl, self.shift, self.alt, self.meta),
    {
        let ctrl: u8 = if self.ctrl { MODIFIER_CODE_CTRL } else { 0 };
        let shift: u8 = if self.shift { MODIFIER_CODE_SHIFT } else { 0 };
        let alt: u8 = if self.alt { MODIFIER_CODE_ALT } else { 0 };
        let meta: u8 = if self.meta { MODIFIER_CODE_META } else { 0 };
        proof {
            lemma_or_is_sum(ctrl, shift, alt, meta);
        }
        ctrl | shift | alt | meta
    }

    /// Sets the four modifier flags from a modifier bitmask; keys unchanged.
    pub fn set_modifier_code(&mut self, code: u8)
        ensures
            (final(self).ctrl, final(self).shift, final(self).alt, final(self).meta)
                == modifier_flags(code),
            final(self).keys == old(self).keys,
    {
        let (ctrl, shift, alt, meta) = decode_modifier_code(code);
        self.ctrl = ctrl;
        self.shift = shift;
        self.alt = alt;
        self.meta = meta;
    }

    /// The HID keyboard report of the action: each key slot as its usage-id,
    /// the modifier bitmask, reserved and LED bytes zero.
    pub fn to_report(&self) -> (r: HidReport)
        ensures
            r.modifier == modifier_code(self.ctrl, self.shift, self.alt, self.meta),
            r.reserved == 0,
            r.leds == 0,
            forall|i: int| 0 <= i < 6 ==> r.keycodes@[i] == self.keys@[i].spec_usage_id(),
    {
        let mut keycodes: [u8; 6] = [0; 6];
        let mut i: usize = 0;
        while i < 6
            invariant
                0 <= i <= 6,
                forall|k: int| 0 <= k < i ==> keycodes@[k] == self.keys@[k].spec_usage_id(),
            decreases 6 - i,
        {
            keycodes[i] = self.keys[i].usage_id();
            i += 1;
        }
        HidReport { modifier: self.get_modifer_code(), reserved: 0, leds: 0, keycodes }
    }
}

} // verus!
