//! Key identities and key records.
use vstd::prelude::*;

use crate::layout::Keyboard;

verus! {

/// A record of the key table.
#[derive(Debug, Clone, Copy)]
pub struct KeyDefinition {
    /// HID usage-id of the key
    pub usage_id: u8,
    /// The DOM key code of the key in the layouts the record applies to
    pub key_code: &'static str,
    /// Canonical, machine friendly key name
    pub prefix: &'static str,
    /// The only layout the record applies to, or `None` for every layout
    pub layout: Option<Keyboard>,
}

/// A single mapped keyboard key.
#[derive(Debug, Clone, Copy, PartialEq, Eq)]
pub struct MappedKey<'a> {
    /// HID usage-id for keyboard key
    pub usage_id: u8,
    /// The DOM key representation
    pub dom_key: &'a str,
    /// Machine friendly key name
    pub prefix: &'a str,
}

/// The mapped key that a key table record describes.
pub open spec fn mapped_of(d: KeyDefinition) -> MappedKey<'static> {
    MappedKey { usage_id: d.usage_id, dom_key: d.key_code, prefix: d.prefix }
}

/// The mapped key that a key table record describes.
pub fn to_mapped(d: &KeyDefinition) -> (r: MappedKey<'static>)
    ensures
        r == mapped_of(*d),
{
    MappedKey { usage_id: d.usage_id, dom_key: d.key_code, prefix: d.prefix }
}

/// Keyboard keys, one per record of the key table, in usage-id order, and
/// `NoKey` for "no key" (usage-id 0).
#[derive(Debug, Clone, Copy, PartialEq, Eq, PartialOrd, Ord, Hash, Structural)]
pub enum Keys {
    NoKey,
    A,
    B,
    C,
    D,
    E,
    F,
    G,
    H,
    I,
    J,
    K,
    L,
    M,
    N,
    O,
    P,
    Q,
    R,
    S,
    T,
    U,
    V,
    W,
    X,
    Y,
    Z,
    Digit1,
    Digit2,
    Digit3,
    Digit4,
    Digit5,
    Digit6,
    Digit7,
    Digit8,
    Digit9,
    Digit0,
    Enter,
    Escape,
    Backspace,
    Tab,
    Space,
    Minus,
    Equal,
    BracketLeft,
    BracketRight,
    Backslash,
    NonUsHash,
    Semicolon,
    Quote,
    Backquote,
    Comma,
    Period,
    Slash,
    CapsLock,
    F1,
    F2,
    F3,
    F4,
    F5,
    F6,
    F7,
    F8,
    F9,
    F10,
    F11,
    F12,
    PrintScreen,
    ScrollLock,
    Pause,
    Insert,
    Home,
    PageUp,
    Delete,
    End,
    PageDown,
    ArrowRight,
    ArrowLeft,
    ArrowDown,
    ArrowUp,
    NumLock,
    NumpadDivide,
    NumpadMultiply,
    NumpadSubtract,
    NumpadAdd,
    NumpadEnter,
    Numpad1,
    Numpad2,
    Numpad3,
    Numpad4,
    Numpad5,
    Numpad6,
    Numpad7,
    Numpad8,
    Numpad9,
    Numpad0,
    NumpadDecimal,
    NonUsBackslash,
    ContextMenu,
    Power,
    NumpadEqual,
    F13,
    F14,
    F15,
    F16,
    F17,
    F18,
    F19,
    F20,
    F21,
    F22,
    F23,
    F24,
    LeftCtrl,
    LeftShift,
    LeftAlt,
    LeftMeta,
    RightCtrl,
    RightShift,
    RightAlt,
    RightMeta,
}

impl Keys {
    /// The HID usage-id of the key.
    pub open spec fn spec_usage_id(self) -> u8 {
        match self {
            Keys::NoKey => 0x00,
            Keys::A => 0x04,
            Keys::B => 0x05,
            Keys::C => 0x06,
            Keys::D => 0x07,
            Keys::E => 0x08,
            Keys::F => 0x09,
            Keys::G => 0x0A,
            Keys::H => 0x0B,
            Keys::I => 0x0C,
            Keys::J => 0x0D,
            Keys::K => 0x0E,
            Keys::L => 0x0F,
            Keys::M => 0x10,
            Keys::N => 0x11,
            Keys::O => 0x12,
            Keys::P => 0x13,
            Keys::Q => 0x14,
            Keys::R => 0x15,
            Keys::S => 0x16,
            Keys::T => 0x17,
            Keys::U => 0x18,
            Keys::V => 0x19,
            Keys::W => 0x1A,
            Keys::X => 0x1B,
            Keys::Y => 0x1C,
            Keys::Z => 0x1D,
            Keys::Digit1 => 0x1E,
            Keys::Digit2 => 0x1F,
            Keys::Digit3 => 0x20,
            Keys::Digit4 => 0x21,
            Keys::Digit5 => 0x22,
            Keys::Digit6 => 0x23,
            Keys::Digit7 => 0x24,
            Keys::Digit8 => 0x25,
            Keys::Digit9 => 0x26,
            Keys::Digit0 => 0x27,
            Keys::Enter => 0x28,
            Keys::Escape => 0x29,
            Keys::Backspace => 0x2A,
            Keys::Tab => 0x2B,
            Keys::Space => 0x2C,
            Keys::Minus => 0x2D,
            Keys::Equal => 0x2E,
            Keys::BracketLeft => 0x2F,
            Keys::BracketRight => 0x30,
            Keys::Backslash => 0x31,
            Keys::NonUsHash => 0x32,
            Keys::Semicolon => 0x33,
            Keys::Quote => 0x34,
            Keys::Backquote => 0x35,
            Keys::Comma => 0x36,
            Keys::Period => 0x37,
            Keys::Slash => 0x38,
            Keys::CapsLock => 0x39,
            Keys::F1 => 0x3A,
            Keys::F2 => 0x3B,
            Keys::F3 => 0x3C,
            Keys::F4 => 0x3D,
            Keys::F5 => 0x3E,
            Keys::F6 => 0x3F,
            Keys::F7 => 0x40,
            Keys::F8 => 0x41,
            Keys::F9 => 0x42,
            Keys::F10 => 0x43,
            Keys::F11 => 0x44,
            Keys::F12 => 0x45,
            Keys::PrintScreen => 0x46,
            Keys::ScrollLock => 0x47,
            Keys::Pause => 0x48,
            Keys::Insert => 0x49,
            Keys::Home => 0x4A,
            Keys::PageUp => 0x4B,
            Keys::Delete => 0x4C,
            Keys::End => 0x4D,
            Keys::PageDown => 0x4E,
            Keys::ArrowRight => 0x4F,
            Keys::ArrowLeft => 0x50,
            Keys::ArrowDown => 0x51,
            Keys::ArrowUp => 0x52,
            Keys::NumLock => 0x53,
            Keys::NumpadDivide => 0x54,
            Keys::NumpadMultiply => 0x55,
            Keys::NumpadSubtract => 0x56,
            Keys::NumpadAdd => 0x57,
            Keys::NumpadEnter => 0x58,
            Keys::Numpad1 => 0x59,
            Keys::Numpad2 => 0x5A,
            Keys::Numpad3 => 0x5B,
            Keys::Numpad4 => 0x5C,
            Keys::Numpad5 => 0x5D,
            Keys::Numpad6 => 0x5E,
            Keys::Numpad7 => 0x5F,
            Keys::Numpad8 => 0x60,
            Keys::Numpad9 => 0x61,
            Keys::Numpad0 => 0x62,
            Keys::NumpadDecimal => 0x63,
            Keys::NonUsBackslash => 0x64,
            Keys::ContextMenu => 0x65,
            Keys::Power => 0x66,
            Keys::NumpadEqual => 0x67,
            Keys::F13 => 0x68,
            Keys::F14 => 0x69,
            Keys::F15 => 0x6A,
            Keys::F16 => 0x6B,
            Keys::F17 => 0x6C,
            Keys::F18 => 0x6D,
            Keys::F19 => 0x6E,
            Keys::F20 => 0x6F,
            Keys::F21 => 0x70,
            Keys::F22 => 0x71,
            Keys::F23 => 0x72,
            Keys::F24 => 0x73,
            Keys::LeftCtrl => 0xE0,
            Keys::LeftShift => 0xE1,
            Keys::LeftAlt => 0xE2,
            Keys::LeftMeta => 0xE3,
            Keys::RightCtrl => 0xE4,
            Keys::RightShift => 0xE5,
            Keys::RightAlt => 0xE6,
            Keys::RightMeta => 0xE7,
        }
    }

    /// The HID usage-id of the key.
    pub fn usage_id(&self) -> (r: u8)
        ensures
            r == self.spec_usage_id(),
    {
        match self {
            Keys::NoKey => 0x00,
            Keys::A => 0x04,
            Keys::B => 0x05,
            Keys::C => 0x06,
            Keys::D => 0x07,
            Keys::E => 0x08,
            Keys::F => 0x09,
            Keys::G => 0x0A,
            Keys::H => 0x0B,
            Keys::I => 0x0C,
            Keys::J => 0x0D,
            Keys::K => 0x0E,
            Keys::L => 0x0F,
            Keys::M => 0x10,
            Keys::N => 0x11,
            Keys::O => 0x12,
            Keys::P => 0x13,
            Keys::Q => 0x14,
            Keys::R => 0x15,
            Keys::S => 0x16,
            Keys::T => 0x17,
            Keys::U => 0x18,
            Keys::V => 0x19,
            Keys::W => 0x1A,
            Keys::X => 0x1B,
            Keys::Y => 0x1C,
            Keys::Z => 0x1D,
            Keys::Digit1 => 0x1E,
            Keys::Digit2 => 0x1F,
            Keys::Digit3 => 0x20,
            Keys::Digit4 => 0x21,
            Keys::Digit5 => 0x22,
            Keys::Digit6 => 0x23,
            Keys::Digit7 => 0x24,
            Keys::Digit8 => 0x25,
            Keys::Digit9 => 0x26,
            Keys::Digit0 => 0x27,
            Keys::Enter => 0x28,
            Keys::Escape => 0x29,
            Keys::Backspace => 0x2A,
            Keys::Tab => 0x2B,
            Keys::Space => 0x2C,
            Keys::Minus => 0x2D,
            Keys::Equal => 0x2E,
            Keys::BracketLeft => 0x2F,
            Keys::BracketRight => 0x30,
            Keys::Backslash => 0x31,
            Keys::NonUsHash => 0x32,
            Keys::Semicolon => 0x33,
            Keys::Quote => 0x34,
            Keys::Backquote => 0x35,
            Keys::Comma => 0x36,
            Keys::Period => 0x37,
            Keys::Slash => 0x38,
            Keys::CapsLock => 0x39,
            Keys::F1 => 0x3A,
            Keys::F2 => 0x3B,
            Keys::F3 => 0x3C,
            Keys::F4 => 0x3D,
            Keys::F5 => 0x3E,
            Keys::F6 => 0x3F,
            Keys::F7 => 0x40,
            Keys::F8 => 0x41,
            Keys::F9 => 0x42,
            Keys::F10 => 0x43,
            Keys::F11 => 0x44,
            Keys::F12 => 0x45,
            Keys::PrintScreen => 0x46,
            Keys::ScrollLock => 0x47,
            Keys::Pause => 0x48,
            Keys::Insert => 0x49,
            Keys::Home => 0x4A,
            Keys::PageUp => 0x4B,
            Keys::Delete => 0x4C,
            Keys::End => 0x4D,
            Keys::PageDown => 0x4E,
            Keys::ArrowRight => 0x4F,
            Keys::ArrowLeft => 0x50,
            Keys::ArrowDown => 0x51,
            Keys::ArrowUp => 0x52,
            Keys::NumLock => 0x53,
            Keys::NumpadDivide => 0x54,
            Keys::NumpadMultiply => 0x55,
            Keys::NumpadSubtract => 0x56,
            Keys::NumpadAdd => 0x57,
            Keys::NumpadEnter => 0x58,
            Keys::Numpad1 => 0x59,
            Keys::Numpad2 => 0x5A,
            Keys::Numpad3 => 0x5B,
            Keys::Numpad4 => 0x5C,
            Keys::Numpad5 => 0x5D,
            Keys::Numpad6 => 0x5E,
            Keys::Numpad7 => 0x5F,
            Keys::Numpad8 => 0x60,
            Keys::Numpad9 => 0x61,
            Keys::Numpad0 => 0x62,
            Keys::NumpadDecimal => 0x63,
            Keys::NonUsBackslash => 0x64,
            Keys::ContextMenu => 0x65,
            Keys::Power => 0x66,
            Keys::NumpadEqual => 0x67,
            Keys::F13 => 0x68,
            Keys::F14 => 0x69,
            Keys::F15 => 0x6A,
            Keys::F16 => 0x6B,
            Keys::F17 => 0x6C,
            Keys::F18 => 0x6D,
            Keys::F19 => 0x6E,
            Keys::F20 => 0x6F,
            Keys::F21 => 0x70,
            Keys::F22 => 0x71,
            Keys::F23 => 0x72,
            Keys::F24 => 0x73,
            Keys::LeftCtrl => 0xE0,
            Keys::LeftShift => 0xE1,
            Keys::LeftAlt => 0xE2,
            Keys::LeftMeta => 0xE3,
            Keys::RightCtrl => 0xE4,
            Keys::RightShift => 0xE5,
            Keys::RightAlt => 0xE6,
            Keys::RightMeta => 0xE7,
        }
    }

    /// The key whose usage-id is `usage_id`, if there is one.
    pub fn from_usage_id(usage_id: u8) -> (r: Option<Keys>)
        ensures
            match r {
                Some(k) => k.spec_usage_id() == usage_id,
                None => forall|k: Keys| k.spec_usage_id() != usage_id,
            },
    {
        match usage_id {
        0x00 => Some(Keys::NoKey),
        0x04 => Some(Keys::A),
        0x05 => Some(Keys::B),
        0x06 => Some(Keys::C),
        0x07 => Some(Keys::D),
        0x08 => Some(Keys::E),
        0x09 => Some(Keys::F),
        0x0A => Some(Keys::G),
        0x0B => Some(Keys::H),
        0x0C => Some(Keys::I),
        0x0D => Some(Keys::J),
        0x0E => Some(Keys::K),
        0x0F => Some(Keys::L),
        0x10 => Some(Keys::M),
        0x11 => Some(Keys::N),
        0x12 => Some(Keys::O),
        0x13 => Some(Keys::P),
        0x14 => Some(Keys::Q),
        0x15 => Some(Keys::R),
        0x16 => Some(Keys::S),
        0x17 => Some(Keys::T),
        0x18 => Some(Keys::U),
        0x19 => Some(Keys::V),
        0x1A => Some(Keys::W),
        0x1B => Some(Keys::X),
        0x1C => Some(Keys::Y),
        0x1D => Some(Keys::Z),
        0x1E => Some(Keys::Digit1),
        0x1F => Some(Keys::Digit2),
        0x20 => Some(Keys::Digit3),
        0x21 => Some(Keys::Digit4),
        0x22 => Some(Keys::Digit5),
        0x23 => Some(Keys::Digit6),
        0x24 => Some(Keys::Digit7),
        0x25 => Some(Keys::Digit8),
        0x26 => Some(Keys::Digit9),
        0x27 => Some(Keys::Digit0),
        0x28 => Some(Keys::Enter),
        0x29 => Some(Keys::Escape),
        0x2A => Some(Keys::Backspace),
        0x2B => Some(Keys::Tab),
        0x2C => Some(Keys::Space),
        0x2D => Some(Keys::Minus),
        0x2E => Some(Keys::Equal),
        0x2F => Some(Keys::BracketLeft),
        0x30 => Some(Keys::BracketRight),
        0x31 => Some(Keys::Backslash),
        0x32 => Some(Keys::NonUsHash),
        0x33 => Some(Keys::Semicolon),
        0x34 => Some(Keys::Quote),
        0x35 => Some(Keys::Backquote),
        0x36 => Some(Keys::Comma),
        0x37 => Some(Keys::Period),
        0x38 => Some(Keys::Slash),
        0x39 => Some(Keys::CapsLock),
        0x3A => Some(Keys::F1),
        0x3B => Some(Keys::F2),
        0x3C => Some(Keys::F3),
        0x3D => Some(Keys::F4),
        0x3E => Some(Keys::F5),
        0x3F => Some(Keys::F6),
        0x40 => Some(Keys::F7),
        0x41 => Some(Keys::F8),
        0x42 => Some(Keys::F9),
        0x43 => Some(Keys::F10),
        0x44 => Some(Keys::F11),
        0x45 => Some(Keys::F12),
        0x46 => Some(Keys::PrintScreen),
        0x47 => Some(Keys::ScrollLock),
        0x48 => Some(Keys::Pause),
        0x49 => Some(Keys::Insert),
        0x4A => Some(Keys::Home),
        0x4B => Some(Keys::PageUp),
        0x4C => Some(Keys::Delete),
        0x4D => Some(Keys::End),
        0x4E => Some(Keys::PageDown),
        0x4F => Some(Keys::ArrowRight),
        0x50 => Some(Keys::ArrowLeft),
        0x51 => Some(Keys::ArrowDown),
        0x52 => Some(Keys::ArrowUp),
        0x53 => Some(Keys::NumLock),
        0x54 => Some(Keys::NumpadDivide),
        0x55 => Some(Keys::NumpadMultiply),
        0x56 => Some(Keys::NumpadSubtract),
        0x57 => Some(Keys::NumpadAdd),
        0x58 => Some(Keys::NumpadEnter),
        0x59 => Some(Keys::Numpad1),
        0x5A => Some(Keys::Numpad2),
        0x5B => Some(Keys::Numpad3),
        0x5C => Some(Keys::Numpad4),
        0x5D => Some(Keys::Numpad5),
        0x5E => Some(Keys::Numpad6),
        0x5F => Some(Keys::Numpad7),
        0x60 => Some(Keys::Numpad8),
        0x61 => Some(Keys::Numpad9),
        0x62 => Some(Keys::Numpad0),
        0x63 => Some(Keys::NumpadDecimal),
        0x64 => Some(Keys::NonUsBackslash),
        0x65 => Some(Keys::ContextMenu),
        0x66 => Some(Keys::Power),
        0x67 => Some(Keys::NumpadEqual),
        0x68 => Some(Keys::F13),
        0x69 => Some(Keys::F14),
        0x6A => Some(Keys::F15),
        0x6B => Some(Keys::F16),
        0x6C => Some(Keys::F17),
        0x6D => Some(Keys::F18),
        0x6E => Some(Keys::F19),
        0x6F => Some(Keys::F20),
        0x70 => Some(Keys::F21),
        0x71 => Some(Keys::F22),
        0x72 => Some(Keys::F23),
        0x73 => Some(Keys::F24),
        0xE0 => Some(Keys::LeftCtrl),
        0xE1 => Some(Keys::LeftShift),
        0xE2 => Some(Keys::LeftAlt),
        0xE3 => Some(Keys::LeftMeta),
        0xE4 => Some(Keys::RightCtrl),
        0xE5 => Some(Keys::RightShift),
        0xE6 => Some(Keys::RightAlt),
        0xE7 => Some(Keys::RightMeta),
        _ => None,
        }
    }
}

} // verus!
