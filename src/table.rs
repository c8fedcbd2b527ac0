//! The key table: every known key, its HID usage-id, its DOM key code,
//! its canonical name and the layout it is restricted to, if any.
use vstd::prelude::*;

use crate::keys::KeyDefinition;
use crate::layout::Keyboard;

verus! {

/// Number of records in the key table.
pub const KEY_COUNT: usize = 120;

/// The key table as a sequence of records, in source order.
pub open spec fn key_table() -> Seq<KeyDefinition> {
    seq![
        KeyDefinition { usage_id: 0x04, key_code: "KeyA", prefix: "A", layout: None },
        KeyDefinition { usage_id: 0x05, key_code: "KeyB", prefix: "B", layout: None },
        KeyDefinition { usage_id: 0x06, key_code: "KeyC", prefix: "C", layout: None },
        KeyDefinition { usage_id: 0x07, key_code: "KeyD", prefix: "D", layout: None },
        KeyDefinition { usage_id: 0x08, key_code: "KeyE", prefix: "E", layout: None },
        KeyDefinition { usage_id: 0x09, key_code: "KeyF", prefix: "F", layout: None },
        KeyDefinition { usage_id: 0x0A, key_code: "KeyG", prefix: "G", layout: None },
        KeyDefinition { usage_id: 0x0B, key_code: "KeyH", prefix: "H", layout: None },
        KeyDefinition { usage_id: 0x0C, key_code: "KeyI", prefix: "I", layout: None },
        KeyDefinition { usage_id: 0x0D, key_code: "KeyJ", prefix: "J", layout: None },
        KeyDefinition { usage_id: 0x0E, key_code: "KeyK", prefix: "K", layout: None },
        KeyDefinition { usage_id: 0x0F, key_code: "KeyL", prefix: "L", layout: None },
        KeyDefinition { usage_id: 0x10, key_code: "KeyM", prefix: "M", layout: None },
        KeyDefinition { usage_id: 0x11, key_code: "KeyN", prefix: "N", layout: None },
        KeyDefinition { usage_id: 0x12, key_code: "KeyO", prefix: "O", layout: None },
        KeyDefinition { usage_id: 0x13, key_code: "KeyP", prefix: "P", layout: None },
        KeyDefinition { usage_id: 0x14, key_code: "KeyQ", prefix: "Q", layout: None },
        KeyDefinition { usage_id: 0x15, key_code: "KeyR", prefix: "R", layout: None },
        KeyDefinition { usage_id: 0x16, key_code: "KeyS", prefix: "S", layout: None },
        KeyDefinition { usage_id: 0x17, key_code: "KeyT", prefix: "T", layout: None },
        KeyDefinition { usage_id: 0x18, key_code: "KeyU", prefix: "U", layout: None },
        KeyDefinition { usage_id: 0x19, key_code: "KeyV", prefix: "V", layout: None },
        KeyDefinition { usage_id: 0x1A, key_code: "KeyW", prefix: "W", layout: None },
        KeyDefinition { usage_id: 0x1B, key_code: "KeyX", prefix: "X", layout: None },
        KeyDefinition { usage_id: 0x1C, key_code: "KeyY", prefix: "Y", layout: None },
        KeyDefinition { usage_id: 0x1D, key_code: "KeyZ", prefix: "Z", layout: None },
        KeyDefinition { usage_id: 0x1E, key_code: "Digit1", prefix: "DIGIT_1", layout: None },
        KeyDefinition { usage_id: 0x1F, key_code: "Digit2", prefix: "DIGIT_2", layout: None },
        KeyDefinition { usage_id: 0x20, key_code: "Digit3", prefix: "DIGIT_3", layout: None },
        KeyDefinition { usage_id: 0x21, key_code: "Digit4", prefix: "DIGIT_4", layout: None },
        KeyDefinition { usage_id: 0x22, key_code: "Digit5", prefix: "DIGIT_5", layout: None },
        KeyDefinition { usage_id: 0x23, key_code: "Digit6", prefix: "DIGIT_6", layout: None },
        KeyDefinition { usage_id: 0x24, key_code: "Digit7", prefix: "DIGIT_7", layout: None },
        KeyDefinition { usage_id: 0x25, key_code: "Digit8", prefix: "DIGIT_8", layout: None },
        KeyDefinition { usage_id: 0x26, key_code: "Digit9", prefix: "DIGIT_9", layout: None },
        KeyDefinition { usage_id: 0x27, key_code: "Digit0", prefix: "DIGIT_0", layout: None },
        KeyDefinition { usage_id: 0x28, key_code: "Enter", prefix: "ENTER", layout: None },
        KeyDefinition { usage_id: 0x29, key_code: "Escape", prefix: "ESCAPE", layout: None },
        KeyDefinition { usage_id: 0x2A, key_code: "Backspace", prefix: "BACKSPACE", layout: None },
        KeyDefinition { usage_id: 0x2B, key_code: "Tab", prefix: "TAB", layout: None },
        KeyDefinition { usage_id: 0x2C, key_code: "Space", prefix: "SPACE", layout: None },
        KeyDefinition { usage_id: 0x2D, key_code: "Minus", prefix: "MINUS", layout: None },
        KeyDefinition { usage_id: 0x2E, key_code: "Equal", prefix: "EQUAL", layout: None },
        KeyDefinition { usage_id: 0x2F, key_code: "BracketLeft", prefix: "BRACKET_LEFT", layout: None },
        KeyDefinition { usage_id: 0x30, key_code: "BracketRight", prefix: "BRACKET_RIGHT", layout: None },
        KeyDefinition { usage_id: 0x31, key_code: "Backslash", prefix: "BACKSLASH", layout: Some(Keyboard::US) },
        KeyDefinition { usage_id: 0x32, key_code: "Backslash", prefix: "NON_US_HASH", layout: Some(Keyboard::UK) },
        KeyDefinition { usage_id: 0x33, key_code: "Semicolon", prefix: "SEMICOLON", layout: None },
        KeyDefinition { usage_id: 0x34, key_code: "Quote", prefix: "QUOTE", layout: None },
        KeyDefinition { usage_id: 0x35, key_code: "Backquote", prefix: "BACKQUOTE", layout: None },
        KeyDefinition { usage_id: 0x36, key_code: "Comma", prefix: "COMMA", layout: None },
        KeyDefinition { usage_id: 0x37, key_code: "Period", prefix: "PERIOD", layout: None },
        KeyDefinition { usage_id: 0x38, key_code: "Slash", prefix: "SLASH", layout: None },
        KeyDefinition { usage_id: 0x39, key_code: "CapsLock", prefix: "CAPS_LOCK", layout: None },
        KeyDefinition { usage_id: 0x3A, key_code: "F1", prefix: "F1", layout: None },
        KeyDefinition { usage_id: 0x3B, key_code: "F2", prefix: "F2", layout: None },
        KeyDefinition { usage_id: 0x3C, key_code: "F3", prefix: "F3", layout: None },
        KeyDefinition { usage_id: 0x3D, key_code: "F4", prefix: "F4", layout: None },
        KeyDefinition { usage_id: 0x3E, key_code: "F5", prefix: "F5", layout: None },
        KeyDefinition { usage_id: 0x3F, key_code: "F6", prefix: "F6", layout: None },
        KeyDefinition { usage_id: 0x40, key_code: "F7", prefix: "F7", layout: None },
        KeyDefinition { usage_id: 0x41, key_code: "F8", prefix: "F8", layout: None },
        KeyDefinition { usage_id: 0x42, key_code: "F9", prefix: "F9", layout: None },
        KeyDefinition { usage_id: 0x43, key_code: "F10", prefix: "F10", layout: None },
        KeyDefinition { usage_id: 0x44, key_code: "F11", prefix: "F11", layout: None },
        KeyDefinition { usage_id: 0x45, key_code: "F12", prefix: "F12", layout: None },
        KeyDefinition { usage_id: 0x46, key_code: "PrintScreen", prefix: "PRINT_SCREEN", layout: None },
        KeyDefinition { usage_id: 0x47, key_code: "ScrollLock", prefix: "SCROLL_LOCK", layout: None },
        KeyDefinition { usage_id: 0x48, key_code: "Pause", prefix: "PAUSE", layout: None },
        KeyDefinition { usage_id: 0x49, key_code: "Insert", prefix: "INSERT", layout: None },
        KeyDefinition { usage_id: 0x4A, key_code: "Home", prefix: "HOME", layout: None },
        KeyDefinition { usage_id: 0x4B, key_code: "PageUp", prefix: "PAGE_UP", layout: None },
        KeyDefinition { usage_id: 0x4C, key_code: "Delete", prefix: "DELETE", layout: None },
        KeyDefinition { usage_id: 0x4D, key_code: "End", prefix: "END", layout: None },
        KeyDefinition { usage_id: 0x4E, key_code: "PageDown", prefix: "PAGE_DOWN", layout: None },
        KeyDefinition { usage_id: 0x4F, key_code: "ArrowRight", prefix: "ARROW_RIGHT", layout: None },
        KeyDefinition { usage_id: 0x50, key_code: "ArrowLeft", prefix: "ARROW_LEFT", layout: None },
        KeyDefinition { usage_id: 0x51, key_code: "ArrowDown", prefix: "ARROW_DOWN", layout: None },
        KeyDefinition { usage_id: 0x52, key_code: "ArrowUp", prefix: "ARROW_UP", layout: None },
        KeyDefinition { usage_id: 0x53, key_code: "NumLock", prefix: "NUM_LOCK", layout: None },
        KeyDefinition { usage_id: 0x54, key_code: "NumpadDivide", prefix: "NUMPAD_DIVIDE", layout: None },
        KeyDefinition { usage_id: 0x55, key_code: "NumpadMultiply", prefix: "NUMPAD_MULTIPLY", layout: None },
        KeyDefinition { usage_id: 0x56, key_code: "NumpadSubtract", prefix: "NUMPAD_SUBTRACT", layout: None },
        KeyDefinition { usage_id: 0x57, key_code: "NumpadAdd", prefix: "NUMPAD_ADD", layout: None },
        KeyDefinition { usage_id: 0x58, key_code: "NumpadEnter", prefix: "NUMPAD_ENTER", layout: None },
        KeyDefinition { usage_id: 0x59, key_code: "Numpad1", prefix: "NUMPAD_1", layout: None },
        KeyDefinition { usage_id: 0x5A, key_code: "Numpad2", prefix: "NUMPAD_2", layout: None },
        KeyDefinition { usage_id: 0x5B, key_code: "Numpad3", prefix: "NUMPAD_3", layout: None },
        KeyDefinition { usage_id: 0x5C, key_code: "Numpad4", prefix: "NUMPAD_4", layout: None },
        KeyDefinition { usage_id: 0x5D, key_code: "Numpad5", prefix: "NUMPAD_5", layout: None },
        KeyDefinition { usage_id: 0x5E, key_code: "Numpad6", prefix: "NUMPAD_6", layout: None },
        KeyDefinition { usage_id: 0x5F, key_code: "Numpad7", prefix: "NUMPAD_7", layout: None },
        KeyDefinition { usage_id: 0x60, key_code: "Numpad8", prefix: "NUMPAD_8", layout: None },
        KeyDefinition { usage_id: 0x61, key_code: "Numpad9", prefix: "NUMPAD_9", layout: None },
        KeyDefinition { usage_id: 0x62, key_code: "Numpad0", prefix: "NUMPAD_0", layout: None },
        KeyDefinition { usage_id: 0x63, key_code: "NumpadDecimal", prefix: "NUMPAD_DECIMAL", layout: None },
        KeyDefinition { usage_id: 0x64, key_code: "IntlBackslash", prefix: "NON_US_BACKSLASH", layout: Some(Keyboard::UK) },
        KeyDefinition { usage_id: 0x65, key_code: "ContextMenu", prefix: "CONTEXT_MENU", layout: None },
        KeyDefinition { usage_id: 0x66, key_code: "Power", prefix: "POWER", layout: None },
        KeyDefinition { usage_id: 0x67, key_code: "NumpadEqual", prefix: "NUMPAD_EQUAL", layout: None },
        KeyDefinition { usage_id: 0x68, key_code: "F13", prefix: "F13", layout: None },
        KeyDefinition { usage_id: 0x69, key_code: "F14", prefix: "F14", layout: None },
        KeyDefinition { usage_id: 0x6A, key_code: "F15", prefix: "F15", layout: None },
        KeyDefinition { usage_id: 0x6B, key_code: "F16", prefix: "F16", layout: None },
        KeyDefinition { usage_id: 0x6C, key_code: "F17", prefix: "F17", layout: None },
        KeyDefinition { usage_id: 0x6D, key_code: "F18", prefix: "F18", layout: None },
        KeyDefinition { usage_id: 0x6E, key_code: "F19", prefix: "F19", layout: None },
        KeyDefinition { usage_id: 0x6F, key_code: "F20", prefix: "F20", layout: None },
        KeyDefinition { usage_id: 0x70, key_code: "F21", prefix: "F21", layout: None },
        KeyDefinition { usage_id: 0x71, key_code: "F22", prefix: "F22", layout: None },
        KeyDefinition { usage_id: 0x72, key_code: "F23", prefix: "F23", layout: None },
        KeyDefinition { usage_id: 0x73, key_code: "F24", prefix: "F24", layout: None },
        KeyDefinition { usage_id: 0xE0, key_code: "ControlLeft", prefix: "LEFT_CTRL", layout: None },
        KeyDefinition { usage_id: 0xE1, key_code: "ShiftLeft", prefix: "LEFT_SHIFT", layout: None },
        KeyDefinition { usage_id: 0xE2, key_code: "AltLeft", prefix: "LEFT_ALT", layout: None },
        KeyDefinition { usage_id: 0xE3, key_code: "MetaLeft", prefix: "LEFT_META", layout: None },
        KeyDefinition { usage_id: 0xE4, key_code: "ControlRight", prefix: "RIGHT_CTRL", layout: None },
        KeyDefinition { usage_id: 0xE5, key_code: "ShiftRight", prefix: "RIGHT_SHIFT", layout: None },
        KeyDefinition { usage_id: 0xE6, key_code: "AltRight", prefix: "RIGHT_ALT", layout: None },
        KeyDefinition { usage_id: 0xE7, key_code: "MetaRight", prefix: "RIGHT_META", layout: None },
    ]
}

/// The key table, in source order.
pub fn key_definitions() -> (r: Vec<KeyDefinition>)
    ensures
        r@ == key_table(),
        r@.len() == KEY_COUNT,
{
    let r = vec![
        KeyDefinition { usage_id: 0x04, key_code: "KeyA", prefix: "A", layout: None },
        KeyDefinition { usage_id: 0x05, key_code: "KeyB", prefix: "B", layout: None },
        KeyDefinition { usage_id: 0x06, key_code: "KeyC", prefix: "C", layout: None },
        KeyDefinition { usage_id: 0x07, key_code: "KeyD", prefix: "D", layout: None },
        KeyDefinition { usage_id: 0x08, key_code: "KeyE", prefix: "E", layout: None },
        KeyDefinition { usage_id: 0x09, key_code: "KeyF", prefix: "F", layout: None },
        KeyDefinition { usage_id: 0x0A, key_code: "KeyG", prefix: "G", layout: None },
        KeyDefinition { usage_id: 0x0B, key_code: "KeyH", prefix: "H", layout: None },
        KeyDefinition { usage_id: 0x0C, key_code: "KeyI", prefix: "I", layout: None },
        KeyDefinition { usage_id: 0x0D, key_code: "KeyJ", prefix: "J", layout: None },
        KeyDefinition { usage_id: 0x0E, key_code: "KeyK", prefix: "K", layout: None },
        KeyDefinition { usage_id: 0x0F, key_code: "KeyL", prefix: "L", layout: None },
        KeyDefinition { usage_id: 0x10, key_code: "KeyM", prefix: "M", layout: None },
        KeyDefinition { usage_id: 0x11, key_code: "KeyN", prefix: "N", layout: None },
        KeyDefinition { usage_id: 0x12, key_code: "KeyO", prefix: "O", layout: None },
        KeyDefinition { usage_id: 0x13, key_code: "KeyP", prefix: "P", layout: None },
        KeyDefinition { usage_id: 0x14, key_code: "KeyQ", prefix: "Q", layout: None },
        KeyDefinition { usage_id: 0x15, key_code: "KeyR", prefix: "R", layout: None },
        KeyDefinition { usage_id: 0x16, key_code: "KeyS", prefix: "S", layout: None },
        KeyDefinition { usage_id: 0x17, key_code: "KeyT", prefix: "T", layout: None },
        KeyDefinition { usage_id: 0x18, key_code: "KeyU", prefix: "U", layout: None },
        KeyDefinition { usage_id: 0x19, key_code: "KeyV", prefix: "V", layout: None },
        KeyDefinition { usage_id: 0x1A, key_code: "KeyW", prefix: "W", layout: None },
        KeyDefinition { usage_id: 0x1B, key_code: "KeyX", prefix: "X", layout: None },
        KeyDefinition { usage_id: 0x1C, key_code: "KeyY", prefix: "Y", layout: None },
        KeyDefinition { usage_id: 0x1D, key_code: "KeyZ", prefix: "Z", layout: None },
        KeyDefinition { usage_id: 0x1E, key_code: "Digit1", prefix: "DIGIT_1", layout: None },
        KeyDefinition { usage_id: 0x1F, key_code: "Digit2", prefix: "DIGIT_2", layout: None },
        KeyDefinition { usage_id: 0x20, key_code: "Digit3", prefix: "DIGIT_3", layout: None },
        KeyDefinition { usage_id: 0x21, key_code: "Digit4", prefix: "DIGIT_4", layout: None },
        KeyDefinition { usage_id: 0x22, key_code: "Digit5", prefix: "DIGIT_5", layout: None },
        KeyDefinition { usage_id: 0x23, key_code: "Digit6", prefix: "DIGIT_6", layout: None },
        KeyDefinition { usage_id: 0x24, key_code: "Digit7", prefix: "DIGIT_7", layout: None },
        KeyDefinition { usage_id: 0x25, key_code: "Digit8", prefix: "DIGIT_8", layout: None },
        KeyDefinition { usage_id: 0x26, key_code: "Digit9", prefix: "DIGIT_9", layout: None },
        KeyDefinition { usage_id: 0x27, key_code: "Digit0", prefix: "DIGIT_0", layout: None },
        KeyDefinition { usage_id: 0x28, key_code: "Enter", prefix: "ENTER", layout: None },
        KeyDefinition { usage_id: 0x29, key_code: "Escape", prefix: "ESCAPE", layout: None },
        KeyDefinition { usage_id: 0x2A, key_code: "Backspace", prefix: "BACKSPACE", layout: None },
        KeyDefinition { usage_id: 0x2B, key_code: "Tab", prefix: "TAB", layout: None },
        KeyDefinition { usage_id: 0x2C, key_code: "Space", prefix: "SPACE", layout: None },
        KeyDefinition { usage_id: 0x2D, key_code: "Minus", prefix: "MINUS", layout: None },
        KeyDefinition { usage_id: 0x2E, key_code: "Equal", prefix: "EQUAL", layout: None },
        KeyDefinition { usage_id: 0x2F, key_code: "BracketLeft", prefix: "BRACKET_LEFT", layout: None },
        KeyDefinition { usage_id: 0x30, key_code: "BracketRight", prefix: "BRACKET_RIGHT", layout: None },
        KeyDefinition { usage_id: 0x31, key_code: "Backslash", prefix: "BACKSLASH", layout: Some(Keyboard::US) },
        KeyDefinition { usage_id: 0x32, key_code: "Backslash", prefix: "NON_US_HASH", layout: Some(Keyboard::UK) },
        KeyDefinition { usage_id: 0x33, key_code: "Semicolon", prefix: "SEMICOLON", layout: None },
        KeyDefinition { usage_id: 0x34, key_code: "Quote", prefix: "QUOTE", layout: None },
        KeyDefinition { usage_id: 0x35, key_code: "Backquote", prefix: "BACKQUOTE", layout: None },
        KeyDefinition { usage_id: 0x36, key_code: "Comma", prefix: "COMMA", layout: None },
        KeyDefinition { usage_id: 0x37, key_code: "Period", prefix: "PERIOD", layout: None },
        KeyDefinition { usage_id: 0x38, key_code: "Slash", prefix: "SLASH", layout: None },
        KeyDefinition { usage_id: 0x39, key_code: "CapsLock", prefix: "CAPS_LOCK", layout: None },
        KeyDefinition { usage_id: 0x3A, key_code: "F1", prefix: "F1", layout: None },
        KeyDefinition { usage_id: 0x3B, key_code: "F2", prefix: "F2", layout: None },
        KeyDefinition { usage_id: 0x3C, key_code: "F3", prefix: "F3", layout: None },
        KeyDefinition { usage_id: 0x3D, key_code: "F4", prefix: "F4", layout: None },
        KeyDefinition { usage_id: 0x3E, key_code: "F5", prefix: "F5", layout: None },
        KeyDefinition { usage_id: 0x3F, key_code: "F6", prefix: "F6", layout: None },
        KeyDefinition { usage_id: 0x40, key_code: "F7", prefix: "F7", layout: None },
        KeyDefinition { usage_id: 0x41, key_code: "F8", prefix: "F8", layout: None },
        KeyDefinition { usage_id: 0x42, key_code: "F9", prefix: "F9", layout: None },
        KeyDefinition { usage_id: 0x43, key_code: "F10", prefix: "F10", layout: None },
        KeyDefinition { usage_id: 0x44, key_code: "F11", prefix: "F11", layout: None },
        KeyDefinition { usage_id: 0x45, key_code: "F12", prefix: "F12", layout: None },
        KeyDefinition { usage_id: 0x46, key_code: "PrintScreen", prefix: "PRINT_SCREEN", layout: None },
        KeyDefinition { usage_id: 0x47, key_code: "ScrollLock", prefix: "SCROLL_LOCK", layout: None },
        KeyDefinition { usage_id: 0x48, key_code: "Pause", prefix: "PAUSE", layout: None },
        KeyDefinition { usage_id: 0x49, key_code: "Insert", prefix: "INSERT", layout: None },
        KeyDefinition { usage_id: 0x4A, key_code: "Home", prefix: "HOME", layout: None },
        KeyDefinition { usage_id: 0x4B, key_code: "PageUp", prefix: "PAGE_UP", layout: None },
        KeyDefinition { usage_id: 0x4C, key_code: "Delete", prefix: "DELETE", layout: None },
        KeyDefinition { usage_id: 0x4D, key_code: "End", prefix: "END", layout: None },
        KeyDefinition { usage_id: 0x4E, key_code: "PageDown", prefix: "PAGE_DOWN", layout: None },
        KeyDefinition { usage_id: 0x4F, key_code: "ArrowRight", prefix: "ARROW_RIGHT", layout: None },
        KeyDefinition { usage_id: 0x50, key_code: "ArrowLeft", prefix: "ARROW_LEFT", layout: None },
        KeyDefinition { usage_id: 0x51, key_code: "ArrowDown", prefix: "ARROW_DOWN", layout: None },
        KeyDefinition { usage_id: 0x52, key_code: "ArrowUp", prefix: "ARROW_UP", layout: None },
        KeyDefinition { usage_id: 0x53, key_code: "NumLock", prefix: "NUM_LOCK", layout: None },
        KeyDefinition { usage_id: 0x54, key_code: "NumpadDivide", prefix: "NUMPAD_DIVIDE", layout: None },
        KeyDefinition { usage_id: 0x55, key_code: "NumpadMultiply", prefix: "NUMPAD_MULTIPLY", layout: None },
        KeyDefinition { usage_id: 0x56, key_code: "NumpadSubtract", prefix: "NUMPAD_SUBTRACT", layout: None },
        KeyDefinition { usage_id: 0x57, key_code: "NumpadAdd", prefix: "NUMPAD_ADD", layout: None },
        KeyDefinition { usage_id: 0x58, key_code: "NumpadEnter", prefix: "NUMPAD_ENTER", layout: None },
        KeyDefinition { usage_id: 0x59, key_code: "Numpad1", prefix: "NUMPAD_1", layout: None },
        KeyDefinition { usage_id: 0x5A, key_code: "Numpad2", prefix: "NUMPAD_2", layout: None },
        KeyDefinition { usage_id: 0x5B, key_code: "Numpad3", prefix: "NUMPAD_3", layout: None },
        KeyDefinition { usage_id: 0x5C, key_code: "Numpad4", prefix: "NUMPAD_4", layout: None },
        KeyDefinition { usage_id: 0x5D, key_code: "Numpad5", prefix: "NUMPAD_5", layout: None },
        KeyDefinition { usage_id: 0x5E, key_code: "Numpad6", prefix: "NUMPAD_6", layout: None },
        KeyDefinition { usage_id: 0x5F, key_code: "Numpad7", prefix: "NUMPAD_7", layout: None },
        KeyDefinition { usage_id: 0x60, key_code: "Numpad8", prefix: "NUMPAD_8", layout: None },
        KeyDefinition { usage_id: 0x61, key_code: "Numpad9", prefix: "NUMPAD_9", layout: None },
        KeyDefinition { usage_id: 0x62, key_code: "Numpad0", prefix: "NUMPAD_0", layout: None },
        KeyDefinition { usage_id: 0x63, key_code: "NumpadDecimal", prefix: "NUMPAD_DECIMAL", layout: None },
        KeyDefinition { usage_id: 0x64, key_code: "IntlBackslash", prefix: "NON_US_BACKSLASH", layout: Some(Keyboard::UK) },
        KeyDefinition { usage_id: 0x65, key_code: "ContextMenu", prefix: "CONTEXT_MENU", layout: None },
        KeyDefinition { usage_id: 0x66, key_code: "Power", prefix: "POWER", layout: None },
        KeyDefinition { usage_id: 0x67, key_code: "NumpadEqual", prefix: "NUMPAD_EQUAL", layout: None },
        KeyDefinition { usage_id: 0x68, key_code: "F13", prefix: "F13", layout: None },
        KeyDefinition { usage_id: 0x69, key_code: "F14", prefix: "F14", layout: None },
        KeyDefinition { usage_id: 0x6A, key_code: "F15", prefix: "F15", layout: None },
        KeyDefinition { usage_id: 0x6B, key_code: "F16", prefix: "F16", layout: None },
        KeyDefinition { usage_id: 0x6C, key_code: "F17", prefix: "F17", layout: None },
        KeyDefinition { usage_id: 0x6D, key_code: "F18", prefix: "F18", layout: None },
        KeyDefinition { usage_id: 0x6E, key_code: "F19", prefix: "F19", layout: None },
        KeyDefinition { usage_id: 0x6F, key_code: "F20", prefix: "F20", layout: None },
        KeyDefinition { usage_id: 0x70, key_code: "F21", prefix: "F21", layout: None },
        KeyDefinition { usage_id: 0x71, key_code: "F22", prefix: "F22", layout: None },
        KeyDefinition { usage_id: 0x72, key_code: "F23", prefix: "F23", layout: None },
        KeyDefinition { usage_id: 0x73, key_code: "F24", prefix: "F24", layout: None },
        KeyDefinition { usage_id: 0xE0, key_code: "ControlLeft", prefix: "LEFT_CTRL", layout: None },
        KeyDefinition { usage_id: 0xE1, key_code: "ShiftLeft", prefix: "LEFT_SHIFT", layout: None },
        KeyDefinition { usage_id: 0xE2, key_code: "AltLeft", prefix: "LEFT_ALT", layout: None },
        KeyDefinition { usage_id: 0xE3, key_code: "MetaLeft", prefix: "LEFT_META", layout: None },
        KeyDefinition { usage_id: 0xE4, key_code: "ControlRight", prefix: "RIGHT_CTRL", layout: None },
        KeyDefinition { usage_id: 0xE5, key_code: "ShiftRight", prefix: "RIGHT_SHIFT", layout: None },
        KeyDefinition { usage_id: 0xE6, key_code: "AltRight", prefix: "RIGHT_ALT", layout: None },
        KeyDefinition { usage_id: 0xE7, key_code: "MetaRight", prefix: "RIGHT_META", layout: None },
    ];
    proof {
        assert(r@ =~= key_table());
    }
    r
}

} // verus!
