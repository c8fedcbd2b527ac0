use key_mapping::action::decode_modifier_code;
use key_mapping::buckets::{build_buckets, hash_code};
use key_mapping::maps::partition;
use key_mapping::names::is_valid_name;
use key_mapping::names::variant_name;
use key_mapping::text::str_eq;
use key_mapping::{key_definitions, Keyboard, KeyboardAction, Keys};

#[test]
fn modifier_round_trip_all_combinations() {
    for bits in 0..16u8 {
        let flags = (bits & 1 != 0, bits & 2 != 0, bits & 4 != 0, bits & 8 != 0);
        let action = KeyboardAction {
            ctrl: flags.0,
            shift: flags.1,
            alt: flags.2,
            meta: flags.3,
            ..KeyboardAction::default()
        };
        let code = action.get_modifer_code();
        assert_eq!(code, bits);
        assert_eq!(decode_modifier_code(code), flags);
    }
}

#[test]
fn modifier_bits() {
    let mut a = KeyboardAction::default();
    a.meta = true;
    assert_eq!(a.get_modifer_code(), 8);
    a.alt = true;
    assert_eq!(a.get_modifer_code(), 12);
}

#[test]
fn set_modifier_code_keeps_keys() {
    let mut a = KeyboardAction::default();
    a.keys[0] = Keys::Q;
    a.set_modifier_code(0b1010);
    assert!(!a.ctrl && a.shift && !a.alt && a.meta);
    assert_eq!(a.keys[0], Keys::Q);
}

#[test]
fn default_action_report() {
    let r = KeyboardAction::default().to_report();
    assert_eq!(r.modifier, 0);
    assert_eq!(r.reserved, 0);
    assert_eq!(r.leds, 0);
    assert_eq!(r.keycodes, [0, 0, 0, 0, 0, 0]);
}

#[test]
fn ctrl_shift_report() {
    let mut a = KeyboardAction::default();
    a.ctrl = true;
    a.shift = true;
    assert_eq!(a.to_report().modifier, 0b0011);
}

#[test]
fn keys_report_in_slot_order() {
    let mut a = KeyboardAction::default();
    a.keys = [Keys::A, Keys::Enter, Keys::NoKey, Keys::LeftShift, Keys::F24, Keys::RightMeta];
    assert_eq!(a.to_report().keycodes, [0x04, 0x28, 0x00, 0xE1, 0x73, 0xE7]);
}

#[test]
fn keys_order_by_usage_id() {
    assert!(Keys::NoKey < Keys::A);
    assert!(Keys::A < Keys::B);
    assert!(Keys::Backslash < Keys::NonUsHash);
    assert!(Keys::F24 < Keys::LeftCtrl);
    assert_eq!(Keys::from_usage_id(0x31), Some(Keys::Backslash));
    assert_eq!(Keys::from_usage_id(0xA0), None);
}

#[test]
fn variant_names() {
    let s = |n: &str| variant_name(n).into_iter().collect::<String>();
    assert_eq!(s("left_shift"), "LeftShift");
    assert_eq!(s("LEFT_SHIFT"), "LeftShift");
    assert_eq!(s("A"), "A");
    assert_eq!(s("DIGIT_1"), "Digit1");
    assert_eq!(s(""), "");
}

#[test]
fn string_equality() {
    assert!(str_eq("KeyA", "KeyA"));
    assert!(!str_eq("KeyA", "KeyB"));
    assert!(!str_eq("Key", "KeyA"));
    assert!(str_eq("", ""));
}

#[test]
fn key_code_hash_values() {
    assert_eq!(hash_code(""), 0);
    assert_eq!(hash_code("A"), 65);
    assert_eq!(hash_code("AB"), 65 * 31 + 66);
    assert_eq!(hash_code("KeyA"), 335196);
}

#[test]
fn buckets_hold_every_record_once() {
    let part = partition(&key_definitions(), Keyboard::UK);
    let buckets = build_buckets(&part);
    assert_eq!(buckets.len(), part.len());
    assert_eq!(buckets.iter().map(|b| b.len()).sum::<usize>(), part.len());
    for (i, b) in buckets.iter().enumerate() {
        for d in b {
            assert_eq!(hash_code(d.key_code) as usize % buckets.len(), i);
        }
    }
    assert_eq!(build_buckets(&Vec::new()).len(), 1);
}

#[test]
fn name_validity() {
    assert!(is_valid_name("LEFT_SHIFT"));
    assert!(is_valid_name("a"));
    assert!(is_valid_name("DIGIT_1"));
    assert!(!is_valid_name("LEFT__SHIFT"));
    assert!(!is_valid_name("_A"));
    assert!(!is_valid_name("9"));
    assert!(!is_valid_name(""));
}
