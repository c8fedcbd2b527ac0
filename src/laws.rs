//! What holds of the lookups on every well-formed key table.
use vstd::prelude::*;

use crate::keys::{mapped_of, KeyDefinition, Keys};
use crate::layout::{applies_to, Keyboard};
use crate::maps::{
    codes_unique, describe_spec, lookup_code, partition_spec, resolve_spec, usage_ids_unique,
    well_formed,
};
use crate::table::key_table;

verus! {

/// Every member of a partition is a record of the table that applies to the
/// partition's layout.
proof fn lemma_partition_member(defs: Seq<KeyDefinition>, layout: Keyboard, k: int)
    requires
        0 <= k < partition_spec(defs, layout).len(),
    ensures
        exists|i: int|
            0 <= i < defs.len() && defs[i] == partition_spec(defs, layout)[k] && applies_to(
                defs[i].layout,
                layout,
            ),
    decreases defs.len(),
{
    reveal(Seq::filter);
    let sub = partition_spec(defs.drop_last(), layout);
    if k < sub.len() {
        lemma_partition_member(defs.drop_last(), layout, k);
        let i = choose|i: int|
            0 <= i < defs.drop_last().len() && defs.drop_last()[i] == sub[k] && applies_to(
                defs.drop_last()[i].layout,
                layout,
            );
        assert(defs[i] == defs.drop_last()[i]);
    } else {
        assert(defs[defs.len() - 1] == partition_spec(defs, layout)[k]);
    }
}

/// In a sequence whose key codes are distinct, the lookup of the code of
/// entry `k` gives the usage-id of entry `k`.
proof fn lemma_lookup_unique(part: Seq<KeyDefinition>, k: int)
    requires
        0 <= k < part.len(),
        codes_unique(part),
    ensures
        lookup_code(part, part[k].key_code@) == Some(part[k].usage_id),
    decreases part.len(),
{
    let code = part[k].key_code@;
    if k < part.len() - 1 {
        let init = part.drop_last();
        assert(init[k] == part[k]);
        lemma_lookup_unique(init, k);
    } else {
        lemma_lookup_absent(part.drop_last(), code);
    }
}

/// A code that no entry carries is not found.
proof fn lemma_lookup_absent(part: Seq<KeyDefinition>, code: Seq<char>)
    requires
        forall|j: int| 0 <= j < part.len() ==> part[j].key_code@ != code,
    ensures
        lookup_code(part, code) is None,
    decreases part.len(),
{
    if part.len() > 0 {
        lemma_lookup_absent(part.drop_last(), code);
    }
}

/// The layout partitions of a well-formed table hold distinct key codes.
proof fn lemma_partitions_unique(defs: Seq<KeyDefinition>, layout: Keyboard)
    requires
        well_formed(defs),
    ensures
        codes_unique(partition_spec(defs, layout)),
{
}

/// Resolving the key code of a record of a well-formed table under a layout
/// the record applies to gives the record's usage-id.
pub proof fn lemma_resolve_record(defs: Seq<KeyDefinition>, layout: Keyboard, i: int)
    requires
        well_formed(defs),
        0 <= i < defs.len(),
        applies_to(defs[i].layout, layout),
    ensures
        resolve_spec(defs, layout, defs[i].key_code@) == Some(defs[i].usage_id),
{
    let part = partition_spec(defs, layout);
    lemma_partitions_unique(defs, layout);
    defs.lemma_filter_contains(|d: KeyDefinition| applies_to(d.layout, layout), i);
    assert(part.contains(defs[i]));
    let k = choose|k: int| 0 <= k < part.len() && part[k] == defs[i];
    lemma_lookup_unique(part, k);
}

/// Resolving the key code of a record under a layout it does not apply to
/// gives nothing, where no record of that layout carries the same key code.
pub proof fn lemma_resolve_other_layout(defs: Seq<KeyDefinition>, layout: Keyboard, i: int)
    requires
        well_formed(defs),
        0 <= i < defs.len(),
        !applies_to(defs[i].layout, layout),
        forall|j: int|
            0 <= j < defs.len() && applies_to(defs[j].layout, layout) ==> defs[j].key_code@
                != defs[i].key_code@,
    ensures
        resolve_spec(defs, layout, defs[i].key_code@) is None,
{
    let part = partition_spec(defs, layout);
    assert forall|k: int| 0 <= k < part.len() implies part[k].key_code@ != defs[i].key_code@ by {
        lemma_partition_member(defs, layout, k);
    }
    lemma_lookup_absent(part, defs[i].key_code@);
}

/// Describing the usage-id of a record of a well-formed table gives that
/// record, so in particular a record with the same usage-id.
pub proof fn lemma_describe_record(defs: Seq<KeyDefinition>, i: int)
    requires
        well_formed(defs),
        0 <= i < defs.len(),
    ensures
        describe_spec(defs, defs[i].usage_id) == Some(mapped_of(defs[i])),
        describe_spec(defs, defs[i].usage_id).unwrap().usage_id == defs[i].usage_id,
{
    lemma_describe_unique(defs, i);
}

proof fn lemma_describe_unique(defs: Seq<KeyDefinition>, i: int)
    requires
        usage_ids_unique(defs),
        0 <= i < defs.len(),
    ensures
        describe_spec(defs, defs[i].usage_id) == Some(mapped_of(defs[i])),
    decreases defs.len(),
{
    let init = defs.drop_last();
    if i < defs.len() - 1 {
        assert(init[i] == defs[i]);
        lemma_describe_unique(init, i);
    } else {
        lemma_describe_absent(init, defs[i].usage_id);
    }
}

proof fn lemma_describe_absent(defs: Seq<KeyDefinition>, usage_id: u8)
    requires
        forall|j: int| 0 <= j < defs.len() ==> defs[j].usage_id != usage_id,
    ensures
        describe_spec(defs, usage_id) is None,
    decreases defs.len(),
{
    if defs.len() > 0 {
        lemma_describe_absent(defs.drop_last(), usage_id);
    }
}

/// Describing a usage-id that some record carries gives a mapped key with
/// that usage-id.
pub proof fn lemma_describe_present(defs: Seq<KeyDefinition>, i: int)
    requires
        0 <= i < defs.len(),
    ensures
        describe_spec(defs, defs[i].usage_id) is Some,
        describe_spec(defs, defs[i].usage_id).unwrap().usage_id == defs[i].usage_id,
    decreases defs.len(),
{
    let init = defs.drop_last();
    if i < defs.len() - 1 {
        assert(init[i] == defs[i]);
        lemma_describe_present(init, i);
    }
    lemma_describe_hit(defs, defs[i].usage_id);
}

/// What describing finds carries the usage-id asked for.
proof fn lemma_describe_hit(defs: Seq<KeyDefinition>, usage_id: u8)
    ensures
        describe_spec(defs, usage_id) is Some ==> describe_spec(defs, usage_id).unwrap().usage_id
            == usage_id,
    decreases defs.len(),
{
    if defs.len() > 0 {
        lemma_describe_hit(defs.drop_last(), usage_id);
    }
}

/// Every key of the enum but `NoKey` has a record in the key table.
pub proof fn lemma_key_in_table(k: Keys)
    requires
        k != Keys::NoKey,
    ensures
        exists|i: int| 0 <= i < key_table().len() && key_table()[i].usage_id == k.spec_usage_id(),
{
    match k {
        Keys::NoKey => {},
        Keys::A => assert(key_table()[0].usage_id == k.spec_usage_id()),
        Keys::B => assert(key_table()[1].usage_id == k.spec_usage_id()),
        Keys::C => assert(key_table()[2].usage_id == k.spec_usage_id()),
        Keys::D => assert(key_table()[3].usage_id == k.spec_usage_id()),
        Keys::E => assert(key_table()[4].usage_id == k.spec_usage_id()),
        Keys::F => assert(key_table()[5].usage_id == k.spec_usage_id()),
        Keys::G => assert(key_table()[6].usage_id == k.spec_usage_id()),
        Keys::H => assert(key_table()[7].usage_id == k.spec_usage_id()),
        Keys::I => assert(key_table()[8].usage_id == k.spec_usage_id()),
        Keys::J => assert(key_table()[9].usage_id == k.spec_usage_id()),
        Keys::K => assert(key_table()[10].usage_id == k.spec_usage_id()),
        Keys::L => assert(key_table()[11].usage_id == k.spec_usage_id()),
        Keys::M => assert(key_table()[12].usage_id == k.spec_usage_id()),
        Keys::N => assert(key_table()[13].usage_id == k.spec_usage_id()),
        Keys::O => assert(key_table()[14].usage_id == k.spec_usage_id()),
        Keys::P => assert(key_table()[15].usage_id == k.spec_usage_id()),
        Keys::Q => assert(key_table()[16].usage_id == k.spec_usage_id()),
        Keys::R => assert(key_table()[17].usage_id == k.spec_usage_id()),
        Keys::S => assert(key_table()[18].usage_id == k.spec_usage_id()),
        Keys::T => assert(key_table()[19].usage_id == k.spec_usage_id()),
        Keys::U => assert(key_table()[20].usage_id == k.spec_usage_id()),
        Keys::V => assert(key_table()[21].usage_id == k.spec_usage_id()),
        Keys::W => assert(key_table()[22].usage_id == k.spec_usage_id()),
        Keys::X => assert(key_table()[23].usage_id == k.spec_usage_id()),
        Keys::Y => assert(key_table()[24].usage_id == k.spec_usage_id()),
        Keys::Z => assert(key_table()[25].usage_id == k.spec_usage_id()),
        Keys::Digit1 => assert(key_table()[26].usage_id == k.spec_usage_id()),
        Keys::Digit2 => assert(key_table()[27].usage_id == k.spec_usage_id()),
        Keys::Digit3 => assert(key_table()[28].usage_id == k.spec_usage_id()),
        Keys::Digit4 => assert(key_table()[29].usage_id == k.spec_usage_id()),
        Keys::Digit5 => assert(key_table()[30].usage_id == k.spec_usage_id()),
        Keys::Digit6 => assert(key_table()[31].usage_id == k.spec_usage_id()),
        Keys::Digit7 => assert(key_table()[32].usage_id == k.spec_usage_id()),
        Keys::Digit8 => assert(key_table()[33].usage_id == k.spec_usage_id()),
        Keys::Digit9 => assert(key_table()[34].usage_id == k.spec_usage_id()),
        Keys::Digit0 => assert(key_table()[35].usage_id == k.spec_usage_id()),
        Keys::Enter => assert(key_table()[36].usage_id == k.spec_usage_id()),
        Keys::Escape => assert(key_table()[37].usage_id == k.spec_usage_id()),
        Keys::Backspace => assert(key_table()[38].usage_id == k.spec_usage_id()),
        Keys::Tab => assert(key_table()[39].usage_id == k.spec_usage_id()),
        Keys::Space => assert(key_table()[40].usage_id == k.spec_usage_id()),
        Keys::Minus => assert(key_table()[41].usage_id == k.spec_usage_id()),
        Keys::Equal => assert(key_table()[42].usage_id == k.spec_usage_id()),
        Keys::BracketLeft => assert(key_table()[43].usage_id == k.spec_usage_id()),
        Keys::BracketRight => assert(key_table()[44].usage_id == k.spec_usage_id()),
        Keys::Backslash => assert(key_table()[45].usage_id == k.spec_usage_id()),
        Keys::NonUsHash => assert(key_table()[46].usage_id == k.spec_usage_id()),
        Keys::Semicolon => assert(key_table()[47].usage_id == k.spec_usage_id()),
        Keys::Quote => assert(key_table()[48].usage_id == k.spec_usage_id()),
        Keys::Backquote => assert(key_table()[49].usage_id == k.spec_usage_id()),
        Keys::Comma => assert(key_table()[50].usage_id == k.spec_usage_id()),
        Keys::Period => assert(key_table()[51].usage_id == k.spec_usage_id()),
        Keys::Slash => assert(key_table()[52].usage_id == k.spec_usage_id()),
        Keys::CapsLock => assert(key_table()[53].usage_id == k.spec_usage_id()),
        Keys::F1 => assert(key_table()[54].usage_id == k.spec_usage_id()),
        Keys::F2 => assert(key_table()[55].usage_id == k.spec_usage_id()),
        Keys::F3 => assert(key_table()[56].usage_id == k.spec_usage_id()),
        Keys::F4 => assert(key_table()[57].usage_id == k.spec_usage_id()),
        Keys::F5 => assert(key_table()[58].usage_id == k.spec_usage_id()),
        Keys::F6 => assert(key_table()[59].usage_id == k.spec_usage_id()),
        Keys::F7 => assert(key_table()[60].usage_id == k.spec_usage_id()),
        Keys::F8 => assert(key_table()[61].usage_id == k.spec_usage_id()),
        Keys::F9 => assert(key_table()[62].usage_id == k.spec_usage_id()),
        Keys::F10 => assert(key_table()[63].usage_id == k.spec_usage_id()),
        Keys::F11 => assert(key_table()[64].usage_id == k.spec_usage_id()),
        Keys::F12 => assert(key_table()[65].usage_id == k.spec_usage_id()),
        Keys::PrintScreen => assert(key_table()[66].usage_id == k.spec_usage_id()),
        Keys::ScrollLock => assert(key_table()[67].usage_id == k.spec_usage_id()),
        Keys::Pause => assert(key_table()[68].usage_id == k.spec_usage_id()),
        Keys::Insert => assert(key_table()[69].usage_id == k.spec_usage_id()),
        Keys::Home => assert(key_table()[70].usage_id == k.spec_usage_id()),
        Keys::PageUp => assert(key_table()[71].usage_id == k.spec_usage_id()),
        Keys::Delete => assert(key_table()[72].usage_id == k.spec_usage_id()),
        Keys::End => assert(key_table()[73].usage_id == k.spec_usage_id()),
        Keys::PageDown => assert(key_table()[74].usage_id == k.spec_usage_id()),
        Keys::ArrowRight => assert(key_table()[75].usage_id == k.spec_usage_id()),
        Keys::ArrowLeft => assert(key_table()[76].usage_id == k.spec_usage_id()),
        Keys::ArrowDown => assert(key_table()[77].usage_id == k.spec_usage_id()),
        Keys::ArrowUp => assert(key_table()[78].usage_id == k.spec_usage_id()),
        Keys::NumLock => assert(key_table()[79].usage_id == k.spec_usage_id()),
        Keys::NumpadDivide => assert(key_table()[80].usage_id == k.spec_usage_id()),
        Keys::NumpadMultiply => assert(key_table()[81].usage_id == k.spec_usage_id()),
        Keys::NumpadSubtract => assert(key_table()[82].usage_id == k.spec_usage_id()),
        Keys::NumpadAdd => assert(key_table()[83].usage_id == k.spec_usage_id()),
        Keys::NumpadEnter => assert(key_table()[84].usage_id == k.spec_usage_id()),
        Keys::Numpad1 => assert(key_table()[85].usage_id == k.spec_usage_id()),
        Keys::Numpad2 => assert(key_table()[86].usage_id == k.spec_usage_id()),
        Keys::Numpad3 => assert(key_table()[87].usage_id == k.spec_usage_id()),
        Keys::Numpad4 => assert(key_table()[88].usage_id == k.spec_usage_id()),
        Keys::Numpad5 => assert(key_table()[89].usage_id == k.spec_usage_id()),
        Keys::Numpad6 => assert(key_table()[90].usage_id == k.spec_usage_id()),
        Keys::Numpad7 => assert(key_table()[91].usage_id == k.spec_usage_id()),
        Keys::Numpad8 => assert(key_table()[92].usage_id == k.spec_usage_id()),
        Keys::Numpad9 => assert(key_table()[93].usage_id == k.spec_usage_id()),
        Keys::Numpad0 => assert(key_table()[94].usage_id == k.spec_usage_id()),
        Keys::NumpadDecimal => assert(key_table()[95].usage_id == k.spec_usage_id()),
        Keys::NonUsBackslash => assert(key_table()[96].usage_id == k.spec_usage_id()),
        Keys::ContextMenu => assert(key_table()[97].usage_id == k.spec_usage_id()),
        Keys::Power => assert(key_table()[98].usage_id == k.spec_usage_id()),
        Keys::NumpadEqual => assert(key_table()[99].usage_id == k.spec_usage_id()),
        Keys::F13 => assert(key_table()[100].usage_id == k.spec_usage_id()),
        Keys::F14 => assert(key_table()[101].usage_id == k.spec_usage_id()),
        Keys::F15 => assert(key_table()[102].usage_id == k.spec_usage_id()),
        Keys::F16 => assert(key_table()[103].usage_id == k.spec_usage_id()),
        Keys::F17 => assert(key_table()[104].usage_id == k.spec_usage_id()),
        Keys::F18 => assert(key_table()[105].usage_id == k.spec_usage_id()),
        Keys::F19 => assert(key_table()[106].usage_id == k.spec_usage_id()),
        Keys::F20 => assert(key_table()[107].usage_id == k.spec_usage_id()),
        Keys::F21 => assert(key_table()[108].usage_id == k.spec_usage_id()),
        Keys::F22 => assert(key_table()[109].usage_id == k.spec_usage_id()),
        Keys::F23 => assert(key_table()[110].usage_id == k.spec_usage_id()),
        Keys::F24 => assert(key_table()[111].usage_id == k.spec_usage_id()),
        Keys::LeftCtrl => assert(key_table()[112].usage_id == k.spec_usage_id()),
        Keys::LeftShift => assert(key_table()[113].usage_id == k.spec_usage_id()),
        Keys::LeftAlt => assert(key_table()[114].usage_id == k.spec_usage_id()),
        Keys::LeftMeta => assert(key_table()[115].usage_id == k.spec_usage_id()),
        Keys::RightCtrl => assert(key_table()[116].usage_id == k.spec_usage_id()),
        Keys::RightShift => assert(key_table()[117].usage_id == k.spec_usage_id()),
        Keys::RightAlt => assert(key_table()[118].usage_id == k.spec_usage_id()),
        Keys::RightMeta => assert(key_table()[119].usage_id == k.spec_usage_id()),
    }
}

/// Describing the usage-id of any key of the enum but `NoKey` in the key
/// table gives a mapped key with exactly that usage-id.
pub proof fn lemma_describe_key(k: Keys)
    requires
        k != Keys::NoKey,
    ensures
        describe_spec(key_table(), k.spec_usage_id()) is Some,
        describe_spec(key_table(), k.spec_usage_id()).unwrap().usage_id == k.spec_usage_id(),
{
    lemma_key_in_table(k);
    let i = choose|i: int| 0 <= i < key_table().len() && key_table()[i].usage_id == k.spec_usage_id();
    lemma_describe_present(key_table(), i);
}

/// Usage-ids that increase along a table are unique.
proof fn lemma_increasing_unique(defs: Seq<KeyDefinition>)
    requires
        forall|i: int| 0 <= i < defs.len() - 1 ==> defs[i].usage_id < #[trigger] defs[i + 1].usage_id,
    ensures
        usage_ids_unique(defs),
        forall|i: int, j: int| 0 <= i < j < defs.len() ==> defs[i].usage_id < defs[j].usage_id,
    decreases defs.len(),
{
    if defs.len() > 0 {
        let init = defs.drop_last();
        assert forall|i: int| 0 <= i < init.len() - 1 implies init[i].usage_id < #[trigger] init[i
            + 1].usage_id by {
            assert(defs[i + 1] == init[i + 1]);
        }
        lemma_increasing_unique(init);
        assert forall|i: int, j: int| 0 <= i < j < defs.len() implies defs[i].usage_id
            < defs[j].usage_id by {
            assert(init.len() == defs.len() - 1);
            if j < defs.len() - 1 {
                assert(defs[i] == init[i] && defs[j] == init[j]);
            } else {
                let k = j - 1;
                assert(defs[k].usage_id < defs[k + 1].usage_id);
                if i < k {
                    assert(defs[i] == init[i] && defs[k] == init[k]);
                }
            }
        }
    }
}

/// The key table lists its records in strictly increasing usage-id order, so
/// no two of them share a usage-id.
pub proof fn lemma_table_usage_ids_unique()
    ensures
        usage_ids_unique(key_table()),
{
    let t = key_table();
    assert(t[0].usage_id < t[1].usage_id);
    assert(t[1].usage_id < t[2].usage_id);
    assert(t[2].usage_id < t[3].usage_id);
    assert(t[3].usage_id < t[4].usage_id);
    assert(t[4].usage_id < t[5].usage_id);
    assert(t[5].usage_id < t[6].usage_id);
    assert(t[6].usage_id < t[7].usage_id);
    assert(t[7].usage_id < t[8].usage_id);
    assert(t[8].usage_id < t[9].usage_id);
    assert(t[9].usage_id < t[10].usage_id);
    assert(t[10].usage_id < t[11].usage_id);
    assert(t[11].usage_id < t[12].usage_id);
    assert(t[12].usage_id < t[13].usage_id);
    assert(t[13].usage_id < t[14].usage_id);
    assert(t[14].usage_id < t[15].usage_id);
    assert(t[15].usage_id < t[16].usage_id);
    assert(t[16].usage_id < t[17].usage_id);
    assert(t[17].usage_id < t[18].usage_id);
    assert(t[18].usage_id < t[19].usage_id);
    assert(t[19].usage_id < t[20].usage_id);
    assert(t[20].usage_id < t[21].usage_id);
    assert(t[21].usage_id < t[22].usage_id);
    assert(t[22].usage_id < t[23].usage_id);
    assert(t[23].usage_id < t[24].usage_id);
    assert(t[24].usage_id < t[25].usage_id);
    assert(t[25].usage_id < t[26].usage_id);
    assert(t[26].usage_id < t[27].usage_id);
    assert(t[27].usage_id < t[28].usage_id);
    assert(t[28].usage_id < t[29].usage_id);
    assert(t[29].usage_id < t[30].usage_id);
    assert(t[30].usage_id < t[31].usage_id);
    assert(t[31].usage_id < t[32].usage_id);
    assert(t[32].usage_id < t[33].usage_id);
    assert(t[33].usage_id < t[34].usage_id);
    assert(t[34].usage_id < t[35].usage_id);
    assert(t[35].usage_id < t[36].usage_id);
    assert(t[36].usage_id < t[37].usage_id);
    assert(t[37].usage_id < t[38].usage_id);
    assert(t[38].usage_id < t[39].usage_id);
    assert(t[39].usage_id < t[40].usage_id);
    assert(t[40].usage_id < t[41].usage_id);
    assert(t[41].usage_id < t[42].usage_id);
    assert(t[42].usage_id < t[43].usage_id);
    assert(t[43].usage_id < t[44].usage_id);
    assert(t[44].usage_id < t[45].usage_id);
    assert(t[45].usage_id < t[46].usage_id);
    assert(t[46].usage_id < t[47].usage_id);
    assert(t[47].usage_id < t[48].usage_id);
    assert(t[48].usage_id < t[49].usage_id);
    assert(t[49].usage_id < t[50].usage_id);
    assert(t[50].usage_id < t[51].usage_id);
    assert(t[51].usage_id < t[52].usage_id);
    assert(t[52].usage_id < t[53].usage_id);
    assert(t[53].usage_id < t[54].usage_id);
    assert(t[54].usage_id < t[55].usage_id);
    assert(t[55].usage_id < t[56].usage_id);
    assert(t[56].usage_id < t[57].usage_id);
    assert(t[57].usage_id < t[58].usage_id);
    assert(t[58].usage_id < t[59].usage_id);
    assert(t[59].usage_id < t[60].usage_id);
    assert(t[60].usage_id < t[61].usage_id);
    assert(t[61].usage_id < t[62].usage_id);
    assert(t[62].usage_id < t[63].usage_id);
    assert(t[63].usage_id < t[64].usage_id);
    assert(t[64].usage_id < t[65].usage_id);
    assert(t[65].usage_id < t[66].usage_id);
    assert(t[66].usage_id < t[67].usage_id);
    assert(t[67].usage_id < t[68].usage_id);
    assert(t[68].usage_id < t[69].usage_id);
    assert(t[69].usage_id < t[70].usage_id);
    assert(t[70].usage_id < t[71].usage_id);
    assert(t[71].usage_id < t[72].usage_id);
    assert(t[72].usage_id < t[73].usage_id);
    assert(t[73].usage_id < t[74].usage_id);
    assert(t[74].usage_id < t[75].usage_id);
    assert(t[75].usage_id < t[76].usage_id);
    assert(t[76].usage_id < t[77].usage_id);
    assert(t[77].usage_id < t[78].usage_id);
    assert(t[78].usage_id < t[79].usage_id);
    assert(t[79].usage_id < t[80].usage_id);
    assert(t[80].usage_id < t[81].usage_id);
    assert(t[81].usage_id < t[82].usage_id);
    assert(t[82].usage_id < t[83].usage_id);
    assert(t[83].usage_id < t[84].usage_id);
    assert(t[84].usage_id < t[85].usage_id);
    assert(t[85].usage_id < t[86].usage_id);
    assert(t[86].usage_id < t[87].usage_id);
    assert(t[87].usage_id < t[88].usage_id);
    assert(t[88].usage_id < t[89].usage_id);
    assert(t[89].usage_id < t[90].usage_id);
    assert(t[90].usage_id < t[91].usage_id);
    assert(t[91].usage_id < t[92].usage_id);
    assert(t[92].usage_id < t[93].usage_id);
    assert(t[93].usage_id < t[94].usage_id);
    assert(t[94].usage_id < t[95].usage_id);
    assert(t[95].usage_id < t[96].usage_id);
    assert(t[96].usage_id < t[97].usage_id);
    assert(t[97].usage_id < t[98].usage_id);
    assert(t[98].usage_id < t[99].usage_id);
    assert(t[99].usage_id < t[100].usage_id);
    assert(t[100].usage_id < t[101].usage_id);
    assert(t[101].usage_id < t[102].usage_id);
    assert(t[102].usage_id < t[103].usage_id);
    assert(t[103].usage_id < t[104].usage_id);
    assert(t[104].usage_id < t[105].usage_id);
    assert(t[105].usage_id < t[106].usage_id);
    assert(t[106].usage_id < t[107].usage_id);
    assert(t[107].usage_id < t[108].usage_id);
    assert(t[108].usage_id < t[109].usage_id);
    assert(t[109].usage_id < t[110].usage_id);
    assert(t[110].usage_id < t[111].usage_id);
    assert(t[111].usage_id < t[112].usage_id);
    assert(t[112].usage_id < t[113].usage_id);
    assert(t[113].usage_id < t[114].usage_id);
    assert(t[114].usage_id < t[115].usage_id);
    assert(t[115].usage_id < t[116].usage_id);
    assert(t[116].usage_id < t[117].usage_id);
    assert(t[117].usage_id < t[118].usage_id);
    assert(t[118].usage_id < t[119].usage_id);
    lemma_increasing_unique(t);
}

/// Describing the usage-id of any key of the enum but `NoKey` in the key
/// table gives the record of the table with that usage-id.
pub proof fn lemma_describe_key_record(k: Keys)
    requires
        k != Keys::NoKey,
    ensures
        exists|i: int|
            0 <= i < key_table().len() && describe_spec(key_table(), k.spec_usage_id()) == Some(
                mapped_of(#[trigger] key_table()[i]),
            ) && key_table()[i].usage_id == k.spec_usage_id(),
{
    lemma_key_in_table(k);
    lemma_table_usage_ids_unique();
    let i = choose|i: int| 0 <= i < key_table().len() && key_table()[i].usage_id == k.spec_usage_id();
    lemma_describe_unique(key_table(), i);
}

} // verus!
