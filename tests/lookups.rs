use key_mapping::maps::{describe_in, lookup_in, partition, validate};
use key_mapping::{
    key_definitions, mapped_key, KeyDefinition, KeyMaps, Keyboard, Keys, MappedKey, TableError,
};

fn def(usage_id: u8, key_code: &'static str, prefix: &'static str, layout: Option<Keyboard>) -> KeyDefinition {
    KeyDefinition { usage_id, key_code, prefix, layout }
}

#[test]
fn dom_key_to_hid() {
    assert_eq!(0x04, Keyboard::US.dom_key_to_usage_id("KeyA").unwrap());
    assert_eq!(0x31, Keyboard::US.dom_key_to_usage_id("Backslash").unwrap());
    assert_eq!(0x32, Keyboard::UK.dom_key_to_usage_id("Backslash").unwrap());
}

#[test]
fn usage_id_to_mapping() {
    assert_eq!(
        mapped_key(0x04),
        Some(MappedKey {
            usage_id: 0x04,
            dom_key: "KeyA",
            prefix: "A",
        })
    );
}

#[test]
fn unknown_key_code_is_not_found() {
    assert_eq!(Keyboard::US.dom_key_to_usage_id("NoSuchKey"), None);
    assert_eq!(Keyboard::UK.dom_key_to_usage_id(""), None);
}

#[test]
fn layout_only_keys() {
    assert_eq!(Keyboard::UK.dom_key_to_usage_id("IntlBackslash"), Some(0x64));
    assert_eq!(Keyboard::US.dom_key_to_usage_id("IntlBackslash"), None);
}

#[test]
fn unknown_usage_id_is_not_found() {
    assert_eq!(mapped_key(0x00), None);
    assert_eq!(mapped_key(0xFF), None);
}

#[test]
fn default_layout_is_us() {
    assert_eq!(Keyboard::default(), Keyboard::US);
}

#[test]
fn built_in_table_is_well_formed() {
    let defs = key_definitions();
    assert_eq!(validate(&defs), Ok(()));
    assert!(KeyMaps::build(&defs).is_ok());
}

#[test]
fn every_record_resolves_in_its_layouts() {
    let defs = key_definitions();
    let maps = KeyMaps::build(&defs).unwrap();
    for d in &defs {
        for layout in [Keyboard::US, Keyboard::UK] {
            let applies = d.layout.map_or(true, |t| t == layout);
            if applies {
                assert_eq!(maps.resolve(layout, d.key_code), Some(d.usage_id));
                assert_eq!(layout.dom_key_to_usage_id(d.key_code), Some(d.usage_id));
            } else if !defs
                .iter()
                .any(|o| o.key_code == d.key_code && o.layout.map_or(true, |t| t == layout))
            {
                assert_eq!(maps.resolve(layout, d.key_code), None);
            }
        }
    }
}

#[test]
fn every_enum_key_is_described() {
    let defs = key_definitions();
    let maps = KeyMaps::build(&defs).unwrap();
    let mut count = 0;
    for u in 0..=255u8 {
        match Keys::from_usage_id(u) {
            Some(Keys::NoKey) => assert_eq!(maps.describe(u), None),
            Some(k) => {
                assert_eq!(k.usage_id(), u);
                let m = maps.describe(u).unwrap();
                assert_eq!(m.usage_id, u);
                assert_eq!(mapped_key(u), Some(m));
                let name: String = key_mapping::names::variant_name(m.prefix).into_iter().collect();
                assert_eq!(name, format!("{:?}", k));
                count += 1;
            }
            None => assert_eq!(maps.describe(u), None),
        }
    }
    assert_eq!(count, defs.len());
}

#[test]
fn lookups_are_repeatable() {
    let defs = key_definitions();
    let maps = KeyMaps::build(&defs).unwrap();
    assert_eq!(maps.resolve(Keyboard::UK, "Backslash"), maps.resolve(Keyboard::UK, "Backslash"));
    assert_eq!(maps.describe(0x04), maps.describe(0x04));
    assert_eq!(
        Keyboard::US.dom_key_to_usage_id("KeyZ"),
        Keyboard::US.dom_key_to_usage_id("KeyZ")
    );
}

#[test]
fn maps_scenarios() {
    let defs = key_definitions();
    let maps = KeyMaps::build(&defs).unwrap();
    assert_eq!(maps.resolve(Keyboard::US, "KeyA"), Some(0x04));
    assert_eq!(maps.resolve(Keyboard::US, "Backslash"), Some(0x31));
    assert_eq!(maps.resolve(Keyboard::UK, "Backslash"), Some(0x32));
    assert_eq!(maps.resolve(Keyboard::US, "NoSuchKey"), None);
    assert_eq!(
        maps.describe(0xE1),
        Some(MappedKey { usage_id: 0xE1, dom_key: "ShiftLeft", prefix: "LEFT_SHIFT" })
    );
}

#[test]
fn partition_keeps_untagged_and_matching() {
    let defs = vec![
        def(1, "One", "ONE", None),
        def(2, "Two", "TWO", Some(Keyboard::UK)),
        def(3, "Three", "THREE", Some(Keyboard::US)),
    ];
    let us: Vec<u8> = partition(&defs, Keyboard::US).iter().map(|d| d.usage_id).collect();
    let uk: Vec<u8> = partition(&defs, Keyboard::UK).iter().map(|d| d.usage_id).collect();
    assert_eq!(us, vec![1, 3]);
    assert_eq!(uk, vec![1, 2]);
}

#[test]
fn first_match_wins_on_unchecked_tables() {
    let defs = vec![def(5, "Same", "FIRST", None), def(6, "Same", "SECOND", None), def(5, "Other", "THIRD", None)];
    assert_eq!(lookup_in(&defs, "Same"), Some(5));
    assert_eq!(describe_in(&defs, 5).unwrap().prefix, "FIRST");
}

#[test]
fn invalid_names_are_rejected() {
    for bad in ["", "_A", "A_", "A__B", "1A", "A-B", "Ä"] {
        let defs = vec![def(1, "One", bad, None)];
        assert_eq!(validate(&defs), Err(TableError::InvalidName), "{bad:?}");
        assert_eq!(KeyMaps::build(&defs).err(), Some(TableError::InvalidName));
    }
}

#[test]
fn duplicate_names_are_rejected() {
    let defs = vec![def(1, "One", "LEFT_SHIFT", None), def(2, "Two", "left_shift", None)];
    assert_eq!(validate(&defs), Err(TableError::DuplicateName));
}

#[test]
fn duplicate_usage_ids_are_rejected() {
    let defs = vec![def(7, "One", "ONE", None), def(7, "Two", "TWO", None)];
    assert_eq!(validate(&defs), Err(TableError::DuplicateUsageId));
}

#[test]
fn key_code_collisions_are_rejected() {
    let defs = vec![def(1, "Same", "ONE", Some(Keyboard::UK)), def(2, "Same", "TWO", None)];
    assert_eq!(validate(&defs), Err(TableError::KeyCodeCollision));
    assert_eq!(KeyMaps::build(&defs).err(), Some(TableError::KeyCodeCollision));
}

#[test]
fn same_key_code_in_different_layouts_is_accepted() {
    let defs = vec![def(1, "Same", "ONE", Some(Keyboard::UK)), def(2, "Same", "TWO", Some(Keyboard::US))];
    let maps = KeyMaps::build(&defs).unwrap();
    assert_eq!(maps.resolve(Keyboard::UK, "Same"), Some(1));
    assert_eq!(maps.resolve(Keyboard::US, "Same"), Some(2));
}

#[test]
fn empty_table_builds_empty_maps() {
    let maps = KeyMaps::build(&Vec::new()).unwrap();
    assert_eq!(maps.resolve(Keyboard::US, "KeyA"), None);
    assert_eq!(maps.describe(0x04), None);
}
