//! Layout partitions, table validation and the lookup maps built from a key
//! table.
use vstd::prelude::*;

use crate::buckets::{build_buckets, buckets_of, lookup_buckets};
use crate::keys::{mapped_of, to_mapped, KeyDefinition, MappedKey};
use crate::layout::{applies_to, tag_applies, Keyboard};
use crate::names::{chars_eq, is_valid_name, valid_name, variant_name, variant_name_spec};
use crate::table::{key_definitions, key_table};
use crate::text::str_eq;

verus! {

/// The records of `defs` that apply to `layout`, in source order.
pub open spec fn partition_spec(defs: Seq<KeyDefinition>, layout: Keyboard) -> Seq<KeyDefinition> {
    defs.filter(|d: KeyDefinition| applies_to(d.layout, layout))
}

/// Usage-id of the first record of `part` whose key code is `code`.
pub open spec fn lookup_code(part: Seq<KeyDefinition>, code: Seq<char>) -> Option<u8>
    decreases part.len(),
{
    if part.len() == 0 {
        None
    } else {
        let earlier = lookup_code(part.drop_last(), code);
        if earlier is Some {
            earlier
        } else if part.last().key_code@ == code {
            Some(part.last().usage_id)
        } else {
            None
        }
    }
}

/// The usage-id that key code `code` maps to under `layout`.
pub open spec fn resolve_spec(defs: Seq<KeyDefinition>, layout: Keyboard, code: Seq<char>) -> Option<u8> {
    lookup_code(partition_spec(defs, layout), code)
}

/// The mapped key of the first record of `defs` with usage-id `usage_id`.
pub open spec fn describe_spec(defs: Seq<KeyDefinition>, usage_id: u8) -> Option<MappedKey<'static>>
    decreases defs.len(),
{
    if defs.len() == 0 {
        None
    } else {
        let earlier = describe_spec(defs.drop_last(), usage_id);
        if earlier is Some {
            earlier
        } else if defs.last().usage_id == usage_id {
            Some(mapped_of(defs.last()))
        } else {
            None
        }
    }
}

/// The records of `defs` that apply to `layout`, in source order.
pub fn partition(defs: &Vec<KeyDefinition>, layout: Keyboard) -> (r: Vec<KeyDefinition>)
    ensures
        r@ == partition_spec(defs@, layout),
{
    let mut r: Vec<KeyDefinition> = Vec::new();
    let mut i: usize = 0;
    while i < defs.len()
        invariant
            0 <= i <= defs@.len(),
            r@ == partition_spec(defs@.subrange(0, i as int), layout),
        decreases defs@.len() - i,
    {
        let d = defs[i];
        proof {
            reveal(Seq::filter);
            let next = defs@.subrange(0, i + 1);
            assert(next.drop_last() =~= defs@.subrange(0, i as int));
            assert(next.last() == d);
        }
        if tag_applies(d.layout, layout) {
            r.push(d);
        }
        i += 1;
    }
    assert(defs@.subrange(0, defs@.len() as int) =~= defs@);
    r
}

/// Usage-id of the first record of `part` whose key code is `code`.
pub fn lookup_in(part: &Vec<KeyDefinition>, code: &str) -> (r: Option<u8>)
    ensures
        r == lookup_code(part@, code@),
{
    let mut i: usize = 0;
    while i < part.len()
        invariant
            0 <= i <= part@.len(),
            lookup_code(part@.subrange(0, i as int), code@) is None,
        decreases part@.len() - i,
    {
        let next = Ghost(part@.subrange(0, i + 1));
        assert(next@.drop_last() =~= part@.subrange(0, i as int));
        if str_eq(part[i].key_code, code) {
            proof {
                lemma_lookup_prefix(part@, code@, i + 1);
            }
            return Some(part[i].usage_id);
        }
        i += 1;
    }
    assert(part@.subrange(0, part@.len() as int) =~= part@);
    None
}

/// A hit in a prefix of `part` is the hit in `part`.
proof fn lemma_lookup_prefix(part: Seq<KeyDefinition>, code: Seq<char>, n: int)
    requires
        0 <= n <= part.len(),
        lookup_code(part.subrange(0, n), code) is Some,
    ensures
        lookup_code(part, code) == lookup_code(part.subrange(0, n), code),
    decreases part.len() - n,
{
    if n < part.len() {
        assert(part.subrange(0, n + 1).drop_last() =~= part.subrange(0, n));
        lemma_lookup_prefix(part, code, n + 1);
    } else {
        assert(part.subrange(0, n) =~= part);
    }
}

/// The mapped key of the first record of `defs` with usage-id `usage_id`.
pub fn describe_in(defs: &Vec<KeyDefinition>, usage_id: u8) -> (r: Option<MappedKey<'static>>)
    ensures
        r == describe_spec(defs@, usage_id),
{
    let mut i: usize = 0;
    while i < defs.len()
        invariant
            0 <= i <= defs@.len(),
            describe_spec(defs@.subrange(0, i as int), usage_id) is None,
        decreases defs@.len() - i,
    {
        let next = Ghost(defs@.subrange(0, i + 1));
        assert(next@.drop_last() =~= defs@.subrange(0, i as int));
        if defs[i].usage_id == usage_id {
            proof {
                lemma_describe_prefix(defs@, usage_id, i + 1);
            }
            return Some(to_mapped(&defs[i]));
        }
        i += 1;
    }
    assert(defs@.subrange(0, defs@.len() as int) =~= defs@);
    None
}

/// A hit in a prefix of `defs` is the hit in `defs`.
proof fn lemma_describe_prefix(defs: Seq<KeyDefinition>, usage_id: u8, n: int)
    requires
        0 <= n <= defs.len(),
        describe_spec(defs.subrange(0, n), usage_id) is Some,
    ensures
        describe_spec(defs, usage_id) == describe_spec(defs.subrange(0, n), usage_id),
    decreases defs.len() - n,
{
    if n < defs.len() {
        assert(defs.subrange(0, n + 1).drop_last() =~= defs.subrange(0, n));
        lemma_describe_prefix(defs, usage_id, n + 1);
    } else {
        assert(defs.subrange(0, n) =~= defs);
    }
}

/// Why a key table cannot be turned into lookup maps.
#[derive(Debug, Clone, Copy, PartialEq, Eq, Structural)]
pub enum TableError {
    /// A canonical name does not turn into an identifier.
    InvalidName,
    /// Two canonical names give the same enum variant name.
    DuplicateName,
    /// Two records share a usage-id.
    DuplicateUsageId,
    /// Two records of one layout partition share a key code.
    KeyCodeCollision,
}

/// Every canonical name turns into an identifier.
pub open spec fn names_valid(defs: Seq<KeyDefinition>) -> bool {
    forall|i: int| 0 <= i < defs.len() ==> valid_name(#[trigger] defs[i].prefix@)
}

/// No two canonical names give the same enum variant name.
pub open spec fn names_unique(defs: Seq<KeyDefinition>) -> bool {
    forall|i: int, j: int|
        0 <= i < j < defs.len() ==> variant_name_spec(defs[i].prefix@) != variant_name_spec(
            defs[j].prefix@,
        )
}

/// No two records share a usage-id.
pub open spec fn usage_ids_unique(defs: Seq<KeyDefinition>) -> bool {
    forall|i: int, j: int| 0 <= i < j < defs.len() ==> defs[i].usage_id != defs[j].usage_id
}

/// No two records share a key code.
pub open spec fn codes_unique(part: Seq<KeyDefinition>) -> bool {
    forall|i: int, j: int| 0 <= i < j < part.len() ==> part[i].key_code@ != part[j].key_code@
}

/// The outcome of checking a key table, the first failing rule deciding.
pub open spec fn check_spec(defs: Seq<KeyDefinition>) -> Result<(), TableError> {
    if !names_valid(defs) {
        Err(TableError::InvalidName)
    } else if !names_unique(defs) {
        Err(TableError::DuplicateName)
    } else if !usage_ids_unique(defs) {
        Err(TableError::DuplicateUsageId)
    } else if !codes_unique(partition_spec(defs, Keyboard::US)) || !codes_unique(
        partition_spec(defs, Keyboard::UK),
    ) {
        Err(TableError::KeyCodeCollision)
    } else {
        Ok(())
    }
}

/// A key table from which lookup maps can be built.
pub open spec fn well_formed(defs: Seq<KeyDefinition>) -> bool {
    check_spec(defs) is Ok
}

/// Whether no two records share a usage-id.
pub fn usage_ids_distinct(defs: &Vec<KeyDefinition>) -> (r: bool)
    ensures
        r == usage_ids_unique(defs@),
{
    let n = defs.len();
    let mut i: usize = 0;
    while i < n
        invariant
            0 <= i <= n,
            n == defs@.len(),
            forall|a: int, b: int| 0 <= a < i && a < b < n ==> defs@[a].usage_id != defs@[b].usage_id,
        decreases n - i,
    {
        let mut j: usize = i + 1;
        while j < n
            invariant
                i < n,
                i + 1 <= j <= n,
                n == defs@.len(),
                forall|a: int, b: int| 0 <= a < i && a < b < n ==> defs@[a].usage_id != defs@[b].usage_id,
                forall|b: int| i < b < j ==> defs@[i as int].usage_id != defs@[b].usage_id,
            decreases n - j,
        {
            if defs[i].usage_id == defs[j].usage_id {
                return false;
            }
            j += 1;
        }
        i += 1;
    }
    true
}

/// Whether no two records share a key code.
pub fn key_codes_distinct(part: &Vec<KeyDefinition>) -> (r: bool)
    ensures
        r == codes_unique(part@),
{
    let n = part.len();
    let mut i: usize = 0;
    while i < n
        invariant
            0 <= i <= n,
            n == part@.len(),
            forall|a: int, b: int| 0 <= a < i && a < b < n ==> part@[a].key_code@ != part@[b].key_code@,
        decreases n - i,
    {
        let mut j: usize = i + 1;
        while j < n
            invariant
                i < n,
                i + 1 <= j <= n,
                n == part@.len(),
                forall|a: int, b: int| 0 <= a < i && a < b < n ==> part@[a].key_code@ != part@[b].key_code@,
                forall|b: int| i < b < j ==> part@[i as int].key_code@ != part@[b].key_code@,
            decreases n - j,
        {
            if str_eq(part[i].key_code, part[j].key_code) {
                return false;
            }
            j += 1;
        }
        i += 1;
    }
    true
}

/// Whether every canonical name turns into an identifier.
pub fn names_all_valid(defs: &Vec<KeyDefinition>) -> (r: bool)
    ensures
        r == names_valid(defs@),
{
    let mut i: usize = 0;
    while i < defs.len()
        invariant
            0 <= i <= defs@.len(),
            forall|k: int| 0 <= k < i ==> valid_name(#[trigger] defs@[k].prefix@),
        decreases defs@.len() - i,
    {
        if !is_valid_name(defs[i].prefix) {
            return false;
        }
        i += 1;
    }
    true
}

/// Whether no two canonical names give the same enum variant name.
pub fn names_distinct(defs: &Vec<KeyDefinition>) -> (r: bool)
    ensures
        r == names_unique(defs@),
{
    let n = defs.len();
    let mut names: Vec<Vec<char>> = Vec::new();
    let mut k: usize = 0;
    while k < n
        invariant
            0 <= k <= n,
            n == defs@.len(),
            names@.len() == k,
            forall|a: int| 0 <= a < k ==> names@[a]@ == variant_name_spec(defs@[a].prefix@),
        decreases n - k,
    {
        names.push(variant_name(defs[k].prefix));
        k += 1;
    }
    let mut i: usize = 0;
    while i < n
        invariant
            0 <= i <= n,
            n == defs@.len(),
            names@.len() == n,
            forall|a: int| 0 <= a < n ==> names@[a]@ == variant_name_spec(defs@[a].prefix@),
            forall|a: int, b: int|
                0 <= a < i && a < b < n ==> variant_name_spec(defs@[a].prefix@) != variant_name_spec(
                    defs@[b].prefix@,
                ),
        decreases n - i,
    {
        let mut j: usize = i + 1;
        while j < n
            invariant
                i < n,
                i + 1 <= j <= n,
                n == defs@.len(),
                names@.len() == n,
                forall|a: int| 0 <= a < n ==> names@[a]@ == variant_name_spec(defs@[a].prefix@),
                forall|a: int, b: int|
                    0 <= a < i && a < b < n ==> variant_name_spec(defs@[a].prefix@)
                        != variant_name_spec(defs@[b].prefix@),
                forall|b: int|
                    i < b < j ==> variant_name_spec(defs@[i as int].prefix@) != variant_name_spec(
                        defs@[b].prefix@,
                    ),
            decreases n - j,
        {
            if chars_eq(&names[i], &names[j]) {
                return false;
            }
            j += 1;
        }
        i += 1;
    }
    true
}

/// Checks a key table: canonical names valid and distinct as variant names,
/// usage-ids unique over the whole table, key codes unique within each layout
/// partition.
pub fn validate(defs: &Vec<KeyDefinition>) -> (r: Result<(), TableError>)
    ensures
        r == check_spec(defs@),
{
    if !names_all_valid(defs) {
        return Err(TableError::InvalidName);
    }
    if !names_distinct(defs) {
        return Err(TableError::DuplicateName);
    }
    if !usage_ids_distinct(defs) {
        return Err(TableError::DuplicateUsageId);
    }
    let us = partition(defs, Keyboard::US);
    let uk = partition(defs, Keyboard::UK);
    if !key_codes_distinct(&us) || !key_codes_distinct(&uk) {
        return Err(TableError::KeyCodeCollision);
    }
    Ok(())
}

/// Lookup maps built from a checked key table: one hashed key-code map per
/// layout and one usage-id map, indexed by usage-id, shared by all layouts.
/// Never changed once built.
pub struct KeyMaps {
    us: Vec<Vec<KeyDefinition>>,
    uk: Vec<Vec<KeyDefinition>>,
    by_usage: Vec<Option<MappedKey<'static>>>,
    defs: Ghost<Seq<KeyDefinition>>,
}

impl KeyMaps {
    /// The key table the maps were built from.
    pub closed spec fn table(&self) -> Seq<KeyDefinition> {
        self.defs@
    }

    /// The maps agree with the key table they were built from.
    pub closed spec fn wf(&self) -> bool {
        &&& well_formed(self.defs@)
        &&& buckets_of(self.us@, partition_spec(self.defs@, Keyboard::US))
        &&& buckets_of(self.uk@, partition_spec(self.defs@, Keyboard::UK))
        &&& self.by_usage@.len() == 256
        &&& forall|u: int| 0 <= u < 256 ==> self.by_usage@[u] == describe_spec(self.defs@, u as u8)
    }

    /// Checks `defs` and builds its lookup maps; fails with the first broken
    /// rule of `validate`.
    pub fn build(defs: &Vec<KeyDefinition>) -> (r: Result<KeyMaps, TableError>)
        ensures
            match r {
                Ok(m) => check_spec(defs@) is Ok && m.wf() && m.table() == defs@,
                Err(e) => check_spec(defs@) == Err::<(), TableError>(e),
            },
    {
        match validate(defs) {
            Err(e) => Err(e),
            Ok(()) => {
                let mut by_usage: Vec<Option<MappedKey<'static>>> = Vec::new();
                let mut u: usize = 0;
                while u < 256
                    invariant
                        u <= 256,
                        by_usage@.len() == u,
                        forall|k: int| 0 <= k < u ==> by_usage@[k] is None,
                    decreases 256 - u,
                {
                    by_usage.push(None);
                    u += 1;
                }
                let mut i: usize = 0;
                assert(defs@.subrange(0, 0) =~= Seq::<KeyDefinition>::empty());
                while i < defs.len()
                    invariant
                        0 <= i <= defs@.len(),
                        by_usage@.len() == 256,
                        forall|k: int|
                            0 <= k < 256 ==> by_usage@[k] == describe_spec(
                                defs@.subrange(0, i as int),
                                k as u8,
                            ),
                    decreases defs@.len() - i,
                {
                    let d = defs[i];
                    let slot = d.usage_id as usize;
                    let ghost before = by_usage@;
                    let ghost next = defs@.subrange(0, i + 1);
                    assert(next.drop_last() =~= defs@.subrange(0, i as int));
                    assert(next.last() == d);
                    if by_usage[slot].is_none() {
                        by_usage.set(slot, Some(to_mapped(&d)));
                    }
                    assert forall|k: int| 0 <= k < 256 implies by_usage@[k] == describe_spec(
                        next,
                        k as u8,
                    ) by {
                        if k != slot {
                            assert((k as u8) != d.usage_id);
                        }
                    }
                    i += 1;
                }
                assert(defs@.subrange(0, defs@.len() as int) =~= defs@);
                let us = build_buckets(&partition(defs, Keyboard::US));
                let uk = build_buckets(&partition(defs, Keyboard::UK));
                Ok(KeyMaps { us, uk, by_usage, defs: Ghost(defs@) })
            },
        }
    }

    /// The usage-id that `key_code` maps to under `layout`, if any.
    pub fn resolve(&self, layout: Keyboard, key_code: &str) -> (r: Option<u8>)
        requires
            self.wf(),
        ensures
            r == resolve_spec(self.table(), layout, key_code@),
    {
        match layout {
            Keyboard::US => lookup_buckets(
                &self.us,
                key_code,
                Ghost(partition_spec(self.defs@, Keyboard::US)),
            ),
            Keyboard::UK => lookup_buckets(
                &self.uk,
                key_code,
                Ghost(partition_spec(self.defs@, Keyboard::UK)),
            ),
        }
    }

    /// The mapped key with usage-id `usage_id`, if any.
    pub fn describe(&self, usage_id: u8) -> (r: Option<MappedKey<'static>>)
        requires
            self.wf(),
        ensures
            r == describe_spec(self.table(), usage_id),
    {
        self.by_usage[usage_id as usize]
    }
}

impl Keyboard {
    /// Convert key-code into a hid usage id, using the given keyboard layout
    /// and the built-in key table. This scans the layout's records; for many
    /// lookups build a `KeyMaps` once and use `KeyMaps::resolve`.
    pub fn dom_key_to_usage_id(&self, key_code: &str) -> (r: Option<u8>)
        ensures
            r == resolve_spec(key_table(), *self, key_code@),
    {
        let part = partition(&key_definitions(), *self);
        lookup_in(&part, key_code)
    }
}

/// The mapped key of the key table with usage-id `usage_id`, if any.
pub fn mapped_key(usage_id: u8) -> (r: Option<MappedKey<'static>>)
    ensures
        r == describe_spec(key_table(), usage_id),
{
    describe_in(&key_definitions(), usage_id)
}

} // verus!
