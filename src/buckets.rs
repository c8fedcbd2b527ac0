//! Hash buckets over key codes: a layout partition split by the hash of each
//! record's key code, so that a lookup reads one bucket only.
use vstd::prelude::*;
use vstd::string::*;

use crate::keys::KeyDefinition;
use crate::maps::{lookup_code, lookup_in};

verus! {

/// Modulus of the key-code hash (a prime).
pub const HASH_MODULUS: u64 = 1000003;

/// Multiplier of the key-code hash.
pub const HASH_MULTIPLIER: u64 = 31;

/// Polynomial hash of a key code, reduced modulo `HASH_MODULUS`.
pub open spec fn code_hash(s: Seq<char>) -> int
    decreases s.len(),
{
    if s.len() == 0 {
        0
    } else {
        (code_hash(s.drop_last()) * HASH_MULTIPLIER + (s.last() as u32) as int) % (HASH_MODULUS as int)
    }
}

/// The bucket, out of `n`, of key code `code`.
pub open spec fn bucket_of(code: Seq<char>, n: int) -> int {
    code_hash(code) % n
}

/// The records of `part` whose key code falls in bucket `b` out of `n`.
pub open spec fn bucket_spec(part: Seq<KeyDefinition>, n: int, b: int) -> Seq<KeyDefinition> {
    part.filter(|d: KeyDefinition| bucket_of(d.key_code@, n) == b)
}

/// Buckets `buckets` hold the records of `part`, split by bucket.
pub open spec fn buckets_of(buckets: Seq<Vec<KeyDefinition>>, part: Seq<KeyDefinition>) -> bool {
    &&& buckets.len() > 0
    &&& forall|b: int|
        0 <= b < buckets.len() ==> #[trigger] buckets[b]@ == bucket_spec(part, buckets.len() as int, b)
}

/// The hash of a key code.
pub fn hash_code(code: &str) -> (r: u64)
    ensures
        r == code_hash(code@),
        r < HASH_MODULUS,
{
    let n = code.unicode_len();
    let mut h: u64 = 0;
    let mut i: usize = 0;
    while i < n
        invariant
            0 <= i <= n,
            n == code@.len(),
            h == code_hash(code@.subrange(0, i as int)),
            h < HASH_MODULUS,
        decreases n - i,
    {
        let c = code.get_char(i);
        let ghost next = code@.subrange(0, i + 1);
        assert(next.drop_last() =~= code@.subrange(0, i as int));
        assert(next.last() == c);
        let x: u64 = (c as u32) as u64;
        h = (h * HASH_MULTIPLIER + x) % HASH_MODULUS;
        i += 1;
    }
    assert(code@.subrange(0, n as int) =~= code@);
    h
}

/// Splits `part` into as many buckets as it has records (one at least).
pub fn build_buckets(part: &Vec<KeyDefinition>) -> (r: Vec<Vec<KeyDefinition>>)
    ensures
        buckets_of(r@, part@),
        r@.len() == if part@.len() == 0 { 1 } else { part@.len() },
{
    let n = part.len();
    let nb: usize = if n == 0 { 1 } else { n };
    let mut hashes: Vec<u64> = Vec::new();
    let mut k: usize = 0;
    while k < n
        invariant
            0 <= k <= n,
            n == part@.len(),
            hashes@.len() == k,
            forall|a: int| 0 <= a < k ==> hashes@[a] == code_hash(part@[a].key_code@),
        decreases n - k,
    {
        hashes.push(hash_code(part[k].key_code));
        k += 1;
    }
    let mut r: Vec<Vec<KeyDefinition>> = Vec::new();
    let mut b: usize = 0;
    while b < nb
        invariant
            0 <= b <= nb,
            nb > 0,
            n == part@.len(),
            nb == if n == 0 { 1 } else { n },
            hashes@.len() == n,
            forall|a: int| 0 <= a < n ==> hashes@[a] == code_hash(part@[a].key_code@),
            r@.len() == b,
            forall|c: int| 0 <= c < b ==> #[trigger] r@[c]@ == bucket_spec(part@, nb as int, c),
        decreases nb - b,
    {
        let mut bucket: Vec<KeyDefinition> = Vec::new();
        let mut i: usize = 0;
        while i < n
            invariant
                0 <= i <= n,
                nb > 0,
                n == part@.len(),
                hashes@.len() == n,
                forall|a: int| 0 <= a < n ==> hashes@[a] == code_hash(part@[a].key_code@),
                bucket@ == bucket_spec(part@.subrange(0, i as int), nb as int, b as int),
            decreases n - i,
        {
            let d = part[i];
            proof {
                reveal(Seq::filter);
                let next = part@.subrange(0, i + 1);
                assert(next.drop_last() =~= part@.subrange(0, i as int));
                assert(next.last() == d);
            }
            if hashes[i] % (nb as u64) == b as u64 {
                bucket.push(d);
            }
            i += 1;
        }
        assert(part@.subrange(0, n as int) =~= part@);
        r.push(bucket);
        b += 1;
    }
    r
}

/// Looking a key code up in its bucket finds what looking it up in the
/// whole partition finds.
pub proof fn lemma_bucket_lookup(part: Seq<KeyDefinition>, n: int, code: Seq<char>)
    requires
        n > 0,
    ensures
        lookup_code(bucket_spec(part, n, bucket_of(code, n)), code) == lookup_code(part, code),
    decreases part.len(),
{
    reveal(Seq::filter);
    if part.len() > 0 {
        let init = part.drop_last();
        lemma_bucket_lookup(init, n, code);
        let sub = bucket_spec(init, n, bucket_of(code, n));
        let last = part.last();
        if bucket_of(last.key_code@, n) == bucket_of(code, n) {
            assert(bucket_spec(part, n, bucket_of(code, n)) == sub.push(last));
            assert(sub.push(last).drop_last() =~= sub);
        } else {
            assert(bucket_spec(part, n, bucket_of(code, n)) == sub);
            assert(last.key_code@ != code);
        }
    }
}

/// Usage-id of the first record of the bucketed partition whose key code is
/// `code`.
pub(crate) fn lookup_buckets(
    buckets: &Vec<Vec<KeyDefinition>>,
    code: &str,
    Ghost(part): Ghost<Seq<KeyDefinition>>,
) -> (r: Option<u8>)
    requires
        buckets_of(buckets@, part),
    ensures
        r == lookup_code(part, code@),
{
    let nb = buckets.len();
    let b = (hash_code(code) % (nb as u64)) as usize;
    proof {
        lemma_bucket_lookup(part, nb as int, code@);
    }
    lookup_in(&buckets[b], code)
}

} // verus!
