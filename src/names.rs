//! Canonical key names and the enum variant names derived from them.
use vstd::prelude::*;
use vstd::string::*;

verus! {

/// An ASCII letter.
pub open spec fn is_ascii_letter(c: char) -> bool {
    ('A' <= c <= 'Z') || ('a' <= c <= 'z')
}

/// A character allowed in a canonical name: ASCII letter, digit or `_`.
pub open spec fn is_name_char(c: char) -> bool {
    is_ascii_letter(c) || ('0' <= c <= '9') || c == '_'
}

/// A canonical name that turns into an identifier: non-empty, starting with
/// a letter, made of letters, digits and `_` delimiters, with no empty segment.
pub open spec fn valid_name(s: Seq<char>) -> bool {
    &&& s.len() > 0
    &&& is_ascii_letter(s[0])
    &&& s.last() != '_'
    &&& forall|k: int| 0 <= k < s.len() ==> is_name_char(#[trigger] s[k])
    &&& forall|k: int| 0 <= k < s.len() - 1 ==> !(#[trigger] s[k] == '_' && s[k + 1] == '_')
}

/// ASCII upper case of a character; other characters unchanged.
pub open spec fn upper_of(c: char) -> char {
    if 'a' <= c <= 'z' {
        ((c as u8) - 32) as char
    } else {
        c
    }
}

/// ASCII lower case of a character; other characters unchanged.
pub open spec fn lower_of(c: char) -> char {
    if 'A' <= c <= 'Z' {
        ((c as u8) + 32) as char
    } else {
        c
    }
}

/// Pascal case of `s`: each `_` dropped, the character after it (or the
/// first one, when `cap`) in upper case, every other character in lower case.
pub open spec fn pascal_from(s: Seq<char>, cap: bool) -> Seq<char>
    decreases s.len(),
{
    if s.len() == 0 {
        Seq::empty()
    } else if s[0] == '_' {
        pascal_from(s.drop_first(), true)
    } else {
        seq![if cap { upper_of(s[0]) } else { lower_of(s[0]) }] + pascal_from(s.drop_first(), false)
    }
}

/// The enum variant name of a canonical name (`left_shift` gives `LeftShift`).
pub open spec fn variant_name_spec(s: Seq<char>) -> Seq<char> {
    pascal_from(s, true)
}

/// Whether `c` may stand in a canonical name.
fn name_char(c: char) -> (r: bool)
    ensures
        r == is_name_char(c),
{
    ('A' <= c && c <= 'Z') || ('a' <= c && c <= 'z') || ('0' <= c && c <= '9') || c == '_'
}

/// Whether `name` is a valid canonical name.
pub fn is_valid_name(name: &str) -> (r: bool)
    ensures
        r == valid_name(name@),
{
    let n = name.unicode_len();
    if n == 0 {
        return false;
    }
    let first = name.get_char(0);
    if !(('A' <= first && first <= 'Z') || ('a' <= first && first <= 'z')) {
        return false;
    }
    if name.get_char(n - 1) == '_' {
        return false;
    }
    let mut i: usize = 0;
    while i < n
        invariant
            0 <= i <= n,
            n == name@.len(),
            forall|k: int| 0 <= k < i ==> is_name_char(#[trigger] name@[k]),
            forall|k: int| 0 <= k < i && k < n - 1 ==> !(#[trigger] name@[k] == '_' && name@[k + 1] == '_'),
        decreases n - i,
    {
        let c = name.get_char(i);
        if !name_char(c) {
            return false;
        }
        if i + 1 < n && c == '_' && name.get_char(i + 1) == '_' {
            return false;
        }
        i += 1;
    }
    true
}

/// The enum variant name of a canonical name.
pub fn variant_name(name: &str) -> (r: Vec<char>)
    ensures
        r@ == variant_name_spec(name@),
{
    let n = name.unicode_len();
    let mut out: Vec<char> = Vec::new();
    let mut cap = true;
    let mut i: usize = 0;
    assert(name@.subrange(0, n as int) =~= name@);
    assert(out@ + pascal_from(name@, true) =~= pascal_from(name@, true));
    while i < n
        invariant
            0 <= i <= n,
            n == name@.len(),
            out@ + pascal_from(name@.subrange(i as int, n as int), cap) == variant_name_spec(name@),
        decreases n - i,
    {
        let ghost rest = name@.subrange(i as int, n as int);
        assert(rest.drop_first() =~= name@.subrange(i + 1, n as int));
        let c = name.get_char(i);
        assert(rest[0] == c);
        if c == '_' {
            cap = true;
        } else {
            let x = if cap {
                if 'a' <= c && c <= 'z' {
                    ((c as u8) - 32) as char
                } else {
                    c
                }
            } else {
                if 'A' <= c && c <= 'Z' {
                    ((c as u8) + 32) as char
                } else {
                    c
                }
            };
            let ghost tail = pascal_from(rest.drop_first(), false);
            assert(out@.push(x) + tail =~= out@ + (seq![x] + tail));
            out.push(x);
            cap = false;
        }
        i += 1;
    }
    assert(name@.subrange(n as int, n as int) =~= Seq::<char>::empty());
    assert(out@ + Seq::<char>::empty() =~= out@);
    out
}

/// Whether two character sequences are equal.
pub fn chars_eq(a: &Vec<char>, b: &Vec<char>) -> (r: bool)
    ensures
        r == (a@ == b@),
{
    if a.len() != b.len() {
        return false;
    }
    let mut i: usize = 0;
    while i < a.len()
        invariant
            0 <= i <= a@.len(),
            a@.len() == b@.len(),
            forall|k: int| 0 <= k < i ==> a@[k] == b@[k],
        decreases a@.len() - i,
    {
        if a[i] != b[i] {
            return false;
        }
        i += 1;
    }
    assert(a@ =~= b@);
    true
}

} // verus!
