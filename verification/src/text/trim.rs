//! White space at the ends of a text.

use vstd::prelude::*;

use crate::text::{chars_of, text_between};

verus! {

/// Whether `c` counts as white space. The answer is `char::is_whitespace`'s.
pub uninterp spec fn is_space(c: char) -> bool;

/// `char::is_whitespace`: tells whether a character has Unicode's White_Space
/// property. The contract only gives that answer its name.
#[verifier::external_body]
pub(crate) fn char_is_space(c: char) -> (b: bool)
    ensures
        b == is_space(c),
{
    c.is_whitespace()
}

/// `s` without the white space at its start.
pub open spec fn trim_start(s: Seq<char>) -> Seq<char>
    decreases s.len(),
{
    if s.len() > 0 && is_space(s[0]) {
        trim_start(s.drop_first())
    } else {
        s
    }
}

/// `s` without the white space at its end.
pub open spec fn trim_end(s: Seq<char>) -> Seq<char>
    decreases s.len(),
{
    if s.len() > 0 && is_space(s.last()) {
        trim_end(s.drop_last())
    } else {
        s
    }
}

/// `s` without the white space at either end.
pub open spec fn trimmed(s: Seq<char>) -> Seq<char> {
    trim_end(trim_start(s))
}

/// Whether every character of `s` is white space (true of the empty text).
pub open spec fn is_blank(s: Seq<char>) -> bool {
    forall|i: int| 0 <= i < s.len() ==> is_space(#[trigger] s[i])
}

/// Trimming from the start leaves the part of `s` that begins at its first
/// character that is no white space.
pub proof fn lemma_trim_start_is_suffix(s: Seq<char>, k: int)
    requires
        0 <= k <= s.len(),
        forall|i: int| 0 <= i < k ==> is_space(#[trigger] s[i]),
        k < s.len() ==> !is_space(s[k]),
    ensures
        trim_start(s) == s.subrange(k, s.len() as int),
    decreases k,
{
    if k > 0 {
        lemma_trim_start_is_suffix(s.drop_first(), k - 1);
    }
}

/// Trimming from the end leaves the part of `s` that stops behind its last
/// character that is no white space.
pub proof fn lemma_trim_end_is_prefix(s: Seq<char>, k: int)
    requires
        0 <= k <= s.len(),
        forall|i: int| k <= i < s.len() ==> is_space(#[trigger] s[i]),
        k > 0 ==> !is_space(s[k - 1]),
    ensures
        trim_end(s) == s.subrange(0, k),
    decreases s.len() - k,
{
    if k < s.len() {
        lemma_trim_end_is_prefix(s.drop_last(), k);
    }
}

/// What `trim_start` removes is white space, and what it leaves does not
/// begin with white space.
pub proof fn lemma_trim_start_shape(s: Seq<char>)
    ensures
        trim_start(s).len() <= s.len(),
        trim_start(s) == s.subrange(s.len() - trim_start(s).len(), s.len() as int),
        forall|i: int| 0 <= i < s.len() - trim_start(s).len() ==> is_space(#[trigger] s[i]),
        trim_start(s).len() > 0 ==> !is_space(trim_start(s)[0]),
    decreases s.len(),
{
    if s.len() > 0 && is_space(s[0]) {
        let t = s.drop_first();
        lemma_trim_start_shape(t);
        let k = t.len() - trim_start(t).len();
        assert forall|i: int| 0 <= i < k + 1 implies is_space(#[trigger] s[i]) by {
            if i > 0 {
                assert(s[i] == t[i - 1]);
            }
        }
    }
}

/// What `trim_end` removes is white space, and what it leaves does not end
/// with white space.
pub proof fn lemma_trim_end_shape(s: Seq<char>)
    ensures
        trim_end(s).len() <= s.len(),
        trim_end(s) == s.subrange(0, trim_end(s).len() as int),
        forall|i: int| trim_end(s).len() <= i < s.len() ==> is_space(#[trigger] s[i]),
        trim_end(s).len() > 0 ==> !is_space(trim_end(s).last()),
    decreases s.len(),
{
    if s.len() > 0 && is_space(s.last()) {
        let t = s.drop_last();
        lemma_trim_end_shape(t);
        let k = trim_end(t).len() as int;
        assert forall|i: int| k <= i < s.len() implies is_space(#[trigger] s[i]) by {
            if i < t.len() {
                assert(s[i] == t[i]);
            }
        }
    }
}

/// Nothing is left of a text when it is trimmed exactly if it is blank.
pub proof fn lemma_trimmed_empty_iff_blank(s: Seq<char>)
    ensures
        trimmed(s).len() == 0 <==> is_blank(s),
    decreases s.len(),
{
    lemma_trim_start_shape(s);
    let k = s.len() - trim_start(s).len();
    let rest = trim_start(s);
    lemma_trim_end_shape(rest);
    if is_blank(s) {
        if k < s.len() {
            assert(!is_space(s[k]));
        }
        assert(rest.len() == 0);
    } else {
        let i = choose|i: int| 0 <= i < s.len() && !is_space(#[trigger] s[i]);
        assert(k <= i);
        assert(rest.len() > 0);
        assert(rest[0] == s[k]);
        assert(!is_space(rest[0]));
        let e = trim_end(rest);
        if e.len() == 0 {
            assert(is_space(rest[0]));
        }
    }
}

/// For each character of `s`, whether it is white space.
pub open spec fn space_flags(s: Seq<char>) -> Seq<bool> {
    s.map_values(|c: char| is_space(c))
}

/// For each character of `v`, whether it is white space.
pub fn space_mask(v: &Vec<char>) -> (mask: Vec<bool>)
    ensures
        mask@ == space_flags(v@),
{
    let mut mask: Vec<bool> = Vec::new();
    let mut i: usize = 0;
    while i < v.len()
        invariant
            i <= v.len(),
            mask@.len() == i,
            forall|k: int| 0 <= k < i ==> mask@[k] == is_space(v@[k]),
        decreases v.len() - i,
    {
        mask.push(char_is_space(v[i]));
        i = i + 1;
    }
    assert(mask@ =~= space_flags(v@));
    mask
}

/// Whether `a` and `b` bound what is left of `flags[from..to]` when the
/// flagged entries at both ends are taken off: all before `a` and all from `b`
/// on are flagged, and the first and the last between them are not. Where
/// every entry is flagged, nothing is left, at the end.
pub open spec fn is_core(flags: Seq<bool>, from: int, to: int, a: int, b: int) -> bool {
    &&& from <= a <= b <= to
    &&& forall|i: int| from <= i < a ==> #[trigger] flags[i]
    &&& forall|i: int| b <= i < to ==> #[trigger] flags[i]
    &&& a < b ==> !flags[a] && !flags[b - 1]
    &&& a == b ==> a == to
}

/// The bounds of what is left of `flags[from..to]` when the flagged entries
/// at both ends are taken off.
pub fn trim_flags(flags: &Vec<bool>, from: usize, to: usize) -> (r: (usize, usize))
    requires
        from <= to <= flags.len(),
    ensures
        is_core(flags@, from as int, to as int, r.0 as int, r.1 as int),
{
    let mut a: usize = from;
    while a < to && flags[a]
        invariant
            from <= a <= to <= flags.len(),
            forall|i: int| from <= i < a ==> #[trigger] flags@[i],
        decreases to - a,
    {
        a = a + 1;
    }
    let mut b: usize = to;
    while b > a && flags[b - 1]
        invariant
            from <= a <= b <= to <= flags.len(),
            a < to ==> !flags@[a as int],
            forall|i: int| b <= i < to ==> #[trigger] flags@[i],
        decreases b,
    {
        b = b - 1;
    }
    (a, b)
}

/// The bounds of the trimmed part of `v[from..to]`: the result `(a, b)` has
/// `v[a..b]` equal to that part with the white space at both ends removed.
pub fn trim_bounds(v: &Vec<char>, from: usize, to: usize) -> (r: (usize, usize))
    requires
        from <= to <= v.len(),
    ensures
        from <= r.0 <= r.1 <= to,
        v@.subrange(r.0 as int, r.1 as int) == trimmed(v@.subrange(from as int, to as int)),
{
    let mask = space_mask(v);
    trim_bounds_by(v, &mask, from, to)
}

/// The bounds of the trimmed part of `v[from..to]`, where `mask` says which
/// characters of `v` are white space.
pub fn trim_bounds_by(v: &Vec<char>, mask: &Vec<bool>, from: usize, to: usize) -> (r: (
    usize,
    usize,
))
    requires
        from <= to <= v.len(),
        mask@ == space_flags(v@),
    ensures
        from <= r.0 <= r.1 <= to,
        v@.subrange(r.0 as int, r.1 as int) == trimmed(v@.subrange(from as int, to as int)),
{
    let (a, b) = trim_flags(mask, from, to);
    proof {
        let part = v@.subrange(from as int, to as int);
        assert forall|i: int| 0 <= i < a - from implies is_space(#[trigger] part[i]) by {
            assert(mask@[from + i]);
        }
        if a < to {
            assert(!mask@[a as int]);
        }
        lemma_trim_start_is_suffix(part, a - from);
        let rest = part.subrange(a - from, part.len() as int);
        assert(rest == v@.subrange(a as int, to as int));
        assert forall|i: int| b - a <= i < rest.len() implies is_space(#[trigger] rest[i]) by {
            assert(mask@[a + i]);
        }
        if b > a {
            assert(!mask@[b - 1]);
            assert(rest[b - a - 1] == v@[b - 1]);
        }
        lemma_trim_end_is_prefix(rest, b - a);
        assert(rest.subrange(0, b - a) == v@.subrange(a as int, b as int));
    }
    (a, b)
}

/// `s` without the white space at either end.
pub fn trimmed_text(s: &str) -> (r: String)
    ensures
        r@ == trimmed(s@),
{
    let v = chars_of(s);
    let (from, to) = trim_bounds(&v, 0, v.len());
    assert(v@.subrange(0, v@.len() as int) == s@);
    text_between(&v, from, to)
}

/// Whether every character of `s` is white space.
pub fn is_blank_text(s: &str) -> (b: bool)
    ensures
        b == is_blank(s@),
{
    let v = chars_of(s);
    let mut i: usize = 0;
    while i < v.len()
        invariant
            i <= v.len(),
            v@ == s@,
            forall|k: int| 0 <= k < i ==> is_space(#[trigger] v@[k]),
        decreases v.len() - i,
    {
        if !char_is_space(v[i]) {
            return false;
        }
        i = i + 1;
    }
    true
}

} // verus!
