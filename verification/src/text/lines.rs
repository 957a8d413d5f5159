//! Free text split into lines, and the notes in it.

use vstd::prelude::*;

use crate::text::{chars_of, text_between};
use crate::text::trim::{
    is_space, lemma_trim_end_shape, lemma_trim_start_shape, space_flags, space_mask, trim_bounds_by,
    trim_start, trimmed,
};

verus! {

/// The part of `s` before the first `c`, or all of `s` if `c` is not in it.
pub open spec fn before_first(s: Seq<char>, c: char) -> Seq<char>
    decreases s.len(),
{
    if s.len() == 0 || s[0] == c {
        Seq::empty()
    } else {
        seq![s[0]] + before_first(s.drop_first(), c)
    }
}

/// The part of a text before the first `c` is the text up to the first place
/// where `c` stands.
pub proof fn lemma_before_first(s: Seq<char>, c: char, k: int)
    requires
        0 <= k <= s.len(),
        forall|i: int| 0 <= i < k ==> s[i] != c,
        k < s.len() ==> s[k] == c,
    ensures
        before_first(s, c) == s.take(k),
    decreases k,
{
    if k > 0 {
        lemma_before_first(s.drop_first(), c, k - 1);
    }
}

/// The notes in a free text: its lines, each trimmed, without the lines of
/// which nothing is left.
pub open spec fn notes_in(text: Seq<char>) -> Seq<Seq<char>>
    decreases text.len(),
{
    let line = before_first(text, '\n');
    let note = trimmed(line);
    let head = if note.len() > 0 {
        seq![note]
    } else {
        Seq::empty()
    };
    if line.len() >= text.len() {
        head
    } else {
        head + notes_in(text.skip(line.len() as int + 1))
    }
}

/// The notes in a free text, one for each line of which something is left
/// when it is trimmed.
pub fn notes_of(text: &str) -> (r: Vec<String>)
    ensures
        r.deep_view() == notes_in(text@),
{
    let v = chars_of(text);
    let mask = space_mask(&v);
    let mut out: Vec<String> = Vec::new();
    let mut start: usize = 0;
    assert(v@.skip(0) == v@);
    loop
        invariant_except_break
            start <= v.len(),
            v@ == text@,
            mask@ == space_flags(v@),
            out.deep_view() + notes_in(v@.skip(start as int)) == notes_in(v@),
        ensures
            out.deep_view() == notes_in(v@),
        decreases v.len() - start,
    {
        let ghost rest = v@.skip(start as int);
        let mut end: usize = start;
        while end < v.len() && v[end] != '\n'
            invariant
                start <= end <= v.len(),
                forall|i: int| start <= i < end ==> v@[i] != '\n',
            decreases v.len() - end,
        {
            end = end + 1;
        }
        proof {
            lemma_before_first(rest, '\n', end - start);
            assert(rest.take(end - start) == v@.subrange(start as int, end as int));
        }
        let (from, to) = trim_bounds_by(&v, &mask, start, end);
        if from < to {
            let note = text_between(&v, from, to);
            out.push(note);
        }
        if end >= v.len() {
            break ;
        }
        proof {
            assert(rest.skip(end - start + 1) == v@.skip(end + 1));
        }
        start = end + 1;
    }
    out
}

/// Every note in a free text has something in it, and neither begins nor
/// ends with white space.
pub proof fn lemma_notes_are_trimmed(text: Seq<char>, i: int)
    requires
        0 <= i < notes_in(text).len(),
    ensures
        notes_in(text)[i].len() > 0,
        !is_space(notes_in(text)[i].first()),
        !is_space(notes_in(text)[i].last()),
    decreases text.len(),
{
    let line = before_first(text, '\n');
    let note = trimmed(line);
    lemma_trim_start_shape(line);
    lemma_trim_end_shape(trim_start(line));
    let head_len: int = if note.len() > 0 { 1 } else { 0 };
    if i >= head_len {
        lemma_notes_are_trimmed(text.skip(line.len() as int + 1), i - head_len);
    }
}

} // verus!
