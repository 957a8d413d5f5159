//! Small helpers of the slideshow: how long a note is read, which note
//! comes next, and the kind of device.

use vstd::prelude::*;

use crate::constants::{
    MOBILE_BREAKPOINT_PX, NOTE_MAX_READING_TIME_MS, NOTE_MIN_READING_TIME_MS, WORDS_PER_SECOND,
};
use crate::display_order::{insertion_order, is_display_order, lemma_reordered};
use crate::sources::shuffle_in_place;
use crate::text::chars_of;
use crate::text::trim::{space_flags, space_mask};

verus! {

/// Whether a run of entries that are not flagged begins at place `i` of
/// `flags`: the entry there is not flagged, and the one before it is, or
/// there is none before it.
pub open spec fn starts_run(flags: Seq<bool>, i: int) -> bool {
    &&& 0 <= i < flags.len()
    &&& !flags[i]
    &&& (i == 0 || flags[i - 1])
}

/// The number of runs of entries of `flags` that are not flagged.
pub open spec fn run_count(flags: Seq<bool>) -> nat
    decreases flags.len(),
{
    if flags.len() == 0 {
        0
    } else {
        run_count(flags.drop_last()) + if starts_run(flags, flags.len() - 1) {
            1nat
        } else {
            0nat
        }
    }
}

/// The number of words in `s`: the runs of characters that are no white
/// space.
pub open spec fn word_count(s: Seq<char>) -> nat {
    run_count(space_flags(s))
}

/// The time for which a note of `words` words is shown, in milliseconds: a
/// second for every four words begun, but no less than three seconds and no
/// more than eight.
pub open spec fn reading_time_ms(words: nat) -> int {
    let seconds = (words + WORDS_PER_SECOND - 1) / (WORDS_PER_SECOND as int);
    let ms = seconds * 1000;
    if ms < NOTE_MIN_READING_TIME_MS {
        NOTE_MIN_READING_TIME_MS as int
    } else if ms > NOTE_MAX_READING_TIME_MS {
        NOTE_MAX_READING_TIME_MS as int
    } else {
        ms
    }
}

/// The number of runs of entries of `flags` that are not flagged.
pub fn count_runs(flags: &Vec<bool>) -> (n: usize)
    ensures
        n == run_count(flags@),
{
    let mut n: usize = 0;
    let mut i: usize = 0;
    assert(flags@.take(0) =~= Seq::<bool>::empty());
    while i < flags.len()
        invariant
            i <= flags.len(),
            n <= i,
            n == run_count(flags@.take(i as int)),
        decreases flags.len() - i,
    {
        let ghost upto = flags@.take(i + 1);
        assert(upto.drop_last() =~= flags@.take(i as int));
        if !flags[i] && (i == 0 || flags[i - 1]) {
            n = n + 1;
        }
        i = i + 1;
    }
    assert(flags@.take(i as int) =~= flags@);
    n
}

/// The number of words in `text`.
pub fn count_words(text: &str) -> (n: usize)
    ensures
        n == word_count(text@),
{
    let v = chars_of(text);
    let mask = space_mask(&v);
    count_runs(&mask)
}

/// The time for which the note `text` is shown, in milliseconds.
pub fn calculate_reading_time(text: &str) -> (ms: u64)
    ensures
        ms == reading_time_ms(word_count(text@)),
        NOTE_MIN_READING_TIME_MS <= ms <= NOTE_MAX_READING_TIME_MS,
{
    let words = count_words(text);
    let seconds = words / 4 + if words % 4 == 0 {
        0
    } else {
        1
    };
    if seconds >= 8 {
        NOTE_MAX_READING_TIME_MS
    } else if seconds < 3 {
        NOTE_MIN_READING_TIME_MS
    } else {
        seconds as u64 * 1000
    }
}

/// Whether the device is taken for a mobile one: its viewport is narrower
/// than the breakpoint and it can be touched. A device whose viewport width
/// is not known is none.
pub fn is_mobile_device(viewport_width: Option<i32>, max_touch_points: i32) -> (b: bool)
    ensures
        b == match viewport_width {
            Some(width) => width < MOBILE_BREAKPOINT_PX && max_touch_points > 0,
            None => false,
        },
{
    match viewport_width {
        Some(width) => width < MOBILE_BREAKPOINT_PX && max_touch_points > 0,
        None => false,
    }
}

/// The note that follows the note at `index` when `count` notes take turns:
/// the next one, and after the last the first.
pub fn next_note_index(index: usize, count: usize) -> (next: usize)
    requires
        count > 0,
    ensures
        next == (index + 1) % (count as int),
        next < count,
{
    let here = index % count;
    assert((index + 1) % (count as int) == (here + 1) % (count as int)) by {
        vstd::arithmetic::div_mod::lemma_add_mod_noop(index as int, 1, count as int);
        vstd::arithmetic::div_mod::lemma_add_mod_noop(here as int, 1, count as int);
        vstd::arithmetic::div_mod::lemma_mod_twice(index as int, count as int);
    }
    (here + 1) % count
}

/// The number of background animations that mnemons are spread over.
pub const KEN_BURNS_VARIANTS: u128 = 6;

/// The background animation of the mnemon with the identifier `id`: one of
/// the variants 1 to 6, always the same for the same mnemon.
pub fn ken_burns_variant(id: u128) -> (variant: u8)
    ensures
        variant == id % KEN_BURNS_VARIANTS + 1,
        1 <= variant <= 6,
{
    (id % KEN_BURNS_VARIANTS) as u8 + 1
}

/// Whether `shown` holds the notes `notes` in the order `order`: as many,
/// and at each place the note that `order` names there.
pub open spec fn in_order(shown: Seq<Seq<char>>, notes: Seq<Seq<char>>, order: Seq<usize>) -> bool {
    &&& is_display_order(order, notes.len())
    &&& shown.len() == notes.len()
    &&& forall|i: int| 0 <= i < shown.len() ==> shown[i] == notes[#[trigger] order[i] as int]
}

/// The notes of a mnemon in the order in which the slideshow rotates
/// through them: all of them, each once, shuffled.
pub fn shuffled_notes(notes: &Vec<String>) -> (shown: Vec<String>)
    ensures
        exists|order: Seq<usize>| in_order(shown.deep_view(), notes.deep_view(), order),
{
    let n = notes.len();
    let mut order: Vec<usize> = Vec::new();
    let mut i: usize = 0;
    while i < n
        invariant
            i <= n,
            order@ == insertion_order(i as nat),
        decreases n - i,
    {
        order.push(i);
        i = i + 1;
    }
    let ghost before = order@;
    shuffle_in_place(&mut order);
    proof {
        lemma_reordered(before, order@, n as nat);
    }
    let mut shown: Vec<String> = Vec::new();
    let mut k: usize = 0;
    while k < n
        invariant
            k <= n,
            n == notes.len(),
            is_display_order(order@, n as nat),
            shown@.len() == k,
            forall|j: int| 0 <= j < k ==> shown@[j]@ == notes@[#[trigger] order@[j] as int]@,
        decreases n - k,
    {
        let at = order[k];
        shown.push(notes[at].clone());
        k = k + 1;
    }
    assert(in_order(shown.deep_view(), notes.deep_view(), order@));
    shown
}

} // verus!
