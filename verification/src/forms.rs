//! The form in which a mnemon is written or edited.

use vstd::prelude::*;
use vstd::string::StringExecFns;

use crate::constants::MAX_FEELINGS;
use crate::feelings::{all_known, feeling_names};
use crate::models::{
    Mnemon, ProviderRef, ProviderRefView, SearchResult, SearchResultView, Work, WorkType,
};
use crate::models::provider::{clone_opt_ref, opt_ref_view};
use crate::text::{chars_of, clone_opt_text, clone_texts, opt_text, push_char, same_text};
use crate::text::lines::{notes_in, notes_of};
use crate::text::numbers::{
    decimal, decimal_text, is_digits, is_digits_text, parse_u16, parse_u16_between,
};
use crate::text::trim::{is_blank, is_blank_text, trim_bounds, trimmed};

verus! {

/// What a `MnemonForm` stands for.
pub struct MnemonFormView {
    pub work_type: Option<WorkType>,
    pub title: Seq<char>,
    pub year: Seq<char>,
    pub provider_ref: Option<ProviderRefView>,
    pub cover_url: Option<Seq<char>>,
    pub theme_music_url: Option<Seq<char>>,
    pub finished_date: Seq<char>,
    pub feelings: Seq<Seq<char>>,
    pub notes: Seq<char>,
}

/// What the user has filled in so far.
#[derive(Debug, PartialEq)]
pub struct MnemonForm {
    /// The kind of work, once chosen.
    pub work_type: Option<WorkType>,
    pub title: String,
    /// The release year as typed.
    pub year: String,
    /// The outside entity, if the work was picked from search results.
    pub provider_ref: Option<ProviderRef>,
    pub cover_url: Option<String>,
    pub theme_music_url: Option<String>,
    /// The finished date as typed; empty if none was given.
    pub finished_date: String,
    pub feelings: Vec<String>,
    /// The notes as one free text, a note to a line.
    pub notes: String,
}

impl View for MnemonForm {
    type V = MnemonFormView;

    open spec fn view(&self) -> MnemonFormView {
        MnemonFormView {
            work_type: self.work_type,
            title: self.title@,
            year: self.year@,
            provider_ref: opt_ref_view(self.provider_ref),
            cover_url: opt_text(self.cover_url),
            theme_music_url: opt_text(self.theme_music_url),
            finished_date: self.finished_date@,
            feelings: self.feelings.deep_view(),
            notes: self.notes@,
        }
    }
}

impl Clone for MnemonForm {
    fn clone(&self) -> (r: Self)
        ensures
            r@ == self@,
    {
        MnemonForm {
            work_type: self.work_type,
            title: self.title.clone(),
            year: self.year.clone(),
            provider_ref: clone_opt_ref(&self.provider_ref),
            cover_url: clone_opt_text(&self.cover_url),
            theme_music_url: clone_opt_text(&self.theme_music_url),
            finished_date: self.finished_date.clone(),
            feelings: clone_texts(&self.feelings),
            notes: self.notes.clone(),
        }
    }
}

impl Default for MnemonForm {
    fn default() -> (f: Self)
        ensures
            f@ == MnemonFormView::empty(),
    {
        let f = MnemonForm {
            work_type: None,
            title: String::new(),
            year: String::new(),
            provider_ref: None,
            cover_url: None,
            theme_music_url: None,
            finished_date: String::new(),
            feelings: Vec::new(),
            notes: String::new(),
        };
        assert(f.feelings.deep_view() =~= Seq::<Seq<char>>::empty());
        f
    }
}

/// The year as it is shown in the form: in decimal, or nothing.
pub open spec fn year_text(year: Option<u16>) -> Seq<char> {
    match year {
        Some(y) => decimal(y as nat),
        None => Seq::empty(),
    }
}

/// The year as it is shown in the form.
pub fn year_to_text(year: Option<u16>) -> (r: String)
    ensures
        r@ == year_text(year),
{
    match year {
        Some(y) => decimal_text(y as u64),
        None => String::new(),
    }
}

/// Notes as one free text: a note to a line, with a line break between two.
pub open spec fn joined_lines(notes: Seq<Seq<char>>) -> Seq<char>
    decreases notes.len(),
{
    if notes.len() == 0 {
        Seq::empty()
    } else if notes.len() == 1 {
        notes[0]
    } else {
        joined_lines(notes.drop_last()) + seq!['\n'] + notes.last()
    }
}

/// Notes as one free text.
pub fn join_lines(notes: &Vec<String>) -> (r: String)
    ensures
        r@ == joined_lines(notes.deep_view()),
{
    let mut out = String::new();
    let mut i: usize = 0;
    let ghost all = notes.deep_view();
    while i < notes.len()
        invariant
            i <= notes.len(),
            all == notes.deep_view(),
            out@ == joined_lines(all.take(i as int)),
        decreases notes.len() - i,
    {
        let ghost upto = all.take(i + 1);
        assert(upto.drop_last() =~= all.take(i as int));
        if i > 0 {
            push_char(&mut out, '\n');
        }
        out.append(notes[i].as_str());
        i = i + 1;
    }
    assert(all.take(i as int) =~= all);
    out
}

/// The feelings without `name`, in their order.
pub open spec fn without_feeling(feelings: Seq<Seq<char>>, name: Seq<char>) -> Seq<Seq<char>>
    decreases feelings.len(),
{
    if feelings.len() == 0 {
        Seq::empty()
    } else {
        let before = without_feeling(feelings.drop_last(), name);
        if feelings.last() == name {
            before
        } else {
            before.push(feelings.last())
        }
    }
}

/// The feelings after `name` has been clicked: without it if it was chosen,
/// with it at the end if it was not and there is room, else unchanged.
pub open spec fn toggled_feelings(feelings: Seq<Seq<char>>, name: Seq<char>) -> Seq<Seq<char>> {
    if feelings.contains(name) {
        without_feeling(feelings, name)
    } else if feelings.len() < MAX_FEELINGS {
        feelings.push(name)
    } else {
        feelings
    }
}

/// Whether the feelings are as a mnemon may have them: no more than five,
/// and none twice.
pub open spec fn feelings_ok(feelings: Seq<Seq<char>>) -> bool {
    feelings.len() <= MAX_FEELINGS && feelings.no_duplicates()
}

/// What is left when a feeling is taken out was there before, in the same
/// order: nothing is added and nothing doubled.
pub proof fn lemma_without_feeling(feelings: Seq<Seq<char>>, name: Seq<char>)
    ensures
        without_feeling(feelings, name).len() <= feelings.len(),
        !without_feeling(feelings, name).contains(name),
        forall|x: Seq<char>| #[trigger]
            without_feeling(feelings, name).contains(x) ==> feelings.contains(x),
        feelings.no_duplicates() ==> without_feeling(feelings, name).no_duplicates(),
    decreases feelings.len(),
{
    if feelings.len() > 0 {
        let init = feelings.drop_last();
        let before = without_feeling(init, name);
        let after = without_feeling(feelings, name);
        lemma_without_feeling(init, name);
        assert forall|x: Seq<char>| #[trigger] after.contains(x) implies feelings.contains(x) by {
            let i = choose|i: int| 0 <= i < after.len() && after[i] == x;
            if i < before.len() {
                assert(before.contains(x));
                let j = choose|j: int| 0 <= j < init.len() && init[j] == x;
                assert(feelings[j] == x);
            }
        }
        if feelings.no_duplicates() {
            if feelings.last() != name {
                assert forall|i: int, j: int|
                    0 <= i < after.len() && 0 <= j < after.len() && i != j implies after[i]
                    != after[j] by {
                    if i < before.len() && j == before.len() {
                        assert(before.contains(after[i]));
                    }
                    if j < before.len() && i == before.len() {
                        assert(before.contains(after[j]));
                    }
                }
            }
        }
    }
}

/// Clicking one of the twelve feelings leaves only feelings of the twelve.
pub proof fn lemma_toggle_keeps_feelings_known(feelings: Seq<Seq<char>>, name: Seq<char>)
    requires
        all_known(feelings),
        feeling_names().contains(name),
    ensures
        all_known(toggled_feelings(feelings, name)),
{
    lemma_without_feeling(feelings, name);
    let next = toggled_feelings(feelings, name);
    assert forall|i: int| 0 <= i < next.len() implies feeling_names().contains(
        #[trigger] next[i],
    ) by {
        if feelings.contains(name) {
            assert(without_feeling(feelings, name).contains(next[i]));
        }
    }
}

/// The feelings stay as a mnemon may have them, whichever is clicked.
pub proof fn lemma_toggle_keeps_feelings_ok(feelings: Seq<Seq<char>>, name: Seq<char>)
    requires
        feelings_ok(feelings),
    ensures
        feelings_ok(toggled_feelings(feelings, name)),
{
    lemma_without_feeling(feelings, name);
}

impl MnemonFormView {
    /// The form with nothing filled in.
    pub open spec fn empty() -> MnemonFormView {
        MnemonFormView {
            work_type: None,
            title: Seq::empty(),
            year: Seq::empty(),
            provider_ref: None,
            cover_url: None,
            theme_music_url: None,
            finished_date: Seq::empty(),
            feelings: Seq::empty(),
            notes: Seq::empty(),
        }
    }

    /// Whether the work is named: its kind is chosen and its title is not
    /// blank.
    pub open spec fn step1_valid(self) -> bool {
        self.work_type is Some && !is_blank(self.title)
    }

    /// The form without what came from a search result.
    pub open spec fn without_provider(self) -> MnemonFormView {
        MnemonFormView { provider_ref: None, cover_url: None, theme_music_url: None, ..self }
    }

    /// The form filled from a search result.
    pub open spec fn filled_from(self, result: SearchResultView) -> MnemonFormView {
        MnemonFormView {
            title: result.title,
            year: year_text(result.year),
            provider_ref: Some(result.provider_ref),
            cover_url: result.cover_url,
            theme_music_url: result.theme_music_url,
            ..self
        }
    }
}

impl MnemonForm {
    /// Whether the work is named: its kind is chosen and its title is not
    /// blank.
    pub fn is_step1_valid(&self) -> (b: bool)
        ensures
            b == self@.step1_valid(),
    {
        self.work_type.is_some() && !is_blank_text(self.title.as_str())
    }

    /// The form for editing `mnemon`, which is about `work`.
    pub fn from_mnemon_for_edit(mnemon: &Mnemon, work: &Work) -> (f: Self)
        ensures
            f@ == (MnemonFormView {
                work_type: Some(work@.work_type),
                title: work@.title_en,
                year: year_text(work@.release_year),
                provider_ref: work@.provider_ref,
                cover_url: work@.cover_image_local_uri,
                theme_music_url: work@.theme_music_local_uri,
                finished_date: match mnemon@.finished_date {
                    Some(d) => d,
                    None => Seq::empty(),
                },
                feelings: mnemon@.feelings,
                notes: joined_lines(mnemon@.notes),
            }),
    {
        MnemonForm {
            work_type: Some(work.work_type),
            title: work.title_en.clone(),
            year: year_to_text(work.release_year),
            provider_ref: clone_opt_ref(&work.provider_ref),
            cover_url: clone_opt_text(&work.cover_image_local_uri),
            theme_music_url: clone_opt_text(&work.theme_music_local_uri),
            finished_date: match &mnemon.finished_date {
                Some(d) => d.clone(),
                None => String::new(),
            },
            feelings: clone_texts(&mnemon.feelings),
            notes: join_lines(&mnemon.notes),
        }
    }

    /// The notes: the lines of the free text, each trimmed, without the
    /// lines of which nothing is left.
    pub fn parse_notes(&self) -> (r: Vec<String>)
        ensures
            r.deep_view() == notes_in(self@.notes),
    {
        notes_of(self.notes.as_str())
    }

    /// The finished date, if one was typed.
    pub fn parse_finished_date(&self) -> (r: Option<String>)
        ensures
            opt_text(r) == if self@.finished_date.len() == 0 {
                None
            } else {
                Some(self@.finished_date)
            },
    {
        if self.finished_date.as_str().is_empty() {
            None
        } else {
            Some(self.finished_date.clone())
        }
    }

    /// The release year: what was typed, trimmed and read as a number.
    pub fn parse_year(&self) -> (r: Option<u16>)
        ensures
            r == parse_u16(trimmed(self@.year)),
    {
        let v = chars_of(self.year.as_str());
        let (from, to) = trim_bounds(&v, 0, v.len());
        assert(v@.subrange(0, v@.len() as int) == self@.year);
        parse_u16_between(&v, from, to)
    }

    /// Chooses the kind of work. What came from a search result is dropped.
    pub fn set_work_type(&mut self, work_type: WorkType)
        ensures
            final(self)@ == (MnemonFormView {
                work_type: Some(work_type),
                ..old(self)@.without_provider()
            }),
    {
        self.work_type = Some(work_type);
        self.provider_ref = None;
        self.cover_url = None;
        self.theme_music_url = None;
    }

    /// Takes what was typed as the title. What came from a search result is
    /// dropped, the year with it.
    pub fn set_title(&mut self, title: String)
        ensures
            final(self)@ == (MnemonFormView {
                title: title@,
                year: Seq::empty(),
                ..old(self)@.without_provider()
            }),
    {
        self.title = title;
        self.provider_ref = None;
        self.cover_url = None;
        self.theme_music_url = None;
        self.year = String::new();
    }

    /// Takes what was typed as the year if it holds digits only; else the
    /// year stays as it was. The result says whether it was taken.
    pub fn set_year(&mut self, year: String) -> (taken: bool)
        ensures
            taken == is_digits(year@),
            final(self)@ == if taken {
                MnemonFormView { year: year@, ..old(self)@ }
            } else {
                old(self)@
            },
    {
        if is_digits_text(year.as_str()) {
            self.year = year;
            true
        } else {
            false
        }
    }

    /// Fills the form from a search result: title, year, the outside entity,
    /// cover and music.
    pub fn fill_from(&mut self, result: &SearchResult)
        ensures
            final(self)@ == old(self)@.filled_from(result@),
    {
        self.title = result.title.clone();
        self.year = year_to_text(result.year);
        self.provider_ref = Some(result.provider_ref.clone());
        self.cover_url = clone_opt_text(&result.cover_url);
        self.theme_music_url = clone_opt_text(&result.theme_music_url);
    }

    /// Whether the feeling `name` is chosen.
    pub fn has_feeling(&self, name: &str) -> (b: bool)
        ensures
            b == self@.feelings.contains(name@),
    {
        let mut i: usize = 0;
        while i < self.feelings.len()
            invariant
                i <= self.feelings.len(),
                forall|k: int| 0 <= k < i ==> self@.feelings[k] != name@,
            decreases self.feelings.len() - i,
        {
            if same_text(self.feelings[i].as_str(), name) {
                assert(self@.feelings[i as int] == name@);
                return true;
            }
            i = i + 1;
        }
        false
    }

    /// Whether one more feeling can be chosen.
    pub fn can_add_feeling(&self) -> (b: bool)
        ensures
            b == (self@.feelings.len() < MAX_FEELINGS),
    {
        self.feelings.len() < MAX_FEELINGS
    }

    /// A click on the feeling `name`: it is taken out if it was chosen, and
    /// is added at the end if it was not and fewer than five are chosen.
    /// Otherwise nothing changes.
    pub fn toggle_feeling(&mut self, name: &str)
        ensures
            final(self)@ == (MnemonFormView {
                feelings: toggled_feelings(old(self)@.feelings, name@),
                ..old(self)@
            }),
            feelings_ok(old(self)@.feelings) ==> feelings_ok(final(self)@.feelings),
    {
        proof {
            if feelings_ok(self@.feelings) {
                lemma_toggle_keeps_feelings_ok(self@.feelings, name@);
            }
        }
        if self.has_feeling(name) {
            let kept = feelings_without(&self.feelings, name);
            self.feelings = kept;
        } else if self.feelings.len() < MAX_FEELINGS {
            self.feelings.push(name.to_owned());
            assert(self.feelings.deep_view() =~= old(self).feelings.deep_view().push(name@));
        }
    }
}

/// The feelings without `name`, in their order.
fn feelings_without(feelings: &Vec<String>, name: &str) -> (kept: Vec<String>)
    ensures
        kept.deep_view() == without_feeling(feelings.deep_view(), name@),
{
    let mut kept: Vec<String> = Vec::new();
    let mut i: usize = 0;
    let ghost all = feelings.deep_view();
    while i < feelings.len()
        invariant
            i <= feelings.len(),
            all == feelings.deep_view(),
            kept.deep_view() == without_feeling(all.take(i as int), name@),
        decreases feelings.len() - i,
    {
        let ghost upto = all.take(i + 1);
        assert(upto.drop_last() =~= all.take(i as int));
        if !same_text(feelings[i].as_str(), name) {
            kept.push(feelings[i].clone());
        }
        i = i + 1;
    }
    assert(all.take(i as int) =~= all);
    kept
}

} // verus!
