//! From a filled form to a mnemon in the journal.

use vstd::prelude::*;

use crate::app_state::{mnemon_has_id, work_has_ref, AppState, AppStateView};
use crate::feelings::all_known;
use crate::find::first_where;
use crate::forms::{feelings_ok, MnemonForm, MnemonFormView};
use crate::models::{Mnemon, MnemonView, Work, WorkOrigin, WorkView};
use crate::models::mnemon::is_note;
use crate::text::{clone_opt_text, clone_texts};
use crate::text::lines::{lemma_notes_are_trimmed, notes_in};
use crate::text::numbers::parse_u16;
use crate::text::trim::{is_blank, trimmed};

verus! {

/// Why a form cannot be saved.
#[derive(Clone, Copy, Debug, PartialEq, Eq, Structural)]
pub enum FormError {
    /// No kind of work is chosen.
    MissingWorkType,
    /// The title is blank.
    EmptyTitle,
}

/// What was done to save a form, for the caller to pass on to the store.
#[derive(Debug, PartialEq)]
pub struct Saved {
    /// The work that the new mnemon is about.
    pub work_id: u128,
    /// A copy of the work that was made for the mnemon; `None` where a work
    /// of the journal was taken.
    pub new_work: Option<Work>,
    /// A copy of the new mnemon.
    pub mnemon: Mnemon,
    /// The new mnemon's place in the display order.
    pub position: usize,
}

/// What the form asks of the finished date: none if nothing was typed.
pub open spec fn finished_date_of(form: MnemonFormView) -> Option<Seq<char>> {
    if form.finished_date.len() == 0 {
        None
    } else {
        Some(form.finished_date)
    }
}

/// Whether `work` is a work made from `form`: kind, title and year are the
/// form's; with an outside entity the work is from a provider and has the
/// form's cover and music, without one it was typed in and has neither.
pub open spec fn is_work_from(form: MnemonFormView, work: WorkView) -> bool {
    &&& Some(work.work_type) == form.work_type
    &&& work.title_en == form.title
    &&& work.release_year == parse_u16(trimmed(form.year))
    &&& work.provider_ref == form.provider_ref
    &&& match form.provider_ref {
        Some(_) => {
            &&& work.origin == WorkOrigin::Provider
            &&& work.cover_image_local_uri == form.cover_url
            &&& work.theme_music_local_uri == form.theme_music_url
        },
        None => {
            &&& work.origin == WorkOrigin::Manual
            &&& work.cover_image_local_uri is None
            &&& work.theme_music_local_uri is None
        },
    }
}

/// Whether `mnemon` is a mnemon made from `form` about the work `work_id`.
pub open spec fn is_mnemon_from(form: MnemonFormView, mnemon: MnemonView, work_id: u128) -> bool {
    &&& mnemon.work_id == work_id
    &&& mnemon.finished_date == finished_date_of(form)
    &&& mnemon.feelings == form.feelings
    &&& mnemon.notes == notes_in(form.notes)
}

/// The place of the work of the journal that the form's outside entity is
/// known as already, if there is one.
pub open spec fn known_work(journal: AppStateView, form: MnemonFormView) -> Option<int> {
    match form.provider_ref {
        Some(r) => first_where(journal.works, work_has_ref(r)),
        None => None,
    }
}

/// The error that keeps a form from being saved, if there is one.
pub open spec fn form_error(form: MnemonFormView) -> Option<FormError> {
    if form.work_type is None {
        Some(FormError::MissingWorkType)
    } else if is_blank(form.title) {
        Some(FormError::EmptyTitle)
    } else {
        None
    }
}

/// Saves a form as a new mnemon. A form without a kind of work or with a
/// blank title is refused, and nothing changes. Otherwise the mnemon is
/// about the work that the form's outside entity is known as already, or,
/// where there is none, about a new work made from the form and added to the
/// journal. The mnemon is added last, so it is the last to be shown.
pub fn save_form(journal: &mut AppState, form: &MnemonForm) -> (r: Result<Saved, FormError>)
    ensures
        final(journal).wf(),
        match form_error(form@) {
            Some(e) => r == Err::<Saved, FormError>(e) && final(journal)@ == old(journal)@,
            None => {
                &&& r matches Ok(saved)
                &&& is_mnemon_from(form@, saved.mnemon@, saved.work_id)
                &&& saved.position == final(journal)@.shuffled_indices.len() - 1
                &&& match known_work(old(journal)@, form@) {
                    Some(i) => {
                        &&& saved.new_work is None
                        &&& saved.work_id == old(journal)@.works[i].id
                        &&& old(journal)@.with_mnemon(saved.mnemon@, final(journal)@)
                    },
                    None => {
                        &&& saved.new_work matches Some(work)
                        &&& is_work_from(form@, work@)
                        &&& work@.id == saved.work_id
                        &&& old(journal)@.with_work(work@).with_mnemon(
                            saved.mnemon@,
                            final(journal)@,
                        )
                    },
                }
            },
        },
{
    proof {
        use_type_invariant(&*journal);
    }
    let work_type = match form.work_type {
        Some(work_type) => work_type,
        None => {
            return Err(FormError::MissingWorkType);
        },
    };
    if !form.is_step1_valid() {
        return Err(FormError::EmptyTitle);
    }
    let year = form.parse_year();
    let known = match &form.provider_ref {
        Some(r) => journal.find_work_by_provider_ref(r),
        None => None,
    };
    let (work_id, new_work) = match known {
        Some(work) => (work.id, None),
        None => {
            let work = match &form.provider_ref {
                Some(r) => Work::from_provider(
                    work_type,
                    form.title.clone(),
                    year,
                    clone_opt_text(&form.cover_url),
                    clone_opt_text(&form.theme_music_url),
                    r.clone(),
                ),
                None => Work::from_manual(work_type, form.title.clone(), year),
            };
            let copy = work.clone();
            let id = journal.add_work(work);
            (id, Some(copy))
        },
    };
    let mnemon = Mnemon::new(
        work_id,
        form.parse_finished_date(),
        clone_texts(&form.feelings),
        form.parse_notes(),
    );
    let copy = mnemon.clone();
    let position = journal.add_mnemon(mnemon);
    Ok(Saved { work_id, new_work, mnemon: copy, position })
}

/// Saves a form as the new finished date, feelings and notes of the first
/// mnemon with the identifier `mnemon_id`. The result is a copy of the
/// mnemon as it now is; where no mnemon has that identifier it is `None`
/// and nothing changes.
pub fn save_edit(journal: &mut AppState, mnemon_id: u128, form: &MnemonForm) -> (r: Option<Mnemon>)
    ensures
        final(journal).wf(),
        match first_where(old(journal)@.mnemons, mnemon_has_id(mnemon_id)) {
            Some(at) => {
                &&& r matches Some(edited)
                &&& edited@ == (MnemonView {
                    finished_date: finished_date_of(form@),
                    feelings: form@.feelings,
                    notes: notes_in(form@.notes),
                    ..old(journal)@.mnemons[at]
                })
                &&& final(journal)@ == old(journal)@.with_mnemon_replaced(edited@, at)
            },
            None => r is None && final(journal)@ == old(journal)@,
        },
{
    journal.edit_mnemon(
        mnemon_id,
        form.parse_finished_date(),
        clone_texts(&form.feelings),
        form.parse_notes(),
    )
}

/// What a form makes is as the journal wants it: a mnemon made from a form
/// whose feelings are at most five of the twelve, none twice, is well
/// formed, and the title of a work made from a form that can be saved is not
/// blank.
pub proof fn lemma_made_from_form(form: MnemonFormView, mnemon: MnemonView, work: WorkView)
    requires
        feelings_ok(form.feelings),
        all_known(form.feelings),
        is_mnemon_from(form, mnemon, work.id),
        is_work_from(form, work),
        form_error(form) is None,
    ensures
        mnemon.well_formed(),
        !is_blank(work.title_en),
{
    assert forall|i: int| 0 <= i < mnemon.notes.len() implies is_note(#[trigger] mnemon.notes[i]) by {
        lemma_notes_are_trimmed(form.notes, i);
    }
}

} // verus!
