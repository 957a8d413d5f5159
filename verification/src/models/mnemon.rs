//! Mnemons: what a user remembers of a work.

use vstd::prelude::*;

use crate::constants::MAX_FEELINGS;
use crate::feelings::all_known;
use crate::sources::{fresh_id, is_random_id, now_millis};
use crate::text::{clone_opt_text, clone_texts, opt_text};
use crate::text::trim::is_space;

verus! {

/// What a `Mnemon` stands for.
pub struct MnemonView {
    pub id: u128,
    pub work_id: u128,
    pub finished_date: Option<Seq<char>>,
    pub feelings: Seq<Seq<char>>,
    pub notes: Seq<Seq<char>>,
    pub created_at: i64,
}

/// A memory of exactly one work.
#[derive(Debug, PartialEq)]
pub struct Mnemon {
    /// The mnemon's identifier, fixed when it is made.
    pub id: u128,
    /// The identifier of the work that the mnemon is about.
    pub work_id: u128,
    /// When the user finished the work, as they wrote it.
    pub finished_date: Option<String>,
    /// The feelings chosen for this memory.
    pub feelings: Vec<String>,
    /// The notes, one for each line the user wrote.
    pub notes: Vec<String>,
    /// When the mnemon was made, in milliseconds since 1970.
    pub created_at: i64,
}

/// Whether `note` is a note as a mnemon holds it: not empty, and without
/// white space at either end.
pub open spec fn is_note(note: Seq<char>) -> bool {
    note.len() > 0 && !is_space(note.first()) && !is_space(note.last())
}

impl MnemonView {
    /// Whether the mnemon is as the journal's forms make it: at most five
    /// feelings, each one of the twelve and none twice, and every note
    /// trimmed and not empty.
    pub open spec fn well_formed(self) -> bool {
        &&& self.feelings.len() <= MAX_FEELINGS
        &&& self.feelings.no_duplicates()
        &&& all_known(self.feelings)
        &&& forall|i: int| 0 <= i < self.notes.len() ==> is_note(#[trigger] self.notes[i])
    }
}

impl View for Mnemon {
    type V = MnemonView;

    open spec fn view(&self) -> MnemonView {
        MnemonView {
            id: self.id,
            work_id: self.work_id,
            finished_date: opt_text(self.finished_date),
            feelings: self.feelings.deep_view(),
            notes: self.notes.deep_view(),
            created_at: self.created_at,
        }
    }
}

impl DeepView for Mnemon {
    type V = MnemonView;

    open spec fn deep_view(&self) -> MnemonView {
        self@
    }
}

impl Clone for Mnemon {
    fn clone(&self) -> (r: Self)
        ensures
            r@ == self@,
    {
        Mnemon {
            id: self.id,
            work_id: self.work_id,
            finished_date: clone_opt_text(&self.finished_date),
            feelings: clone_texts(&self.feelings),
            notes: clone_texts(&self.notes),
            created_at: self.created_at,
        }
    }
}

impl Mnemon {
    /// A new mnemon about the work `work_id`. Its identifier is drawn at
    /// random and its creation time is the time of the call.
    pub fn new(
        work_id: u128,
        finished_date: Option<String>,
        feelings: Vec<String>,
        notes: Vec<String>,
    ) -> (m: Self)
        ensures
            is_random_id(m@.id),
            m@ == (MnemonView {
                id: m@.id,
                work_id,
                finished_date: opt_text(finished_date),
                feelings: feelings.deep_view(),
                notes: notes.deep_view(),
                created_at: m@.created_at,
            }),
    {
        Mnemon {
            id: fresh_id(),
            work_id,
            finished_date,
            feelings,
            notes,
            created_at: now_millis(),
        }
    }
}

} // verus!
