//! The one deletion that can still be undone.
//!
//! A mnemon that the user deletes leaves the journal in memory at once, but
//! stays in the store until its time has run out. Until then it can be put
//! back. Only one such deletion is kept: a new one makes the one before
//! final.

use vstd::prelude::*;

use crate::app_state::{mnemon_has_id, AppState, AppStateView};
use crate::constants::UNDO_TIMEOUT_MS;
use crate::find::first_where;
use crate::models::{Mnemon, MnemonView};
use crate::types::{bump, next_version};

verus! {

/// Milliseconds between two steps of the undo toast's progress bar.
pub const UNDO_PROGRESS_INTERVAL_MS: u32 = 50;

/// What a `PendingDelete` stands for.
pub struct PendingDeleteView {
    pub mnemon: MnemonView,
    pub original_idx: usize,
}

/// A mnemon that was taken out of the journal, with the place it had.
#[derive(Debug, PartialEq)]
pub struct PendingDelete {
    pub mnemon: Mnemon,
    pub original_idx: usize,
}

impl View for PendingDelete {
    type V = PendingDeleteView;

    open spec fn view(&self) -> PendingDeleteView {
        PendingDeleteView { mnemon: self.mnemon@, original_idx: self.original_idx }
    }
}

impl Clone for PendingDelete {
    fn clone(&self) -> (r: Self)
        ensures
            r@ == self@,
    {
        PendingDelete { mnemon: self.mnemon.clone(), original_idx: self.original_idx }
    }
}

/// What an optional pending deletion stands for.
pub open spec fn opt_pending_view(p: Option<PendingDelete>) -> Option<PendingDeleteView> {
    match p {
        Some(d) => Some(d@),
        None => None,
    }
}

/// What an `UndoQueue` stands for.
pub struct UndoQueueView {
    /// The deletion that can still be undone, if there is one.
    pub pending: Option<PendingDeleteView>,
    /// The version of the timer that counts.
    pub timer_version: u64,
}

impl UndoQueueView {
    /// The queue after the deletion of `mnemon` from place `original_idx`
    /// has been staged.
    pub open spec fn staged(self, mnemon: MnemonView, original_idx: usize) -> UndoQueueView {
        UndoQueueView {
            pending: Some(PendingDeleteView { mnemon, original_idx }),
            timer_version: next_version(self.timer_version),
        }
    }

    /// The queue with nothing pending.
    pub open spec fn cleared(self) -> UndoQueueView {
        UndoQueueView { pending: None, ..self }
    }

    /// Whether the timer started under `version` makes a deletion final when
    /// it runs out.
    pub open spec fn expires_with(self, version: u64) -> bool {
        self.pending is Some && version == self.timer_version
    }

    /// The queue after the timer started under `version` has run out.
    pub open spec fn timed_out(self, version: u64) -> UndoQueueView {
        if self.expires_with(version) {
            self.cleared()
        } else {
            self
        }
    }

    /// Whether the pending deletion can be put back into `journal`: the
    /// place it had is still a place there.
    pub open spec fn fits(self, journal: AppStateView) -> bool {
        self.pending matches Some(p) ==> p.original_idx <= journal.mnemons.len()
    }

    /// Whether an undo puts a mnemon back into `journal`: a deletion is
    /// pending, and it fits.
    pub open spec fn undoes(self, journal: AppStateView) -> bool {
        self.pending is Some && self.fits(journal)
    }

    /// The queue after an undo on `journal`.
    pub open spec fn undone(self, journal: AppStateView) -> UndoQueueView {
        if self.undoes(journal) {
            self.cleared()
        } else {
            self
        }
    }
}

/// What the caller is to do after a deletion has been staged.
#[derive(Debug, PartialEq)]
pub struct Staged {
    /// The mnemon of the deletion that was pending before, if there was one:
    /// it is to be deleted from the store now.
    pub finalize: Option<u128>,
    /// The version of the timer to start. When it has run out the caller
    /// reports it with `on_timeout`.
    pub timer_version: u64,
}

/// The slot for the one deletion that can still be undone.
pub struct UndoQueue {
    pending: Option<PendingDelete>,
    timer_version: u64,
}

impl View for UndoQueue {
    type V = UndoQueueView;

    closed spec fn view(&self) -> UndoQueueView {
        UndoQueueView { pending: opt_pending_view(self.pending), timer_version: self.timer_version }
    }
}

impl UndoQueue {
    /// A queue with nothing pending.
    pub fn new() -> (q: Self)
        ensures
            q@ == (UndoQueueView { pending: None, timer_version: 0 }),
    {
        UndoQueue { pending: None, timer_version: 0 }
    }

    /// Whether a deletion can still be undone.
    pub fn has_pending(&self) -> (b: bool)
        ensures
            b == (self@.pending is Some),
    {
        self.pending.is_some()
    }

    /// A copy of the deletion that can still be undone.
    pub fn pending(&self) -> (p: Option<PendingDelete>)
        ensures
            opt_pending_view(p) == self@.pending,
    {
        match &self.pending {
            Some(d) => Some(d.clone()),
            None => None,
        }
    }

    /// The version of the timer that counts.
    pub fn timer_version(&self) -> (v: u64)
        ensures
            v == self@.timer_version,
    {
        self.timer_version
    }

    /// Stages the deletion of `mnemon`, which stood at `original_idx`. It
    /// takes the place of the deletion that was pending, and that one becomes
    /// final: it is not put back. Every timer from before is overtaken.
    pub fn stage(&mut self, mnemon: Mnemon, original_idx: usize) -> (r: Staged)
        ensures
            final(self)@ == old(self)@.staged(mnemon@, original_idx),
            r.timer_version == final(self)@.timer_version,
            r.finalize == match old(self)@.pending {
                Some(p) => Some(p.mnemon.id),
                None => None,
            },
    {
        let finalize = match &self.pending {
            Some(p) => Some(p.mnemon.id),
            None => None,
        };
        self.timer_version = bump(self.timer_version);
        self.pending = Some(PendingDelete { mnemon, original_idx });
        Staged { finalize, timer_version: self.timer_version }
    }

    /// Takes the first mnemon with the identifier `id` out of `journal` and
    /// stages its deletion: it can be put back with `undo`. Where no mnemon
    /// has that identifier the result is `None` and nothing changes.
    pub fn delete(&mut self, journal: &mut AppState, id: u128) -> (r: Option<Staged>)
        ensures
            final(journal).wf(),
            r is Some || old(self)@.fits(old(journal)@) ==> final(self)@.fits(final(journal)@),
            match first_where(old(journal)@.mnemons, mnemon_has_id(id)) {
                Some(at) => {
                    &&& final(journal)@ == old(journal)@.without_mnemon(at)
                    &&& final(self)@ == old(self)@.staged(old(journal)@.mnemons[at], at as usize)
                    &&& r matches Some(staged)
                    &&& staged.timer_version == final(self)@.timer_version
                    &&& staged.finalize == match old(self)@.pending {
                        Some(p) => Some(p.mnemon.id),
                        None => None,
                    }
                },
                None => {
                    &&& r is None
                    &&& final(journal)@ == old(journal)@
                    &&& final(self)@ == old(self)@
                },
            },
    {
        match journal.remove_mnemon(id) {
            Some((mnemon, at)) => Some(self.stage(mnemon, at)),
            None => None,
        }
    }

    /// Undoes the pending deletion: the mnemon is put back into `journal` at
    /// the place it had, and nothing is pending any more. With nothing
    /// pending nothing changes; nor does anything change where the place the
    /// mnemon had is no place of `journal` any more, and the deletion stays
    /// pending. The result says whether a mnemon was put back.
    pub fn undo(&mut self, journal: &mut AppState) -> (restored: bool)
        ensures
            final(journal).wf(),
            restored == old(self)@.undoes(old(journal)@),
            final(self)@ == old(self)@.undone(old(journal)@),
            final(journal)@ == if restored {
                old(journal)@.with_mnemon_back(
                    old(self)@.pending->0.mnemon,
                    old(self)@.pending->0.original_idx as int,
                )
            } else {
                old(journal)@
            },
    {
        proof {
            use_type_invariant(&*journal);
        }
        let fits = match &self.pending {
            Some(p) => p.original_idx <= journal.mnemons_count(),
            None => false,
        };
        if !fits {
            return false;
        }
        match self.pending.take() {
            Some(p) => {
                journal.restore_mnemon(p.mnemon, p.original_idx);
                true
            },
            None => false,
        }
    }

    /// The timer started under `version` has run out. If a deletion is
    /// pending and the timer is the one that counts, the deletion becomes
    /// final: nothing is pending any more, and the result is the mnemon to
    /// delete from the store. Otherwise nothing changes and the result is
    /// `None`.
    pub fn on_timeout(&mut self, version: u64) -> (finalize: Option<u128>)
        ensures
            final(self)@ == old(self)@.timed_out(version),
            finalize == if old(self)@.expires_with(version) {
                Some(old(self)@.pending->0.mnemon.id)
            } else {
                None
            },
    {
        if version != self.timer_version {
            return None;
        }
        match self.pending.take() {
            Some(p) => Some(p.mnemon.id),
            None => None,
        }
    }
}

/// Undo exactly once: once a deletion is staged, of the undo and the
/// running out of its timer exactly one takes effect, whichever comes first.
/// After an undo that put the mnemon back nothing is pending, so the timer
/// makes nothing final; an undo that could not put it back leaves it to the
/// timer; after the timer nothing is pending, so the undo puts nothing back.
/// A timer from before the staging makes nothing final.
pub proof fn lemma_undo_exactly_once(
    q: UndoQueueView,
    mnemon: MnemonView,
    original_idx: usize,
    journal: AppStateView,
    earlier_timer: u64,
)
    ensures
        ({
            let staged = q.staged(mnemon, original_idx);
            let timer = staged.timer_version;
            let undone = staged.undone(journal);
            let expired = staged.timed_out(timer);
            &&& staged.pending == Some(PendingDeleteView { mnemon, original_idx })
            &&& staged.expires_with(timer)
            &&& !expired.undoes(journal)
            &&& !expired.expires_with(timer)
            &&& staged.undoes(journal) <==> !undone.expires_with(timer)
            &&& !undone.undoes(journal) || undone == staged
            &&& undone.timed_out(timer).pending is None
            &&& earlier_timer != timer ==> staged.timed_out(earlier_timer) == staged
            &&& staged.timed_out(q.timer_version) == staged
        }),
{
}

/// The number of steps in which the undo toast's progress bar runs out.
pub fn undo_progress_steps() -> (n: u32)
    ensures
        n == UNDO_TIMEOUT_MS / UNDO_PROGRESS_INTERVAL_MS,
{
    UNDO_TIMEOUT_MS / UNDO_PROGRESS_INTERVAL_MS
}

/// What is left of the undo toast's progress bar after `step` steps, in
/// percent: it runs out evenly, and then stays empty.
pub fn undo_progress_left(step: u32) -> (left: u32)
    ensures
        left == if step >= UNDO_TIMEOUT_MS / UNDO_PROGRESS_INTERVAL_MS {
            0int
        } else {
            100 - (step * 100) / ((UNDO_TIMEOUT_MS / UNDO_PROGRESS_INTERVAL_MS) as int)
        },
{
    let steps = undo_progress_steps();
    assert(steps == 100);
    if step >= steps {
        0
    } else {
        100 - (step * 100) / steps
    }
}

} // verus!
