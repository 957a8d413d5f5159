//! The journal's state: works, mnemons and the order in which they are shown.

use vstd::prelude::*;

use crate::display_order::{
    insertion_order, is_display_order, lemma_reordered, order_with, order_without, put_first,
    take_out,
};
use crate::find::{
    first_where, is_first_where, lemma_first_where, lemma_first_where_is, lemma_first_where_none,
    none_where,
};
use crate::models::{Mnemon, MnemonView, ProviderRef, ProviderRefView, Work, WorkView};
use crate::sources::shuffle_in_place;
use crate::storage::PersistedData;
use crate::text::opt_text;

verus! {

/// What a `MnemonWithWork` stands for.
pub struct MnemonWithWorkView {
    pub mnemon: MnemonView,
    pub work: WorkView,
}

/// A mnemon together with the work it is about, ready to be shown.
#[derive(Debug, PartialEq)]
pub struct MnemonWithWork {
    pub mnemon: Mnemon,
    pub work: Work,
}

impl View for MnemonWithWork {
    type V = MnemonWithWorkView;

    open spec fn view(&self) -> MnemonWithWorkView {
        MnemonWithWorkView { mnemon: self.mnemon@, work: self.work@ }
    }
}

impl DeepView for MnemonWithWork {
    type V = MnemonWithWorkView;

    open spec fn deep_view(&self) -> MnemonWithWorkView {
        self@
    }
}

impl Clone for MnemonWithWork {
    fn clone(&self) -> (r: Self)
        ensures
            r@ == self@,
    {
        MnemonWithWork { mnemon: self.mnemon.clone(), work: self.work.clone() }
    }
}

/// What an `AppState` stands for.
pub struct AppStateView {
    /// The works, in the order in which they were added.
    pub works: Seq<WorkView>,
    /// The mnemons, in the order in which they were added.
    pub mnemons: Seq<MnemonView>,
    /// The display order: positions among `mnemons`, shuffled.
    pub shuffled_indices: Seq<usize>,
    /// Whether the stored records have been taken in.
    pub loaded: bool,
    /// Whether the stored records are being fetched right now.
    pub loading: bool,
}

impl AppStateView {
    /// Whether the display order names every mnemon exactly once (and the
    /// mnemons are no more than a machine can count).
    pub open spec fn wf(self) -> bool {
        &&& self.mnemons.len() <= usize::MAX
        &&& is_display_order(self.shuffled_indices, self.mnemons.len())
    }

    /// The journal with `work` added behind the other works.
    pub open spec fn with_work(self, work: WorkView) -> AppStateView {
        AppStateView { works: self.works.push(work), ..self }
    }

    /// Whether `after` is this journal with `mnemon` added: the mnemon stands
    /// behind the others and is the last of the display order, and the display
    /// order before it holds the entries that it held, in any order.
    pub open spec fn with_mnemon(self, mnemon: MnemonView, after: AppStateView) -> bool {
        &&& after == (AppStateView {
            mnemons: self.mnemons.push(mnemon),
            shuffled_indices: after.shuffled_indices,
            ..self
        })
        &&& after.shuffled_indices.len() == self.shuffled_indices.len() + 1
        &&& after.shuffled_indices.last() == self.mnemons.len()
        &&& after.shuffled_indices.drop_last().to_multiset() == self.shuffled_indices.to_multiset()
    }

    /// The journal with the mnemon at place `at` taken out.
    pub open spec fn without_mnemon(self, at: int) -> AppStateView {
        AppStateView {
            mnemons: self.mnemons.remove(at),
            shuffled_indices: order_without(self.shuffled_indices, at as usize),
            ..self
        }
    }

    /// The journal with `mnemon` put back at place `at`.
    pub open spec fn with_mnemon_back(self, mnemon: MnemonView, at: int) -> AppStateView {
        AppStateView {
            mnemons: self.mnemons.insert(at, mnemon),
            shuffled_indices: order_with(self.shuffled_indices, at as usize),
            ..self
        }
    }

    /// The journal with the mnemon at place `at` replaced by `mnemon`.
    pub open spec fn with_mnemon_replaced(self, mnemon: MnemonView, at: int) -> AppStateView {
        AppStateView { mnemons: self.mnemons.update(at, mnemon), ..self }
    }
}

/// The condition "has the identifier `id`" on mnemons.
pub open spec fn mnemon_has_id(id: u128) -> spec_fn(MnemonView) -> bool {
    |m: MnemonView| m.id == id
}

/// The condition "has the identifier `id`" on works.
pub open spec fn work_has_id(id: u128) -> spec_fn(WorkView) -> bool {
    |w: WorkView| w.id == id
}

/// The condition "is the outside entity `r`" on works.
pub open spec fn work_has_ref(r: ProviderRefView) -> spec_fn(WorkView) -> bool {
    |w: WorkView| w.provider_ref == Some(r)
}

/// The records and the display order, as `AppState` keeps them.
struct Journal {
    works: Vec<Work>,
    mnemons: Vec<Mnemon>,
    shuffled_indices: Vec<usize>,
    loaded: bool,
    loading: bool,
}

impl View for Journal {
    type V = AppStateView;

    closed spec fn view(&self) -> AppStateView {
        AppStateView {
            works: self.works.deep_view(),
            mnemons: self.mnemons.deep_view(),
            shuffled_indices: self.shuffled_indices@,
            loaded: self.loaded,
            loading: self.loading,
        }
    }
}

impl Journal {
    /// No records, nothing loaded.
    fn empty() -> (j: Self)
        ensures
            j@ == (AppStateView {
                works: Seq::empty(),
                mnemons: Seq::empty(),
                shuffled_indices: Seq::empty(),
                loaded: false,
                loading: false,
            }),
    {
        let j = Journal {
            works: Vec::new(),
            mnemons: Vec::new(),
            shuffled_indices: Vec::new(),
            loaded: false,
            loading: false,
        };
        assert(j.works.deep_view() =~= Seq::<WorkView>::empty());
        assert(j.mnemons.deep_view() =~= Seq::<MnemonView>::empty());
        j
    }
}

/// The state in memory that everything shown is read from. Its display order
/// names every mnemon exactly once, whatever is done to it.
pub struct AppState {
    inner: Journal,
}

impl View for AppState {
    type V = AppStateView;

    closed spec fn view(&self) -> AppStateView {
        self.inner@
    }
}

impl AppState {
    /// Whether the display order names every mnemon exactly once. It holds of
    /// every journal at all times.
    #[verifier::type_invariant]
    pub open spec fn wf(&self) -> bool {
        self@.wf()
    }

    /// An empty journal into which nothing has been loaded yet.
    pub fn new() -> (s: Self)
        ensures
            s.wf(),
            s@ == (AppStateView {
                works: Seq::empty(),
                mnemons: Seq::empty(),
                shuffled_indices: Seq::empty(),
                loaded: false,
                loading: false,
            }),
    {
        AppState { inner: Journal::empty() }
    }

    /// Asks to load the stored records. The answer is `true` for the first
    /// call only: then the caller fetches the records and hands them to
    /// `load_from_storage`. While that is under way, and ever after, the answer
    /// is `false` and nothing changes.
    pub fn begin_load(&mut self) -> (go: bool)
        ensures
            go == (!old(self)@.loaded && !old(self)@.loading),
            final(self)@ == (AppStateView { loading: old(self)@.loading || go, ..old(self)@ }),
            final(self).wf(),
    {
        proof {
            use_type_invariant(&*self);
        }
        if self.inner.loaded || self.inner.loading {
            false
        } else {
            self.inner.loading = true;
            true
        }
    }

    /// Takes in the stored records, once. On a journal that is loaded already
    /// nothing changes. Otherwise the journal holds exactly the records given,
    /// in a display order shuffled afresh.
    pub fn load_from_storage(&mut self, persisted: PersistedData)
        ensures
            final(self).wf(),
            old(self)@.loaded ==> final(self)@ == old(self)@,
            !old(self)@.loaded ==> final(self)@ == (AppStateView {
                works: persisted.works.deep_view(),
                mnemons: persisted.mnemons.deep_view(),
                shuffled_indices: final(self)@.shuffled_indices,
                loaded: true,
                loading: false,
            }),
    {
        proof {
            use_type_invariant(&*self);
        }
        if self.inner.loaded {
            return ;
        }
        let n = persisted.mnemons.len();
        let mut indices: Vec<usize> = Vec::new();
        let mut i: usize = 0;
        while i < n
            invariant
                i <= n,
                indices@ == insertion_order(i as nat),
            decreases n - i,
        {
            indices.push(i);
            i = i + 1;
        }
        let ghost before = indices@;
        shuffle_in_place(&mut indices);
        proof {
            lemma_reordered(before, indices@, n as nat);
        }
        self.inner = Journal {
            works: persisted.works,
            mnemons: persisted.mnemons,
            shuffled_indices: indices,
            loaded: true,
            loading: false,
        };
    }

    /// Whether the stored records have been taken in.
    pub fn is_loaded(&self) -> (b: bool)
        ensures
            b == self@.loaded,
    {
        self.inner.loaded
    }

    /// The number of mnemons: as many as the display order has entries.
    pub fn mnemons_count(&self) -> (n: usize)
        ensures
            self.wf(),
            n == self@.mnemons.len(),
            n == self@.shuffled_indices.len(),
    {
        proof {
            use_type_invariant(self);
        }
        self.inner.shuffled_indices.len()
    }

    /// The mnemon shown at `shuffled_position`, as its place among the
    /// mnemons; `None` if the display order is shorter.
    pub fn get_shuffled_index(&self, shuffled_position: usize) -> (r: Option<usize>)
        ensures
            r == if shuffled_position < self@.shuffled_indices.len() {
                Some(self@.shuffled_indices[shuffled_position as int])
            } else {
                None
            },
    {
        if shuffled_position < self.inner.shuffled_indices.len() {
            Some(self.inner.shuffled_indices[shuffled_position])
        } else {
            None
        }
    }

    /// Adds a work at the end of the works and gives its identifier.
    pub fn add_work(&mut self, work: Work) -> (id: u128)
        ensures
            id == work@.id,
            final(self)@ == old(self)@.with_work(work@),
            final(self).wf(),
    {
        proof {
            use_type_invariant(&*self);
        }
        let id = work.id;
        let mut journal = Journal::empty();
        core::mem::swap(&mut self.inner, &mut journal);
        journal.works.push(work);
        assert(journal.works.deep_view() =~= old(self).inner.works.deep_view().push(work@));
        self.inner = journal;
        id
    }

    /// Adds a mnemon at the end of the mnemons. The display order is shuffled
    /// afresh, and the new mnemon is put behind it: it is the last to be
    /// shown. The result is its place in the display order.
    pub fn add_mnemon(&mut self, mnemon: Mnemon) -> (position: usize)
        ensures
            final(self).wf(),
            old(self)@.with_mnemon(mnemon@, final(self)@),
            position == final(self)@.shuffled_indices.len() - 1,
    {
        proof {
            use_type_invariant(&*self);
        }
        let mut journal = Journal::empty();
        core::mem::swap(&mut self.inner, &mut journal);
        let new_index = journal.mnemons.len();
        journal.mnemons.push(mnemon);
        assert(journal.mnemons.deep_view() =~= old(self).inner.mnemons.deep_view().push(mnemon@));
        let ghost before = journal.shuffled_indices@;
        shuffle_in_place(&mut journal.shuffled_indices);
        let ghost mixed = journal.shuffled_indices@;
        proof {
            vstd::std_specs::vec::axiom_spec_len(&journal.mnemons);
            lemma_reordered(before, mixed, new_index as nat);
        }
        journal.shuffled_indices.push(new_index);
        assert(journal.shuffled_indices@.drop_last() =~= mixed);
        let position = journal.shuffled_indices.len() - 1;
        self.inner = journal;
        position
    }

    /// The works, in the order in which they were added.
    pub fn works(&self) -> (r: &Vec<Work>)
        ensures
            r.deep_view() == self@.works,
    {
        &self.inner.works
    }

    /// The mnemons, in the order in which they were added.
    pub fn mnemons(&self) -> (r: &Vec<Mnemon>)
        ensures
            r.deep_view() == self@.mnemons,
    {
        &self.inner.mnemons
    }

    /// The display order.
    pub fn shuffled_indices(&self) -> (r: &Vec<usize>)
        ensures
            r@ == self@.shuffled_indices,
    {
        &self.inner.shuffled_indices
    }

    /// The place of the first work with the identifier `id`, if there is one.
    fn work_position(&self, id: u128) -> (r: Option<usize>)
        ensures
            match r {
                Some(i) => i < self@.works.len() && first_where(self@.works, work_has_id(id))
                    == Some(i as int),
                None => first_where(self@.works, work_has_id(id)) is None,
            },
    {
        let mut i: usize = 0;
        while i < self.inner.works.len()
            invariant
                i <= self.inner.works.len(),
                forall|j: int| 0 <= j < i ==> !work_has_id(id)(#[trigger] self@.works[j]),
            decreases self.inner.works.len() - i,
        {
            if self.inner.works[i].id == id {
                proof {
                    lemma_first_where_is(self@.works, work_has_id(id), i as int);
                }
                return Some(i);
            }
            i = i + 1;
        }
        proof {
            lemma_first_where_none(self@.works, work_has_id(id));
        }
        None
    }

    /// Every mnemon whose work is known, joined with that work, in the order
    /// in which the mnemons were added (not in the display order). A mnemon
    /// whose work is missing is left out.
    pub fn get_mnemons_with_works(&self) -> (r: Vec<MnemonWithWork>)
        ensures
            r.deep_view() == joined(self@.mnemons, self@.works),
    {
        let mut out: Vec<MnemonWithWork> = Vec::new();
        let mut i: usize = 0;
        while i < self.inner.mnemons.len()
            invariant
                i <= self.inner.mnemons.len(),
                out.deep_view() == joined(self@.mnemons.take(i as int), self@.works),
            decreases self.inner.mnemons.len() - i,
        {
            let ghost upto = self@.mnemons.take(i as int + 1);
            assert(upto.drop_last() =~= self@.mnemons.take(i as int));
            match self.work_position(self.inner.mnemons[i].work_id) {
                Some(w) => {
                    let pair = MnemonWithWork {
                        mnemon: self.inner.mnemons[i].clone(),
                        work: self.inner.works[w].clone(),
                    };
                    out.push(pair);
                },
                None => {},
            }
            i = i + 1;
        }
        assert(self@.mnemons.take(i as int) =~= self@.mnemons);
        out
    }

    /// The mnemon at place `at` joined with its work, if the work is known.
    fn joined_at(&self, at: usize) -> (r: Option<MnemonWithWork>)
        requires
            at < self@.mnemons.len(),
        ensures
            opt_pair_view(r) == pair_at(self@, at as int),
    {
        match self.work_position(self.inner.mnemons[at].work_id) {
            Some(w) => Some(
                MnemonWithWork { mnemon: self.inner.mnemons[at].clone(), work: self.inner.works[w].clone() },
            ),
            None => None,
        }
    }

    /// The mnemon shown at `shuffled_position`, joined with its work.
    /// `None` if the display order is shorter, or if the work is not known.
    pub fn mnemon_with_work_at(&self, shuffled_position: usize) -> (r: Option<MnemonWithWork>)
        ensures
            opt_pair_view(r) == if shuffled_position < self@.shuffled_indices.len()
                && self@.shuffled_indices[shuffled_position as int] < self@.mnemons.len() {
                pair_at(self@, self@.shuffled_indices[shuffled_position as int] as int)
            } else {
                None
            },
    {
        match self.get_shuffled_index(shuffled_position) {
            Some(at) => {
                if at < self.inner.mnemons.len() {
                    self.joined_at(at)
                } else {
                    None
                }
            },
            None => None,
        }
    }

    /// The first mnemon with the identifier `mnemon_id`, joined with its
    /// work. `None` if there is no such mnemon, or if its work is not known.
    pub fn find_mnemon_with_work(&self, mnemon_id: u128) -> (r: Option<MnemonWithWork>)
        ensures
            opt_pair_view(r) == match first_where(self@.mnemons, mnemon_has_id(mnemon_id)) {
                Some(at) => pair_at(self@, at),
                None => None,
            },
    {
        match self.mnemon_position(mnemon_id) {
            Some(at) => self.joined_at(at),
            None => None,
        }
    }

    /// The first work that is the outside entity `provider_ref`, if there is
    /// one.
    pub fn find_work_by_provider_ref(&self, provider_ref: &ProviderRef) -> (r: Option<Work>)
        ensures
            match first_where(self@.works, work_has_ref(provider_ref@)) {
                Some(i) => r matches Some(w) && w@ == self@.works[i],
                None => r is None,
            },
            r is None <==> none_where(self@.works, work_has_ref(provider_ref@)),
    {
        proof {
            lemma_first_where(self@.works, work_has_ref(provider_ref@));
        }
        let mut i: usize = 0;
        while i < self.inner.works.len()
            invariant
                i <= self.inner.works.len(),
                forall|j: int| 0 <= j < i ==> !work_has_ref(provider_ref@)(#[trigger] self@.works[j]),
            decreases self.inner.works.len() - i,
        {
            if work_is(&self.inner.works[i], provider_ref) {
                proof {
                    lemma_first_where_is(self@.works, work_has_ref(provider_ref@), i as int);
                    assert(work_has_ref(provider_ref@)(self@.works[i as int]));
                }
                return Some(self.inner.works[i].clone());
            }
            i = i + 1;
        }
        None
    }

    /// Whether some mnemon is about the work with the identifier `id`.
    fn has_mnemon_for_work(&self, id: u128) -> (b: bool)
        ensures
            b == exists|j: int| 0 <= j < self@.mnemons.len() && (#[trigger] self@.mnemons[j]).work_id == id,
    {
        let mut j: usize = 0;
        while j < self.inner.mnemons.len()
            invariant
                j <= self.inner.mnemons.len(),
                forall|k: int| 0 <= k < j ==> (#[trigger] self@.mnemons[k]).work_id != id,
            decreases self.inner.mnemons.len() - j,
        {
            if self.inner.mnemons[j].work_id == id {
                assert(self@.mnemons[j as int].work_id == id);
                return true;
            }
            j = j + 1;
        }
        false
    }

    /// Whether some work that is the outside entity `provider_ref` has a
    /// mnemon already.
    pub fn has_mnemon_for_provider_ref(&self, provider_ref: &ProviderRef) -> (b: bool)
        ensures
            b == has_mnemon_for(self@, provider_ref@),
    {
        let mut i: usize = 0;
        while i < self.inner.works.len()
            invariant
                i <= self.inner.works.len(),
                forall|k: int, j: int|
                    0 <= k < i && 0 <= j < self@.mnemons.len() ==> !is_remembered_at(
                        self@,
                        provider_ref@,
                        k,
                        j,
                    ),
            decreases self.inner.works.len() - i,
        {
            if work_is(&self.inner.works[i], provider_ref) && self.has_mnemon_for_work(self.inner.works[i].id) {
                proof {
                    let j = choose|j: int|
                        0 <= j < self@.mnemons.len() && (#[trigger] self@.mnemons[j]).work_id
                            == self@.works[i as int].id;
                    assert(is_remembered_at(self@, provider_ref@, i as int, j));
                }
                return true;
            }
            i = i + 1;
        }
        false
    }

    /// The place of the first mnemon with the identifier `id`, if there is one.
    fn mnemon_position(&self, id: u128) -> (r: Option<usize>)
        ensures
            match r {
                Some(i) => i < self@.mnemons.len() && first_where(self@.mnemons, mnemon_has_id(id))
                    == Some(i as int),
                None => first_where(self@.mnemons, mnemon_has_id(id)) is None,
            },
    {
        let mut i: usize = 0;
        while i < self.inner.mnemons.len()
            invariant
                i <= self.inner.mnemons.len(),
                forall|j: int| 0 <= j < i ==> !mnemon_has_id(id)(#[trigger] self@.mnemons[j]),
            decreases self.inner.mnemons.len() - i,
        {
            if self.inner.mnemons[i].id == id {
                proof {
                    lemma_first_where_is(self@.mnemons, mnemon_has_id(id), i as int);
                }
                return Some(i);
            }
            i = i + 1;
        }
        proof {
            lemma_first_where_none(self@.mnemons, mnemon_has_id(id));
        }
        None
    }

    /// Takes the first mnemon with the identifier `mnemon_id` out of the
    /// journal, in memory only. Its entry leaves the display order and the
    /// entries behind it are renumbered; their order stays. The result is the
    /// mnemon and the place it had, for `restore_mnemon`. Where no mnemon has
    /// that identifier the result is `None` and nothing changes.
    pub fn remove_mnemon(&mut self, mnemon_id: u128) -> (r: Option<(Mnemon, usize)>)
        ensures
            final(self).wf(),
            match first_where(old(self)@.mnemons, mnemon_has_id(mnemon_id)) {
                Some(at) => {
                    &&& r matches Some((mnemon, place))
                    &&& place == at
                    &&& mnemon@ == old(self)@.mnemons[at]
                    &&& final(self)@ == old(self)@.without_mnemon(at)
                },
                None => r is None && final(self)@ == old(self)@,
            },
            match r {
                Some((_, place)) => is_first_where(
                    old(self)@.mnemons,
                    mnemon_has_id(mnemon_id),
                    place as int,
                ),
                None => none_where(old(self)@.mnemons, mnemon_has_id(mnemon_id)),
            },
    {
        proof {
            use_type_invariant(&*self);
            lemma_first_where(self@.mnemons, mnemon_has_id(mnemon_id));
        }
        let at = match self.mnemon_position(mnemon_id) {
            Some(at) => at,
            None => {
                return None;
            },
        };
        let mut journal = Journal::empty();
        core::mem::swap(&mut self.inner, &mut journal);
        let mnemon = journal.mnemons.remove(at);
        assert(journal.mnemons.deep_view() =~= old(self).inner.mnemons.deep_view().remove(
            at as int,
        ));
        take_out(&mut journal.shuffled_indices, at);
        self.inner = journal;
        Some((mnemon, at))
    }

    /// Puts a mnemon that was removed back at the place it had. The entries
    /// of the display order from that place on are renumbered, and the mnemon
    /// that came back is put first: it is the next to be shown.
    pub fn restore_mnemon(&mut self, mnemon: Mnemon, original_idx: usize)
        requires
            original_idx <= old(self)@.mnemons.len(),
        ensures
            final(self).wf(),
            final(self)@ == old(self)@.with_mnemon_back(mnemon@, original_idx as int),
    {
        proof {
            use_type_invariant(&*self);
        }
        let mut journal = Journal::empty();
        core::mem::swap(&mut self.inner, &mut journal);
        journal.mnemons.insert(original_idx, mnemon);
        assert(journal.mnemons.deep_view() =~= old(self).inner.mnemons.deep_view().insert(
            original_idx as int,
            mnemon@,
        ));
        proof {
            vstd::std_specs::vec::axiom_spec_len(&journal.mnemons);
        }
        put_first(&mut journal.shuffled_indices, original_idx);
        self.inner = journal;
    }

    /// Replaces the finished date, the feelings and the notes of the first
    /// mnemon with the identifier `mnemon_id`. The result is a copy of the
    /// mnemon as it now is, for the store. Where no mnemon has that
    /// identifier the result is `None` and nothing changes.
    pub fn edit_mnemon(
        &mut self,
        mnemon_id: u128,
        finished_date: Option<String>,
        feelings: Vec<String>,
        notes: Vec<String>,
    ) -> (r: Option<Mnemon>)
        ensures
            final(self).wf(),
            match first_where(old(self)@.mnemons, mnemon_has_id(mnemon_id)) {
                Some(at) => {
                    &&& r matches Some(edited)
                    &&& edited@ == (MnemonView {
                        finished_date: opt_text(finished_date),
                        feelings: feelings.deep_view(),
                        notes: notes.deep_view(),
                        ..old(self)@.mnemons[at]
                    })
                    &&& final(self)@ == old(self)@.with_mnemon_replaced(edited@, at)
                },
                None => r is None && final(self)@ == old(self)@,
            },
            r is None <==> none_where(old(self)@.mnemons, mnemon_has_id(mnemon_id)),
    {
        proof {
            use_type_invariant(&*self);
            lemma_first_where(self@.mnemons, mnemon_has_id(mnemon_id));
        }
        let at = match self.mnemon_position(mnemon_id) {
            Some(at) => at,
            None => {
                return None;
            },
        };
        let mut journal = Journal::empty();
        core::mem::swap(&mut self.inner, &mut journal);
        let edited = Mnemon {
            id: journal.mnemons[at].id,
            work_id: journal.mnemons[at].work_id,
            finished_date,
            feelings,
            notes,
            created_at: journal.mnemons[at].created_at,
        };
        let copy = edited.clone();
        journal.mnemons.set(at, edited);
        assert(journal.mnemons.deep_view() =~= old(self).inner.mnemons.deep_view().update(
            at as int,
            copy@,
        ));
        self.inner = journal;
        Some(copy)
    }
}

/// Whether `work` is the outside entity `provider_ref`.
fn work_is(work: &Work, provider_ref: &ProviderRef) -> (b: bool)
    ensures
        b == work_has_ref(provider_ref@)(work@),
{
    match &work.provider_ref {
        Some(r) => r.matches(provider_ref),
        None => false,
    }
}

/// The mnemons whose work is among `works`, each joined with the first work
/// that has the identifier the mnemon names, in the order of `mnemons`.
pub open spec fn joined(mnemons: Seq<MnemonView>, works: Seq<WorkView>) -> Seq<MnemonWithWorkView>
    decreases mnemons.len(),
{
    if mnemons.len() == 0 {
        Seq::empty()
    } else {
        let before = joined(mnemons.drop_last(), works);
        match first_where(works, work_has_id(mnemons.last().work_id)) {
            Some(i) => before.push(MnemonWithWorkView { mnemon: mnemons.last(), work: works[i] }),
            None => before,
        }
    }
}

/// The mnemon at place `at` joined with the first work that has the
/// identifier the mnemon names, if there is such a work.
pub open spec fn pair_at(s: AppStateView, at: int) -> Option<MnemonWithWorkView> {
    match first_where(s.works, work_has_id(s.mnemons[at].work_id)) {
        Some(w) => Some(MnemonWithWorkView { mnemon: s.mnemons[at], work: s.works[w] }),
        None => None,
    }
}

/// What an optional pair stands for.
pub open spec fn opt_pair_view(p: Option<MnemonWithWork>) -> Option<MnemonWithWorkView> {
    match p {
        Some(pair) => Some(pair@),
        None => None,
    }
}

/// Whether the work at `i` is the outside entity `r` and the mnemon at `j` is
/// about that work.
pub open spec fn is_remembered_at(s: AppStateView, r: ProviderRefView, i: int, j: int) -> bool {
    &&& 0 <= i < s.works.len()
    &&& 0 <= j < s.mnemons.len()
    &&& s.works[i].provider_ref == Some(r)
    &&& s.mnemons[j].work_id == s.works[i].id
}

/// Whether some work that is the outside entity `r` has a mnemon.
pub open spec fn has_mnemon_for(s: AppStateView, r: ProviderRefView) -> bool {
    exists|i: int, j: int| is_remembered_at(s, r, i, j)
}

/// The display order stays one: adding a mnemon, taking one out and putting
/// one back each lead from a journal whose display order names every mnemon
/// exactly once to another such journal.
pub proof fn lemma_display_order_is_kept(
    s: AppStateView,
    mnemon: MnemonView,
    added: AppStateView,
    at: int,
)
    requires
        s.wf(),
    ensures
        s.mnemons.len() < usize::MAX && s.with_mnemon(mnemon, added) ==> added.wf(),
        0 <= at < s.mnemons.len() ==> s.without_mnemon(at).wf(),
        0 <= at <= s.mnemons.len() < usize::MAX ==> s.with_mnemon_back(mnemon, at).wf(),
{
    let n = s.mnemons.len();
    if n < usize::MAX && s.with_mnemon(mnemon, added) {
        let mixed = added.shuffled_indices.drop_last();
        lemma_reordered(s.shuffled_indices, mixed, n);
        assert(added.shuffled_indices =~= mixed.push(n as usize));
    }
    if 0 <= at < n {
        crate::display_order::lemma_order_without(s.shuffled_indices, n, at as usize);
    }
}

/// Every entry of a join holds a mnemon of the journal.
pub proof fn lemma_joined_from_mnemons(mnemons: Seq<MnemonView>, works: Seq<WorkView>, i: int)
    requires
        0 <= i < joined(mnemons, works).len(),
    ensures
        mnemons.contains(joined(mnemons, works)[i].mnemon),
    decreases mnemons.len(),
{
    if mnemons.len() > 0 {
        let before = joined(mnemons.drop_last(), works);
        if i < before.len() {
            lemma_joined_from_mnemons(mnemons.drop_last(), works, i);
            let k = choose|k: int|
                0 <= k < mnemons.drop_last().len() && mnemons.drop_last()[k] == before[i].mnemon;
            assert(mnemons[k] == before[i].mnemon);
        }
    }
}

/// Add-then-find: after a work is added and then a mnemon about it, the join
/// of mnemons and works holds the pair of the two exactly once. It holds of
/// every journal in which the mnemon does not stand already and in which no
/// other work is found under the new work's identifier.
pub proof fn lemma_added_mnemon_is_found(
    before: AppStateView,
    work: WorkView,
    mnemon: MnemonView,
    after: AppStateView,
)
    requires
        mnemon.work_id == work.id,
        !before.mnemons.contains(mnemon),
        first_where(before.works, work_has_id(work.id)) matches Some(i) ==> before.works[i] == work,
        before.with_work(work).with_mnemon(mnemon, after),
    ensures
        ({
            let pair = MnemonWithWorkView { mnemon, work };
            let all = joined(after.mnemons, after.works);
            &&& all.len() > 0
            &&& all.last() == pair
            &&& forall|k: int| 0 <= k < all.len() - 1 ==> all[k] != pair
        }),
{
    let works = before.works.push(work);
    let p = work_has_id(work.id);
    lemma_first_where(before.works, p);
    match first_where(before.works, p) {
        Some(i) => {
            lemma_first_where_is(works, p, i);
        },
        None => {
            let last = before.works.len() as int;
            lemma_first_where_is(works, p, last);
        },
    }
    let mnemons = before.mnemons.push(mnemon);
    assert(mnemons.drop_last() =~= before.mnemons);
    let all = joined(mnemons, works);
    assert forall|k: int| 0 <= k < all.len() - 1 implies all[k] != (MnemonWithWorkView {
        mnemon,
        work,
    }) by {
        lemma_joined_from_mnemons(before.mnemons, works, k);
    }
}

/// Remove and restore: taking a mnemon out and putting it back at the place
/// it had gives the mnemons as they were, and gives a display order in which
/// the mnemon that came back stands first.
pub proof fn lemma_remove_then_restore(s: AppStateView, at: int)
    requires
        s.wf(),
        0 <= at < s.mnemons.len(),
    ensures
        ({
            let back = s.without_mnemon(at).with_mnemon_back(s.mnemons[at], at);
            &&& back.wf()
            &&& back.mnemons == s.mnemons
            &&& back.works == s.works
            &&& back.shuffled_indices[0] == at
            &&& back.mnemons[back.shuffled_indices[0] as int] == s.mnemons[at]
        }),
{
    let n = s.mnemons.len();
    crate::display_order::lemma_order_without(s.shuffled_indices, n, at as usize);
}

} // verus!
