//! The display order: a shuffled list that names every mnemon exactly once.

use vstd::prelude::*;
use vstd::seq_lib::{to_multiset_contains, to_multiset_len};
use vstd::set_lib::{lemma_int_range, lemma_subset_equality, set_int_range};

verus! {

/// Whether `order` is a display order for `n` mnemons: it has `n` entries,
/// each is a position among the `n`, and none occurs twice.
pub open spec fn is_display_order(order: Seq<usize>, n: nat) -> bool {
    &&& order.len() == n
    &&& forall|i: int| 0 <= i < order.len() ==> #[trigger] order[i] < n
    &&& order.no_duplicates()
}

/// The order in which the mnemons were added: 0, 1, ..., n - 1.
pub open spec fn insertion_order(n: nat) -> Seq<usize> {
    Seq::new(n, |i: int| i as usize)
}

/// The entry that stood for position `entry` once the mnemon at `removed` has
/// left: positions behind it move down by one.
pub open spec fn entry_without(entry: usize, removed: usize) -> usize {
    if entry > removed {
        (entry - 1) as usize
    } else {
        entry
    }
}

/// The entry that stood for position `entry` once a mnemon has come in at
/// `inserted`: positions from there on move up by one.
pub open spec fn entry_with(entry: usize, inserted: usize) -> usize {
    if entry >= inserted {
        (entry + 1) as usize
    } else {
        entry
    }
}

/// The display order after the mnemon at position `removed` has left: its
/// entry is taken out, and the others are renumbered but keep their places.
pub open spec fn order_without(order: Seq<usize>, removed: usize) -> Seq<usize> {
    order.remove(order.index_of(removed)).map_values(|e: usize| entry_without(e, removed))
}

/// The display order after a mnemon has come back at position `inserted`: the
/// others are renumbered and keep their places, and the new entry stands first.
pub open spec fn order_with(order: Seq<usize>, inserted: usize) -> Seq<usize> {
    seq![inserted] + order.map_values(|e: usize| entry_with(e, inserted))
}

/// A display order names every position: none of the `n` is left out.
pub proof fn lemma_display_order_covers(order: Seq<usize>, n: nat, k: usize)
    requires
        is_display_order(order, n),
        k < n,
    ensures
        order.contains(k),
        0 <= order.index_of(k) < n,
        order[order.index_of(k)] == k,
{
    let ints = order.map_values(|e: usize| e as int);
    ints.unique_seq_to_set();
    lemma_int_range(0, n as int);
    let range = set_int_range(0, n as int);
    lemma_subset_equality(ints.to_set(), range);
    assert(range.contains(k as int));
    let i = choose|i: int| 0 <= i < ints.len() && ints[i] == k as int;
    assert(order[i] == k);
}

/// Reordering a display order gives a display order.
pub proof fn lemma_reordered(before: Seq<usize>, after: Seq<usize>, n: nat)
    requires
        is_display_order(before, n),
        after.to_multiset() == before.to_multiset(),
    ensures
        is_display_order(after, n),
{
    to_multiset_len(before);
    to_multiset_len(after);
    assert forall|i: int| 0 <= i < after.len() implies #[trigger] after[i] < n by {
        let x = after[i];
        to_multiset_contains(after, x);
        to_multiset_contains(before, x);
        let j = choose|j: int| 0 <= j < before.len() && before[j] == x;
        assert(before[j] < n);
    }
    before.lemma_multiset_has_no_duplicates();
    after.lemma_multiset_has_no_duplicates_conv();
}

/// Taking a position out of a display order gives one for one mnemon less.
pub proof fn lemma_order_without(order: Seq<usize>, n: nat, removed: usize)
    requires
        is_display_order(order, n),
        removed < n,
    ensures
        is_display_order(order_without(order, removed), (n - 1) as nat),
{
    lemma_display_order_covers(order, n, removed);
    let at = order.index_of(removed);
    let rest = order.remove(at);
    let next = order_without(order, removed);
    assert forall|i: int, j: int| 0 <= i < next.len() && 0 <= j < next.len() && i != j implies next[i]
        != next[j] by {
        assert(rest[i] != rest[j]);
    }
}

/// Takes the entry for position `removed` out of a display order and
/// renumbers the entries behind it.
pub fn take_out(order: &mut Vec<usize>, removed: usize)
    requires
        is_display_order(old(order)@, old(order)@.len()),
        removed < old(order)@.len(),
    ensures
        final(order)@ == order_without(old(order)@, removed),
        is_display_order(final(order)@, (old(order)@.len() - 1) as nat),
{
    let ghost before = order@;
    let ghost n = before.len();
    proof {
        vstd::std_specs::vec::axiom_spec_len(order);
        lemma_display_order_covers(before, n, removed);
    }
    let mut place: usize = 0;
    while order[place] != removed
        invariant
            order@ == before,
            0 <= place < before.len() <= usize::MAX,
            before.contains(removed),
            forall|j: int| 0 <= j < place ==> before[j] != removed,
        decreases before.len() - place,
    {
        proof {
            let k = choose|k: int| 0 <= k < before.len() && before[k] == removed;
            assert(k > place);
        }
        place = place + 1;
    }
    order.remove(place);
    let ghost rest = order@;
    let mut k: usize = 0;
    while k < order.len()
        invariant
            k <= rest.len(),
            order@.len() == rest.len(),
            forall|j: int| 0 <= j < k ==> order@[j] == entry_without(rest[j], removed),
            forall|j: int| k <= j < rest.len() ==> order@[j] == rest[j],
        decreases rest.len() - k,
    {
        let entry = order[k];
        if entry > removed {
            order.set(k, entry - 1);
        }
        k = k + 1;
    }
}

/// Renumbers a display order for a mnemon that comes back at position
/// `inserted`, and puts the entry for it first.
pub fn put_first(order: &mut Vec<usize>, inserted: usize)
    requires
        is_display_order(old(order)@, old(order)@.len()),
        inserted <= old(order)@.len(),
        old(order)@.len() < usize::MAX,
    ensures
        final(order)@ == order_with(old(order)@, inserted),
        is_display_order(final(order)@, old(order)@.len() + 1),
{
    let ghost before = order@;
    let ghost n = before.len();
    let mut k: usize = 0;
    while k < order.len()
        invariant
            k <= before.len(),
            n < usize::MAX,
            is_display_order(before, n),
            order@.len() == before.len(),
            forall|j: int| 0 <= j < k ==> order@[j] == entry_with(before[j], inserted),
            forall|j: int| k <= j < before.len() ==> order@[j] == before[j],
        decreases before.len() - k,
    {
        let entry = order[k];
        assert(before[k as int] < n);
        if entry >= inserted {
            order.set(k, entry + 1);
        }
        k = k + 1;
    }
    order.insert(0, inserted);
}

} // verus!
