//! What only the machine can supply: fresh identifiers, the time, a shuffle.

use vstd::prelude::*;

verus! {

/// The bits of an identifier that say how it was made.
pub const ID_KIND_MASK: u128 = 0x0000_0000_0000_F000_C000_0000_0000_0000;

/// What those bits hold in an identifier drawn at random.
pub const ID_KIND_RANDOM: u128 = 0x0000_0000_0000_4000_8000_0000_0000_0000;

/// Whether `id` is marked as drawn at random (a version 4 UUID).
pub open spec fn is_random_id(id: u128) -> bool {
    id & ID_KIND_MASK == ID_KIND_RANDOM
}

/// `uuid::Uuid::new_v4`, read as a number by `Uuid::as_u128`: a random
/// identifier. Of every outcome only the version and variant bits are fixed,
/// and the contract states those.
#[verifier::external_body]
pub(crate) fn fresh_id() -> (id: u128)
    ensures
        is_random_id(id),
{
    uuid::Uuid::new_v4().as_u128()
}

/// `chrono::Utc::now`, given as `DateTime::timestamp_millis`: the time of the
/// call in milliseconds since 1970. Nothing is claimed of it.
#[verifier::external_body]
pub(crate) fn now_millis() -> i64 {
    chrono::Utc::now().timestamp_millis()
}

/// `rand::seq::SliceRandom::shuffle` with `rand::thread_rng`: reorders the
/// slice in place by swapping its items. Which order comes out is open; that
/// the items are the same ones, each as often as before, is what is claimed.
#[verifier::external_body]
pub(crate) fn shuffle_in_place(v: &mut Vec<usize>)
    ensures
        final(v)@.to_multiset() == old(v)@.to_multiset(),
{
    rand::seq::SliceRandom::shuffle(v.as_mut_slice(), &mut rand::thread_rng());
}

} // verus!
