//! The random draws that selection rests on.
//!
//! Nothing here is proved: each function hands a request to the `rand`
//! crate, and its contract states what that crate documents of every
//! outcome. Which outcome comes is left open, so two calls on the same
//! input may differ.

use rand::seq::SliceRandom;
use rand::Rng;
use vstd::prelude::*;

verus! {

/// Draws an integer from `low..=high` with `rand::Rng::gen_range`, on the
/// generator of the current thread.
///
/// Trusted: the draw lies in the range asked for. `gen_range` panics on an
/// empty range, which `low <= high` excludes.
#[verifier::external_body]
pub(crate) fn random_in_range(low: u128, high: u128) -> (drawn: u128)
    requires
        low <= high,
    ensures
        low <= drawn <= high,
{
    rand::thread_rng().gen_range(low..=high)
}

/// Picks one item of a slice with `rand::seq::SliceRandom::choose`, on the
/// generator of the current thread.
///
/// Trusted: the result is `None` for an empty slice and nothing else, and
/// otherwise refers to one of the items.
#[verifier::external_body]
pub(crate) fn choose_random<T>(items: &[T]) -> (chosen: Option<&T>)
    ensures
        chosen is None <==> items@.len() == 0,
        chosen matches Some(item) ==> exists|index: int|
            0 <= index < items@.len() && #[trigger] items@[index] == *item,
{
    items.choose(&mut rand::thread_rng())
}

} // verus!
