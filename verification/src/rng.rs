//! The library's only window onto randomness: a uniform integer draw.
//! Every decision made from a draw lives in verified code that takes
//! the drawn value as an argument.

use vstd::prelude::*;
use rand::Rng;

verus! {

/// Relies on `rand::rng()` and `rand::Rng::random_range` over an
/// integer range: the draw lies in `[lo, hi)`.  `random_range` panics
/// on an empty range, which the precondition excludes.  Nothing more
/// is assumed: two draws with the same bounds may differ.
#[verifier::external_body]
pub(crate) fn draw_in_range(lo: i64, hi: i64) -> (r: i64)
    requires
        lo < hi,
    ensures
        lo <= r < hi,
{
    rand::rng().random_range(lo..hi)
}

} // verus!
