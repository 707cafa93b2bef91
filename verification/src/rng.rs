//! Random integers drawn from the thread-local generator.

use vstd::prelude::*;
use rand::Rng;

verus! {

/// Calls `rand::Rng::gen_range` on `rand::thread_rng()` with the range
/// `lo..hi`. Claimed: the result lies in that range, as `gen_range`
/// documents for a non-empty range (it panics on an empty one, which the
/// `requires` rules out). Which value comes out is left open.
#[verifier::external_body]
pub(crate) fn randint(lo: i32, hi: i32) -> (r: i32)
    requires
        lo < hi,
    ensures
        lo <= r < hi,
{
    rand::thread_rng().gen_range(lo..hi)
}

} // verus!
