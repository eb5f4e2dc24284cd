use vstd::prelude::*;

verus! {

/// Relies on bracket_lib's `RandomNumberGenerator::new` and
/// `RandomNumberGenerator::range`: a fresh generator yields a value in `[lo, hi)`;
/// `range` panics on an empty range, hence `lo < hi`.
#[verifier::external_body]
pub(crate) fn random_range(lo: i32, hi: i32) -> (r: i32)
    requires
        lo < hi,
    ensures
        lo <= r < hi,
{
    let mut rng = bracket_lib::prelude::RandomNumberGenerator::new();
    rng.range(lo, hi)
}

} // verus!
