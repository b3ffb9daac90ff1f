use rand::Rng;
use vstd::prelude::*;

verus! {

/// Relies on rand's `Rng::gen_ratio` on the thread-local generator: `true`
/// with chance `numerator / denominator`, never `true` when `numerator` is 0,
/// always `true` when the two are equal. It panics when `denominator` is 0 or
/// below `numerator`.
#[verifier::external_body]
pub(crate) fn chance(numerator: u32, denominator: u32) -> (r: bool)
    requires
        0 < denominator,
        numerator <= denominator,
    ensures
        numerator == 0 ==> !r,
        numerator == denominator ==> r,
{
    rand::thread_rng().gen_ratio(numerator, denominator)
}

/// Relies on rand's `Rng::gen_range` on the thread-local generator over the
/// half-open range `low..high` of `i32`: a value at least `low` and below
/// `high`. It panics when the range is empty.
#[verifier::external_body]
pub(crate) fn in_range(low: i32, high: i32) -> (r: i32)
    requires
        low < high,
    ensures
        low <= r < high,
{
    rand::thread_rng().gen_range(low..high)
}

} // verus!
