use vstd::prelude::*;
use rand::Rng;

verus! {

/// Relies on `rand::thread_rng` and `rand::Rng::gen_range` over the
/// inclusive range `low..=high`: the sample lies in `[low, high]`.
/// Nothing more is assumed of the sample. `gen_range` panics only on an
/// empty range, which the precondition rules out.
#[verifier::external_body]
pub(crate) fn sample_inclusive(low: i64, high: i64) -> (r: i64)
    requires
        low <= high,
    ensures
        low <= r <= high,
{
    rand::thread_rng().gen_range(low..=high)
}

} // verus!
