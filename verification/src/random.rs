//! Random draws, taken from the `rand` crate.
use rand::Rng;
use vstd::prelude::*;

verus! {

/// A number drawn from `low ..= high` by the thread-local generator,
/// through `rand::thread_rng().gen_range(low..=high)`. The contract claims
/// only that the draw lies in the range, which the crate documents; it
/// panics on an empty range, which `requires` rules out.
#[verifier::external_body]
pub(crate) fn random_in_range(low: u64, high: u64) -> (r: u64)
    requires
        low <= high,
    ensures
        low <= r <= high,
{
    rand::thread_rng().gen_range(low..=high)
}

} // verus!
