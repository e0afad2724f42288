//! Fee policy: a pure, monotone fee for each transaction amount.

use vstd::prelude::*;

verus! {

/// The flat fee charged on every operation, in cycles.
pub const FEE_PER_OPERATION: u64 = 2_000_000_000;

/// The fee owed for moving `amount` cycles.
///
/// The policy is a constant; what the rest of the engine relies on is only
/// that it is monotone in the amount and never zero, which
/// [`lemma_compute_fee_monotone`] and [`lemma_compute_fee_nonzero`] state.
pub open spec fn spec_compute_fee(amount: u64) -> u64 {
    FEE_PER_OPERATION
}

/// Compute the fee for the given transaction amount.
pub fn compute_fee(amount: u64) -> (fee: u64)
    ensures
        fee == spec_compute_fee(amount),
{
    FEE_PER_OPERATION
}

/// Monotone fee: a larger amount is never charged a smaller fee.
pub proof fn lemma_compute_fee_monotone(a: u64, b: u64)
    requires
        a >= b,
    ensures
        spec_compute_fee(a) >= spec_compute_fee(b),
{
}

/// The fee is never zero, so every emitted history entry carries a
/// non-zero fee.
pub proof fn lemma_compute_fee_nonzero(amount: u64)
    ensures
        spec_compute_fee(amount) > 0,
{
}

} // verus!
