//! The fee/payout calculator: the gross amount returned to a winning bettor.

use vstd::prelude::*;
use vstd::arithmetic::div_mod::lemma_div_is_ordered;
use vstd::arithmetic::mul::lemma_mul_inequality;
use crate::state::MAX_STAKE;

verus! {

/// The payout owed on a winning stake: a 2x return minus the house edge of
/// `fee_bps` basis points of the stake, in fixed-point integer arithmetic,
/// truncated toward zero.
pub open spec fn spec_payout(stake: int, fee_bps: int) -> int {
    stake * (20000 - fee_bps) / 10000
}

/// The payout never exceeds twice the stake.
pub proof fn lemma_payout_at_most_double(stake: int, fee_bps: int)
    requires
        0 <= stake,
        0 <= fee_bps < 20000,
    ensures
        0 <= spec_payout(stake, fee_bps) <= 2 * stake,
{
    lemma_mul_inequality(0, stake, 20000 - fee_bps);
    assert(stake * (20000 - fee_bps) <= stake * 20000) by (nonlinear_arith)
        requires 0 <= stake && fee_bps >= 0;
    lemma_div_is_ordered(0, stake * (20000 - fee_bps), 10000);
    lemma_div_is_ordered(stake * (20000 - fee_bps), stake * 20000, 10000);
    assert(stake * 20000 / 10000 == 2 * stake) by (nonlinear_arith);
}

/// The payout is monotonically non-decreasing in the stake.
pub proof fn lemma_payout_monotonic_in_stake(stake1: int, stake2: int, fee_bps: int)
    requires
        0 <= stake1 <= stake2,
        0 <= fee_bps < 20000,
    ensures
        spec_payout(stake1, fee_bps) <= spec_payout(stake2, fee_bps),
{
    lemma_mul_inequality(stake1, stake2, 20000 - fee_bps);
    lemma_div_is_ordered(stake1 * (20000 - fee_bps), stake2 * (20000 - fee_bps), 10000);
}

/// The payout is monotonically non-increasing in the fee rate.
pub proof fn lemma_payout_antitone_in_fee(stake: int, fee1: int, fee2: int)
    requires
        0 <= stake,
        0 <= fee1 <= fee2 < 20000,
    ensures
        spec_payout(stake, fee2) <= spec_payout(stake, fee1),
{
    assert(stake * (20000 - fee2) <= stake * (20000 - fee1)) by (nonlinear_arith)
        requires 0 <= stake && fee1 <= fee2;
    lemma_div_is_ordered(stake * (20000 - fee2), stake * (20000 - fee1), 10000);
}

/// Computes `spec_payout` exactly, widening to `u128` so the intermediate
/// product cannot overflow. The bound on `amount` keeps the result within
/// `u64` even at a fee of zero, where the payout is twice the stake.
pub fn calc_payout(amount: u64, fee_bps: u16) -> (p: u64)
    requires
        fee_bps < 20000,
        amount <= MAX_STAKE,
    ensures
        p == spec_payout(amount as int, fee_bps as int),
{
    proof {
        assert((amount as int) * (20000 - fee_bps as int) <= (MAX_STAKE as int) * 20000)
            by (nonlinear_arith)
            requires amount <= MAX_STAKE && fee_bps < 20000;
        lemma_payout_at_most_double(amount as int, fee_bps as int);
    }
    let top: u128 = (amount as u128) * (20000u128 - (fee_bps as u128));
    (top / 10000u128) as u64
}

} // verus!
