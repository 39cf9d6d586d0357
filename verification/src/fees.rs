//! The fee charged on a movement of funds.
use vstd::prelude::*;

verus! {

/// The number of basis points in the whole amount.
pub const BPS_DENOMINATOR: u64 = 10000;

/// The fee on `amount` at `bps` basis points: the amount times the basis
/// points, divided by ten thousand and rounded down, kept to its low 64 bits;
/// no fee is charged on a zero amount.
pub open spec fn fee_for(amount: u64, bps: u16) -> u64 {
    if amount > 0 {
        ((amount * bps) / (BPS_DENOMINATOR as int)) as u64
    } else {
        0
    }
}

/// The fee on `amount` at `bps` basis points.
pub fn compute_fee(amount: u64, bps: u16) -> (fee: u64)
    ensures
        fee == fee_for(amount, bps),
{
    if amount > 0 {
        let wide_amount: u128 = amount as u128;
        let wide_bps: u128 = bps as u128;
        assert(wide_amount * wide_bps <= 0xffff_ffff_ffff_ffffu128 * 0xffffu128) by (nonlinear_arith)
            requires
                wide_amount <= 0xffff_ffff_ffff_ffffu128,
                wide_bps <= 0xffffu128,
        ;
        let product: u128 = wide_amount * wide_bps;
        let quotient: u128 = product / 10000;
        #[verifier::truncate]
        let fee: u64 = quotient as u64;
        fee
    } else {
        0
    }
}

/// At no more than ten thousand basis points the fee is no more than the
/// amount, and at zero basis points it is zero.
pub proof fn lemma_fee_bounds(amount: u64, bps: u16)
    ensures
        bps <= BPS_DENOMINATOR ==> fee_for(amount, bps) <= amount,
        bps == 0 ==> fee_for(amount, bps) == 0,
{
    if amount > 0 {
        if bps <= BPS_DENOMINATOR {
            assert(amount * bps <= amount * 10000) by (nonlinear_arith)
                requires
                    bps <= 10000,
                    amount >= 0,
            ;
            assert((amount * bps) / 10000 <= amount) by (nonlinear_arith)
                requires
                    amount * bps <= amount * 10000,
                    amount * bps >= 0,
            ;
        }
        if bps == 0 {
            assert(amount * bps == 0) by (nonlinear_arith)
                requires
                    bps == 0,
            ;
        }
    }
}

} // verus!
