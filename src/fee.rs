use vstd::prelude::*;

use crate::error::ErrorCode;

verus! {

/// The protocol fee, in basis points of the gross amount (0.4%).
pub const PLATFORM_FEE_BASIS_POINTS: u64 = 40;

/// The number of basis points in a whole.
pub const BASIS_POINTS_DIVISOR: u64 = 10000;

/// The protocol fee on `gross`: the basis-point share, rounded down.
pub open spec fn fee_of(gross: int) -> int {
    gross * PLATFORM_FEE_BASIS_POINTS as int / BASIS_POINTS_DIVISOR as int
}

/// What is left of `gross` once the fee is taken.
pub open spec fn net_of(gross: int) -> int {
    gross - fee_of(gross)
}

/// `percent` percent of `amount`, rounded down.
pub open spec fn share_of(amount: int, percent: int) -> int {
    amount * percent / 100
}

/// A gross amount split into the protocol fee and the remainder.
#[derive(Clone, Copy, Debug, PartialEq, Eq, Structural)]
pub struct FeeSplit {
    pub fee: u64,
    pub net: u64,
}

/// The fee is never more than the amount it is taken from.
pub proof fn lemma_fee_bounds(gross: int)
    requires
        gross >= 0,
    ensures
        0 <= fee_of(gross) <= gross,
        0 <= net_of(gross) <= gross,
        gross > 0 ==> net_of(gross) > 0,
{
    assert(0 <= gross * 40 / 10000 <= gross) by (nonlinear_arith)
        requires
            gross >= 0,
    ;
    assert(gross > 0 ==> gross * 40 / 10000 < gross) by (nonlinear_arith)
        requires
            gross >= 0,
    ;
}

/// A share of at most one hundred percent is never more than the amount.
pub proof fn lemma_share_bounds(amount: int, percent: int)
    requires
        amount >= 0,
        0 <= percent <= 100,
    ensures
        0 <= share_of(amount, percent) <= amount,
{
    assert(0 <= amount * percent / 100 <= amount) by (nonlinear_arith)
        requires
            amount >= 0,
            0 <= percent <= 100,
    ;
}

/// Splits `gross` into the protocol fee and the net amount. The product is
/// taken in 128 bits, so no step can overflow.
pub fn compute_fee(gross: u64) -> (r: FeeSplit)
    ensures
        r.fee == fee_of(gross as int),
        r.net == net_of(gross as int),
        r.fee + r.net == gross,
{
    proof {
        lemma_fee_bounds(gross as int);
        assert(gross as u128 * 40 <= u64::MAX as u128 * 40) by (nonlinear_arith);
    }
    let wide: u128 = (gross as u128) * (PLATFORM_FEE_BASIS_POINTS as u128);
    let fee = (wide / (BASIS_POINTS_DIVISOR as u128)) as u64;
    FeeSplit { fee, net: gross - fee }
}

/// What the vault must give up to pay out `amount`: the amount itself and the
/// fee on it. Fails with `Overflow` when that sum does not fit in 64 bits.
pub fn withdrawal_total(amount: u64) -> (r: Result<u64, ErrorCode>)
    ensures
        amount + fee_of(amount as int) <= u64::MAX <==> r is Ok,
        r matches Ok(t) ==> t == amount + fee_of(amount as int),
        r matches Err(e) ==> e == ErrorCode::Overflow,
{
    let split = compute_fee(amount);
    match amount.checked_add(split.fee) {
        Some(t) => Ok(t),
        None => Err(ErrorCode::Overflow),
    }
}

/// `percent` percent of `amount`, rounded down, taken in 128 bits.
pub fn savings_share(amount: u64, percent: u8) -> (r: u64)
    requires
        percent <= 100,
    ensures
        r == share_of(amount as int, percent as int),
{
    proof {
        lemma_share_bounds(amount as int, percent as int);
        assert(amount as u128 * percent as u128 <= u64::MAX as u128 * 100) by (nonlinear_arith)
            requires
                percent <= 100,
        ;
    }
    let wide: u128 = (amount as u128) * (percent as u128);
    (wide / 100) as u64
}

} // verus!
