//! Widened multiply-then-divide with explicit failure, and the fee model.
use vstd::prelude::*;

use vstd::arithmetic::div_mod::{lemma_div_is_ordered, lemma_hoist_over_denominator};

use crate::error::SwapError;

verus! {

/// Fee rates are expressed in parts per hundred thousand.
pub const FEE_DENOMINATOR: u64 = 100_000;

/// `floor(a * b / d)` over the integers.
pub open spec fn mul_div_spec(a: int, b: int, d: int) -> int {
    a * b / d
}

/// The fee taken from a gross input at the given rate.
pub open spec fn fee_of(gross: int, fee_rate: int) -> int {
    gross * fee_rate / FEE_DENOMINATOR as int
}

/// The product of two 64-bit values is non-negative and fits 128 bits.
pub proof fn lemma_product_fits(a: u64, b: u64)
    ensures
        0 <= (a as int) * (b as int) <= u64::MAX as int * u64::MAX as int,
        (a as int) * (b as int) <= u128::MAX,
{
    assert(0 <= (a as int) * (b as int) <= u64::MAX as int * u64::MAX as int) by (nonlinear_arith)
        requires
            a <= u64::MAX,
            b <= u64::MAX,
    ;
}

/// Multiplies in 128 bits and divides, rejecting a zero divisor.
pub fn mul_div_wide(a: u64, b: u64, d: u128) -> (r: Result<u128, SwapError>)
    ensures
        d == 0 ==> r == Err::<u128, SwapError>(SwapError::DivisionByZero),
        d != 0 ==> r == Ok::<u128, SwapError>(mul_div_spec(a as int, b as int, d as int) as u128),
        d != 0 ==> mul_div_spec(a as int, b as int, d as int) <= u128::MAX,
{
    if d == 0 {
        return Err(SwapError::DivisionByZero);
    }
    proof {
        lemma_product_fits(a, b);
        assert((a as int) * (b as int) / (d as int) <= (a as int) * (b as int)) by (nonlinear_arith)
            requires
                (a as int) * (b as int) >= 0,
                d >= 1,
        ;
    }
    let p: u128 = (a as u128) * (b as u128);
    Ok(p / d)
}

/// Narrows a widened value back to 64 bits, failing rather than truncating.
pub fn narrow(v: u128) -> (r: Result<u64, SwapError>)
    ensures
        v <= u64::MAX ==> r == Ok::<u64, SwapError>(v as u64),
        v > u64::MAX ==> r == Err::<u64, SwapError>(SwapError::ArithmeticOverflow),
{
    if v > u64::MAX as u128 {
        Err(SwapError::ArithmeticOverflow)
    } else {
        Ok(v as u64)
    }
}

/// `floor(a * b / d)` computed without intermediate overflow.
pub fn mul_div(a: u64, b: u64, d: u64) -> (r: Result<u64, SwapError>)
    ensures
        d == 0 ==> r == Err::<u64, SwapError>(SwapError::DivisionByZero),
        d != 0 && mul_div_spec(a as int, b as int, d as int) > u64::MAX ==> r == Err::<u64, SwapError>(
            SwapError::ArithmeticOverflow,
        ),
        d != 0 && mul_div_spec(a as int, b as int, d as int) <= u64::MAX ==> r == Ok::<u64, SwapError>(
            mul_div_spec(a as int, b as int, d as int) as u64,
        ),
{
    let w = mul_div_wide(a, b, d as u128)?;
    narrow(w)
}

/// Splits a gross input into its fee and the net amount that is priced.
///
/// Returns `(fee, net)` with `fee = floor(gross * fee_rate / 100000)` and
/// `net = gross - fee`. A rate so large that the fee would exceed the gross
/// input is refused.
pub fn compute_fee(gross: u64, fee_rate: u32) -> (r: Result<(u64, u64), SwapError>)
    ensures
        fee_of(gross as int, fee_rate as int) > gross ==> r == Err::<(u64, u64), SwapError>(
            SwapError::ArithmeticOverflow,
        ),
        fee_of(gross as int, fee_rate as int) <= gross ==> r == Ok::<(u64, u64), SwapError>(
            (
                fee_of(gross as int, fee_rate as int) as u64,
                (gross - fee_of(gross as int, fee_rate as int)) as u64,
            ),
        ),
        fee_rate <= FEE_DENOMINATOR ==> r is Ok,
        r matches Ok((fee, net)) ==> fee <= gross && net == gross - fee,
{
    proof {
        lemma_fee_bounded(gross as int, fee_rate as int);
    }
    let fee = mul_div_wide(gross, fee_rate as u64, FEE_DENOMINATOR as u128);
    let fee = match fee {
        Ok(f) => f,
        Err(e) => return Err(e),
    };
    if fee > gross as u128 {
        return Err(SwapError::ArithmeticOverflow);
    }
    let fee = fee as u64;
    Ok((fee, gross - fee))
}

/// A fee at a rate of at most the denominator never exceeds the gross input.
pub proof fn lemma_fee_bounded(gross: int, fee_rate: int)
    requires
        gross >= 0,
        fee_rate >= 0,
    ensures
        0 <= fee_of(gross, fee_rate),
        fee_rate <= FEE_DENOMINATOR ==> fee_of(gross, fee_rate) <= gross,
{
    assert(0 <= gross * fee_rate / 100_000) by (nonlinear_arith)
        requires
            gross >= 0,
            fee_rate >= 0,
    ;
    if fee_rate <= FEE_DENOMINATOR {
        assert(gross * fee_rate / 100_000 <= gross) by (nonlinear_arith)
            requires
                gross >= 0,
                0 <= fee_rate <= 100_000,
        ;
    }
}

/// A larger gross input never leaves a smaller net input, at any rate up to the denominator.
pub proof fn lemma_net_monotone(small: int, large: int, fee_rate: int)
    requires
        0 <= small <= large,
        0 <= fee_rate <= FEE_DENOMINATOR,
    ensures
        0 <= small - fee_of(small, fee_rate) <= large - fee_of(large, fee_rate),
{
    lemma_fee_bounded(small, fee_rate);
    let d = FEE_DENOMINATOR as int;
    let delta = large - small;
    lemma_hoist_over_denominator(small * fee_rate, delta, d as nat);
    assert(large * fee_rate <= small * fee_rate + delta * d) by (nonlinear_arith)
        requires
            delta == large - small,
            delta >= 0,
            0 <= fee_rate <= d,
    ;
    lemma_div_is_ordered(large * fee_rate, small * fee_rate + delta * d, d);
}

} // verus!
