//! Liquidity accounting: shares issued for a deposit, amounts paid for a redemption.
use vstd::prelude::*;
use vstd::arithmetic::div_mod::{
    lemma_div_is_ordered, lemma_div_multiples_vanish, lemma_fundamental_div_mod,
    lemma_hoist_over_denominator,
};

use crate::error::SwapError;
use crate::math::{lemma_product_fits, mul_div, mul_div_spec, mul_div_wide, narrow};
use crate::pool::PoolType;

verus! {

/// Shares issued to the first depositor of a pool, whatever the amounts.
pub const BOOTSTRAP_SHARES: u64 = 1_000_000;

/// The smaller of two integers.
pub open spec fn min_int(x: int, y: int) -> int {
    if x <= y {
        x
    } else {
        y
    }
}

/// The smaller of the two ratios that a deposit implies against the reserves.
pub open spec fn standard_shares(a: int, b: int, ra: int, rb: int, supply: int) -> int {
    min_int(a * supply / ra, b * supply / rb)
}

/// The ratio of the deposit's total to twice the reserves' total.
pub open spec fn stable_shares(a: int, b: int, ra: int, rb: int, supply: int) -> int {
    (a + b) * supply / ((ra + rb) * 2)
}

/// The standard issuance with a 10% bonus.
pub open spec fn concentrated_shares(a: int, b: int, ra: int, rb: int, supply: int) -> int {
    standard_shares(a, b, ra, rb, supply) * 110 / 100
}

/// Shares due for depositing `(a, b)` into reserves `(ra, rb)` with `supply` shares out.
pub open spec fn issued_shares(
    pool_type: PoolType,
    a: int,
    b: int,
    ra: int,
    rb: int,
    supply: int,
) -> int {
    if supply == 0 {
        BOOTSTRAP_SHARES as int
    } else {
        match pool_type {
            PoolType::Standard => standard_shares(a, b, ra, rb, supply),
            PoolType::Stable => stable_shares(a, b, ra, rb, supply),
            PoolType::Concentrated => concentrated_shares(a, b, ra, rb, supply),
        }
    }
}

/// The issuance formula would divide by zero: shares exist but a reserve it divides by is empty.
pub open spec fn issuance_divides_by_zero(pool_type: PoolType, ra: int, rb: int, supply: int) -> bool {
    supply != 0 && match pool_type {
        PoolType::Stable => ra + rb == 0,
        _ => ra == 0 || rb == 0,
    }
}

/// What a deposit yields: the shares, or the error that refuses it.
pub open spec fn deposit_result(
    pool_type: PoolType,
    a: int,
    b: int,
    ra: int,
    rb: int,
    supply: int,
) -> Result<u64, SwapError> {
    if a == 0 || b == 0 {
        Err(SwapError::InvalidAmount)
    } else if issuance_divides_by_zero(pool_type, ra, rb, supply) {
        Err(SwapError::DivisionByZero)
    } else if issued_shares(pool_type, a, b, ra, rb, supply) > u64::MAX {
        Err(SwapError::ArithmeticOverflow)
    } else if issued_shares(pool_type, a, b, ra, rb, supply) == 0 {
        Err(SwapError::InvalidAmount)
    } else {
        Ok(issued_shares(pool_type, a, b, ra, rb, supply) as u64)
    }
}

/// The part of a reserve paid out for redeeming `shares` of `supply`.
pub open spec fn redeemed_amount(reserve: int, shares: int, supply: int) -> int {
    reserve * shares / supply
}

proof fn lemma_div_of_sum(p: int, q: int, d: int)
    requires
        p >= 0,
        q >= 0,
        d > 0,
    ensures
        (p + q) / d == p / d + q / d + (p % d + q % d) / d,
{
    lemma_fundamental_div_mod(p, d);
    lemma_fundamental_div_mod(q, d);
    let j = p / d + q / d;
    lemma_hoist_over_denominator(p % d + q % d, j, d as nat);
    assert(p % d + q % d + j * d == p + q) by (nonlinear_arith)
        requires
            p == d * (p / d) + p % d,
            q == d * (q / d) + q % d,
            j == p / d + q / d,
    ;
}

/// The smaller of the two implied ratios, in 128 bits.
fn standard_ratio(a: u64, b: u64, ra: u64, rb: u64, supply: u64) -> (r: Result<u128, SwapError>)
    ensures
        ra == 0 || rb == 0 ==> r == Err::<u128, SwapError>(SwapError::DivisionByZero),
        ra != 0 && rb != 0 ==> r == Ok::<u128, SwapError>(
            standard_shares(a as int, b as int, ra as int, rb as int, supply as int) as u128,
        ),
        ra != 0 && rb != 0 ==> 0 <= standard_shares(a as int, b as int, ra as int, rb as int, supply as int) <= u128::MAX,
{
    proof {
        lemma_product_fits(a, supply);
        lemma_product_fits(b, supply);
    }
    if ra == 0 || rb == 0 {
        return Err(SwapError::DivisionByZero);
    }
    proof {
        assert(0 <= (a as int) * (supply as int) / (ra as int)) by (nonlinear_arith)
            requires (a as int) * (supply as int) >= 0, ra > 0;
        assert(0 <= (b as int) * (supply as int) / (rb as int)) by (nonlinear_arith)
            requires (b as int) * (supply as int) >= 0, rb > 0;
    }
    let ratio_a = mul_div_wide(a, supply, ra as u128)?;
    let ratio_b = mul_div_wide(b, supply, rb as u128)?;
    if ratio_a <= ratio_b {
        Ok(ratio_a)
    } else {
        Ok(ratio_b)
    }
}

/// `floor((a + b) * supply / ((ra + rb) * 2))` without overflowing 128 bits.
fn stable_ratio(a: u64, b: u64, ra: u64, rb: u64, supply: u64) -> (r: Result<u128, SwapError>)
    ensures
        ra as int + rb as int == 0 ==> r == Err::<u128, SwapError>(SwapError::DivisionByZero),
        ra as int + rb as int != 0 ==> r == Ok::<u128, SwapError>(
            stable_shares(a as int, b as int, ra as int, rb as int, supply as int) as u128,
        ),
        ra as int + rb as int != 0 ==> 0 <= stable_shares(a as int, b as int, ra as int, rb as int, supply as int) <= u128::MAX,
{
    let d: u128 = ((ra as u128) + (rb as u128)) * 2;
    if d == 0 {
        return Err(SwapError::DivisionByZero);
    }
    proof {
        lemma_product_fits(a, supply);
        lemma_product_fits(b, supply);
    }
    let p: u128 = (a as u128) * (supply as u128);
    let q: u128 = (b as u128) * (supply as u128);
    proof {
        let pi = p as int;
        let qi = q as int;
        let di = d as int;
        lemma_div_of_sum(pi, qi, di);
        lemma_fundamental_div_mod(pi, di);
        lemma_fundamental_div_mod(qi, di);
        assert(pi / di <= pi / 2 && qi / di <= qi / 2) by (nonlinear_arith)
            requires pi >= 0, qi >= 0, di >= 2;
        assert((pi % di + qi % di) / di <= 1) by (nonlinear_arith)
            requires 0 <= pi % di < di, 0 <= qi % di < di;
        assert(0 <= (pi % di + qi % di) / di) by (nonlinear_arith)
            requires 0 <= pi % di < di, 0 <= qi % di < di;
        assert(0 <= pi / di && 0 <= qi / di) by (nonlinear_arith)
            requires pi >= 0, qi >= 0, di >= 2;
        assert((a as int + b as int) * (supply as int) == pi + qi) by (nonlinear_arith)
            requires pi == (a as int) * (supply as int), qi == (b as int) * (supply as int);
    }
    let whole: u128 = p / d + q / d;
    let rest: u128 = (p % d + q % d) / d;
    Ok(whole + rest)
}

/// The shares that a deposit issues, or the error that refuses it.
///
/// A pool with no shares out issues a fixed bootstrap quantity; otherwise the
/// variant's formula is applied to the deposit and the reserves as they stood
/// before it. A result that does not fit 64 bits, or is zero, is refused.
pub fn shares_for_deposit(
    pool_type: PoolType,
    amount_a: u64,
    amount_b: u64,
    reserve_a: u64,
    reserve_b: u64,
    supply: u64,
) -> (r: Result<u64, SwapError>)
    ensures
        r == deposit_result(
            pool_type,
            amount_a as int,
            amount_b as int,
            reserve_a as int,
            reserve_b as int,
            supply as int,
        ),
{
    if amount_a == 0 || amount_b == 0 {
        return Err(SwapError::InvalidAmount);
    }
    if supply == 0 {
        return Ok(BOOTSTRAP_SHARES);
    }
    let wide: u128 = match pool_type {
        PoolType::Standard => standard_ratio(amount_a, amount_b, reserve_a, reserve_b, supply)?,
        PoolType::Stable => stable_ratio(amount_a, amount_b, reserve_a, reserve_b, supply)?,
        PoolType::Concentrated => {
            let base = standard_ratio(amount_a, amount_b, reserve_a, reserve_b, supply)?;
            if base > u64::MAX as u128 {
                proof {
                    assert((base as int) * 110 / 100 > u64::MAX) by (nonlinear_arith)
                        requires base > u64::MAX;
                }
                return Err(SwapError::ArithmeticOverflow);
            }
            base * 110 / 100
        },
    };
    let shares = narrow(wide)?;
    if shares == 0 {
        return Err(SwapError::InvalidAmount);
    }
    Ok(shares)
}

/// The amounts of each reserve paid for redeeming `shares` of `supply`.
///
/// Strictly proportional and the same for every variant.
pub fn amounts_for_redemption(shares: u64, reserve_a: u64, reserve_b: u64, supply: u64) -> (r:
    Result<(u64, u64), SwapError>)
    ensures
        supply == 0 ==> r == Err::<(u64, u64), SwapError>(SwapError::DivisionByZero),
        supply != 0 && (redeemed_amount(reserve_a as int, shares as int, supply as int) > u64::MAX
            || redeemed_amount(reserve_b as int, shares as int, supply as int) > u64::MAX)
            ==> r == Err::<(u64, u64), SwapError>(SwapError::ArithmeticOverflow),
        supply != 0 && redeemed_amount(reserve_a as int, shares as int, supply as int) <= u64::MAX
            && redeemed_amount(reserve_b as int, shares as int, supply as int) <= u64::MAX ==> r
            == Ok::<(u64, u64), SwapError>(
            (
                redeemed_amount(reserve_a as int, shares as int, supply as int) as u64,
                redeemed_amount(reserve_b as int, shares as int, supply as int) as u64,
            ),
        ),
{
    let out_a = mul_div(reserve_a, shares, supply)?;
    let out_b = mul_div(reserve_b, shares, supply)?;
    Ok((out_a, out_b))
}

/// Redeeming shares issued at no more than `amount * supply / reserve` pays
/// back no more than `amount`.
proof fn lemma_redeem_at_most_deposit(reserve: int, amount: int, supply: int, shares: int)
    requires
        reserve > 0,
        amount >= 0,
        supply > 0,
        0 <= shares <= amount * supply / reserve,
    ensures
        redeemed_amount(reserve + amount, shares, supply + shares) <= amount,
{
    let x = amount * supply;
    lemma_fundamental_div_mod(x, reserve);
    assert(shares * reserve <= x) by (nonlinear_arith)
        requires
            x == reserve * (x / reserve) + x % reserve,
            0 <= x % reserve,
            shares <= x / reserve,
            reserve > 0,
    ;
    assert((reserve + amount) * shares <= amount * (supply + shares)) by (nonlinear_arith)
        requires
            shares * reserve <= amount * supply,
            x == amount * supply,
    ;
    lemma_div_is_ordered((reserve + amount) * shares, amount * (supply + shares), supply + shares);
    lemma_div_multiples_vanish(amount, supply + shares);
    assert(amount * (supply + shares) == (supply + shares) * amount) by (nonlinear_arith);
}

/// Depositing `(a, b)` and at once redeeming every share it issued pays back
/// no more than was deposited.
///
/// Stated for the bootstrap deposit into an empty pool, whatever the variant,
/// and for any deposit into a standard pool with positive reserves.
pub proof fn lemma_round_trip(
    pool_type: PoolType,
    a: u64,
    b: u64,
    reserve_a: u64,
    reserve_b: u64,
    supply: u64,
)
    requires
        a > 0,
        b > 0,
        (supply == 0 && reserve_a == 0 && reserve_b == 0) || (pool_type == PoolType::Standard
            && supply > 0 && reserve_a > 0 && reserve_b > 0),
    ensures
        ({
            let shares = issued_shares(pool_type, a as int, b as int, reserve_a as int, reserve_b as int, supply as int);
            redeemed_amount(reserve_a + a, shares, supply + shares) <= a
                && redeemed_amount(reserve_b + b, shares, supply + shares) <= b
        }),
{
    if supply == 0 {
        let n = BOOTSTRAP_SHARES as int;
        lemma_div_multiples_vanish(a as int, n);
        lemma_div_multiples_vanish(b as int, n);
        assert((a as int) * n == n * (a as int)) by (nonlinear_arith);
        assert((b as int) * n == n * (b as int)) by (nonlinear_arith);
    } else {
        let shares = standard_shares(a as int, b as int, reserve_a as int, reserve_b as int, supply as int);
        assert(0 <= (a as int) * (supply as int) / (reserve_a as int)) by (nonlinear_arith)
            requires a > 0, supply > 0, reserve_a > 0;
        assert(0 <= (b as int) * (supply as int) / (reserve_b as int)) by (nonlinear_arith)
            requires b > 0, supply > 0, reserve_b > 0;
        lemma_redeem_at_most_deposit(reserve_a as int, a as int, supply as int, shares);
        lemma_redeem_at_most_deposit(reserve_b as int, b as int, supply as int, shares);
    }
}

} // verus!
