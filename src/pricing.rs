//! Pricing policies: from a reserve pair and a net input to an output amount.
use vstd::prelude::*;

use vstd::arithmetic::div_mod::{
    lemma_div_is_ordered, lemma_div_multiples_vanish, lemma_fundamental_div_mod,
};

use crate::error::SwapError;
use crate::pool::PoolType;

verus! {

/// Constant product: `floor(reserve_out * net_in / (reserve_in + net_in))`.
pub open spec fn standard_out(reserve_in: int, reserve_out: int, net_in: int) -> int {
    reserve_out * net_in / (reserve_in + net_in)
}

/// The constant-product output plus a bonus, never more than `reserve_out - 1`.
pub open spec fn capped_out(reserve_in: int, reserve_out: int, net_in: int, bonus: int) -> int {
    let raised = standard_out(reserve_in, reserve_out, net_in) + bonus;
    if raised <= reserve_out - 1 {
        raised
    } else {
        reserve_out - 1
    }
}

/// The output that a variant's pricing policy gives for a net input.
pub open spec fn output_of(
    pool_type: PoolType,
    reserve_in: int,
    reserve_out: int,
    net_in: int,
) -> int {
    match pool_type {
        PoolType::Standard => standard_out(reserve_in, reserve_out, net_in),
        PoolType::Stable => capped_out(reserve_in, reserve_out, net_in, net_in / 20),
        PoolType::Concentrated => capped_out(reserve_in, reserve_out, net_in, net_in / 10),
    }
}

/// The constant-product output stays below the output reserve.
pub proof fn lemma_standard_below_reserve(reserve_in: int, reserve_out: int, net_in: int)
    requires
        reserve_in > 0,
        reserve_out > 0,
        net_in >= 0,
    ensures
        0 <= standard_out(reserve_in, reserve_out, net_in) < reserve_out,
{
    let d = reserve_in + net_in;
    assert(0 <= reserve_out * net_in / d) by (nonlinear_arith)
        requires
            reserve_out > 0,
            net_in >= 0,
            d > 0,
    ;
    assert(reserve_out * net_in / d < reserve_out) by (nonlinear_arith)
        requires
            reserve_out > 0,
            net_in >= 0,
            reserve_in > 0,
            d == reserve_in + net_in,
    ;
}

/// Constant-product pricing.
pub fn calculate_standard_swap(input_balance: u64, output_balance: u64, amount_in: u64) -> (r: u64)
    requires
        input_balance > 0,
        output_balance > 0,
    ensures
        r == standard_out(input_balance as int, output_balance as int, amount_in as int),
        r < output_balance,
{
    proof {
        lemma_standard_below_reserve(input_balance as int, output_balance as int, amount_in as int);
        assert((output_balance as int) * (amount_in as int) <= u64::MAX as int * u64::MAX as int)
            by (nonlinear_arith)
            requires
                output_balance <= u64::MAX,
                amount_in <= u64::MAX,
        ;
    }
    let num: u128 = (output_balance as u128) * (amount_in as u128);
    let den: u128 = (input_balance as u128) + (amount_in as u128);
    (num / den) as u64
}

/// Adds `bonus` to the constant-product output, capped at `output_balance - 1`.
fn add_capped_bonus(input_balance: u64, output_balance: u64, amount_in: u64, bonus: u64) -> (r: u64)
    requires
        input_balance > 0,
        output_balance > 0,
    ensures
        r == capped_out(input_balance as int, output_balance as int, amount_in as int, bonus as int),
        r < output_balance,
{
    let standard = calculate_standard_swap(input_balance, output_balance, amount_in);
    let cap = output_balance - 1;
    if bonus <= cap - standard {
        standard + bonus
    } else {
        cap
    }
}

/// Stable-pair pricing: the constant-product output plus a 5% bonus on the input.
pub fn calculate_stable_swap(input_balance: u64, output_balance: u64, amount_in: u64) -> (r: u64)
    requires
        input_balance > 0,
        output_balance > 0,
    ensures
        r == output_of(PoolType::Stable, input_balance as int, output_balance as int, amount_in as int),
        r < output_balance,
{
    add_capped_bonus(input_balance, output_balance, amount_in, amount_in / 20)
}

/// Concentrated pricing: the constant-product output plus a 10% bonus on the input.
pub fn calculate_concentrated_swap(input_balance: u64, output_balance: u64, amount_in: u64) -> (r: u64)
    requires
        input_balance > 0,
        output_balance > 0,
    ensures
        r == output_of(
            PoolType::Concentrated,
            input_balance as int,
            output_balance as int,
            amount_in as int,
        ),
        r < output_balance,
{
    add_capped_bonus(input_balance, output_balance, amount_in, amount_in / 10)
}

/// Prices a net input with the variant's policy; an empty reserve is refused.
pub fn quote_output(pool_type: PoolType, reserve_in: u64, reserve_out: u64, net_in: u64) -> (r: Result<
    u64,
    SwapError,
>)
    ensures
        reserve_in == 0 || reserve_out == 0 ==> r == Err::<u64, SwapError>(
            SwapError::InsufficientLiquidity,
        ),
        reserve_in > 0 && reserve_out > 0 ==> r == Ok::<u64, SwapError>(
            output_of(pool_type, reserve_in as int, reserve_out as int, net_in as int) as u64,
        ),
        r matches Ok(out) ==> out < reserve_out,
        reserve_in > 0 && reserve_out > 0 ==> 0 <= output_of(
            pool_type,
            reserve_in as int,
            reserve_out as int,
            net_in as int,
        ) < reserve_out,
{
    if reserve_in == 0 || reserve_out == 0 {
        return Err(SwapError::InsufficientLiquidity);
    }
    let out = match pool_type {
        PoolType::Standard => calculate_standard_swap(reserve_in, reserve_out, net_in),
        PoolType::Stable => calculate_stable_swap(reserve_in, reserve_out, net_in),
        PoolType::Concentrated => calculate_concentrated_swap(reserve_in, reserve_out, net_in),
    };
    Ok(out)
}

/// The constant-product output does not decrease as the net input grows.
pub proof fn lemma_standard_monotone(reserve_in: int, reserve_out: int, small: int, large: int)
    requires
        reserve_in > 0,
        reserve_out > 0,
        0 <= small <= large,
    ensures
        standard_out(reserve_in, reserve_out, small) <= standard_out(reserve_in, reserve_out, large),
{
    let x1 = reserve_out * small;
    let x2 = reserve_out * large;
    let a = reserve_in + small;
    let b = reserve_in + large;
    let q = x1 / a;
    lemma_fundamental_div_mod(x1, a);
    assert(x1 >= 0) by (nonlinear_arith)
        requires reserve_out > 0, small >= 0, x1 == reserve_out * small;
    assert(q * a <= x1) by (nonlinear_arith)
        requires x1 == a * q + x1 % a, 0 <= x1 % a;
    assert(x1 * b <= x2 * a) by (nonlinear_arith)
        requires
            x1 == reserve_out * small,
            x2 == reserve_out * large,
            a == reserve_in + small,
            b == reserve_in + large,
            reserve_in > 0,
            reserve_out > 0,
            0 <= small <= large,
    ;
    assert(q * b <= x2) by (nonlinear_arith)
        requires q * a <= x1, x1 * b <= x2 * a, a > 0, b > 0;
    lemma_div_is_ordered(q * b, x2, b);
    lemma_div_multiples_vanish(q, b);
    assert(q * b == b * q) by (nonlinear_arith);
}

/// Every variant's output does not decrease as the net input grows.
pub proof fn lemma_output_monotone(
    pool_type: PoolType,
    reserve_in: int,
    reserve_out: int,
    small: int,
    large: int,
)
    requires
        reserve_in > 0,
        reserve_out > 0,
        0 <= small <= large,
    ensures
        output_of(pool_type, reserve_in, reserve_out, small) <= output_of(
            pool_type,
            reserve_in,
            reserve_out,
            large,
        ),
{
    lemma_standard_monotone(reserve_in, reserve_out, small, large);
    lemma_div_is_ordered(small, large, 20);
    lemma_div_is_ordered(small, large, 10);
}

} // verus!
