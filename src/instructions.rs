//! The four pool operations, each a pure function of a snapshot taken before
//! any transfer of the operation itself.
use vstd::prelude::*;

use crate::error::SwapError;
use crate::liquidity::{amounts_for_redemption, deposit_result, redeemed_amount, shares_for_deposit};
use crate::math::{compute_fee, fee_of, lemma_net_monotone};
use crate::pool::{fee_rate_spec, pool_type_of_code, PoolType, Pubkey};
use crate::pricing::{lemma_output_monotone, output_of, quote_output};

verus! {

/// The durable configuration of a pool. Fee rate and variant never change after creation.
#[derive(Clone, Copy, Debug)]
pub struct PoolState {
    pub token_a: Pubkey,
    pub token_b: Pubkey,
    pub lp_mint: Pubkey,
    /// Fee rate in parts per hundred thousand.
    pub fee_rate: u32,
    pub pool_type: PoolType,
    pub bump: u8,
}

impl PoolState {
    /// The fee rate is the one that the variant fixes.
    pub open spec fn wf(&self) -> bool {
        self.fee_rate == fee_rate_spec(self.pool_type)
    }
}

/// What creating a pool needs: the identities it is created for.
#[derive(Clone, Copy, Debug)]
pub struct InitializePool {
    pub token_a_mint: Pubkey,
    pub token_b_mint: Pubkey,
    pub lp_mint: Pubkey,
    /// Address-derivation bump of the pool record, opaque to the arithmetic.
    pub pool_state_bump: u8,
}

/// A snapshot for a deposit: the pool, its reserves and its share supply before the deposit.
#[derive(Clone, Copy, Debug)]
pub struct AddLiquidity {
    pub pool_state: PoolState,
    pub vault_a_amount: u64,
    pub vault_b_amount: u64,
    pub lp_supply: u64,
}

/// A snapshot for a withdrawal, with the caller's share balance.
#[derive(Clone, Copy, Debug)]
pub struct RemoveLiquidity {
    pub pool_state: PoolState,
    pub vault_a_amount: u64,
    pub vault_b_amount: u64,
    pub lp_supply: u64,
    pub user_lp_amount: u64,
}

/// A snapshot for a swap: the pool and its reserves before the swap.
#[derive(Clone, Copy, Debug)]
pub struct Swap {
    pub pool_state: PoolState,
    pub vault_a_amount: u64,
    pub vault_b_amount: u64,
}

/// The movements that a swap calls for: `amount_out` leaves the output reserve,
/// and `fee_amount` of the input is the fee.
#[derive(Clone, Copy, Debug, PartialEq, Eq, Structural)]
pub struct SwapOutcome {
    pub amount_out: u64,
    pub fee_amount: u64,
}

/// The amounts that a withdrawal pays out of each reserve.
#[derive(Clone, Copy, Debug, PartialEq, Eq, Structural)]
pub struct Withdrawal {
    pub amount_a: u64,
    pub amount_b: u64,
}

/// The output of a swap of `gross` at `fee_rate`, before any guard.
pub open spec fn swap_amount_out(
    pool_type: PoolType,
    fee_rate: int,
    reserve_in: int,
    reserve_out: int,
    gross: int,
) -> int {
    output_of(pool_type, reserve_in, reserve_out, gross - fee_of(gross, fee_rate))
}

/// What a swap yields against reserves `(reserve_in, reserve_out)`.
pub open spec fn swap_result(
    pool_type: PoolType,
    fee_rate: int,
    reserve_in: int,
    reserve_out: int,
    amount_in: int,
    minimum_amount_out: int,
) -> Result<SwapOutcome, SwapError> {
    if amount_in == 0 {
        Err(SwapError::InvalidAmount)
    } else if reserve_in == 0 || reserve_out == 0 {
        Err(SwapError::InsufficientLiquidity)
    } else if fee_of(amount_in, fee_rate) > amount_in {
        Err(SwapError::ArithmeticOverflow)
    } else if swap_amount_out(pool_type, fee_rate, reserve_in, reserve_out, amount_in)
        < minimum_amount_out {
        Err(SwapError::SlippageExceeded)
    } else {
        Ok(
            SwapOutcome {
                amount_out: swap_amount_out(
                    pool_type,
                    fee_rate,
                    reserve_in,
                    reserve_out,
                    amount_in,
                ) as u64,
                fee_amount: fee_of(amount_in, fee_rate) as u64,
            },
        )
    }
}

/// What a withdrawal yields, guards in order: amount, share balance,
/// arithmetic, slippage, liquidity.
pub open spec fn withdrawal_result(
    ctx: RemoveLiquidity,
    lp_amount: int,
    minimum_a_out: int,
    minimum_b_out: int,
) -> Result<Withdrawal, SwapError> {
    let out_a = redeemed_amount(ctx.vault_a_amount as int, lp_amount, ctx.lp_supply as int);
    let out_b = redeemed_amount(ctx.vault_b_amount as int, lp_amount, ctx.lp_supply as int);
    if lp_amount == 0 {
        Err(SwapError::InvalidAmount)
    } else if (ctx.user_lp_amount as int) < lp_amount {
        Err(SwapError::InsufficientLpBalance)
    } else if ctx.lp_supply == 0 {
        Err(SwapError::DivisionByZero)
    } else if out_a > u64::MAX || out_b > u64::MAX {
        Err(SwapError::ArithmeticOverflow)
    } else if out_a < minimum_a_out || out_b < minimum_b_out {
        Err(SwapError::SlippageExceeded)
    } else if out_a > ctx.vault_a_amount || out_b > ctx.vault_b_amount {
        Err(SwapError::InsufficientLiquidity)
    } else {
        Ok(Withdrawal { amount_a: out_a as u64, amount_b: out_b as u64 })
    }
}

/// For a fixed pool and reserves, a larger input never gives a smaller output.
pub proof fn lemma_swap_monotone(pool: PoolState, reserve_in: u64, reserve_out: u64, small: u64, large: u64)
    requires
        pool.wf(),
        reserve_in > 0,
        reserve_out > 0,
        small <= large,
    ensures
        swap_amount_out(pool.pool_type, pool.fee_rate as int, reserve_in as int, reserve_out as int, small as int)
            <= swap_amount_out(pool.pool_type, pool.fee_rate as int, reserve_in as int, reserve_out as int, large as int),
{
    lemma_net_monotone(small as int, large as int, pool.fee_rate as int);
    lemma_output_monotone(
        pool.pool_type,
        reserve_in as int,
        reserve_out as int,
        small - fee_of(small as int, pool.fee_rate as int),
        large - fee_of(large as int, pool.fee_rate as int),
    );
}

/// Creates a pool's configuration for a variant code, fixing its fee rate.
pub fn initialize_pool(ctx: &InitializePool, pool_type: u8) -> (r: Result<PoolState, SwapError>)
    ensures
        pool_type_of_code(pool_type) is None ==> r == Err::<PoolState, SwapError>(
            SwapError::InvalidPoolType,
        ),
        pool_type_of_code(pool_type) matches Some(t) ==> r matches Ok(p) && p.pool_type == t
            && p.fee_rate == fee_rate_spec(t) && p.token_a == ctx.token_a_mint && p.token_b
            == ctx.token_b_mint && p.lp_mint == ctx.lp_mint && p.bump == ctx.pool_state_bump,
        r matches Ok(p) ==> p.wf(),
{
    let kind = PoolType::from_code(pool_type)?;
    Ok(
        PoolState {
            token_a: ctx.token_a_mint,
            token_b: ctx.token_b_mint,
            lp_mint: ctx.lp_mint,
            fee_rate: kind.fee_rate(),
            pool_type: kind,
            bump: ctx.pool_state_bump,
        },
    )
}

/// The shares that depositing `(amount_a, amount_b)` issues.
pub fn add_liquidity(ctx: &AddLiquidity, amount_a: u64, amount_b: u64) -> (r: Result<u64, SwapError>)
    ensures
        r == deposit_result(
            ctx.pool_state.pool_type,
            amount_a as int,
            amount_b as int,
            ctx.vault_a_amount as int,
            ctx.vault_b_amount as int,
            ctx.lp_supply as int,
        ),
        ctx.lp_supply == 0 && amount_a > 0 && amount_b > 0 ==> r == Ok::<u64, SwapError>(1_000_000),
        amount_a == 0 || amount_b == 0 ==> r == Err::<u64, SwapError>(SwapError::InvalidAmount),
        r matches Ok(shares) ==> shares > 0,
{
    shares_for_deposit(
        ctx.pool_state.pool_type,
        amount_a,
        amount_b,
        ctx.vault_a_amount,
        ctx.vault_b_amount,
        ctx.lp_supply,
    )
}

/// The amounts paid out for redeeming `lp_amount` shares.
pub fn remove_liquidity(
    ctx: &RemoveLiquidity,
    lp_amount: u64,
    minimum_a_out: u64,
    minimum_b_out: u64,
) -> (r: Result<Withdrawal, SwapError>)
    ensures
        r == withdrawal_result(*ctx, lp_amount as int, minimum_a_out as int, minimum_b_out as int),
        lp_amount == 0 ==> r == Err::<Withdrawal, SwapError>(SwapError::InvalidAmount),
        r matches Ok(w) ==> minimum_a_out <= w.amount_a <= ctx.vault_a_amount && minimum_b_out
            <= w.amount_b <= ctx.vault_b_amount,
{
    if lp_amount == 0 {
        return Err(SwapError::InvalidAmount);
    }
    if ctx.user_lp_amount < lp_amount {
        return Err(SwapError::InsufficientLpBalance);
    }
    let (amount_a, amount_b) = amounts_for_redemption(
        lp_amount,
        ctx.vault_a_amount,
        ctx.vault_b_amount,
        ctx.lp_supply,
    )?;
    if amount_a < minimum_a_out || amount_b < minimum_b_out {
        return Err(SwapError::SlippageExceeded);
    }
    if amount_a > ctx.vault_a_amount || amount_b > ctx.vault_b_amount {
        return Err(SwapError::InsufficientLiquidity);
    }
    Ok(Withdrawal { amount_a, amount_b })
}

/// The output and fee of swapping `amount_in`, A to B when `a_to_b`, else B to A.
pub fn swap(ctx: &Swap, amount_in: u64, minimum_amount_out: u64, a_to_b: bool) -> (r: Result<
    SwapOutcome,
    SwapError,
>)
    ensures
        r == swap_result(
            ctx.pool_state.pool_type,
            ctx.pool_state.fee_rate as int,
            (if a_to_b { ctx.vault_a_amount } else { ctx.vault_b_amount }) as int,
            (if a_to_b { ctx.vault_b_amount } else { ctx.vault_a_amount }) as int,
            amount_in as int,
            minimum_amount_out as int,
        ),
        amount_in == 0 ==> r == Err::<SwapOutcome, SwapError>(SwapError::InvalidAmount),
        r matches Ok(o) ==> minimum_amount_out <= o.amount_out < (if a_to_b {
            ctx.vault_b_amount
        } else {
            ctx.vault_a_amount
        }) && o.fee_amount <= amount_in,
        ctx.pool_state.wf() ==> !(r == Err::<SwapOutcome, SwapError>(SwapError::ArithmeticOverflow)),
{
    if amount_in == 0 {
        return Err(SwapError::InvalidAmount);
    }
    let (reserve_in, reserve_out) = if a_to_b {
        (ctx.vault_a_amount, ctx.vault_b_amount)
    } else {
        (ctx.vault_b_amount, ctx.vault_a_amount)
    };
    if reserve_in == 0 || reserve_out == 0 {
        return Err(SwapError::InsufficientLiquidity);
    }
    let (fee_amount, net_in) = compute_fee(amount_in, ctx.pool_state.fee_rate)?;
    let amount_out = quote_output(ctx.pool_state.pool_type, reserve_in, reserve_out, net_in)?;
    if amount_out < minimum_amount_out {
        return Err(SwapError::SlippageExceeded);
    }
    if amount_out > reserve_out {
        return Err(SwapError::InsufficientLiquidity);
    }
    Ok(SwapOutcome { amount_out, fee_amount })
}

} // verus!
