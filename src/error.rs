use vstd::prelude::*;

verus! {

/// Every way in which an operation on a pool can be refused.
#[derive(Clone, Copy, Debug, PartialEq, Eq, Structural)]
pub enum SwapError {
    /// A reserve needed by the operation is empty or too small.
    InsufficientLiquidity,
    /// A requested amount is zero, or the operation would issue nothing.
    InvalidAmount,
    /// The computed output is below the caller's minimum.
    SlippageExceeded,
    /// A token account does not hold the pool's token.
    InvalidTokenMint,
    /// A vault is not owned by the pool's authority.
    InvalidVaultAuthority,
    /// The caller holds fewer shares than it asked to redeem.
    InsufficientLpBalance,
    /// The pool variant code is not one of the known variants.
    InvalidPoolType,
    /// A widened result does not fit back into a 64-bit balance.
    ArithmeticOverflow,
    /// A divisor was zero.
    DivisionByZero,
}

} // verus!
