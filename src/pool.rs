//! Pool configuration and the variant table.
use vstd::prelude::*;

use crate::error::SwapError;

verus! {

/// The identity of a token, a mint or an account: 32 opaque bytes.
pub type Pubkey = [u8; 32];

/// The three pool variants. Each fixes a fee rate and a pricing and issuance policy.
#[derive(Clone, Copy, Debug, PartialEq, Eq, Structural)]
pub enum PoolType {
    Standard,
    Stable,
    Concentrated,
}

/// Fee rate of the standard variant, in parts per hundred thousand.
pub const STANDARD_FEE_RATE: u32 = 300;

/// Fee rate of the stable variant, in parts per hundred thousand.
pub const STABLE_FEE_RATE: u32 = 50;

/// Fee rate of the concentrated variant, in parts per hundred thousand.
pub const CONCENTRATED_FEE_RATE: u32 = 500;

/// The fee rate that a variant is created with.
pub open spec fn fee_rate_spec(pool_type: PoolType) -> u32 {
    match pool_type {
        PoolType::Standard => STANDARD_FEE_RATE,
        PoolType::Stable => STABLE_FEE_RATE,
        PoolType::Concentrated => CONCENTRATED_FEE_RATE,
    }
}

/// The variant named by a wire code: 0 standard, 1 stable, 2 concentrated.
pub open spec fn pool_type_of_code(code: u8) -> Option<PoolType> {
    if code == 0 {
        Some(PoolType::Standard)
    } else if code == 1 {
        Some(PoolType::Stable)
    } else if code == 2 {
        Some(PoolType::Concentrated)
    } else {
        None
    }
}

impl PoolType {
    /// Decodes a variant code; any code but 0, 1 and 2 is rejected.
    pub fn from_code(code: u8) -> (r: Result<PoolType, SwapError>)
        ensures
            pool_type_of_code(code) matches Some(t) ==> r == Ok::<PoolType, SwapError>(t),
            pool_type_of_code(code) is None ==> r == Err::<PoolType, SwapError>(
                SwapError::InvalidPoolType,
            ),
    {
        match code {
            0 => Ok(PoolType::Standard),
            1 => Ok(PoolType::Stable),
            2 => Ok(PoolType::Concentrated),
            _ => Err(SwapError::InvalidPoolType),
        }
    }

    /// The fee rate of this variant, in parts per hundred thousand.
    pub fn fee_rate(&self) -> (r: u32)
        ensures
            r == fee_rate_spec(*self),
    {
        match self {
            PoolType::Standard => STANDARD_FEE_RATE,
            PoolType::Stable => STABLE_FEE_RATE,
            PoolType::Concentrated => CONCENTRATED_FEE_RATE,
        }
    }
}

} // verus!
