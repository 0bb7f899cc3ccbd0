//! Pricing and liquidity accounting for a two-token automated market maker.
//!
//! Every operation is a pure function of a snapshot of the pool (its
//! configuration, its reserve balances and its share supply) taken before
//! any transfer of the current operation. The result says exactly which
//! movements of value the caller must carry out, or why none may happen.
use vstd::prelude::*;

pub mod error;
pub mod instructions;
pub mod liquidity;
pub mod math;
pub mod pool;
pub mod pricing;

verus! {

} // verus!
