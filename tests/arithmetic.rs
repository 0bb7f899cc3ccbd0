use solana_amm::error::SwapError;
use solana_amm::liquidity::{amounts_for_redemption, shares_for_deposit};
use solana_amm::math::{compute_fee, mul_div, mul_div_wide, narrow};
use solana_amm::pool::PoolType;
use solana_amm::pricing::{
    calculate_concentrated_swap, calculate_stable_swap, calculate_standard_swap, quote_output,
};

#[test]
fn mul_div_is_widened() {
    assert_eq!(mul_div(u64::MAX, u64::MAX, u64::MAX), Ok(u64::MAX));
    assert_eq!(mul_div(7, 9, 4), Ok(15));
    assert_eq!(mul_div(7, 9, 0), Err(SwapError::DivisionByZero));
    assert_eq!(mul_div(u64::MAX, 2, 1), Err(SwapError::ArithmeticOverflow));
    assert_eq!(mul_div_wide(u64::MAX, 2, 1), Ok(2 * (u64::MAX as u128)));
    assert_eq!(mul_div_wide(1, 2, 0), Err(SwapError::DivisionByZero));
}

#[test]
fn narrow_fails_rather_than_truncates() {
    assert_eq!(narrow(u64::MAX as u128), Ok(u64::MAX));
    assert_eq!(narrow(u64::MAX as u128 + 1), Err(SwapError::ArithmeticOverflow));
    assert_eq!(narrow(42), Ok(42));
}

#[test]
fn fee_for_allowed_rates() {
    assert_eq!(compute_fee(10_000, 300), Ok((30, 9_970)));
    assert_eq!(compute_fee(10_000, 50), Ok((5, 9_995)));
    assert_eq!(compute_fee(10_000, 500), Ok((50, 9_950)));
    assert_eq!(compute_fee(333, 300), Ok((0, 333)));
    assert_eq!(compute_fee(0, 500), Ok((0, 0)));
    for rate in [50u32, 300, 500] {
        for gross in [0u64, 1, 199, 200, 100_000, 12_345_678, u64::MAX] {
            let (fee, net) = compute_fee(gross, rate).unwrap();
            assert!(fee <= gross);
            assert_eq!(net, gross - fee);
            assert_eq!(fee as u128, gross as u128 * rate as u128 / 100_000);
        }
    }
}

#[test]
fn fee_rejects_rate_above_whole() {
    assert_eq!(compute_fee(10, 100_000), Ok((10, 0)));
    assert_eq!(compute_fee(10, 200_000), Err(SwapError::ArithmeticOverflow));
}

#[test]
fn pricing_policies() {
    assert_eq!(calculate_standard_swap(1_000_000, 2_000_000, 9_970), 19_743);
    assert_eq!(calculate_stable_swap(1_000_000, 1_000_000, 9_995), 10_395);
    assert_eq!(calculate_concentrated_swap(1_000_000, 1_000_000, 9_950), 10_846);
    assert_eq!(calculate_stable_swap(1_000, 100, 999_500), 99);
    assert_eq!(calculate_standard_swap(5, 5, 0), 0);
    assert_eq!(quote_output(PoolType::Standard, 0, 5, 5), Err(SwapError::InsufficientLiquidity));
    assert_eq!(quote_output(PoolType::Stable, 5, 0, 5), Err(SwapError::InsufficientLiquidity));
    assert_eq!(quote_output(PoolType::Concentrated, 1_000_000, 1_000_000, 9_950), Ok(10_846));
}

#[test]
fn issuance_and_redemption_formulas() {
    assert_eq!(shares_for_deposit(PoolType::Standard, 10, 10, 0, 0, 0), Ok(1_000_000));
    assert_eq!(shares_for_deposit(PoolType::Concentrated, 10_000, 10_000, 500_000, 500_000, 1_000_000), Ok(22_000));
    assert_eq!(shares_for_deposit(PoolType::Stable, 10_000, 30_000, 500_000, 700_000, 1_000_000), Ok(16_666));
    assert_eq!(amounts_for_redemption(333, 1_234_567, 7_654_321, 1_000), Ok((411_110, 2_548_888)));
    assert_eq!(amounts_for_redemption(1, 1, 1, 0), Err(SwapError::DivisionByZero));
    assert_eq!(PoolType::from_code(2), Ok(PoolType::Concentrated));
    assert_eq!(PoolType::from_code(9), Err(SwapError::InvalidPoolType));
    assert_eq!(PoolType::Stable.fee_rate(), 50);
}
