use access_protocol::error::AccessError;
use access_protocol::rewards::{calc_inflation_basis, calc_rewards, safe_downcast};

#[test]
fn half_day_small_claim_truncates_to_zero() {
    let basis = calc_inflation_basis(43200, 0, 864000).unwrap();
    assert_eq!(basis, 432000);
    assert_eq!(calc_rewards(basis, 1_000_000, 100, 1000), Ok(0));
}

#[test]
fn basis_scales_daily_inflation_by_elapsed_seconds() {
    assert_eq!(calc_inflation_basis(86400, 0, 1000), Ok(1000));
    assert_eq!(calc_inflation_basis(100 + 3 * 86400, 100, 7), Ok(21));
    assert_eq!(calc_inflation_basis(1, 0, 86399), Ok(0));
    assert_eq!(calc_inflation_basis(i64::MAX, i64::MIN, u64::MAX), Ok((u64::MAX as u128) * (u64::MAX as u128) / 86400));
}

#[test]
fn basis_refuses_claim_time_in_the_future() {
    assert_eq!(calc_inflation_basis(10, 11, 5), Err(AccessError::Overflow));
}

#[test]
fn no_elapsed_time_owes_nothing() {
    let basis = calc_inflation_basis(5000, 5000, 1_000_000_000).unwrap();
    assert_eq!(basis, 0);
    assert_eq!(calc_rewards(basis, 10, 3, 7), Ok(0));
}

#[test]
fn reward_follows_truncating_order() {
    // 10_000_000_000 / 1000 = 10_000_000; * 50 / 100 = 5_000_000; * 100 / 1000 = 500_000
    assert_eq!(calc_rewards(10_000_000_000, 1000, 100, 1000), Ok(500_000));
    // 1999 / 2 = 999; * 50 / 100 = 499; * 3 / 4 = 374
    assert_eq!(calc_rewards(1999, 2, 3, 4), Ok(374));
    // 3 / 1 = 3; * 50 / 100 = 1; * 1 / 3 = 0, where an exact share would be 0.5
    assert_eq!(calc_rewards(3, 1, 1, 3), Ok(0));
}

#[test]
fn sole_staker_gets_the_whole_share() {
    let basis: u128 = 123_456_789;
    let per_pool = basis / 1000 * 50 / 100;
    assert_eq!(calc_rewards(basis, 1000, 777, 777), Ok(per_pool as u64));
}

#[test]
fn split_stakers_get_no_more_than_sole_staker() {
    let basis: u128 = 1_000_003;
    let a = calc_rewards(basis, 3, 1, 3).unwrap();
    let b = calc_rewards(basis, 3, 2, 3).unwrap();
    let sole = calc_rewards(basis, 3, 3, 3).unwrap();
    assert_eq!(sole, 166667);
    assert_eq!(a, 55555);
    assert_eq!(b, 111111);
    assert!(a + b <= sole);
}

#[test]
fn zero_supply_or_zero_pool_is_overflow() {
    assert_eq!(calc_rewards(1000, 0, 1, 1), Err(AccessError::Overflow));
    assert_eq!(calc_rewards(1000, 1, 1, 0), Err(AccessError::Overflow));
}

#[test]
fn too_large_reward_is_overflow() {
    // fits 128 bits, not 64
    assert_eq!(calc_rewards(1u128 << 70, 1, 1, 1), Err(AccessError::Overflow));
    // the product by the multiplier leaves 128 bits
    assert_eq!(calc_rewards(u128::MAX, 1, 1, 1), Err(AccessError::Overflow));
    // the product by the stake leaves 128 bits
    assert_eq!(calc_rewards(1u128 << 100, 1, u64::MAX, u64::MAX), Err(AccessError::Overflow));
    // the largest reward that fits
    assert_eq!(calc_rewards((u64::MAX as u128) * 2, 1, 1, 1), Ok(u64::MAX));
}

#[test]
fn downcast_keeps_values_that_fit() {
    assert_eq!(safe_downcast(u64::MAX as u128), Some(u64::MAX));
    assert_eq!(safe_downcast(u64::MAX as u128 + 1), None);
    assert_eq!(safe_downcast(0), Some(0));
}
