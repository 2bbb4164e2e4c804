//! Time-proportional reward accrual with checked, truncating arithmetic.
use vstd::prelude::*;

use crate::error::AccessError;
use crate::state::{SECONDS_IN_DAY, STAKER_MULTIPLIER};

verus! {

/// Inflation accrued between two instants: the daily inflation scaled by the
/// elapsed seconds over one day, rounded down.
pub open spec fn spec_basis(current_time: i64, last_claimed_time: i64, daily_inflation: u64) -> int {
    daily_inflation * (current_time - last_claimed_time) / (SECONDS_IN_DAY as int)
}

/// The reward owed for `basis`: divided by the supply, scaled by the stakers'
/// percentage, then by the staker's share of the pool, rounding down at each step.
pub open spec fn reward_formula(basis: int, supply: int, stake_amount: int, total_staked: int) -> int {
    basis / supply * (STAKER_MULTIPLIER as int) / 100 * stake_amount / total_staked
}

/// The outcome of the checked reward computation: `Overflow` on a division by
/// zero, on a product that leaves 128 bits, or on a result that leaves 64 bits.
pub open spec fn reward_outcome(basis: u128, supply: u64, stake_amount: u64, total_staked: u64) -> Result<u64, AccessError> {
    if supply == 0 || total_staked == 0 {
        Err(AccessError::Overflow)
    } else {
        let weighted = (basis as int) / (supply as int) * (STAKER_MULTIPLIER as int);
        let share = weighted / 100 * stake_amount;
        if weighted > u128::MAX || share > u128::MAX || share / (total_staked as int) > u64::MAX {
            Err(AccessError::Overflow)
        } else {
            Ok((share / (total_staked as int)) as u64)
        }
    }
}

/// Narrows a 128-bit value to 64 bits where it fits.
pub fn safe_downcast(v: u128) -> (r: Option<u64>)
    ensures
        r == (if v <= u64::MAX {
            Some(v as u64)
        } else {
            None
        }),
{
    if v <= u64::MAX as u128 {
        Some(v as u64)
    } else {
        None
    }
}

/// Inflation accrued since the last claim, in 128 bits. Fails with `Overflow`
/// where the last claim lies after the current time.
pub fn calc_inflation_basis(current_time: i64, last_claimed_time: i64, daily_inflation: u64) -> (r:
    Result<u128, AccessError>)
    ensures
        match r {
            Ok(b) => last_claimed_time <= current_time && b == spec_basis(
                current_time,
                last_claimed_time,
                daily_inflation,
            ),
            Err(e) => current_time < last_claimed_time && e == AccessError::Overflow,
        },
{
    if current_time < last_claimed_time {
        return Err(AccessError::Overflow);
    }
    let elapsed: u64 = ((current_time as i128) - (last_claimed_time as i128)) as u64;
    assert(elapsed == current_time - last_claimed_time);
    let d: u128 = daily_inflation as u128;
    let e: u128 = elapsed as u128;
    assert(d * e <= u128::MAX) by (nonlinear_arith)
        requires
            d <= u64::MAX,
            e <= u64::MAX,
    ;
    Ok((d * e) / (SECONDS_IN_DAY as u128))
}

/// The reward owed for an accrued `basis`, given the token supply and the
/// staker's part of the pool.
pub fn calc_rewards(basis: u128, supply: u64, stake_amount: u64, total_staked: u64) -> (r: Result<
    u64,
    AccessError,
>)
    ensures
        r == reward_outcome(basis, supply, stake_amount, total_staked),
        r is Err ==> r == Err::<u64, AccessError>(AccessError::Overflow),
        supply == 0 || total_staked == 0 ==> r is Err,
        r is Ok ==> r.unwrap() == reward_formula(
            basis as int,
            supply as int,
            stake_amount as int,
            total_staked as int,
        ),
        supply > 0 && total_staked > 0 && reward_formula(
            basis as int,
            supply as int,
            stake_amount as int,
            total_staked as int,
        ) > u64::MAX ==> r is Err,
{
    let per_supply = match basis.checked_div(supply as u128) {
        Some(v) => v,
        None => return Err(AccessError::Overflow),
    };
    let weighted = match per_supply.checked_mul(STAKER_MULTIPLIER as u128) {
        Some(v) => v,
        None => return Err(AccessError::Overflow),
    };
    let staker = match weighted.checked_div(100) {
        Some(v) => v,
        None => return Err(AccessError::Overflow),
    };
    let share = match staker.checked_mul(stake_amount as u128) {
        Some(v) => v,
        None => return Err(AccessError::Overflow),
    };
    let owed = match share.checked_div(total_staked as u128) {
        Some(v) => v,
        None => return Err(AccessError::Overflow),
    };
    match safe_downcast(owed) {
        Some(v) => Ok(v),
        None => Err(AccessError::Overflow),
    }
}

/// Whenever the checked computation succeeds, its result is exactly the
/// truncating formula, divisions taken in the stated order.
pub proof fn lemma_reward_is_truncating_formula(
    basis: u128,
    supply: u64,
    stake_amount: u64,
    total_staked: u64,
)
    requires
        reward_outcome(basis, supply, stake_amount, total_staked) is Ok,
    ensures
        reward_outcome(basis, supply, stake_amount, total_staked).unwrap() == reward_formula(
            basis as int,
            supply as int,
            stake_amount as int,
            total_staked as int,
        ),
{
}

/// With no time elapsed nothing accrues, and the reward owed is zero.
pub proof fn lemma_no_elapsed_no_reward(
    time: i64,
    daily_inflation: u64,
    supply: u64,
    stake_amount: u64,
    total_staked: u64,
)
    requires
        supply > 0,
        total_staked > 0,
    ensures
        spec_basis(time, time, daily_inflation) == 0,
        reward_outcome(0, supply, stake_amount, total_staked) == Ok::<u64, AccessError>(0),
{
    let s = supply as int;
    let t = total_staked as int;
    assert(0int / s == 0) by (nonlinear_arith)
        requires
            s > 0,
    ;
    assert(0int * (stake_amount as int) / t == 0) by (nonlinear_arith)
        requires
            t > 0,
    ;
}

/// A sole staker, whose stake is the whole pool, receives the whole per-pool
/// share: the inflation per unit of supply, scaled by the stakers' percentage.
pub proof fn lemma_sole_staker_full_share(basis: u128, supply: u64, total_staked: u64)
    requires
        reward_outcome(basis, supply, total_staked, total_staked) is Ok,
    ensures
        reward_outcome(basis, supply, total_staked, total_staked).unwrap() == (basis as int) / (
        supply as int) * (STAKER_MULTIPLIER as int) / 100,
{
    let c = (basis as int) / (supply as int) * (STAKER_MULTIPLIER as int) / 100;
    let t = total_staked as int;
    assert(c * t / t == c) by (nonlinear_arith)
        requires
            t > 0,
    ;
}

/// Two stakers who split a pool as `a` and `b` over the same interval are owed
/// together no more than a sole staker of `a + b`, wherever the sole staker's
/// computation succeeds; each of their computations then succeeds too.
pub proof fn lemma_split_stake_no_excess(basis: u128, supply: u64, a: u64, b: u64)
    requires
        a + b <= u64::MAX,
        reward_outcome(basis, supply, (a + b) as u64, (a + b) as u64) is Ok,
    ensures
        reward_outcome(basis, supply, a, (a + b) as u64) is Ok,
        reward_outcome(basis, supply, b, (a + b) as u64) is Ok,
        reward_outcome(basis, supply, a, (a + b) as u64).unwrap() + reward_outcome(
            basis,
            supply,
            b,
            (a + b) as u64,
        ).unwrap() <= reward_outcome(basis, supply, (a + b) as u64, (a + b) as u64).unwrap(),
{
    let c = (basis as int) / (supply as int) * (STAKER_MULTIPLIER as int) / 100;
    let ai = a as int;
    let bi = b as int;
    let t = ai + bi;
    assert(c >= 0) by (nonlinear_arith)
        requires
            basis >= 0,
            supply > 0,
            c == (basis as int) / (supply as int) * (STAKER_MULTIPLIER as int) / 100,
            STAKER_MULTIPLIER == 50,
    ;
    assert(c * t / t == c) by (nonlinear_arith)
        requires
            t > 0,
    ;
    assert(c * ai <= c * t && c * bi <= c * t) by (nonlinear_arith)
        requires
            c >= 0,
            0 <= ai <= t,
            0 <= bi <= t,
    ;
    assert(c * ai / t <= c && c * bi / t <= c && c * ai / t + c * bi / t <= c) by (nonlinear_arith)
        requires
            c >= 0,
            ai >= 0,
            bi >= 0,
            t == ai + bi,
            t > 0,
    ;
}

} // verus!
