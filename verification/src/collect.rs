//! Payout arithmetic for collecting fees and rewards.

use vstd::prelude::*;

use crate::errors::ErrorCode;
use crate::position::PositionRewardInfo;
use crate::u256::wide_mul_u128;
use vstd::arithmetic::power2::pow2;

verus! {

/// Seconds in one day, for the reward emission sanity check.
pub const DAY_IN_SECONDS: u128 = 60 * 60 * 24;

/// Splits an owed reward into what the vault can pay now and what remains
/// owed: a short vault pays everything it has and the shortfall stays
/// tracked.
pub fn calculate_collect_reward(position_reward: PositionRewardInfo, vault_amount: u64) -> (r: (
    u64,
    u64,
))
    ensures
        position_reward.amount_owed > vault_amount ==> r == (
            vault_amount,
            (position_reward.amount_owed - vault_amount) as u64,
        ),
        position_reward.amount_owed <= vault_amount ==> r == (position_reward.amount_owed, 0u64),
        r.0 + r.1 == position_reward.amount_owed,
{
    let amount_owed = position_reward.amount_owed;
    if amount_owed > vault_amount {
        (vault_amount, amount_owed - vault_amount)
    } else {
        (amount_owed, 0)
    }
}

/// A clock reading as an unsigned timestamp; readings before the epoch are
/// rejected.
pub fn to_timestamp_u64(t: i64) -> (r: Result<u64, ErrorCode>)
    ensures
        t >= 0 ==> r == Ok::<u64, ErrorCode>(t as u64),
        t < 0 ==> r == Err::<u64, ErrorCode>(ErrorCode::InvalidTimestamp),
{
    if t < 0 {
        return Err(ErrorCode::InvalidTimestamp);
    }
    Ok(t as u64)
}

/// Requires the reward vault to cover at least one day of emissions at the
/// proposed rate: `(86400 * emissions) >> 64` tokens.
pub fn validate_reward_emissions(vault_amount: u64, emissions_per_second_x64: u128) -> (r: Result<
    (),
    ErrorCode,
>)
    ensures
        ({
            let per_day = (DAY_IN_SECONDS as nat * emissions_per_second_x64 as nat) / pow2(64);
            &&& (per_day > u64::MAX ==> r == Err::<(), ErrorCode>(ErrorCode::NumberCastError))
            &&& (per_day <= u64::MAX && vault_amount < per_day ==> r == Err::<(), ErrorCode>(
                ErrorCode::RewardVaultAmountInsufficient,
            ))
            &&& (per_day <= u64::MAX && vault_amount >= per_day ==> r == Ok::<(), ErrorCode>(()))
        }),
{
    let wide = wide_mul_u128(DAY_IN_SECONDS, emissions_per_second_x64);
    let shifted = wide.shr64();
    let emissions_per_day = match shifted.try_into_u64() {
        Ok(v) => v,
        Err(e) => {
            return Err(e);
        },
    };
    if vault_amount < emissions_per_day {
        return Err(ErrorCode::RewardVaultAmountInsufficient);
    }
    Ok(())
}

} // verus!
