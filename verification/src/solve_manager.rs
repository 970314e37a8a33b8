//! Pool-level transitions: time-based reward growth and the liquidity that
//! results from a position change.

use vstd::prelude::*;

use crate::errors::ErrorCode;
use crate::growth_math::{wadd, wrapping_add_u128};
use crate::liquidity_math::add_liquidity_delta;
use crate::solve::{Solve, SolveRewardInfo};
use crate::token_math::checked_mul_div;

verus! {

/// The reward-growth delta for one slot over `time_delta` seconds:
/// `time_delta * emissions / liquidity`, or zero when that overflows
/// `u128` (which silently halts this reward's emissions).
pub open spec fn reward_growth_delta(time_delta: nat, emissions_per_second_x64: nat, liquidity: nat) -> nat {
    if liquidity == 0 {
        0
    } else if (time_delta * emissions_per_second_x64) / liquidity > u128::MAX {
        0
    } else {
        (time_delta * emissions_per_second_x64) / liquidity
    }
}

/// The reward slots `out` are exactly `infos` advanced by `time_delta`
/// seconds of emissions against `liquidity`.
pub open spec fn rewards_advanced(
    infos: [SolveRewardInfo; 3],
    time_delta: nat,
    liquidity: nat,
    out: [SolveRewardInfo; 3],
) -> bool {
    forall|i: int|
        0 <= i < 3 ==> out[i] == if infos[i].initialized_spec() {
            SolveRewardInfo {
                growth_global_x64: wrapping_add_u128(
                    infos[i].growth_global_x64 as nat,
                    reward_growth_delta(
                        time_delta,
                        infos[i].emissions_per_second_x64 as nat,
                        liquidity,
                    ),
                ) as u128,
                ..infos[i]
            }
        } else {
            infos[i]
        }
}

/// One reward slot advanced by `time_delta` seconds of emissions.
fn next_reward_info_one(info: &SolveRewardInfo, time_delta: u64, liquidity: u128) -> (r:
    SolveRewardInfo)
    requires
        liquidity >= 1,
    ensures
        !info.initialized_spec() ==> r == *info,
        info.initialized_spec() ==> r == (SolveRewardInfo {
            growth_global_x64: wrapping_add_u128(
                info.growth_global_x64 as nat,
                reward_growth_delta(
                    time_delta as nat,
                    info.emissions_per_second_x64 as nat,
                    liquidity as nat,
                ),
            ) as u128,
            ..*info
        }),
{
    if !info.initialized() {
        return *info;
    }
    let delta = match checked_mul_div(
        time_delta as u128,
        info.emissions_per_second_x64,
        liquidity,
    ) {
        Ok(v) => v,
        Err(_) => 0,
    };
    SolveRewardInfo { growth_global_x64: wadd(info.growth_global_x64, delta), ..*info }
}

/// The pool's reward slots advanced to `next_timestamp`.
///
/// Rejects timestamps before the last update; with no liquidity or no time
/// passed the slots are unchanged; otherwise each initialized slot's
/// growth accumulator advances by its emission rate over the elapsed time,
/// a delta that silently clamps to zero when it overflows.
pub fn next_solve_reward_infos(solve: &Solve, next_timestamp: u64) -> (r: Result<
    [SolveRewardInfo; 3],
    ErrorCode,
>)
    ensures
        next_timestamp < solve.reward_last_updated_timestamp <==> r == Err::<
            [SolveRewardInfo; 3],
            ErrorCode,
        >(ErrorCode::InvalidTimestamp),
        r is Err ==> r == Err::<[SolveRewardInfo; 3], ErrorCode>(ErrorCode::InvalidTimestamp),
        next_timestamp >= solve.reward_last_updated_timestamp && (solve.liquidity == 0
            || next_timestamp == solve.reward_last_updated_timestamp) ==> (r is Ok && r->Ok_0
            == solve.reward_infos),
        next_timestamp > solve.reward_last_updated_timestamp && solve.liquidity >= 1 ==> (r is Ok
            && rewards_advanced(
            solve.reward_infos,
            (next_timestamp - solve.reward_last_updated_timestamp) as nat,
            solve.liquidity as nat,
            r->Ok_0,
        )),
{
    let curr_timestamp = solve.reward_last_updated_timestamp;
    if next_timestamp < curr_timestamp {
        return Err(ErrorCode::InvalidTimestamp);
    }
    if solve.liquidity == 0 || next_timestamp == curr_timestamp {
        return Ok(solve.reward_infos);
    }
    let time_delta = next_timestamp - curr_timestamp;
    Ok(
        [
            next_reward_info_one(&solve.reward_infos[0], time_delta, solve.liquidity),
            next_reward_info_one(&solve.reward_infos[1], time_delta, solve.liquidity),
            next_reward_info_one(&solve.reward_infos[2], time_delta, solve.liquidity),
        ],
    )
}

/// The pool's active liquidity after a position change: the delta applies
/// only when the current tick lies inside the position's range.
pub fn next_solve_liquidity(
    solve: &Solve,
    tick_upper_index: i32,
    tick_lower_index: i32,
    liquidity_delta: i128,
) -> (r: Result<u128, ErrorCode>)
    ensures
        ({
            let in_range = tick_lower_index <= solve.tick_current_index < tick_upper_index;
            &&& (!in_range ==> r == Ok::<u128, ErrorCode>(solve.liquidity))
            &&& (in_range && 0 <= solve.liquidity + liquidity_delta <= u128::MAX ==> r == Ok::<
                u128,
                ErrorCode,
            >((solve.liquidity + liquidity_delta) as u128))
            &&& (in_range && solve.liquidity + liquidity_delta > u128::MAX ==> r == Err::<
                u128,
                ErrorCode,
            >(ErrorCode::LiquidityOverflow))
            &&& (in_range && solve.liquidity + liquidity_delta < 0 ==> r == Err::<
                u128,
                ErrorCode,
            >(ErrorCode::LiquidityUnderflow))
        }),
{
    if solve.tick_current_index < tick_upper_index && solve.tick_current_index
        >= tick_lower_index {
        add_liquidity_delta(solve.liquidity, liquidity_delta)
    } else {
        Ok(solve.liquidity)
    }
}

} // verus!
