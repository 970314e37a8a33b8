//! Position liquidity changes: the update bundle for pool, position and the
//! two boundary ticks.

use vstd::prelude::*;

use crate::errors::ErrorCode;
use crate::growth_math::wrapping_sub_u128;
use crate::position::{Position, PositionUpdate};
use crate::position_manager::{next_position_modify_liquidity_update, owed_after_settle};
use crate::solve::{Solve, SolveRewardInfo};
use crate::solve_manager::{next_solve_liquidity, next_solve_reward_infos, rewards_advanced};
use crate::tick::{Tick, TickUpdate};
use crate::tick_array::{array_contains, tick_offset_spec, TickArray};
use crate::tick_manager::{
    growth_inside, next_fee_growths_inside, next_reward_growths_inside,
    next_tick_modify_liquidity_update,
};
use crate::tick_math::{
    sqrt_price_from_tick_spec, MAX_SQRT_PRICE_X64, MAX_TICK_INDEX, MIN_SQRT_PRICE_X64,
    MIN_TICK_INDEX,
};
use crate::token_math::{
    amount_delta_a, amount_delta_b, get_amount_delta_a, get_amount_delta_b,
};

verus! {

/// Every arithmetic bound a liquidity change must satisfy to go through:
/// the gross and net liquidity of both boundary ticks, the position's
/// liquidity, and — when the range is active — the pool's liquidity all
/// stay in their integer ranges.
pub open spec fn modify_liquidity_fits(
    solve: Solve,
    position: Position,
    tick_lower: Tick,
    tick_upper: Tick,
    tick_lower_index: int,
    tick_upper_index: int,
    liquidity_delta: int,
) -> bool {
    &&& (liquidity_delta != 0 ==> 0 <= tick_lower.liquidity_gross + liquidity_delta <= u128::MAX)
    &&& (liquidity_delta != 0 ==> 0 <= tick_upper.liquidity_gross + liquidity_delta <= u128::MAX)
    &&& (liquidity_delta != 0 && tick_lower.liquidity_gross + liquidity_delta > 0 ==> i128::MIN
        <= tick_lower.liquidity_net + liquidity_delta <= i128::MAX)
    &&& (liquidity_delta != 0 && tick_upper.liquidity_gross + liquidity_delta > 0 ==> i128::MIN
        <= tick_upper.liquidity_net - liquidity_delta <= i128::MAX)
    &&& 0 <= position.liquidity + liquidity_delta <= u128::MAX
    &&& (tick_lower_index <= solve.tick_current_index < tick_upper_index ==> 0 <= solve.liquidity
        + liquidity_delta <= u128::MAX)
}

/// Everything a liquidity modification changes, computed before anything is
/// written.
pub struct ModifyLiquidityUpdate {
    pub solve_liquidity: u128,
    pub tick_lower_update: TickUpdate,
    pub tick_upper_update: TickUpdate,
    pub reward_infos: [SolveRewardInfo; 3],
    pub position_update: PositionUpdate,
}

/// The update bundle for changing a position's liquidity by
/// `liquidity_delta` at time `timestamp`.
///
/// The boundary ticks are read from the given arrays; the pool's rewards
/// are first advanced to `timestamp`; the position settles its fees and
/// rewards against the growth inside its range before the delta applies.
/// The exact fee and reward arithmetic is fixed by the contracts of the
/// tick, pool and position managers this composes; this contract pins the
/// error conditions, the new pool liquidity, the refreshed rewards, and
/// the position's settlement.
pub fn calculate_modify_liquidity(
    solve: &Solve,
    position: &Position,
    tick_array_lower: &TickArray,
    tick_array_upper: &TickArray,
    liquidity_delta: i128,
    timestamp: u64,
) -> (r: Result<ModifyLiquidityUpdate, ErrorCode>)
    requires
        solve.wf(),
        tick_array_lower.wf(),
        tick_array_upper.wf(),
    ensures
        liquidity_delta == 0 && position.liquidity == 0 && array_contains(
            tick_array_lower.spec_start(),
            position.tick_lower_index as int,
            solve.tick_spacing as int,
        ) && array_contains(
            tick_array_upper.spec_start(),
            position.tick_upper_index as int,
            solve.tick_spacing as int,
        ) ==> r == Err::<ModifyLiquidityUpdate, ErrorCode>(ErrorCode::LiquidityZero),
        !array_contains(
            tick_array_lower.spec_start(),
            position.tick_lower_index as int,
            solve.tick_spacing as int,
        ) ==> r == Err::<ModifyLiquidityUpdate, ErrorCode>(ErrorCode::TickNotFound),
        r == Err::<ModifyLiquidityUpdate, ErrorCode>(ErrorCode::LiquidityZero) ==> liquidity_delta
            == 0 && position.liquidity == 0,
        ({
            let contained = array_contains(
                tick_array_lower.spec_start(),
                position.tick_lower_index as int,
                solve.tick_spacing as int,
            ) && array_contains(
                tick_array_upper.spec_start(),
                position.tick_upper_index as int,
                solve.tick_spacing as int,
            );
            let tick_lower = tick_array_lower.spec_ticks()[tick_offset_spec(
                tick_array_lower.spec_start(),
                position.tick_lower_index as int,
                solve.tick_spacing as int,
            )];
            let tick_upper = tick_array_upper.spec_ticks()[tick_offset_spec(
                tick_array_upper.spec_start(),
                position.tick_upper_index as int,
                solve.tick_spacing as int,
            )];
            &&& (contained && !(liquidity_delta == 0 && position.liquidity == 0) && timestamp
                < solve.reward_last_updated_timestamp ==> r == Err::<
                ModifyLiquidityUpdate,
                ErrorCode,
            >(ErrorCode::InvalidTimestamp))
            &&& (contained && !(liquidity_delta == 0 && position.liquidity == 0) && timestamp
                >= solve.reward_last_updated_timestamp && modify_liquidity_fits(
                *solve,
                *position,
                tick_lower,
                tick_upper,
                position.tick_lower_index as int,
                position.tick_upper_index as int,
                liquidity_delta as int,
            ) ==> r is Ok)
        }),
        r is Ok ==> ({
            let u = r->Ok_0;
            let tick_lower = tick_array_lower.spec_ticks()[tick_offset_spec(
                tick_array_lower.spec_start(),
                position.tick_lower_index as int,
                solve.tick_spacing as int,
            )];
            let tick_upper = tick_array_upper.spec_ticks()[tick_offset_spec(
                tick_array_upper.spec_start(),
                position.tick_upper_index as int,
                solve.tick_spacing as int,
            )];
            let in_range = position.tick_lower_index <= solve.tick_current_index
                < position.tick_upper_index;
            let fee_growth_inside_a = growth_inside(
                solve.tick_current_index as int,
                tick_lower.initialized,
                tick_lower.fee_growth_outside_a as nat,
                position.tick_lower_index as int,
                tick_upper.initialized,
                tick_upper.fee_growth_outside_a as nat,
                position.tick_upper_index as int,
                solve.fee_growth_global_a as nat,
            );
            let fee_growth_inside_b = growth_inside(
                solve.tick_current_index as int,
                tick_lower.initialized,
                tick_lower.fee_growth_outside_b as nat,
                position.tick_lower_index as int,
                tick_upper.initialized,
                tick_upper.fee_growth_outside_b as nat,
                position.tick_upper_index as int,
                solve.fee_growth_global_b as nat,
            );
            &&& !(liquidity_delta == 0 && position.liquidity == 0)
            &&& u.solve_liquidity == if in_range {
                (solve.liquidity + liquidity_delta) as u128
            } else {
                solve.liquidity
            }
            &&& u.position_update.liquidity == position.liquidity + liquidity_delta
            &&& u.position_update.fee_growth_checkpoint_a == fee_growth_inside_a
            &&& u.position_update.fee_growth_checkpoint_b == fee_growth_inside_b
            &&& u.position_update.fee_owed_a == owed_after_settle(
                position.fee_owed_a as nat,
                wrapping_sub_u128(
                    fee_growth_inside_a,
                    position.fee_growth_checkpoint_a as nat,
                ),
                position.liquidity as nat,
            )
            &&& u.position_update.fee_owed_b == owed_after_settle(
                position.fee_owed_b as nat,
                wrapping_sub_u128(
                    fee_growth_inside_b,
                    position.fee_growth_checkpoint_b as nat,
                ),
                position.liquidity as nat,
            )
            &&& u.tick_lower_update.liquidity_gross == tick_lower.liquidity_gross
                + liquidity_delta || liquidity_delta == 0
            &&& u.tick_upper_update.liquidity_gross == tick_upper.liquidity_gross
                + liquidity_delta || liquidity_delta == 0
            &&& (liquidity_delta != 0 && tick_lower.liquidity_gross + liquidity_delta > 0
                ==> u.tick_lower_update.liquidity_net == tick_lower.liquidity_net
                + liquidity_delta && u.tick_lower_update.initialized)
            &&& (liquidity_delta != 0 && tick_upper.liquidity_gross + liquidity_delta > 0
                ==> u.tick_upper_update.liquidity_net == tick_upper.liquidity_net
                - liquidity_delta && u.tick_upper_update.initialized)
            &&& (solve.liquidity == 0 || timestamp == solve.reward_last_updated_timestamp
                ==> u.reward_infos == solve.reward_infos)
            &&& (solve.liquidity >= 1 && timestamp > solve.reward_last_updated_timestamp
                ==> rewards_advanced(
                solve.reward_infos,
                (timestamp - solve.reward_last_updated_timestamp) as nat,
                solve.liquidity as nat,
                u.reward_infos,
            ))
        }),
{
    let tick_lower = match tick_array_lower.get_tick(
        position.tick_lower_index,
        solve.tick_spacing,
    ) {
        Ok(t) => t,
        Err(e) => {
            return Err(e);
        },
    };
    let tick_upper = match tick_array_upper.get_tick(
        position.tick_upper_index,
        solve.tick_spacing,
    ) {
        Ok(t) => t,
        Err(e) => {
            return Err(e);
        },
    };
    calculate_modify_liquidity_with_ticks(
        solve,
        position,
        &tick_lower,
        &tick_upper,
        position.tick_lower_index,
        position.tick_upper_index,
        liquidity_delta,
        timestamp,
    )
}

/// `calculate_modify_liquidity` over already-loaded boundary ticks.
#[allow(clippy::too_many_arguments)]
pub fn calculate_modify_liquidity_with_ticks(
    solve: &Solve,
    position: &Position,
    tick_lower: &Tick,
    tick_upper: &Tick,
    tick_lower_index: i32,
    tick_upper_index: i32,
    liquidity_delta: i128,
    timestamp: u64,
) -> (r: Result<ModifyLiquidityUpdate, ErrorCode>)
    requires
        solve.wf(),
    ensures
        liquidity_delta == 0 && position.liquidity == 0 ==> r == Err::<
            ModifyLiquidityUpdate,
            ErrorCode,
        >(ErrorCode::LiquidityZero),
        r == Err::<ModifyLiquidityUpdate, ErrorCode>(ErrorCode::LiquidityZero) ==> liquidity_delta
            == 0 && position.liquidity == 0,
        !(liquidity_delta == 0 && position.liquidity == 0) && timestamp
            < solve.reward_last_updated_timestamp ==> r == Err::<
            ModifyLiquidityUpdate,
            ErrorCode,
        >(ErrorCode::InvalidTimestamp),
        !(liquidity_delta == 0 && position.liquidity == 0) && timestamp
            >= solve.reward_last_updated_timestamp && modify_liquidity_fits(
            *solve,
            *position,
            *tick_lower,
            *tick_upper,
            tick_lower_index as int,
            tick_upper_index as int,
            liquidity_delta as int,
        ) ==> r is Ok,
        r is Ok ==> ({
            let u = r->Ok_0;
            let in_range = tick_lower_index <= solve.tick_current_index < tick_upper_index;
            let fee_growth_inside_a = growth_inside(
                solve.tick_current_index as int,
                tick_lower.initialized,
                tick_lower.fee_growth_outside_a as nat,
                tick_lower_index as int,
                tick_upper.initialized,
                tick_upper.fee_growth_outside_a as nat,
                tick_upper_index as int,
                solve.fee_growth_global_a as nat,
            );
            let fee_growth_inside_b = growth_inside(
                solve.tick_current_index as int,
                tick_lower.initialized,
                tick_lower.fee_growth_outside_b as nat,
                tick_lower_index as int,
                tick_upper.initialized,
                tick_upper.fee_growth_outside_b as nat,
                tick_upper_index as int,
                solve.fee_growth_global_b as nat,
            );
            &&& !(liquidity_delta == 0 && position.liquidity == 0)
            &&& u.solve_liquidity == if in_range {
                (solve.liquidity + liquidity_delta) as u128
            } else {
                solve.liquidity
            }
            &&& u.position_update.liquidity == position.liquidity + liquidity_delta
            &&& u.position_update.fee_growth_checkpoint_a == fee_growth_inside_a
            &&& u.position_update.fee_growth_checkpoint_b == fee_growth_inside_b
            &&& u.position_update.fee_owed_a == owed_after_settle(
                position.fee_owed_a as nat,
                wrapping_sub_u128(
                    fee_growth_inside_a,
                    position.fee_growth_checkpoint_a as nat,
                ),
                position.liquidity as nat,
            )
            &&& u.position_update.fee_owed_b == owed_after_settle(
                position.fee_owed_b as nat,
                wrapping_sub_u128(
                    fee_growth_inside_b,
                    position.fee_growth_checkpoint_b as nat,
                ),
                position.liquidity as nat,
            )
            &&& u.tick_lower_update.liquidity_gross == tick_lower.liquidity_gross
                + liquidity_delta || liquidity_delta == 0
            &&& u.tick_upper_update.liquidity_gross == tick_upper.liquidity_gross
                + liquidity_delta || liquidity_delta == 0
            &&& (liquidity_delta != 0 && tick_lower.liquidity_gross + liquidity_delta > 0
                ==> u.tick_lower_update.liquidity_net == tick_lower.liquidity_net
                + liquidity_delta && u.tick_lower_update.initialized)
            &&& (liquidity_delta != 0 && tick_upper.liquidity_gross + liquidity_delta > 0
                ==> u.tick_upper_update.liquidity_net == tick_upper.liquidity_net
                - liquidity_delta && u.tick_upper_update.initialized)
            &&& (solve.liquidity == 0 || timestamp == solve.reward_last_updated_timestamp
                ==> u.reward_infos == solve.reward_infos)
            &&& (solve.liquidity >= 1 && timestamp > solve.reward_last_updated_timestamp
                ==> rewards_advanced(
                solve.reward_infos,
                (timestamp - solve.reward_last_updated_timestamp) as nat,
                solve.liquidity as nat,
                u.reward_infos,
            ))
        }),
{
    // cannot settle a position that has no liquidity and receives none
    if liquidity_delta == 0 && position.liquidity == 0 {
        return Err(ErrorCode::LiquidityZero);
    }

    let next_reward_infos = match next_solve_reward_infos(solve, timestamp) {
        Ok(v) => v,
        Err(e) => {
            return Err(e);
        },
    };

    let next_global_liquidity = match next_solve_liquidity(
        solve,
        tick_upper_index,
        tick_lower_index,
        liquidity_delta,
    ) {
        Ok(v) => v,
        Err(e) => {
            return Err(e);
        },
    };

    let tick_lower_update = match next_tick_modify_liquidity_update(
        tick_lower,
        tick_lower_index,
        solve.tick_current_index,
        solve.fee_growth_global_a,
        solve.fee_growth_global_b,
        &next_reward_infos,
        liquidity_delta,
        false,
    ) {
        Ok(v) => v,
        Err(e) => {
            return Err(e);
        },
    };

    let tick_upper_update = match next_tick_modify_liquidity_update(
        tick_upper,
        tick_upper_index,
        solve.tick_current_index,
        solve.fee_growth_global_a,
        solve.fee_growth_global_b,
        &next_reward_infos,
        liquidity_delta,
        true,
    ) {
        Ok(v) => v,
        Err(e) => {
            return Err(e);
        },
    };

    let (fee_growth_inside_a, fee_growth_inside_b) = next_fee_growths_inside(
        solve.tick_current_index,
        tick_lower,
        tick_lower_index,
        tick_upper,
        tick_upper_index,
        solve.fee_growth_global_a,
        solve.fee_growth_global_b,
    );

    let reward_growths_inside = next_reward_growths_inside(
        solve.tick_current_index,
        tick_lower,
        tick_lower_index,
        tick_upper,
        tick_upper_index,
        &next_reward_infos,
    );

    let position_update = match next_position_modify_liquidity_update(
        position,
        liquidity_delta,
        fee_growth_inside_a,
        fee_growth_inside_b,
        &reward_growths_inside,
    ) {
        Ok(v) => v,
        Err(e) => {
            return Err(e);
        },
    };

    Ok(
        ModifyLiquidityUpdate {
            solve_liquidity: next_global_liquidity,
            tick_lower_update,
            tick_upper_update,
            reward_infos: next_reward_infos,
            position_update,
        },
    )
}

/// The fee and reward settlement of a position without changing its
/// liquidity; positions with zero liquidity are rejected.
pub fn calculate_fee_and_reward_growths(
    solve: &Solve,
    position: &Position,
    tick_array_lower: &TickArray,
    tick_array_upper: &TickArray,
    timestamp: u64,
) -> (r: Result<(PositionUpdate, [SolveRewardInfo; 3]), ErrorCode>)
    requires
        solve.wf(),
        tick_array_lower.wf(),
        tick_array_upper.wf(),
    ensures
        position.liquidity == 0 && array_contains(
            tick_array_lower.spec_start(),
            position.tick_lower_index as int,
            solve.tick_spacing as int,
        ) && array_contains(
            tick_array_upper.spec_start(),
            position.tick_upper_index as int,
            solve.tick_spacing as int,
        ) ==> r == Err::<(PositionUpdate, [SolveRewardInfo; 3]), ErrorCode>(
            ErrorCode::LiquidityZero,
        ),
        ({
            let contained = array_contains(
                tick_array_lower.spec_start(),
                position.tick_lower_index as int,
                solve.tick_spacing as int,
            ) && array_contains(
                tick_array_upper.spec_start(),
                position.tick_upper_index as int,
                solve.tick_spacing as int,
            );
            contained && position.liquidity >= 1 && timestamp
                >= solve.reward_last_updated_timestamp ==> r is Ok
        }),
        r is Ok ==> ({
            let u = r->Ok_0;
            let tick_lower = tick_array_lower.spec_ticks()[tick_offset_spec(
                tick_array_lower.spec_start(),
                position.tick_lower_index as int,
                solve.tick_spacing as int,
            )];
            let tick_upper = tick_array_upper.spec_ticks()[tick_offset_spec(
                tick_array_upper.spec_start(),
                position.tick_upper_index as int,
                solve.tick_spacing as int,
            )];
            let fee_growth_inside_a = growth_inside(
                solve.tick_current_index as int,
                tick_lower.initialized,
                tick_lower.fee_growth_outside_a as nat,
                position.tick_lower_index as int,
                tick_upper.initialized,
                tick_upper.fee_growth_outside_a as nat,
                position.tick_upper_index as int,
                solve.fee_growth_global_a as nat,
            );
            let fee_growth_inside_b = growth_inside(
                solve.tick_current_index as int,
                tick_lower.initialized,
                tick_lower.fee_growth_outside_b as nat,
                position.tick_lower_index as int,
                tick_upper.initialized,
                tick_upper.fee_growth_outside_b as nat,
                position.tick_upper_index as int,
                solve.fee_growth_global_b as nat,
            );
            &&& u.0.liquidity == position.liquidity
            &&& u.0.fee_growth_checkpoint_a == fee_growth_inside_a
            &&& u.0.fee_growth_checkpoint_b == fee_growth_inside_b
            &&& u.0.fee_owed_a == owed_after_settle(
                position.fee_owed_a as nat,
                wrapping_sub_u128(fee_growth_inside_a, position.fee_growth_checkpoint_a as nat),
                position.liquidity as nat,
            )
            &&& u.0.fee_owed_b == owed_after_settle(
                position.fee_owed_b as nat,
                wrapping_sub_u128(fee_growth_inside_b, position.fee_growth_checkpoint_b as nat),
                position.liquidity as nat,
            )
            &&& (solve.liquidity == 0 || timestamp == solve.reward_last_updated_timestamp
                ==> u.1 == solve.reward_infos)
            &&& (solve.liquidity >= 1 && timestamp > solve.reward_last_updated_timestamp
                ==> rewards_advanced(
                solve.reward_infos,
                (timestamp - solve.reward_last_updated_timestamp) as nat,
                solve.liquidity as nat,
                u.1,
            ))
        }),
{
    let update = match calculate_modify_liquidity(
        solve,
        position,
        tick_array_lower,
        tick_array_upper,
        0,
        timestamp,
    ) {
        Ok(v) => v,
        Err(e) => {
            return Err(e);
        },
    };
    Ok((update.position_update, update.reward_infos))
}

/// The token amounts a liquidity delta moves, by the position of the
/// current price relative to the range: all in token A below the range,
/// all in token B above it, and split at the current price inside it.
/// Deposits round up, withdrawals round down.
pub fn calculate_liquidity_token_deltas(
    current_tick_index: i32,
    sqrt_price: u128,
    position: &Position,
    liquidity_delta: i128,
) -> (r: Result<(u64, u64), ErrorCode>)
    requires
        MIN_TICK_INDEX <= position.tick_lower_index <= MAX_TICK_INDEX,
        MIN_TICK_INDEX <= position.tick_upper_index <= MAX_TICK_INDEX,
        MIN_SQRT_PRICE_X64 <= sqrt_price <= MAX_SQRT_PRICE_X64,
    ensures
        r == Err::<(u64, u64), ErrorCode>(ErrorCode::LiquidityZero) <==> liquidity_delta == 0,
        ({
            let liquidity: nat = if liquidity_delta >= 0 {
                liquidity_delta as nat
            } else {
                (-(liquidity_delta as int)) as nat
            };
            let round_up = liquidity_delta > 0;
            let lower_price = sqrt_price_from_tick_spec(position.tick_lower_index as int);
            let upper_price = sqrt_price_from_tick_spec(position.tick_upper_index as int);
            let prices_in_range = MIN_SQRT_PRICE_X64 <= lower_price <= MAX_SQRT_PRICE_X64
                && MIN_SQRT_PRICE_X64 <= upper_price <= MAX_SQRT_PRICE_X64;
            let (da, db): (nat, nat) = if current_tick_index < position.tick_lower_index {
                (amount_delta_a(lower_price, upper_price, liquidity, round_up), 0)
            } else if current_tick_index < position.tick_upper_index {
                (
                    amount_delta_a(sqrt_price as nat, upper_price, liquidity, round_up),
                    amount_delta_b(lower_price, sqrt_price as nat, liquidity, round_up),
                )
            } else {
                (0, amount_delta_b(lower_price, upper_price, liquidity, round_up))
            };
            &&& (liquidity_delta != 0 && !prices_in_range ==> r == Err::<(u64, u64), ErrorCode>(
                ErrorCode::SqrtPriceOutOfBounds,
            ))
            &&& (liquidity_delta != 0 && prices_in_range && da <= u64::MAX && db <= u64::MAX ==> r
                == Ok::<(u64, u64), ErrorCode>((da as u64, db as u64)))
            &&& (liquidity_delta != 0 && prices_in_range && (da > u64::MAX || db > u64::MAX) ==> r
                == Err::<(u64, u64), ErrorCode>(ErrorCode::NumberCastError))
        }),
{
    if liquidity_delta == 0 {
        return Err(ErrorCode::LiquidityZero);
    }
    let liquidity: u128 = if liquidity_delta >= 0 {
        liquidity_delta as u128
    } else {
        if liquidity_delta == i128::MIN {
            (i128::MAX as u128) + 1
        } else {
            (-liquidity_delta) as u128
        }
    };
    let round_up = liquidity_delta > 0;

    let lower_price = crate::tick_math::sqrt_price_from_tick_index(position.tick_lower_index);
    let upper_price = crate::tick_math::sqrt_price_from_tick_index(position.tick_upper_index);
    if lower_price < MIN_SQRT_PRICE_X64 || lower_price > MAX_SQRT_PRICE_X64 || upper_price
        < MIN_SQRT_PRICE_X64 || upper_price > MAX_SQRT_PRICE_X64 {
        return Err(ErrorCode::SqrtPriceOutOfBounds);
    }

    if current_tick_index < position.tick_lower_index {
        let delta_a = match get_amount_delta_a(lower_price, upper_price, liquidity, round_up) {
            Ok(v) => v,
            Err(e) => {
                return Err(e);
            },
        };
        Ok((delta_a, 0))
    } else if current_tick_index < position.tick_upper_index {
        let delta_a = match get_amount_delta_a(sqrt_price, upper_price, liquidity, round_up) {
            Ok(v) => v,
            Err(e) => {
                return Err(e);
            },
        };
        let delta_b = match get_amount_delta_b(lower_price, sqrt_price, liquidity, round_up) {
            Ok(v) => v,
            Err(e) => {
                return Err(e);
            },
        };
        Ok((delta_a, delta_b))
    } else {
        let delta_b = match get_amount_delta_b(lower_price, upper_price, liquidity, round_up) {
            Ok(v) => v,
            Err(e) => {
                return Err(e);
            },
        };
        Ok((0, delta_b))
    }
}

/// Writes a computed liquidity modification back to the pool, the position
/// and the two boundary ticks, which live in two different arrays.
pub fn sync_modify_liquidity_values(
    solve: &mut Solve,
    position: &mut Position,
    tick_array_lower: &mut TickArray,
    tick_array_upper: &mut TickArray,
    modify_liquidity_update: &ModifyLiquidityUpdate,
    reward_last_updated_timestamp: u64,
) -> (r: Result<(), ErrorCode>)
    requires
        old(solve).wf(),
        old(tick_array_lower).wf(),
        old(tick_array_upper).wf(),
    ensures
        final(tick_array_lower).wf(),
        final(tick_array_upper).wf(),
        array_contains(
            old(tick_array_lower).spec_start(),
            old(position).tick_lower_index as int,
            old(solve).tick_spacing as int,
        ) && array_contains(
            old(tick_array_upper).spec_start(),
            old(position).tick_upper_index as int,
            old(solve).tick_spacing as int,
        ) ==> r is Ok,
        r is Ok ==> ({
            &&& *final(position) == (Position {
                liquidity: modify_liquidity_update.position_update.liquidity,
                fee_growth_checkpoint_a:
                    modify_liquidity_update.position_update.fee_growth_checkpoint_a,
                fee_owed_a: modify_liquidity_update.position_update.fee_owed_a,
                fee_growth_checkpoint_b:
                    modify_liquidity_update.position_update.fee_growth_checkpoint_b,
                fee_owed_b: modify_liquidity_update.position_update.fee_owed_b,
                reward_infos: modify_liquidity_update.position_update.reward_infos,
                ..*old(position)
            })
            &&& *final(solve) == (Solve {
                reward_infos: modify_liquidity_update.reward_infos,
                liquidity: modify_liquidity_update.solve_liquidity,
                reward_last_updated_timestamp,
                ..*old(solve)
            })
            &&& final(tick_array_lower).spec_ticks() == old(tick_array_lower).spec_ticks().update(
                tick_offset_spec(
                    old(tick_array_lower).spec_start(),
                    old(position).tick_lower_index as int,
                    old(solve).tick_spacing as int,
                ),
                Tick::from_update(modify_liquidity_update.tick_lower_update),
            )
            &&& final(tick_array_upper).spec_ticks() == old(tick_array_upper).spec_ticks().update(
                tick_offset_spec(
                    old(tick_array_upper).spec_start(),
                    old(position).tick_upper_index as int,
                    old(solve).tick_spacing as int,
                ),
                Tick::from_update(modify_liquidity_update.tick_upper_update),
            )
        }),
{
    position.update(&modify_liquidity_update.position_update);

    let lower_write = tick_array_lower.update_tick(
        position.tick_lower_index,
        solve.tick_spacing,
        &modify_liquidity_update.tick_lower_update,
    );
    match lower_write {
        Ok(_) => (),
        Err(e) => {
            return Err(e);
        },
    }

    let upper_write = tick_array_upper.update_tick(
        position.tick_upper_index,
        solve.tick_spacing,
        &modify_liquidity_update.tick_upper_update,
    );
    match upper_write {
        Ok(_) => (),
        Err(e) => {
            return Err(e);
        },
    }

    solve.update_rewards_and_liquidity(
        modify_liquidity_update.reward_infos,
        modify_liquidity_update.solve_liquidity,
        reward_last_updated_timestamp,
    );
    Ok(())
}

/// `sync_modify_liquidity_values` when both boundary ticks live in the same
/// array.
pub fn sync_modify_liquidity_values_same_array(
    solve: &mut Solve,
    position: &mut Position,
    tick_array: &mut TickArray,
    modify_liquidity_update: &ModifyLiquidityUpdate,
    reward_last_updated_timestamp: u64,
) -> (r: Result<(), ErrorCode>)
    requires
        old(solve).wf(),
        old(tick_array).wf(),
    ensures
        final(tick_array).wf(),
        array_contains(
            old(tick_array).spec_start(),
            old(position).tick_lower_index as int,
            old(solve).tick_spacing as int,
        ) && array_contains(
            old(tick_array).spec_start(),
            old(position).tick_upper_index as int,
            old(solve).tick_spacing as int,
        ) ==> r is Ok,
        r is Ok ==> ({
            &&& final(tick_array).spec_ticks() == old(tick_array).spec_ticks().update(
                tick_offset_spec(
                    old(tick_array).spec_start(),
                    old(position).tick_lower_index as int,
                    old(solve).tick_spacing as int,
                ),
                Tick::from_update(modify_liquidity_update.tick_lower_update),
            ).update(
                tick_offset_spec(
                    old(tick_array).spec_start(),
                    old(position).tick_upper_index as int,
                    old(solve).tick_spacing as int,
                ),
                Tick::from_update(modify_liquidity_update.tick_upper_update),
            )
            &&& *final(position) == (Position {
                liquidity: modify_liquidity_update.position_update.liquidity,
                fee_growth_checkpoint_a:
                    modify_liquidity_update.position_update.fee_growth_checkpoint_a,
                fee_owed_a: modify_liquidity_update.position_update.fee_owed_a,
                fee_growth_checkpoint_b:
                    modify_liquidity_update.position_update.fee_growth_checkpoint_b,
                fee_owed_b: modify_liquidity_update.position_update.fee_owed_b,
                reward_infos: modify_liquidity_update.position_update.reward_infos,
                ..*old(position)
            })
            &&& *final(solve) == (Solve {
                reward_infos: modify_liquidity_update.reward_infos,
                liquidity: modify_liquidity_update.solve_liquidity,
                reward_last_updated_timestamp,
                ..*old(solve)
            })
        }),
{
    position.update(&modify_liquidity_update.position_update);

    let lower_write = tick_array.update_tick(
        position.tick_lower_index,
        solve.tick_spacing,
        &modify_liquidity_update.tick_lower_update,
    );
    match lower_write {
        Ok(_) => (),
        Err(e) => {
            return Err(e);
        },
    }

    let upper_write = tick_array.update_tick(
        position.tick_upper_index,
        solve.tick_spacing,
        &modify_liquidity_update.tick_upper_update,
    );
    match upper_write {
        Ok(_) => (),
        Err(e) => {
            return Err(e);
        },
    }

    solve.update_rewards_and_liquidity(
        modify_liquidity_update.reward_infos,
        modify_liquidity_update.solve_liquidity,
        reward_last_updated_timestamp,
    );
    Ok(())
}

/// The deposit-side slippage bound: an increase may not require more of
/// either token than the caller offered.
pub fn check_token_max(token_max_a: u64, token_max_b: u64, delta_a: u64, delta_b: u64) -> (r:
    Result<(), ErrorCode>)
    ensures
        delta_a <= token_max_a && delta_b <= token_max_b <==> r == Ok::<(), ErrorCode>(()),
        !(delta_a <= token_max_a && delta_b <= token_max_b) <==> r == Err::<(), ErrorCode>(
            ErrorCode::TokenMaxExceeded,
        ),
{
    if delta_a > token_max_a || delta_b > token_max_b {
        return Err(ErrorCode::TokenMaxExceeded);
    }
    Ok(())
}

/// The withdrawal-side slippage bound: a decrease must pay out at least
/// what the caller insisted on, for both tokens.
pub fn check_token_min(token_min_a: u64, token_min_b: u64, delta_a: u64, delta_b: u64) -> (r:
    Result<(), ErrorCode>)
    ensures
        delta_a >= token_min_a && delta_b >= token_min_b <==> r == Ok::<(), ErrorCode>(()),
        !(delta_a >= token_min_a && delta_b >= token_min_b) <==> r == Err::<(), ErrorCode>(
            ErrorCode::TokenMinSubceeded,
        ),
{
    if delta_a < token_min_a || delta_b < token_min_b {
        return Err(ErrorCode::TokenMinSubceeded);
    }
    Ok(())
}

} // verus!
