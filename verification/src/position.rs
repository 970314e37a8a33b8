//! Position records: a liquidity range plus settled-fee and reward
//! checkpoints.

use vstd::prelude::*;

use crate::address::Address;
use crate::errors::ErrorCode;
use crate::tick::{is_usable_tick, Tick, FULL_RANGE_ONLY_TICK_SPACING_THRESHOLD};

verus! {

/// Reward bookkeeping for one position: the growth-inside snapshot at last
/// settlement and the amount accrued but not yet collected.
#[derive(Clone, Copy, Debug, PartialEq, Eq, Structural)]
pub struct PositionRewardInfo {
    pub growth_inside_checkpoint: u128,
    pub amount_owed: u64,
}

impl PositionRewardInfo {
    pub fn default() -> (r: PositionRewardInfo)
        ensures
            r == (PositionRewardInfo { growth_inside_checkpoint: 0, amount_owed: 0 }),
    {
        PositionRewardInfo { growth_inside_checkpoint: 0, amount_owed: 0 }
    }
}

/// A liquidity position on one pool.
#[derive(Clone, Copy, Debug)]
pub struct Position {
    pub solve: Address,
    pub position_mint: Address,
    pub liquidity: u128,
    pub tick_lower_index: i32,
    pub tick_upper_index: i32,
    pub fee_growth_checkpoint_a: u128,
    pub fee_owed_a: u64,
    pub fee_growth_checkpoint_b: u128,
    pub fee_owed_b: u64,
    pub reward_infos: [PositionRewardInfo; 3],
}

/// The new value a position takes after settling fees and rewards and
/// applying a liquidity delta.
#[derive(Clone, Copy, Debug)]
pub struct PositionUpdate {
    pub liquidity: u128,
    pub fee_growth_checkpoint_a: u128,
    pub fee_owed_a: u64,
    pub fee_growth_checkpoint_b: u128,
    pub fee_owed_b: u64,
    pub reward_infos: [PositionRewardInfo; 3],
}

impl PositionUpdate {
    pub fn default() -> (r: PositionUpdate)
        ensures
            r.liquidity == 0,
            r.fee_growth_checkpoint_a == 0,
            r.fee_owed_a == 0,
            r.fee_growth_checkpoint_b == 0,
            r.fee_owed_b == 0,
            r.reward_infos[0] == (PositionRewardInfo { growth_inside_checkpoint: 0, amount_owed: 0 }),
            r.reward_infos[1] == r.reward_infos[0],
            r.reward_infos[2] == r.reward_infos[0],
    {
        PositionUpdate {
            liquidity: 0,
            fee_growth_checkpoint_a: 0,
            fee_owed_a: 0,
            fee_growth_checkpoint_b: 0,
            fee_owed_b: 0,
            reward_infos: [
                PositionRewardInfo::default(),
                PositionRewardInfo::default(),
                PositionRewardInfo::default(),
            ],
        }
    }
}

/// A tick range a pool accepts: both ticks usable, ordered, and — for
/// full-range-only pools — exactly the extreme usable ticks.
pub open spec fn valid_tick_range(tick_lower_index: int, tick_upper_index: int, tick_spacing: int) -> bool {
    &&& is_usable_tick(tick_lower_index, tick_spacing)
    &&& is_usable_tick(tick_upper_index, tick_spacing)
    &&& tick_lower_index < tick_upper_index
    &&& (tick_spacing >= FULL_RANGE_ONLY_TICK_SPACING_THRESHOLD ==> tick_lower_index == -((
    443636int / tick_spacing) * tick_spacing) && tick_upper_index == (443636int / tick_spacing)
        * tick_spacing)
}

/// Rejects ranges the pool does not accept, with `InvalidTickIndex` for a
/// malformed range and `FullRangeOnlyPool` for a partial range on a
/// full-range-only pool.
pub fn validate_tick_range_for_solve(tick_spacing: u16, tick_lower_index: i32, tick_upper_index: i32) -> (r: Result<(), ErrorCode>)
    requires
        1 <= tick_spacing,
    ensures
        r is Ok <==> valid_tick_range(
            tick_lower_index as int,
            tick_upper_index as int,
            tick_spacing as int,
        ),
        !(is_usable_tick(tick_lower_index as int, tick_spacing as int) && is_usable_tick(
            tick_upper_index as int,
            tick_spacing as int,
        ) && tick_lower_index < tick_upper_index) ==> r == Err::<(), ErrorCode>(
            ErrorCode::InvalidTickIndex,
        ),
        r is Err && (is_usable_tick(tick_lower_index as int, tick_spacing as int)
            && is_usable_tick(tick_upper_index as int, tick_spacing as int) && tick_lower_index
            < tick_upper_index) ==> r == Err::<(), ErrorCode>(ErrorCode::FullRangeOnlyPool),
{
    if !Tick::check_is_usable_tick(tick_lower_index, tick_spacing)
        || !Tick::check_is_usable_tick(tick_upper_index, tick_spacing) || tick_lower_index
        >= tick_upper_index {
        return Err(ErrorCode::InvalidTickIndex);
    }
    if tick_spacing >= FULL_RANGE_ONLY_TICK_SPACING_THRESHOLD {
        let (full_range_lower_index, full_range_upper_index) = Tick::full_range_indexes(
            tick_spacing,
        );
        if tick_lower_index != full_range_lower_index || tick_upper_index
            != full_range_upper_index {
            return Err(ErrorCode::FullRangeOnlyPool);
        }
    }
    Ok(())
}

impl Position {
    pub fn default() -> (r: Position)
        ensures
            r.liquidity == 0,
            r.fee_owed_a == 0,
            r.fee_owed_b == 0,
            r.tick_lower_index == 0,
            r.tick_upper_index == 0,
            r.reward_infos[0].amount_owed == 0,
            r.reward_infos[1].amount_owed == 0,
            r.reward_infos[2].amount_owed == 0,
            r.is_empty(),
    {
        Position {
            solve: Address::null(),
            position_mint: Address::null(),
            liquidity: 0,
            tick_lower_index: 0,
            tick_upper_index: 0,
            fee_growth_checkpoint_a: 0,
            fee_owed_a: 0,
            fee_growth_checkpoint_b: 0,
            fee_owed_b: 0,
            reward_infos: [
                PositionRewardInfo::default(),
                PositionRewardInfo::default(),
                PositionRewardInfo::default(),
            ],
        }
    }

    /// Empty: no liquidity and nothing owed.
    pub open spec fn is_empty(self) -> bool {
        &&& self.liquidity == 0
        &&& self.fee_owed_a == 0
        &&& self.fee_owed_b == 0
        &&& self.reward_infos[0].amount_owed == 0
        &&& self.reward_infos[1].amount_owed == 0
        &&& self.reward_infos[2].amount_owed == 0
    }

    /// Whether the position holds no liquidity and no uncollected amounts.
    pub fn is_position_empty(position: &Position) -> (r: bool)
        ensures
            r == position.is_empty(),
    {
        let fees_not_owed = position.fee_owed_a == 0 && position.fee_owed_b == 0;
        let rewards_not_owed = position.reward_infos[0].amount_owed == 0
            && position.reward_infos[1].amount_owed == 0 && position.reward_infos[2].amount_owed
            == 0;
        position.liquidity == 0 && fees_not_owed && rewards_not_owed
    }

    /// Applies a settled update to the position.
    pub fn update(&mut self, update: &PositionUpdate)
        ensures
            *final(self) == (Position {
                liquidity: update.liquidity,
                fee_growth_checkpoint_a: update.fee_growth_checkpoint_a,
                fee_owed_a: update.fee_owed_a,
                fee_growth_checkpoint_b: update.fee_growth_checkpoint_b,
                fee_owed_b: update.fee_owed_b,
                reward_infos: update.reward_infos,
                ..*old(self)
            }),
    {
        self.liquidity = update.liquidity;
        self.fee_growth_checkpoint_a = update.fee_growth_checkpoint_a;
        self.fee_growth_checkpoint_b = update.fee_growth_checkpoint_b;
        self.fee_owed_a = update.fee_owed_a;
        self.fee_owed_b = update.fee_owed_b;
        self.reward_infos = update.reward_infos;
    }

    /// Binds a fresh position to a pool over a validated range.
    pub fn open_position(
        &mut self,
        solve: Address,
        tick_spacing: u16,
        position_mint: Address,
        tick_lower_index: i32,
        tick_upper_index: i32,
    ) -> (r: Result<(), ErrorCode>)
        requires
            1 <= tick_spacing,
        ensures
            r is Ok <==> valid_tick_range(
                tick_lower_index as int,
                tick_upper_index as int,
                tick_spacing as int,
            ),
            r is Ok ==> *final(self) == (Position {
                solve,
                position_mint,
                tick_lower_index,
                tick_upper_index,
                ..*old(self)
            }),
            r is Err ==> *final(self) == *old(self),
    {
        let check = validate_tick_range_for_solve(tick_spacing, tick_lower_index, tick_upper_index);
        match check {
            Ok(_) => (),
            Err(e) => {
                return Err(e);
            },
        }
        self.solve = solve;
        self.position_mint = position_mint;
        self.tick_lower_index = tick_lower_index;
        self.tick_upper_index = tick_upper_index;
        Ok(())
    }

    /// Zeroes the collected fee amounts after payout.
    pub fn reset_fees_owed(&mut self)
        ensures
            *final(self) == (Position { fee_owed_a: 0, fee_owed_b: 0, ..*old(self) }),
    {
        self.fee_owed_a = 0;
        self.fee_owed_b = 0;
    }

    /// Sets the uncollected amount of one reward slot.
    pub fn update_reward_owed(&mut self, index: usize, amount_owed: u64)
        requires
            index < 3,
        ensures
            final(self).reward_infos[index as int] == (PositionRewardInfo {
                amount_owed,
                ..old(self).reward_infos[index as int]
            }),
            forall|k: int|
                0 <= k < 3 && k != index ==> final(self).reward_infos[k] == old(self).reward_infos[k],
            *final(self) == (Position { reward_infos: final(self).reward_infos, ..*old(self) }),
    {
        let mut updated = self.reward_infos[index];
        updated.amount_owed = amount_owed;
        self.reward_infos = if index == 0 {
            [updated, self.reward_infos[1], self.reward_infos[2]]
        } else if index == 1 {
            [self.reward_infos[0], updated, self.reward_infos[2]]
        } else {
            [self.reward_infos[0], self.reward_infos[1], updated]
        };
    }

    /// Moves an empty position to a new tick range, resetting the
    /// checkpoints.
    pub fn reset_position_range(
        &mut self,
        tick_spacing: u16,
        new_tick_lower_index: i32,
        new_tick_upper_index: i32,
    ) -> (r: Result<(), ErrorCode>)
        requires
            1 <= tick_spacing,
        ensures
            !old(self).is_empty() ==> (r == Err::<(), ErrorCode>(ErrorCode::ClosePositionNotEmpty)
                && *final(self) == *old(self)),
            old(self).is_empty() && new_tick_lower_index == old(self).tick_lower_index
                && new_tick_upper_index == old(self).tick_upper_index ==> (r == Err::<
                (),
                ErrorCode,
            >(ErrorCode::SameTickRangeNotAllowed) && *final(self) == *old(self)),
            r is Err ==> *final(self) == *old(self),
            old(self).is_empty() && (new_tick_lower_index != old(self).tick_lower_index
                || new_tick_upper_index != old(self).tick_upper_index) && valid_tick_range(
                new_tick_lower_index as int,
                new_tick_upper_index as int,
                tick_spacing as int,
            ) ==> r is Ok,
            r is Ok ==> ({
                &&& valid_tick_range(
                    new_tick_lower_index as int,
                    new_tick_upper_index as int,
                    tick_spacing as int,
                )
                &&& final(self).tick_lower_index == new_tick_lower_index
                &&& final(self).tick_upper_index == new_tick_upper_index
                &&& final(self).fee_growth_checkpoint_a == 0
                &&& final(self).fee_growth_checkpoint_b == 0
                &&& forall|k: int|
                    0 <= k < 3 ==> final(self).reward_infos[k] == (PositionRewardInfo {
                        growth_inside_checkpoint: 0,
                        ..old(self).reward_infos[k]
                    })
                &&& final(self).solve == old(self).solve
                &&& final(self).position_mint == old(self).position_mint
                &&& final(self).liquidity == old(self).liquidity
                &&& final(self).fee_owed_a == old(self).fee_owed_a
                &&& final(self).fee_owed_b == old(self).fee_owed_b
            }),
    {
        if !Position::is_position_empty(self) {
            return Err(ErrorCode::ClosePositionNotEmpty);
        }
        if new_tick_lower_index == self.tick_lower_index && new_tick_upper_index
            == self.tick_upper_index {
            return Err(ErrorCode::SameTickRangeNotAllowed);
        }
        let check = validate_tick_range_for_solve(
            tick_spacing,
            new_tick_lower_index,
            new_tick_upper_index,
        );
        match check {
            Ok(_) => (),
            Err(e) => {
                return Err(e);
            },
        }
        self.tick_lower_index = new_tick_lower_index;
        self.tick_upper_index = new_tick_upper_index;
        self.fee_growth_checkpoint_a = 0;
        self.fee_growth_checkpoint_b = 0;
        self.reward_infos = [
            PositionRewardInfo { growth_inside_checkpoint: 0, amount_owed: self.reward_infos[0].amount_owed },
            PositionRewardInfo { growth_inside_checkpoint: 0, amount_owed: self.reward_infos[1].amount_owed },
            PositionRewardInfo { growth_inside_checkpoint: 0, amount_owed: self.reward_infos[2].amount_owed },
        ];
        Ok(())
    }
}

} // verus!
