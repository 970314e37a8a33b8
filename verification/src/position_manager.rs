//! Settling a position: fees and rewards accrued since the last
//! checkpoint, plus the liquidity delta.

use vstd::prelude::*;

use crate::errors::ErrorCode;
use crate::growth_math::{wrapping_sub_u128, wsub};
use crate::liquidity_math::add_liquidity_delta;
use crate::position::{Position, PositionRewardInfo, PositionUpdate};
use crate::token_math::mul_shift_right_clip_u64;
use vstd::arithmetic::power2::pow2;

verus! {

/// Clips a value to the `u64` range.
pub open spec fn clip_u64(x: nat) -> nat {
    if x > u64::MAX {
        u64::MAX as nat
    } else {
        x
    }
}

/// The owed amount after settling a growth delta over the position's
/// liquidity: the Q64.64 product is shifted down and both the delta and
/// the sum clip at `u64::MAX`.
pub open spec fn owed_after_settle(owed: nat, growth_delta: nat, liquidity: nat) -> nat {
    clip_u64(owed + clip_u64((growth_delta * liquidity) / pow2(64)))
}

/// Saturating `u64` addition.
fn saturating_add_u64(a: u64, b: u64) -> (r: u64)
    ensures
        r == clip_u64(a as nat + b as nat),
{
    if b <= u64::MAX - a {
        a + b
    } else {
        u64::MAX
    }
}

/// One reward slot of the position settled against its growth inside the
/// range.
fn next_position_reward_one(info: &PositionRewardInfo, growth_inside: u128, liquidity: u128) -> (r:
    PositionRewardInfo)
    ensures
        r.growth_inside_checkpoint == growth_inside,
        r.amount_owed == owed_after_settle(
            info.amount_owed as nat,
            wrapping_sub_u128(growth_inside as nat, info.growth_inside_checkpoint as nat),
            liquidity as nat,
        ),
{
    let growth_delta = wsub(growth_inside, info.growth_inside_checkpoint);
    let amount_owed_delta = mul_shift_right_clip_u64(growth_delta, liquidity);
    PositionRewardInfo {
        growth_inside_checkpoint: growth_inside,
        amount_owed: saturating_add_u64(info.amount_owed, amount_owed_delta),
    }
}

/// The position after settling fees and rewards at the given inside
/// growths and applying the liquidity delta.
///
/// Each owed amount grows by `(growth_inside - checkpoint) * liquidity`
/// shifted down 64 bits, clipping at `u64::MAX`; every checkpoint moves to
/// the given inside growth; the liquidity delta must fit.
pub fn next_position_modify_liquidity_update(
    position: &Position,
    liquidity_delta: i128,
    fee_growth_inside_a: u128,
    fee_growth_inside_b: u128,
    reward_growths_inside: &[u128; 3],
) -> (r: Result<PositionUpdate, ErrorCode>)
    ensures
        position.liquidity + liquidity_delta > u128::MAX ==> r == Err::<PositionUpdate, ErrorCode>(
            ErrorCode::LiquidityOverflow,
        ),
        position.liquidity + liquidity_delta < 0 ==> r == Err::<PositionUpdate, ErrorCode>(
            ErrorCode::LiquidityUnderflow,
        ),
        0 <= position.liquidity + liquidity_delta <= u128::MAX ==> (r is Ok && ({
            let u = r->Ok_0;
            &&& u.liquidity == position.liquidity + liquidity_delta
            &&& u.fee_growth_checkpoint_a == fee_growth_inside_a
            &&& u.fee_growth_checkpoint_b == fee_growth_inside_b
            &&& u.fee_owed_a == owed_after_settle(
                position.fee_owed_a as nat,
                wrapping_sub_u128(
                    fee_growth_inside_a as nat,
                    position.fee_growth_checkpoint_a as nat,
                ),
                position.liquidity as nat,
            )
            &&& u.fee_owed_b == owed_after_settle(
                position.fee_owed_b as nat,
                wrapping_sub_u128(
                    fee_growth_inside_b as nat,
                    position.fee_growth_checkpoint_b as nat,
                ),
                position.liquidity as nat,
            )
            &&& forall|i: int|
                0 <= i < 3 ==> u.reward_infos[i] == (PositionRewardInfo {
                    growth_inside_checkpoint: reward_growths_inside[i],
                    amount_owed: owed_after_settle(
                        position.reward_infos[i].amount_owed as nat,
                        wrapping_sub_u128(
                            reward_growths_inside[i] as nat,
                            position.reward_infos[i].growth_inside_checkpoint as nat,
                        ),
                        position.liquidity as nat,
                    ) as u64,
                })
        })),
{
    let liquidity = match add_liquidity_delta(position.liquidity, liquidity_delta) {
        Ok(v) => v,
        Err(e) => {
            return Err(e);
        },
    };

    let fee_delta_a = mul_shift_right_clip_u64(
        wsub(fee_growth_inside_a, position.fee_growth_checkpoint_a),
        position.liquidity,
    );
    let fee_delta_b = mul_shift_right_clip_u64(
        wsub(fee_growth_inside_b, position.fee_growth_checkpoint_b),
        position.liquidity,
    );

    Ok(
        PositionUpdate {
            liquidity,
            fee_growth_checkpoint_a: fee_growth_inside_a,
            fee_owed_a: saturating_add_u64(position.fee_owed_a, fee_delta_a),
            fee_growth_checkpoint_b: fee_growth_inside_b,
            fee_owed_b: saturating_add_u64(position.fee_owed_b, fee_delta_b),
            reward_infos: [
                next_position_reward_one(
                    &position.reward_infos[0],
                    reward_growths_inside[0],
                    position.liquidity,
                ),
                next_position_reward_one(
                    &position.reward_infos[1],
                    reward_growths_inside[1],
                    position.liquidity,
                ),
                next_position_reward_one(
                    &position.reward_infos[2],
                    reward_growths_inside[2],
                    position.liquidity,
                ),
            ],
        },
    )
}

} // verus!
