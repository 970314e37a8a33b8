//! Pure tick transitions: liquidity modification, price crossing, and the
//! outside/inside growth convention.

use vstd::prelude::*;

use crate::errors::ErrorCode;
use crate::growth_math::{wrapping_sub_u128, wsub};
use crate::liquidity_math::add_liquidity_delta;
use crate::solve::SolveRewardInfo;
use crate::tick::{Tick, TickUpdate};

verus! {

/// The growth below the lower tick of a range, by the outside convention:
/// an uninitialized lower tick counts all growth as below it.
pub open spec fn growth_below(initialized: bool, outside: nat, tick_index: int, tick_current_index: int, growth_global: nat) -> nat {
    if !initialized {
        growth_global
    } else if tick_current_index < tick_index {
        wrapping_sub_u128(growth_global, outside)
    } else {
        outside
    }
}

/// The growth above the upper tick of a range, by the outside convention:
/// an uninitialized upper tick counts no growth as above it.
pub open spec fn growth_above(initialized: bool, outside: nat, tick_index: int, tick_current_index: int, growth_global: nat) -> nat {
    if !initialized {
        0
    } else if tick_current_index < tick_index {
        outside
    } else {
        wrapping_sub_u128(growth_global, outside)
    }
}

/// The growth earned strictly inside `[lower, upper)`: the global
/// accumulator minus the halves below and above, with wrapping
/// subtraction.
pub open spec fn growth_inside(
    tick_current_index: int,
    lower_initialized: bool,
    lower_outside: nat,
    tick_lower_index: int,
    upper_initialized: bool,
    upper_outside: nat,
    tick_upper_index: int,
    growth_global: nat,
) -> nat {
    wrapping_sub_u128(
        wrapping_sub_u128(
            growth_global,
            growth_below(
                lower_initialized,
                lower_outside,
                tick_lower_index,
                tick_current_index,
                growth_global,
            ),
        ),
        growth_above(
            upper_initialized,
            upper_outside,
            tick_upper_index,
            tick_current_index,
            growth_global,
        ),
    )
}

/// The fee growths inside `[tick_lower_index, tick_upper_index)` for both
/// tokens, relative to the current tick.
pub fn next_fee_growths_inside(
    tick_current_index: i32,
    tick_lower: &Tick,
    tick_lower_index: i32,
    tick_upper: &Tick,
    tick_upper_index: i32,
    fee_growth_global_a: u128,
    fee_growth_global_b: u128,
) -> (r: (u128, u128))
    ensures
        r.0 == growth_inside(
            tick_current_index as int,
            tick_lower.initialized,
            tick_lower.fee_growth_outside_a as nat,
            tick_lower_index as int,
            tick_upper.initialized,
            tick_upper.fee_growth_outside_a as nat,
            tick_upper_index as int,
            fee_growth_global_a as nat,
        ),
        r.1 == growth_inside(
            tick_current_index as int,
            tick_lower.initialized,
            tick_lower.fee_growth_outside_b as nat,
            tick_lower_index as int,
            tick_upper.initialized,
            tick_upper.fee_growth_outside_b as nat,
            tick_upper_index as int,
            fee_growth_global_b as nat,
        ),
{
    let (fee_growth_below_a, fee_growth_below_b) = if !tick_lower.initialized {
        (fee_growth_global_a, fee_growth_global_b)
    } else if tick_current_index < tick_lower_index {
        (
            wsub(fee_growth_global_a, tick_lower.fee_growth_outside_a),
            wsub(fee_growth_global_b, tick_lower.fee_growth_outside_b),
        )
    } else {
        (tick_lower.fee_growth_outside_a, tick_lower.fee_growth_outside_b)
    };

    let (fee_growth_above_a, fee_growth_above_b) = if !tick_upper.initialized {
        (0, 0)
    } else if tick_current_index < tick_upper_index {
        (tick_upper.fee_growth_outside_a, tick_upper.fee_growth_outside_b)
    } else {
        (
            wsub(fee_growth_global_a, tick_upper.fee_growth_outside_a),
            wsub(fee_growth_global_b, tick_upper.fee_growth_outside_b),
        )
    };

    (
        wsub(wsub(fee_growth_global_a, fee_growth_below_a), fee_growth_above_a),
        wsub(wsub(fee_growth_global_b, fee_growth_below_b), fee_growth_above_b),
    )
}

/// One reward's growth inside the range; an uninitialized reward is always
/// zero.
fn reward_growth_inside_one(
    tick_current_index: i32,
    tick_lower: &Tick,
    tick_lower_index: i32,
    tick_upper: &Tick,
    tick_upper_index: i32,
    reward_initialized: bool,
    growth_global: u128,
    index: usize,
) -> (r: u128)
    requires
        index < 3,
    ensures
        !reward_initialized ==> r == 0,
        reward_initialized ==> r == growth_inside(
            tick_current_index as int,
            tick_lower.initialized,
            tick_lower.reward_growths_outside[index as int] as nat,
            tick_lower_index as int,
            tick_upper.initialized,
            tick_upper.reward_growths_outside[index as int] as nat,
            tick_upper_index as int,
            growth_global as nat,
        ),
{
    if !reward_initialized {
        return 0;
    }
    let reward_growths_below = if !tick_lower.initialized {
        growth_global
    } else if tick_current_index < tick_lower_index {
        wsub(growth_global, tick_lower.reward_growths_outside[index])
    } else {
        tick_lower.reward_growths_outside[index]
    };
    let reward_growths_above = if !tick_upper.initialized {
        0
    } else if tick_current_index < tick_upper_index {
        tick_upper.reward_growths_outside[index]
    } else {
        wsub(growth_global, tick_upper.reward_growths_outside[index])
    };
    wsub(wsub(growth_global, reward_growths_below), reward_growths_above)
}

/// The reward growths inside the range, one per reward slot.
pub fn next_reward_growths_inside(
    tick_current_index: i32,
    tick_lower: &Tick,
    tick_lower_index: i32,
    tick_upper: &Tick,
    tick_upper_index: i32,
    reward_infos: &[SolveRewardInfo; 3],
) -> (r: [u128; 3])
    ensures
        forall|i: int|
            0 <= i < 3 ==> r[i] == if reward_infos[i].initialized_spec() {
                growth_inside(
                    tick_current_index as int,
                    tick_lower.initialized,
                    tick_lower.reward_growths_outside[i] as nat,
                    tick_lower_index as int,
                    tick_upper.initialized,
                    tick_upper.reward_growths_outside[i] as nat,
                    tick_upper_index as int,
                    reward_infos[i].growth_global_x64 as nat,
                )
            } else {
                0
            },
{
    [
        reward_growth_inside_one(
            tick_current_index,
            tick_lower,
            tick_lower_index,
            tick_upper,
            tick_upper_index,
            reward_infos[0].initialized(),
            reward_infos[0].growth_global_x64,
            0,
        ),
        reward_growth_inside_one(
            tick_current_index,
            tick_lower,
            tick_lower_index,
            tick_upper,
            tick_upper_index,
            reward_infos[1].initialized(),
            reward_infos[1].growth_global_x64,
            1,
        ),
        reward_growth_inside_one(
            tick_current_index,
            tick_lower,
            tick_lower_index,
            tick_upper,
            tick_upper_index,
            reward_infos[2].initialized(),
            reward_infos[2].growth_global_x64,
            2,
        ),
    ]
}

/// The tick after a price cross: every outside accumulator flips to the
/// other side of the tick, and nothing else changes.
pub fn next_tick_cross_update(
    tick: &Tick,
    fee_growth_global_a: u128,
    fee_growth_global_b: u128,
    reward_infos: &[SolveRewardInfo; 3],
) -> (r: Result<TickUpdate, ErrorCode>)
    ensures
        r is Ok,
        ({
            let u = r->Ok_0;
            &&& u.initialized == tick.initialized
            &&& u.liquidity_net == tick.liquidity_net
            &&& u.liquidity_gross == tick.liquidity_gross
            &&& u.fee_growth_outside_a == wrapping_sub_u128(
                fee_growth_global_a as nat,
                tick.fee_growth_outside_a as nat,
            )
            &&& u.fee_growth_outside_b == wrapping_sub_u128(
                fee_growth_global_b as nat,
                tick.fee_growth_outside_b as nat,
            )
            &&& forall|i: int|
                0 <= i < 3 ==> u.reward_growths_outside[i] == if reward_infos[i].initialized_spec(
                ) {
                    wrapping_sub_u128(
                        reward_infos[i].growth_global_x64 as nat,
                        tick.reward_growths_outside[i] as nat,
                    )
                } else {
                    tick.reward_growths_outside[i] as nat
                }
        }),
{
    let r0 = if reward_infos[0].initialized() {
        wsub(reward_infos[0].growth_global_x64, tick.reward_growths_outside[0])
    } else {
        tick.reward_growths_outside[0]
    };
    let r1 = if reward_infos[1].initialized() {
        wsub(reward_infos[1].growth_global_x64, tick.reward_growths_outside[1])
    } else {
        tick.reward_growths_outside[1]
    };
    let r2 = if reward_infos[2].initialized() {
        wsub(reward_infos[2].growth_global_x64, tick.reward_growths_outside[2])
    } else {
        tick.reward_growths_outside[2]
    };
    Ok(
        TickUpdate {
            initialized: tick.initialized,
            liquidity_net: tick.liquidity_net,
            liquidity_gross: tick.liquidity_gross,
            fee_growth_outside_a: wsub(fee_growth_global_a, tick.fee_growth_outside_a),
            fee_growth_outside_b: wsub(fee_growth_global_b, tick.fee_growth_outside_b),
            reward_growths_outside: [r0, r1, r2],
        },
    )
}

/// The tick after a liquidity change at one of a position's boundaries.
///
/// A zero delta copies the tick; removing the last liquidity resets the
/// tick; the first liquidity into a tick seeds the outside accumulators by
/// the convention that all prior growth happened below the tick.
#[allow(clippy::too_many_arguments)]
pub fn next_tick_modify_liquidity_update(
    tick: &Tick,
    tick_index: i32,
    tick_current_index: i32,
    fee_growth_global_a: u128,
    fee_growth_global_b: u128,
    reward_infos: &[SolveRewardInfo; 3],
    liquidity_delta: i128,
    is_upper_tick: bool,
) -> (r: Result<TickUpdate, ErrorCode>)
    ensures
        liquidity_delta == 0 ==> (r is Ok && r->Ok_0 == TickUpdate {
            initialized: tick.initialized,
            liquidity_net: tick.liquidity_net,
            liquidity_gross: tick.liquidity_gross,
            fee_growth_outside_a: tick.fee_growth_outside_a,
            fee_growth_outside_b: tick.fee_growth_outside_b,
            reward_growths_outside: tick.reward_growths_outside,
        }),
        liquidity_delta != 0 && tick.liquidity_gross + liquidity_delta > u128::MAX ==> r == Err::<
            TickUpdate,
            ErrorCode,
        >(ErrorCode::LiquidityOverflow),
        liquidity_delta != 0 && tick.liquidity_gross + liquidity_delta < 0 ==> r == Err::<
            TickUpdate,
            ErrorCode,
        >(ErrorCode::LiquidityUnderflow),
        liquidity_delta != 0 && tick.liquidity_gross + liquidity_delta == 0 ==> (r is Ok
            && r->Ok_0 == TickUpdate {
            initialized: false,
            liquidity_net: 0,
            liquidity_gross: 0,
            fee_growth_outside_a: 0,
            fee_growth_outside_b: 0,
            reward_growths_outside: [0, 0, 0],
        }),
        liquidity_delta != 0 && 0 < tick.liquidity_gross + liquidity_delta <= u128::MAX ==> ({
            let new_net: int = if is_upper_tick {
                tick.liquidity_net - liquidity_delta
            } else {
                tick.liquidity_net + liquidity_delta
            };
            let seed_below = tick_current_index >= tick_index;
            &&& (!(i128::MIN <= new_net <= i128::MAX) ==> r == Err::<TickUpdate, ErrorCode>(
                ErrorCode::LiquidityNetError,
            ))
            &&& (i128::MIN <= new_net <= i128::MAX ==> (r is Ok && ({
                let u = r->Ok_0;
                &&& u.initialized
                &&& u.liquidity_net == new_net
                &&& u.liquidity_gross == tick.liquidity_gross + liquidity_delta
                &&& u.fee_growth_outside_a == if tick.liquidity_gross == 0 {
                    if seed_below {
                        fee_growth_global_a as nat
                    } else {
                        0
                    }
                } else {
                    tick.fee_growth_outside_a as nat
                }
                &&& u.fee_growth_outside_b == if tick.liquidity_gross == 0 {
                    if seed_below {
                        fee_growth_global_b as nat
                    } else {
                        0
                    }
                } else {
                    tick.fee_growth_outside_b as nat
                }
                &&& forall|i: int|
                    0 <= i < 3 ==> u.reward_growths_outside[i] as nat == if tick.liquidity_gross
                        == 0 {
                        if seed_below {
                            reward_infos[i].growth_global_x64 as nat
                        } else {
                            0
                        }
                    } else {
                        tick.reward_growths_outside[i] as nat
                    }
            })))
        }),
{
    // a zero delta leaves the tick as it stands
    if liquidity_delta == 0 {
        return Ok(
            TickUpdate {
                initialized: tick.initialized,
                liquidity_net: tick.liquidity_net,
                liquidity_gross: tick.liquidity_gross,
                fee_growth_outside_a: tick.fee_growth_outside_a,
                fee_growth_outside_b: tick.fee_growth_outside_b,
                reward_growths_outside: tick.reward_growths_outside,
            },
        );
    }

    let liquidity_gross = match add_liquidity_delta(tick.liquidity_gross, liquidity_delta) {
        Ok(v) => v,
        Err(e) => {
            return Err(e);
        },
    };

    // removing the last liquidity resets the tick to uninitialized
    if liquidity_gross == 0 {
        return Ok(
            TickUpdate {
                initialized: false,
                liquidity_net: 0,
                liquidity_gross: 0,
                fee_growth_outside_a: 0,
                fee_growth_outside_b: 0,
                reward_growths_outside: [0, 0, 0],
            },
        );
    }

    let (fee_growth_outside_a, fee_growth_outside_b, reward_growths_outside): (
        u128,
        u128,
        [u128; 3],
    ) = if tick.liquidity_gross == 0 {
        // first liquidity: assume all prior growth happened below the tick
        if tick_current_index >= tick_index {
            (
                fee_growth_global_a,
                fee_growth_global_b,
                SolveRewardInfo::to_reward_growths(reward_infos),
            )
        } else {
            (0, 0, [0, 0, 0])
        }
    } else {
        (tick.fee_growth_outside_a, tick.fee_growth_outside_b, tick.reward_growths_outside)
    };

    let liquidity_net = if is_upper_tick {
        match tick.liquidity_net.checked_sub(liquidity_delta) {
            Some(v) => v,
            None => {
                return Err(ErrorCode::LiquidityNetError);
            },
        }
    } else {
        match tick.liquidity_net.checked_add(liquidity_delta) {
            Some(v) => v,
            None => {
                return Err(ErrorCode::LiquidityNetError);
            },
        }
    };

    Ok(
        TickUpdate {
            initialized: true,
            liquidity_net,
            liquidity_gross,
            fee_growth_outside_a,
            fee_growth_outside_b,
            reward_growths_outside,
        },
    )
}

/// The signed net liquidity of the initialized listed ticks with index at
/// most `current`.
pub open spec fn net_liquidity_below(ticks: Seq<(int, Tick)>, current: int) -> int
    decreases ticks.len(),
{
    if ticks.len() == 0 {
        0
    } else {
        (if ticks[0].1.initialized && ticks[0].0 <= current {
            ticks[0].1.liquidity_net as int
        } else {
            0
        }) + net_liquidity_below(ticks.drop_first(), current)
    }
}

/// The signed net liquidity of the initialized listed ticks at exactly
/// index `at`.
pub open spec fn net_liquidity_at(ticks: Seq<(int, Tick)>, at: int) -> int
    decreases ticks.len(),
{
    if ticks.len() == 0 {
        0
    } else {
        (if ticks[0].1.initialized && ticks[0].0 == at {
            ticks[0].1.liquidity_net as int
        } else {
            0
        }) + net_liquidity_at(ticks.drop_first(), at)
    }
}

/// Liquidity accounting across a cross, leftwards: when every listed
/// initialized tick with index in `(crossed, current]` sits exactly at
/// `crossed`, subtracting `crossed`'s net from the net-sum below `current`
/// gives the net-sum below the new current tick `crossed - 1`.
///
/// With the pool invariant `liquidity == net_liquidity_below(ticks,
/// current)`, this says the swap engine's `liquidity - net` update on an
/// a-to-b cross keeps that invariant.
pub proof fn lemma_cross_left_liquidity_accounting(
    ticks: Seq<(int, Tick)>,
    current: int,
    crossed: int,
)
    requires
        crossed <= current,
        forall|k: int|
            0 <= k < ticks.len() && crossed < #[trigger] ticks[k].0 <= current
                ==> !ticks[k].1.initialized,
    ensures
        net_liquidity_below(ticks, crossed - 1) == net_liquidity_below(ticks, current)
            - net_liquidity_at(ticks, crossed),
    decreases ticks.len(),
{
    if ticks.len() > 0 {
        let rest = ticks.drop_first();
        assert(forall|k: int|
            0 <= k < rest.len() && crossed < #[trigger] rest[k].0 <= current
                ==> !rest[k].1.initialized) by {
            assert(forall|k: int| 0 <= k < rest.len() ==> rest[k] == ticks[k + 1]);
        }
        lemma_cross_left_liquidity_accounting(rest, current, crossed);
    }
}

/// Liquidity accounting across a cross, rightwards: when every listed
/// initialized tick with index in `(current, crossed)` is uninitialized,
/// adding `crossed`'s net to the net-sum below `current` gives the net-sum
/// below the new current tick `crossed`.
pub proof fn lemma_cross_right_liquidity_accounting(
    ticks: Seq<(int, Tick)>,
    current: int,
    crossed: int,
)
    requires
        current < crossed,
        forall|k: int|
            0 <= k < ticks.len() && current < #[trigger] ticks[k].0 < crossed
                ==> !ticks[k].1.initialized,
    ensures
        net_liquidity_below(ticks, crossed) == net_liquidity_below(ticks, current)
            + net_liquidity_at(ticks, crossed),
    decreases ticks.len(),
{
    if ticks.len() > 0 {
        let rest = ticks.drop_first();
        assert(forall|k: int|
            0 <= k < rest.len() && current < #[trigger] rest[k].0 < crossed
                ==> !rest[k].1.initialized) by {
            assert(forall|k: int| 0 <= k < rest.len() ==> rest[k] == ticks[k + 1]);
        }
        lemma_cross_right_liquidity_accounting(rest, current, crossed);
    }
}

/// Liquidity accounting across a boundary liquidity change: updating the
/// net of every listed slot at `at` by `delta` (as
/// `next_tick_modify_liquidity_update` does at a lower boundary) moves the
/// net-sum below any `current >= at` by `delta` times the number of listed
/// slots at `at`, and leaves sums below `current < at` unchanged.
pub proof fn lemma_modify_below_unchanged(
    ticks: Seq<(int, Tick)>,
    updated: Seq<(int, Tick)>,
    at: int,
    current: int,
)
    requires
        ticks.len() == updated.len(),
        forall|k: int| 0 <= k < ticks.len() ==> #[trigger] updated[k].0 == ticks[k].0,
        forall|k: int|
            0 <= k < ticks.len() && ticks[k].0 != at ==> #[trigger] updated[k] == ticks[k],
        current < at,
    ensures
        net_liquidity_below(updated, current) == net_liquidity_below(ticks, current),
    decreases ticks.len(),
{
    if ticks.len() > 0 {
        let rest = ticks.drop_first();
        let urest = updated.drop_first();
        assert(forall|k: int| 0 <= k < rest.len() ==> rest[k] == ticks[k + 1]);
        assert(forall|k: int| 0 <= k < urest.len() ==> urest[k] == updated[k + 1]);
        lemma_modify_below_unchanged(rest, urest, at, current);
    }
}

} // verus!
