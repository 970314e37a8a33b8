//! The swap engine: marches the pool's square-root price across initialized
//! ticks towards a limit, crossing ticks, accumulating fees and splitting
//! off the protocol's share.

use vstd::prelude::*;

use crate::errors::ErrorCode;
use crate::fee_rate_manager::{usable_constants, FeeRateManager};
use crate::growth_math::{wadd, wrapping_add_u128};
use crate::liquidity_math::add_liquidity_delta;
use crate::oracle::AdaptiveFeeInfo;
use crate::solve::{tick_price_state, Solve, SolveRewardInfo, PROTOCOL_FEE_RATE_MUL_VALUE};
use crate::solve_manager::next_solve_reward_infos;
use crate::swap_math::compute_swap;
use crate::tick::TickUpdate;
use crate::tick_array::SwapTickSequence;
use crate::tick_manager::next_tick_cross_update;
use crate::tick_math::{
    sqrt_price_from_tick_index, sqrt_price_from_tick_spec, tick_index_from_sqrt_price,
    MAX_SQRT_PRICE_X64, MAX_TICK_INDEX, MIN_SQRT_PRICE_X64, MIN_TICK_INDEX,
    NO_EXPLICIT_SQRT_PRICE_LIMIT,
};

verus! {

/// Iteration budget for one swap, over all tick-group sub-steps; exceeding
/// it aborts the swap (budget limits surface as failures).
pub const MAX_SWAP_STEP_COUNT: u32 = 0x0200_0000;

/// Everything a swap changes, computed before anything is written.
pub struct PostSwapUpdate {
    pub amount_a: u64,
    pub amount_b: u64,
    /// The fee kept by liquidity providers: the total fee minus the
    /// protocol's share.
    pub lp_fee: u64,
    pub next_liquidity: u128,
    pub next_tick_index: i32,
    pub next_sqrt_price: u128,
    pub next_fee_growth_global: u128,
    pub next_reward_infos: [SolveRewardInfo; 3],
    pub next_protocol_fee: u64,
    pub next_adaptive_fee_info: Option<AdaptiveFeeInfo>,
    /// The total fee the swap charged; always `lp_fee + next_protocol_fee`.
    pub total_fee: Ghost<u64>,
    /// What the specified side left unfilled; always `amount -` the
    /// specified side's returned amount.
    pub unfilled_amount: Ghost<u64>,
    /// The signed net liquidity of the crossed ticks; always
    /// `next_liquidity -` the pool's liquidity at entry.
    pub crossed_liquidity_net: Ghost<int>,
    /// The input amount the price march consumed, before any transfer-fee
    /// adjustment; equals the input side as `swap` returns it.
    pub pool_input: Ghost<u64>,
    /// The output amount the price march produced, before any transfer-fee
    /// adjustment; equals the output side as `swap` returns it.
    pub pool_output: Ghost<u64>,
}

/// `floor(global_fee * protocol_fee_rate / PROTOCOL_FEE_RATE_MUL_VALUE)`:
/// the protocol's cut of one step's fee, never more than the fee.
pub fn calculate_protocol_fee(global_fee: u64, protocol_fee_rate: u16) -> (r: u64)
    requires
        protocol_fee_rate <= PROTOCOL_FEE_RATE_MUL_VALUE,
    ensures
        r == (global_fee as nat * protocol_fee_rate as nat) / (PROTOCOL_FEE_RATE_MUL_VALUE as nat),
        r <= global_fee,
{
    proof {
        vstd::arithmetic::mul::lemma_mul_upper_bound(
            global_fee as int,
            u64::MAX as int,
            protocol_fee_rate as int,
            PROTOCOL_FEE_RATE_MUL_VALUE as int,
        );
        vstd::arithmetic::mul::lemma_mul_nonnegative(
            global_fee as int,
            protocol_fee_rate as int,
        );
        assert(global_fee as int * protocol_fee_rate as int <= global_fee as int
            * PROTOCOL_FEE_RATE_MUL_VALUE as int) by {
            vstd::arithmetic::mul::lemma_mul_inequality(
                protocol_fee_rate as int,
                PROTOCOL_FEE_RATE_MUL_VALUE as int,
                global_fee as int,
            );
            vstd::arithmetic::mul::lemma_mul_is_commutative(
                global_fee as int,
                protocol_fee_rate as int,
            );
            vstd::arithmetic::mul::lemma_mul_is_commutative(
                global_fee as int,
                PROTOCOL_FEE_RATE_MUL_VALUE as int,
            );
        }
        assert((global_fee as int * PROTOCOL_FEE_RATE_MUL_VALUE as int) / (
        PROTOCOL_FEE_RATE_MUL_VALUE as int) == global_fee as int) by {
            vstd::arithmetic::div_mod::lemma_div_by_multiple(
                global_fee as int,
                PROTOCOL_FEE_RATE_MUL_VALUE as int,
            );
            vstd::arithmetic::mul::lemma_mul_is_commutative(
                global_fee as int,
                PROTOCOL_FEE_RATE_MUL_VALUE as int,
            );
        }
        vstd::arithmetic::div_mod::lemma_div_is_ordered(
            global_fee as int * protocol_fee_rate as int,
            global_fee as int * PROTOCOL_FEE_RATE_MUL_VALUE as int,
            PROTOCOL_FEE_RATE_MUL_VALUE as int,
        );
    }
    (((global_fee as u128) * (protocol_fee_rate as u128)) / (
    PROTOCOL_FEE_RATE_MUL_VALUE as u128)) as u64
}

/// Splits one step's fee: the protocol's share accrues to the protocol fee,
/// and the remainder enters the fee-growth accumulator as
/// `(remainder << 64) / liquidity` — exactly once, and only when liquidity
/// is active (fee conservation: the protocol delta plus the
/// liquidity-provider remainder is the whole fee).
pub fn calculate_fees(
    fee_amount: u64,
    protocol_fee_rate: u16,
    curr_liquidity: u128,
    curr_protocol_fee: u64,
    curr_fee_growth_global_input: u128,
) -> (r: (u64, u128))
    requires
        protocol_fee_rate <= PROTOCOL_FEE_RATE_MUL_VALUE,
        curr_protocol_fee + fee_amount <= u64::MAX,
    ensures
        ({
            let delta: nat = if protocol_fee_rate > 0 {
                (fee_amount as nat * protocol_fee_rate as nat) / (PROTOCOL_FEE_RATE_MUL_VALUE as nat)
            } else {
                0
            };
            &&& r.0 == curr_protocol_fee + delta
            &&& delta <= fee_amount
            &&& r.1 == if curr_liquidity > 0 {
                wrapping_add_u128(
                    curr_fee_growth_global_input as nat,
                    (((fee_amount - delta) as nat) * vstd::arithmetic::power2::pow2(64))
                        / curr_liquidity as nat,
                )
            } else {
                curr_fee_growth_global_input as nat
            }
        }),
        r.0 <= curr_protocol_fee + fee_amount,
{
    let mut next_protocol_fee = curr_protocol_fee;
    let mut next_fee_growth_global_input = curr_fee_growth_global_input;
    let mut global_fee = fee_amount;
    if protocol_fee_rate > 0 {
        let delta = calculate_protocol_fee(global_fee, protocol_fee_rate);
        global_fee = global_fee - delta;
        next_protocol_fee = next_protocol_fee + delta;
    }
    if curr_liquidity > 0 {
        proof {
            crate::u256::lemma_pow2_64_value();
        }
        let shifted: u128 = (global_fee as u128) * crate::u256::TWO_POW_64;
        let growth_delta = shifted / curr_liquidity;
        next_fee_growth_global_input = wadd(next_fee_growth_global_input, growth_delta);
    }
    (next_protocol_fee, next_fee_growth_global_input)
}

/// The crossing update for an initialized tick and the pool liquidity after
/// the cross: the tick's net liquidity joins (b to a) or leaves (a to b)
/// the active liquidity, and the tick's outside accumulators flip.
fn calculate_update(
    tick: &crate::tick::Tick,
    a_to_b: bool,
    liquidity: u128,
    fee_growth_global_a: u128,
    fee_growth_global_b: u128,
    reward_infos: &[SolveRewardInfo; 3],
) -> (r: Result<(TickUpdate, u128), ErrorCode>)
    ensures
        r is Err ==> (r == Err::<(TickUpdate, u128), ErrorCode>(ErrorCode::LiquidityNetError) || r
            == Err::<(TickUpdate, u128), ErrorCode>(ErrorCode::LiquidityOverflow) || r == Err::<
            (TickUpdate, u128),
            ErrorCode,
        >(ErrorCode::LiquidityUnderflow)),
        r is Ok ==> ({
            let signed_net: int = if a_to_b {
                -(tick.liquidity_net as int)
            } else {
                tick.liquidity_net as int
            };
            &&& r->Ok_0.1 == liquidity + signed_net
            &&& 0 <= liquidity + signed_net <= u128::MAX
            &&& r->Ok_0.0.liquidity_net == tick.liquidity_net
            &&& r->Ok_0.0.liquidity_gross == tick.liquidity_gross
            &&& r->Ok_0.0.initialized == tick.initialized
        }),
{
    let signed_liquidity_net: i128 = if a_to_b {
        if tick.liquidity_net == i128::MIN {
            return Err(ErrorCode::LiquidityNetError);
        }
        -tick.liquidity_net
    } else {
        tick.liquidity_net
    };

    let update = match next_tick_cross_update(
        tick,
        fee_growth_global_a,
        fee_growth_global_b,
        reward_infos,
    ) {
        Ok(u) => u,
        Err(e) => {
            return Err(e);
        },
    };

    let next_liquidity = match add_liquidity_delta(liquidity, signed_liquidity_net) {
        Ok(v) => v,
        Err(e) => {
            return Err(e);
        },
    };

    Ok((update, next_liquidity))
}

/// The price of the next initialized tick and the step target bounded by
/// the swap's price limit.
pub fn get_next_sqrt_prices(next_tick_index: i32, sqrt_price_limit: u128, a_to_b: bool) -> (r: (
    u128,
    u128,
))
    requires
        MIN_TICK_INDEX <= next_tick_index <= MAX_TICK_INDEX,
    ensures
        r.0 == sqrt_price_from_tick_spec(next_tick_index as int),
        a_to_b ==> r.1 == if sqrt_price_limit as nat >= r.0 as nat {
            sqrt_price_limit as nat
        } else {
            r.0 as nat
        },
        !a_to_b ==> r.1 == if sqrt_price_limit as nat <= r.0 as nat {
            sqrt_price_limit as nat
        } else {
            r.0 as nat
        },
{
    let next_tick_price = sqrt_price_from_tick_index(next_tick_index);
    let next_sqrt_price_limit = if a_to_b {
        if sqrt_price_limit >= next_tick_price {
            sqrt_price_limit
        } else {
            next_tick_price
        }
    } else {
        if sqrt_price_limit <= next_tick_price {
            sqrt_price_limit
        } else {
            next_tick_price
        }
    };
    (next_tick_price, next_sqrt_price_limit)
}

/// Executes a swap against a snapshot of the pool, walking the tick
/// sequence, and returns the state to commit.
///
/// The square-root price moves monotonically from the pool's price towards
/// the adjusted limit (non-increasing for a-to-b, non-decreasing
/// otherwise) and ends bracketed by the returned tick index. The returned
/// liquidity-provider fee and protocol fee partition the total fee
/// charged. An exact-in swap consumes at most `amount` of the input side;
/// an exact-out swap without an explicit price limit either produces
/// exactly `amount` of output or fails with `PartialFillError`.
#[allow(clippy::too_many_arguments)]
#[verifier::loop_isolation(false)]
#[verifier::rlimit(100)]
pub fn swap(
    solve: &Solve,
    swap_tick_sequence: &mut SwapTickSequence,
    amount: u64,
    sqrt_price_limit: u128,
    amount_specified_is_input: bool,
    a_to_b: bool,
    timestamp: u64,
    adaptive_fee_info: &Option<AdaptiveFeeInfo>,
) -> (r: Result<PostSwapUpdate, ErrorCode>)
    requires
        solve.wf(),
        old(swap_tick_sequence).wf(),
        tick_price_state(solve.tick_current_index as int, solve.sqrt_price as nat),
        adaptive_fee_info is Some ==> usable_constants(adaptive_fee_info->0.constants),
    ensures
        final(swap_tick_sequence).wf(),
        ({
            let adjusted: u128 = if sqrt_price_limit == NO_EXPLICIT_SQRT_PRICE_LIMIT {
                if a_to_b {
                    MIN_SQRT_PRICE_X64
                } else {
                    MAX_SQRT_PRICE_X64
                }
            } else {
                sqrt_price_limit
            };
            &&& (!(MIN_SQRT_PRICE_X64 <= adjusted <= MAX_SQRT_PRICE_X64) ==> r == Err::<
                PostSwapUpdate,
                ErrorCode,
            >(ErrorCode::SqrtPriceOutOfBounds))
            &&& (MIN_SQRT_PRICE_X64 <= adjusted <= MAX_SQRT_PRICE_X64 && ((a_to_b && adjusted
                >= solve.sqrt_price) || (!a_to_b && adjusted <= solve.sqrt_price)) ==> r == Err::<
                PostSwapUpdate,
                ErrorCode,
            >(ErrorCode::InvalidSqrtPriceLimitDirection))
            &&& (MIN_SQRT_PRICE_X64 <= adjusted <= MAX_SQRT_PRICE_X64 && !((a_to_b && adjusted
                >= solve.sqrt_price) || (!a_to_b && adjusted <= solve.sqrt_price)) && amount == 0
                ==> r == Err::<PostSwapUpdate, ErrorCode>(ErrorCode::ZeroTradableAmount))
            &&& (r == Err::<PostSwapUpdate, ErrorCode>(ErrorCode::PartialFillError)
                ==> !amount_specified_is_input && sqrt_price_limit
                == NO_EXPLICIT_SQRT_PRICE_LIMIT)
            &&& (r is Ok ==> ({
                let u = r->Ok_0;
                let input_amount: u64 = if a_to_b {
                    u.amount_a
                } else {
                    u.amount_b
                };
                let output_amount: u64 = if a_to_b {
                    u.amount_b
                } else {
                    u.amount_a
                };
                &&& (a_to_b ==> adjusted <= u.next_sqrt_price <= solve.sqrt_price)
                &&& (!a_to_b ==> solve.sqrt_price <= u.next_sqrt_price <= adjusted)
                &&& MIN_SQRT_PRICE_X64 <= u.next_sqrt_price <= MAX_SQRT_PRICE_X64
                &&& tick_price_state(u.next_tick_index as int, u.next_sqrt_price as nat)
                &&& -0x0200_0000 <= u.next_tick_index <= 0x0200_0000
                &&& u.lp_fee + u.next_protocol_fee == u.total_fee@
                &&& u.pool_input@ == input_amount
                &&& u.pool_output@ == output_amount
                &&& u.unfilled_amount@ <= amount
                &&& (amount_specified_is_input ==> input_amount == amount - u.unfilled_amount@)
                &&& (!amount_specified_is_input ==> output_amount == amount - u.unfilled_amount@)
                &&& (amount_specified_is_input ==> u.total_fee@ <= input_amount)
                &&& u.next_liquidity == solve.liquidity + u.crossed_liquidity_net@
                &&& (!amount_specified_is_input && sqrt_price_limit
                    == NO_EXPLICIT_SQRT_PRICE_LIMIT ==> u.unfilled_amount@ == 0)
            }))
        }),
{
    let adjusted_sqrt_price_limit: u128 = if sqrt_price_limit == NO_EXPLICIT_SQRT_PRICE_LIMIT {
        if a_to_b {
            MIN_SQRT_PRICE_X64
        } else {
            MAX_SQRT_PRICE_X64
        }
    } else {
        sqrt_price_limit
    };

    if adjusted_sqrt_price_limit < MIN_SQRT_PRICE_X64 || adjusted_sqrt_price_limit
        > MAX_SQRT_PRICE_X64 {
        return Err(ErrorCode::SqrtPriceOutOfBounds);
    }

    if (a_to_b && adjusted_sqrt_price_limit >= solve.sqrt_price) || (!a_to_b
        && adjusted_sqrt_price_limit <= solve.sqrt_price) {
        return Err(ErrorCode::InvalidSqrtPriceLimitDirection);
    }

    if amount == 0 {
        return Err(ErrorCode::ZeroTradableAmount);
    }

    let tick_spacing = solve.tick_spacing;
    let protocol_fee_rate = solve.protocol_fee_rate;
    let next_reward_infos = match next_solve_reward_infos(solve, timestamp) {
        Ok(v) => v,
        Err(e) => {
            return Err(e);
        },
    };

    let mut amount_remaining: u64 = amount;
    let mut amount_calculated: u64 = 0;
    let mut curr_sqrt_price = solve.sqrt_price;
    let mut curr_tick_index = solve.tick_current_index;
    let mut curr_liquidity = solve.liquidity;
    let mut curr_protocol_fee: u64 = 0;
    let mut curr_array_index: usize = 0;
    let mut curr_fee_growth_global_input = if a_to_b {
        solve.fee_growth_global_a
    } else {
        solve.fee_growth_global_b
    };
    let mut fee_sum: u64 = 0;

    let mut fee_rate_manager = match FeeRateManager::new(
        a_to_b,
        solve.tick_current_index,
        timestamp,
        solve.fee_rate,
        adaptive_fee_info,
    ) {
        Ok(m) => m,
        Err(e) => {
            return Err(e);
        },
    };

    let mut budget: u32 = MAX_SWAP_STEP_COUNT;
    let ghost mut crossed_net: int = 0;

    while amount_remaining > 0 && adjusted_sqrt_price_limit != curr_sqrt_price
        invariant
            solve.wf(),
            swap_tick_sequence.wf(),
            MIN_SQRT_PRICE_X64 <= adjusted_sqrt_price_limit <= MAX_SQRT_PRICE_X64,
            a_to_b ==> adjusted_sqrt_price_limit <= curr_sqrt_price <= solve.sqrt_price,
            !a_to_b ==> solve.sqrt_price <= curr_sqrt_price <= adjusted_sqrt_price_limit,
            curr_protocol_fee <= fee_sum,
            amount_remaining <= amount,
            amount_specified_is_input ==> fee_sum <= amount - amount_remaining,
            curr_liquidity == solve.liquidity + crossed_net,
            tick_price_state(curr_tick_index as int, curr_sqrt_price as nat),
            -0x0200_0000 <= curr_tick_index <= 0x0200_0000,
            fee_rate_manager.wf(),
        decreases budget,
    {
        if budget == 0 {
            return Err(ErrorCode::InvalidTickArraySequence);
        }
        budget = budget - 1;
        let ghost budget_entry = budget;

        let (next_array_index, next_tick_index) =
            match swap_tick_sequence.get_next_initialized_tick_index(
            curr_tick_index,
            tick_spacing,
            a_to_b,
            curr_array_index,
        ) {
            Ok(v) => v,
            Err(e) => {
                return Err(e);
            },
        };

        let clamped_next_tick: i32 = if next_tick_index < MIN_TICK_INDEX {
            MIN_TICK_INDEX
        } else if next_tick_index > MAX_TICK_INDEX {
            MAX_TICK_INDEX
        } else {
            next_tick_index
        };

        let (next_tick_sqrt_price, sqrt_price_target_raw) = get_next_sqrt_prices(
            clamped_next_tick,
            adjusted_sqrt_price_limit,
            a_to_b,
        );

        // keep the target between the limit and the current price
        let sqrt_price_target: u128 = if a_to_b {
            if sqrt_price_target_raw > curr_sqrt_price {
                curr_sqrt_price
            } else {
                sqrt_price_target_raw
            }
        } else {
            if sqrt_price_target_raw < curr_sqrt_price {
                curr_sqrt_price
            } else {
                sqrt_price_target_raw
            }
        };

        loop
            invariant
                solve.wf(),
                swap_tick_sequence.wf(),
                MIN_SQRT_PRICE_X64 <= adjusted_sqrt_price_limit <= MAX_SQRT_PRICE_X64,
                a_to_b ==> adjusted_sqrt_price_limit <= sqrt_price_target <= curr_sqrt_price
                    <= solve.sqrt_price,
                !a_to_b ==> solve.sqrt_price <= curr_sqrt_price <= sqrt_price_target
                    <= adjusted_sqrt_price_limit,
                curr_protocol_fee <= fee_sum,
                amount_remaining <= amount,
                amount_specified_is_input ==> fee_sum <= amount - amount_remaining,
                curr_liquidity == solve.liquidity + crossed_net,
                tick_price_state(curr_tick_index as int, curr_sqrt_price as nat),
                -0x0200_0000 <= curr_tick_index <= 0x0200_0000,
                fee_rate_manager.wf(),
                budget <= budget_entry,
                MIN_TICK_INDEX <= clamped_next_tick <= MAX_TICK_INDEX,
                next_tick_sqrt_price == sqrt_price_from_tick_spec(clamped_next_tick as int),
                next_array_index < 3,
                -0x0100_0000 <= next_tick_index <= 0x0100_0000,
            decreases budget,
        {
            if budget == 0 {
                return Err(ErrorCode::InvalidTickArraySequence);
            }
            budget = budget - 1;

            let vol_update = fee_rate_manager.update_volatility_accumulator();
            match vol_update {
                Ok(_) => (),
                Err(e) => {
                    return Err(e);
                },
            }

            let total_fee_rate = fee_rate_manager.get_total_fee_rate();
            let (bounded_raw, adaptive_fee_update_skipped) =
                fee_rate_manager.get_bounded_sqrt_price_target(sqrt_price_target, curr_liquidity);

            // keep the sub-step target between the step target and the
            // current price
            let bounded_sqrt_price_target: u128 = if a_to_b {
                if bounded_raw < sqrt_price_target {
                    sqrt_price_target
                } else if bounded_raw > curr_sqrt_price {
                    curr_sqrt_price
                } else {
                    bounded_raw
                }
            } else {
                if bounded_raw > sqrt_price_target {
                    sqrt_price_target
                } else if bounded_raw < curr_sqrt_price {
                    curr_sqrt_price
                } else {
                    bounded_raw
                }
            };

            let swap_computation = match compute_swap(
                amount_remaining,
                total_fee_rate,
                curr_liquidity,
                curr_sqrt_price,
                bounded_sqrt_price_target,
                amount_specified_is_input,
                a_to_b,
            ) {
                Ok(c) => c,
                Err(e) => {
                    return Err(e);
                },
            };

            if amount_specified_is_input {
                amount_remaining = match amount_remaining.checked_sub(
                    swap_computation.amount_in,
                ) {
                    Some(v) => v,
                    None => {
                        return Err(ErrorCode::AmountRemainingOverflow);
                    },
                };
                amount_remaining = match amount_remaining.checked_sub(
                    swap_computation.fee_amount,
                ) {
                    Some(v) => v,
                    None => {
                        return Err(ErrorCode::AmountRemainingOverflow);
                    },
                };
                amount_calculated = match amount_calculated.checked_add(
                    swap_computation.amount_out,
                ) {
                    Some(v) => v,
                    None => {
                        return Err(ErrorCode::AmountCalcOverflow);
                    },
                };
            } else {
                amount_remaining = match amount_remaining.checked_sub(
                    swap_computation.amount_out,
                ) {
                    Some(v) => v,
                    None => {
                        return Err(ErrorCode::AmountRemainingOverflow);
                    },
                };
                amount_calculated = match amount_calculated.checked_add(
                    swap_computation.amount_in,
                ) {
                    Some(v) => v,
                    None => {
                        return Err(ErrorCode::AmountCalcOverflow);
                    },
                };
                amount_calculated = match amount_calculated.checked_add(
                    swap_computation.fee_amount,
                ) {
                    Some(v) => v,
                    None => {
                        return Err(ErrorCode::AmountCalcOverflow);
                    },
                };
            }

            fee_sum = match fee_sum.checked_add(swap_computation.fee_amount) {
                Some(v) => v,
                None => {
                    return Err(ErrorCode::AmountCalcOverflow);
                },
            };

            let (next_protocol_fee, next_fee_growth_global_input) = calculate_fees(
                swap_computation.fee_amount,
                protocol_fee_rate,
                curr_liquidity,
                curr_protocol_fee,
                curr_fee_growth_global_input,
            );
            curr_protocol_fee = next_protocol_fee;
            curr_fee_growth_global_input = next_fee_growth_global_input;

            if swap_computation.next_price == next_tick_sqrt_price {
                let looked_up = swap_tick_sequence.get_tick(
                    next_array_index,
                    next_tick_index,
                    tick_spacing,
                );
                let crossing = match looked_up {
                    Ok(t) => t.initialized,
                    Err(_) => false,
                };

                if crossing {
                    let next_tick = match looked_up {
                        Ok(t) => t,
                        Err(_) => crate::tick::Tick::default(),
                    };
                    let (fee_growth_global_a, fee_growth_global_b) = if a_to_b {
                        (curr_fee_growth_global_input, solve.fee_growth_global_b)
                    } else {
                        (solve.fee_growth_global_a, curr_fee_growth_global_input)
                    };
                    let crossed = match calculate_update(
                        &next_tick,
                        a_to_b,
                        curr_liquidity,
                        fee_growth_global_a,
                        fee_growth_global_b,
                        &next_reward_infos,
                    ) {
                        Ok(v) => v,
                        Err(e) => {
                            return Err(e);
                        },
                    };
                    curr_liquidity = crossed.1;
                    proof {
                        crossed_net = crossed_net + (if a_to_b {
                            -(next_tick.liquidity_net as int)
                        } else {
                            next_tick.liquidity_net as int
                        });
                    }
                    let written = swap_tick_sequence.update_tick(
                        next_array_index,
                        next_tick_index,
                        tick_spacing,
                        &crossed.0,
                    );
                    match written {
                        Ok(_) => (),
                        Err(e) => {
                            return Err(e);
                        },
                    }
                }

                let tick_offset = match swap_tick_sequence.get_tick_offset(
                    next_array_index,
                    next_tick_index,
                    tick_spacing,
                ) {
                    Ok(v) => v,
                    Err(e) => {
                        return Err(e);
                    },
                };

                // move to the next array when this cross leaves the current one
                curr_array_index = if (a_to_b && tick_offset == 0) || (!a_to_b && tick_offset
                    == 87) {
                    next_array_index + 1
                } else {
                    next_array_index
                };

                // the leftward search is inclusive, so step past the crossed
                // tick when moving left
                curr_tick_index = if a_to_b {
                    clamped_next_tick - 1
                } else {
                    clamped_next_tick
                };
            } else if swap_computation.next_price != curr_sqrt_price {
                curr_tick_index = tick_index_from_sqrt_price(&swap_computation.next_price);
            }

            curr_sqrt_price = swap_computation.next_price;

            if !adaptive_fee_update_skipped {
                fee_rate_manager.advance_tick_group();
            } else {
                let advanced = fee_rate_manager.advance_tick_group_after_skip(
                    curr_sqrt_price,
                    next_tick_sqrt_price,
                    clamped_next_tick,
                );
                match advanced {
                    Ok(_) => (),
                    Err(e) => {
                        return Err(e);
                    },
                }
            }

            if amount_remaining == 0 || curr_sqrt_price == sqrt_price_target {
                break ;
            }
        }
    }

    // an exact-out swap without an explicit limit must fill completely
    if amount_remaining > 0 && !amount_specified_is_input && sqrt_price_limit
        == NO_EXPLICIT_SQRT_PRICE_LIMIT {
        return Err(ErrorCode::PartialFillError);
    }

    let (amount_a, amount_b) = if a_to_b == amount_specified_is_input {
        (amount - amount_remaining, amount_calculated)
    } else {
        (amount_calculated, amount - amount_remaining)
    };

    let major = fee_rate_manager.update_major_swap_timestamp(
        timestamp,
        solve.sqrt_price,
        curr_sqrt_price,
    );
    match major {
        Ok(_) => (),
        Err(e) => {
            return Err(e);
        },
    }

    Ok(
        PostSwapUpdate {
            amount_a,
            amount_b,
            lp_fee: fee_sum - curr_protocol_fee,
            next_liquidity: curr_liquidity,
            next_tick_index: curr_tick_index,
            next_sqrt_price: curr_sqrt_price,
            next_fee_growth_global: curr_fee_growth_global_input,
            next_reward_infos,
            next_protocol_fee: curr_protocol_fee,
            next_adaptive_fee_info: fee_rate_manager.get_next_adaptive_fee_info(),
            total_fee: Ghost(fee_sum),
            unfilled_amount: Ghost(amount_remaining),
            crossed_liquidity_net: Ghost(crossed_net),
            pool_input: Ghost(if a_to_b { amount_a } else { amount_b }),
            pool_output: Ghost(if a_to_b { amount_b } else { amount_a }),
        },
    )
}

} // verus!
