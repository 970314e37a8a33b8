//! The validations a two-hop swap makes around its two single-pool swaps.

use vstd::prelude::*;

use crate::address::Address;
use crate::errors::ErrorCode;
use crate::fee_rate_manager::usable_constants;
use crate::oracle::AdaptiveFeeInfo;
use crate::solve::{tick_price_state, Solve};
use crate::swap_entry::swap_with_transfer_fee_extension;
use crate::swap_manager::PostSwapUpdate;
use crate::tick_array::SwapTickSequence;
use crate::tick_math::{MAX_SQRT_PRICE_X64, MIN_SQRT_PRICE_X64, NO_EXPLICIT_SQRT_PRICE_LIMIT};
use crate::transfer_fee::{calculate_transfer_fee_excluded_amount, TransferFee};

verus! {

/// The two pools of a two-hop swap must differ, and the output token of the
/// first hop must be the input token of the second.
pub fn validate_two_hop_pools(
    solve_one_key: Address,
    solve_two_key: Address,
    solve_one: &Solve,
    solve_two: &Solve,
    a_to_b_one: bool,
    a_to_b_two: bool,
) -> (r: Result<(), ErrorCode>)
    ensures
        solve_one_key == solve_two_key ==> r == Err::<(), ErrorCode>(
            ErrorCode::DuplicateTwoHopPool,
        ),
        ({
            let intermediary = if a_to_b_one {
                solve_one.token_mint_b
            } else {
                solve_one.token_mint_a
            };
            let second_input = if a_to_b_two {
                solve_two.token_mint_a
            } else {
                solve_two.token_mint_b
            };
            &&& (solve_one_key != solve_two_key && intermediary != second_input ==> r == Err::<
                (),
                ErrorCode,
            >(ErrorCode::InvalidIntermediaryMint))
            &&& (solve_one_key != solve_two_key && intermediary == second_input ==> r == Ok::<
                (),
                ErrorCode,
            >(()))
        }),
{
    if solve_one_key.hi == solve_two_key.hi && solve_one_key.lo == solve_two_key.lo {
        return Err(ErrorCode::DuplicateTwoHopPool);
    }
    let intermediary = solve_one.output_token_mint(a_to_b_one);
    let second_input = solve_two.input_token_mint(a_to_b_two);
    if !(intermediary.hi == second_input.hi && intermediary.lo == second_input.lo) {
        return Err(ErrorCode::InvalidIntermediaryMint);
    }
    Ok(())
}

/// The intermediate token must cancel exactly between the hops: what the
/// first hop pays out must be exactly what the second hop takes in. The
/// intermediate token's transfer fee is no adjustment here: the second
/// hop's input accounting already includes it.
pub fn check_intermediate_token_amounts(
    swap_one_output_amount: u64,
    swap_two_input_amount: u64,
) -> (r: Result<(), ErrorCode>)
    ensures
        swap_one_output_amount == swap_two_input_amount <==> r == Ok::<(), ErrorCode>(()),
        swap_one_output_amount != swap_two_input_amount <==> r == Err::<(), ErrorCode>(
            ErrorCode::IntermediateTokenAmountMismatch,
        ),
{
    if swap_one_output_amount != swap_two_input_amount {
        return Err(ErrorCode::IntermediateTokenAmountMismatch);
    }
    Ok(())
}

/// Both swaps of a two-hop trade, computed so the intermediate token
/// cancels exactly.
///
/// Exact-in runs the first hop and feeds its whole output to the second,
/// whose own input accounting takes the intermediate token's transfer fee;
/// exact-out computes the second hop first and solves the first hop
/// backwards for the intermediate amount it must produce. Either way the
/// returned pair satisfies the intermediate-token equation, and each hop
/// moves its pool's price monotonically towards its limit.
#[allow(clippy::too_many_arguments)]
pub fn compute_two_hop_swap(
    solve_one: &Solve,
    solve_two: &Solve,
    swap_tick_sequence_one: &mut SwapTickSequence,
    swap_tick_sequence_two: &mut SwapTickSequence,
    transfer_fee_input: &Option<TransferFee>,
    transfer_fee_intermediate: &Option<TransferFee>,
    transfer_fee_output: &Option<TransferFee>,
    amount: u64,
    amount_specified_is_input: bool,
    a_to_b_one: bool,
    a_to_b_two: bool,
    sqrt_price_limit_one: u128,
    sqrt_price_limit_two: u128,
    timestamp: u64,
    adaptive_fee_info_one: &Option<AdaptiveFeeInfo>,
    adaptive_fee_info_two: &Option<AdaptiveFeeInfo>,
) -> (r: Result<(PostSwapUpdate, PostSwapUpdate), ErrorCode>)
    requires
        solve_one.wf(),
        solve_two.wf(),
        old(swap_tick_sequence_one).wf(),
        old(swap_tick_sequence_two).wf(),
        tick_price_state(solve_one.tick_current_index as int, solve_one.sqrt_price as nat),
        tick_price_state(solve_two.tick_current_index as int, solve_two.sqrt_price as nat),
        adaptive_fee_info_one is Some ==> usable_constants(adaptive_fee_info_one->0.constants),
        adaptive_fee_info_two is Some ==> usable_constants(adaptive_fee_info_two->0.constants),
        transfer_fee_input is Some ==> transfer_fee_input->0.wf(),
        transfer_fee_intermediate is Some ==> transfer_fee_intermediate->0.wf(),
        transfer_fee_output is Some ==> transfer_fee_output->0.wf(),
    ensures
        final(swap_tick_sequence_one).wf(),
        final(swap_tick_sequence_two).wf(),
        r is Ok ==> ({
            let (u1, u2) = r->Ok_0;
            let out1: u64 = if a_to_b_one {
                u1.amount_b
            } else {
                u1.amount_a
            };
            let in2: u64 = if a_to_b_two {
                u2.amount_a
            } else {
                u2.amount_b
            };
            let adjusted_one: u128 = if sqrt_price_limit_one == NO_EXPLICIT_SQRT_PRICE_LIMIT {
                if a_to_b_one {
                    MIN_SQRT_PRICE_X64
                } else {
                    MAX_SQRT_PRICE_X64
                }
            } else {
                sqrt_price_limit_one
            };
            let adjusted_two: u128 = if sqrt_price_limit_two == NO_EXPLICIT_SQRT_PRICE_LIMIT {
                if a_to_b_two {
                    MIN_SQRT_PRICE_X64
                } else {
                    MAX_SQRT_PRICE_X64
                }
            } else {
                sqrt_price_limit_two
            };
            // the intermediate token cancels exactly
            &&& in2 == out1
            // each hop moved its pool's price monotonically towards its limit
            &&& (a_to_b_one ==> adjusted_one <= u1.next_sqrt_price <= solve_one.sqrt_price)
            &&& (!a_to_b_one ==> solve_one.sqrt_price <= u1.next_sqrt_price <= adjusted_one)
            &&& (a_to_b_two ==> adjusted_two <= u2.next_sqrt_price <= solve_two.sqrt_price)
            &&& (!a_to_b_two ==> solve_two.sqrt_price <= u2.next_sqrt_price <= adjusted_two)
            &&& tick_price_state(u1.next_tick_index as int, u1.next_sqrt_price as nat)
            &&& tick_price_state(u2.next_tick_index as int, u2.next_sqrt_price as nat)
            &&& u1.lp_fee + u1.next_protocol_fee == u1.total_fee@
            &&& u2.lp_fee + u2.next_protocol_fee == u2.total_fee@
            &&& u1.next_liquidity == solve_one.liquidity + u1.crossed_liquidity_net@
            &&& u2.next_liquidity == solve_two.liquidity + u2.crossed_liquidity_net@
        }),
{
    if amount_specified_is_input {
        // hop one first; its net output funds hop two
        let swap_update_one = match swap_with_transfer_fee_extension(
            solve_one,
            transfer_fee_input,
            transfer_fee_intermediate,
            swap_tick_sequence_one,
            amount,
            sqrt_price_limit_one,
            true,
            a_to_b_one,
            timestamp,
            adaptive_fee_info_one,
        ) {
            Ok(u) => u,
            Err(e) => {
                return Err(e);
            },
        };
        let swap_one_output = if a_to_b_one {
            swap_update_one.amount_b
        } else {
            swap_update_one.amount_a
        };
        let swap_update_two = match swap_with_transfer_fee_extension(
            solve_two,
            transfer_fee_intermediate,
            transfer_fee_output,
            swap_tick_sequence_two,
            swap_one_output,
            sqrt_price_limit_two,
            true,
            a_to_b_two,
            timestamp,
            adaptive_fee_info_two,
        ) {
            Ok(u) => u,
            Err(e) => {
                return Err(e);
            },
        };
        let swap_two_input = if a_to_b_two {
            swap_update_two.amount_a
        } else {
            swap_update_two.amount_b
        };
        let matched = check_intermediate_token_amounts(swap_one_output, swap_two_input);
        match matched {
            Ok(_) => (),
            Err(e) => {
                return Err(e);
            },
        }
        return Ok((swap_update_one, swap_update_two));
    }

    // exact out: hop two decides how much intermediate token hop one owes
    let swap_update_two = match swap_with_transfer_fee_extension(
        solve_two,
        transfer_fee_intermediate,
        transfer_fee_output,
        swap_tick_sequence_two,
        amount,
        sqrt_price_limit_two,
        false,
        a_to_b_two,
        timestamp,
        adaptive_fee_info_two,
    ) {
        Ok(u) => u,
        Err(e) => {
            return Err(e);
        },
    };
    let swap_two_input = if a_to_b_two {
        swap_update_two.amount_a
    } else {
        swap_update_two.amount_b
    };
    proof {
        if transfer_fee_intermediate is Some {
            crate::transfer_fee::lemma_transfer_fee_le_amount(
                transfer_fee_intermediate->0,
                swap_two_input as nat,
            );
        }
    }
    let swap_one_output_amount = match calculate_transfer_fee_excluded_amount(
        transfer_fee_intermediate,
        swap_two_input,
    ) {
        Ok(v) => v,
        Err(e) => {
            return Err(e);
        },
    };
    let swap_update_one = match swap_with_transfer_fee_extension(
        solve_one,
        transfer_fee_input,
        transfer_fee_intermediate,
        swap_tick_sequence_one,
        swap_one_output_amount.amount,
        sqrt_price_limit_one,
        false,
        a_to_b_one,
        timestamp,
        adaptive_fee_info_one,
    ) {
        Ok(u) => u,
        Err(e) => {
            return Err(e);
        },
    };
    let swap_one_output = if a_to_b_one {
        swap_update_one.amount_b
    } else {
        swap_update_one.amount_a
    };
    let matched = check_intermediate_token_amounts(swap_one_output, swap_two_input);
    match matched {
        Ok(_) => (),
        Err(e) => {
            return Err(e);
        },
    }
    Ok((swap_update_one, swap_update_two))
}

} // verus!
