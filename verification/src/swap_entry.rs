//! The swap entry computation: transfer fees on the way in and out, the
//! core swap in between, and the slippage thresholds on the result.

use vstd::prelude::*;

use crate::errors::ErrorCode;
use crate::fee_rate_manager::usable_constants;
use crate::oracle::AdaptiveFeeInfo;
use crate::solve::Solve;
use crate::solve::tick_price_state;
use crate::swap_manager::{swap, PostSwapUpdate};
use crate::tick_array::SwapTickSequence;
use crate::tick_math::{MAX_SQRT_PRICE_X64, MIN_SQRT_PRICE_X64, NO_EXPLICIT_SQRT_PRICE_LIMIT};
use crate::transfer_fee::{
    calculate_transfer_fee_excluded_amount, calculate_transfer_fee_included_amount,
    transfer_fee_spec, TransferFee,
};

verus! {

/// A swap with the input and output tokens' transfer fees folded in.
///
/// Exact-in: the input's transfer fee is taken off before the pool trades,
/// and the returned input amount is grossed back up. Exact-out: the
/// requested output is grossed up by the output's transfer fee before the
/// pool trades. The returned price moves monotonically towards the limit
/// and stays bracketed by the returned tick, and the fee partition of the
/// core swap is preserved.
#[allow(clippy::too_many_arguments)]
pub fn swap_with_transfer_fee_extension(
    solve: &Solve,
    transfer_fee_input: &Option<TransferFee>,
    transfer_fee_output: &Option<TransferFee>,
    swap_tick_sequence: &mut SwapTickSequence,
    amount: u64,
    sqrt_price_limit: u128,
    amount_specified_is_input: bool,
    a_to_b: bool,
    timestamp: u64,
    adaptive_fee_info: &Option<AdaptiveFeeInfo>,
) -> (r: Result<PostSwapUpdate, ErrorCode>)
    requires
        solve.wf(),
        old(swap_tick_sequence).wf(),
        tick_price_state(solve.tick_current_index as int, solve.sqrt_price as nat),
        adaptive_fee_info is Some ==> usable_constants(adaptive_fee_info->0.constants),
        transfer_fee_input is Some ==> transfer_fee_input->0.wf(),
        transfer_fee_output is Some ==> transfer_fee_output->0.wf(),
    ensures
        final(swap_tick_sequence).wf(),
        r is Ok ==> ({
            let u = r->Ok_0;
            let adjusted: u128 = if sqrt_price_limit == NO_EXPLICIT_SQRT_PRICE_LIMIT {
                if a_to_b {
                    MIN_SQRT_PRICE_X64
                } else {
                    MAX_SQRT_PRICE_X64
                }
            } else {
                sqrt_price_limit
            };
            let input_amount: u64 = if a_to_b {
                u.amount_a
            } else {
                u.amount_b
            };
            let output_amount: u64 = if a_to_b {
                u.amount_b
            } else {
                u.amount_a
            };
            let excluded_input: nat = if transfer_fee_input is Some {
                (amount - transfer_fee_spec(transfer_fee_input->0, amount as nat)) as nat
            } else {
                amount as nat
            };
            &&& (a_to_b ==> adjusted <= u.next_sqrt_price <= solve.sqrt_price)
            &&& (!a_to_b ==> solve.sqrt_price <= u.next_sqrt_price <= adjusted)
            &&& MIN_SQRT_PRICE_X64 <= u.next_sqrt_price <= MAX_SQRT_PRICE_X64
            &&& tick_price_state(u.next_tick_index as int, u.next_sqrt_price as nat)
            &&& -0x0200_0000 <= u.next_tick_index <= 0x0200_0000
            &&& u.lp_fee + u.next_protocol_fee == u.total_fee@
            &&& u.next_liquidity == solve.liquidity + u.crossed_liquidity_net@
            // the output side passes through from the price march; the
            // input side is grossed back up by the input token's fee
            &&& output_amount == u.pool_output@
            &&& (amount_specified_is_input ==> ({
                &&& u.pool_input@ == excluded_input - u.unfilled_amount@
                &&& (u.unfilled_amount@ == 0 ==> input_amount == amount)
                &&& (u.unfilled_amount@ != 0 ==> input_amount == u.pool_input@ + (
                if transfer_fee_input is Some {
                    transfer_fee_spec(transfer_fee_input->0, input_amount as nat)
                } else {
                    0nat
                }))
            }))
            &&& (!amount_specified_is_input ==> ({
                &&& input_amount == u.pool_input@ + (if transfer_fee_input is Some {
                    transfer_fee_spec(transfer_fee_input->0, input_amount as nat)
                } else {
                    0nat
                })
                &&& (u.pool_output@ + u.unfilled_amount@) == amount + (
                if transfer_fee_output is Some {
                    transfer_fee_spec(
                        transfer_fee_output->0,
                        (u.pool_output@ + u.unfilled_amount@) as nat,
                    )
                } else {
                    0nat
                })
                &&& (sqrt_price_limit == NO_EXPLICIT_SQRT_PRICE_LIMIT ==> u.unfilled_amount@ == 0)
            }))
        }),
{
    if amount_specified_is_input {
        // take the input token's transfer fee off the amount the pool sees
        let transfer_fee_included_input = amount;
        proof {
            if transfer_fee_input is Some {
                crate::transfer_fee::lemma_transfer_fee_le_amount(
                    transfer_fee_input->0,
                    amount as nat,
                );
            }
        }
        let excluded = match calculate_transfer_fee_excluded_amount(
            transfer_fee_input,
            transfer_fee_included_input,
        ) {
            Ok(v) => v,
            Err(e) => {
                return Err(e);
            },
        };
        let transfer_fee_excluded_input = excluded.amount;

        let swap_update = match swap(
            solve,
            swap_tick_sequence,
            transfer_fee_excluded_input,
            sqrt_price_limit,
            amount_specified_is_input,
            a_to_b,
            timestamp,
            adaptive_fee_info,
        ) {
            Ok(u) => u,
            Err(e) => {
                return Err(e);
            },
        };

        let (swap_update_amount_input, swap_update_amount_output) = if a_to_b {
            (swap_update.amount_a, swap_update.amount_b)
        } else {
            (swap_update.amount_b, swap_update.amount_a)
        };

        let fulfilled = swap_update_amount_input == transfer_fee_excluded_input;
        let adjusted_transfer_fee_included_input = if fulfilled {
            transfer_fee_included_input
        } else {
            let included = match calculate_transfer_fee_included_amount(
                transfer_fee_input,
                swap_update_amount_input,
            ) {
                Ok(v) => v,
                Err(e) => {
                    return Err(e);
                },
            };
            included.amount
        };

        let transfer_fee_included_output = swap_update_amount_output;
        let (amount_a, amount_b) = if a_to_b {
            (adjusted_transfer_fee_included_input, transfer_fee_included_output)
        } else {
            (transfer_fee_included_output, adjusted_transfer_fee_included_input)
        };
        return Ok(
            PostSwapUpdate {
                amount_a,
                amount_b,
                lp_fee: swap_update.lp_fee,
                next_liquidity: swap_update.next_liquidity,
                next_tick_index: swap_update.next_tick_index,
                next_sqrt_price: swap_update.next_sqrt_price,
                next_fee_growth_global: swap_update.next_fee_growth_global,
                next_reward_infos: swap_update.next_reward_infos,
                next_protocol_fee: swap_update.next_protocol_fee,
                next_adaptive_fee_info: swap_update.next_adaptive_fee_info,
                total_fee: swap_update.total_fee,
                unfilled_amount: swap_update.unfilled_amount,
                crossed_liquidity_net: swap_update.crossed_liquidity_net,
                pool_input: swap_update.pool_input,
                pool_output: swap_update.pool_output,
            },
        );
    }

    // exact out: gross the requested output up by its transfer fee
    let transfer_fee_excluded_output = amount;
    let included_output = match calculate_transfer_fee_included_amount(
        transfer_fee_output,
        transfer_fee_excluded_output,
    ) {
        Ok(v) => v,
        Err(e) => {
            return Err(e);
        },
    };
    let transfer_fee_included_output = included_output.amount;

    let swap_update = match swap(
        solve,
        swap_tick_sequence,
        transfer_fee_included_output,
        sqrt_price_limit,
        amount_specified_is_input,
        a_to_b,
        timestamp,
        adaptive_fee_info,
    ) {
        Ok(u) => u,
        Err(e) => {
            return Err(e);
        },
    };

    let (swap_update_amount_input, swap_update_amount_output) = if a_to_b {
        (swap_update.amount_a, swap_update.amount_b)
    } else {
        (swap_update.amount_b, swap_update.amount_a)
    };

    let included_input = match calculate_transfer_fee_included_amount(
        transfer_fee_input,
        swap_update_amount_input,
    ) {
        Ok(v) => v,
        Err(e) => {
            return Err(e);
        },
    };
    let transfer_fee_included_input = included_input.amount;
    let adjusted_transfer_fee_included_output = swap_update_amount_output;

    let (amount_a, amount_b) = if a_to_b {
        (transfer_fee_included_input, adjusted_transfer_fee_included_output)
    } else {
        (adjusted_transfer_fee_included_output, transfer_fee_included_input)
    };
    Ok(
        PostSwapUpdate {
            amount_a,
            amount_b,
            lp_fee: swap_update.lp_fee,
            next_liquidity: swap_update.next_liquidity,
            next_tick_index: swap_update.next_tick_index,
            next_sqrt_price: swap_update.next_sqrt_price,
            next_fee_growth_global: swap_update.next_fee_growth_global,
            next_reward_infos: swap_update.next_reward_infos,
            next_protocol_fee: swap_update.next_protocol_fee,
            next_adaptive_fee_info: swap_update.next_adaptive_fee_info,
            total_fee: swap_update.total_fee,
            unfilled_amount: swap_update.unfilled_amount,
            crossed_liquidity_net: swap_update.crossed_liquidity_net,
            pool_input: swap_update.pool_input,
            pool_output: swap_update.pool_output,
        },
    )
}

/// The slippage threshold on a finished swap: an exact-in swap must
/// deliver at least `other_amount_threshold` of output after the output
/// token's transfer fee, and an exact-out swap must consume at most
/// `other_amount_threshold` of transfer-fee-included input.
pub fn check_amounts_against_threshold(
    amount_specified_is_input: bool,
    a_to_b: bool,
    other_amount_threshold: u64,
    amount_a: u64,
    amount_b: u64,
    transfer_fee_output: &Option<TransferFee>,
) -> (r: Result<(), ErrorCode>)
    requires
        transfer_fee_output is Some ==> transfer_fee_output->0.wf(),
    ensures
        amount_specified_is_input ==> ({
            let output: nat = if a_to_b {
                amount_b as nat
            } else {
                amount_a as nat
            };
            let excluded: nat = if transfer_fee_output is Some {
                (output - transfer_fee_spec(transfer_fee_output->0, output)) as nat
            } else {
                output
            };
            &&& (excluded >= other_amount_threshold <==> r == Ok::<(), ErrorCode>(()))
            &&& (excluded < other_amount_threshold <==> r == Err::<(), ErrorCode>(
                ErrorCode::AmountOutBelowMinimum,
            ))
        }),
        !amount_specified_is_input ==> ({
            let input: nat = if a_to_b {
                amount_a as nat
            } else {
                amount_b as nat
            };
            &&& (input <= other_amount_threshold <==> r == Ok::<(), ErrorCode>(()))
            &&& (input > other_amount_threshold <==> r == Err::<(), ErrorCode>(
                ErrorCode::AmountInAboveMaximum,
            ))
        }),
{
    if amount_specified_is_input {
        let output_amount = if a_to_b {
            amount_b
        } else {
            amount_a
        };
        proof {
            if transfer_fee_output is Some {
                crate::transfer_fee::lemma_transfer_fee_le_amount(
                    transfer_fee_output->0,
                    output_amount as nat,
                );
            }
        }
        let excluded = match calculate_transfer_fee_excluded_amount(
            transfer_fee_output,
            output_amount,
        ) {
            Ok(v) => v,
            Err(e) => {
                return Err(e);
            },
        };
        if excluded.amount < other_amount_threshold {
            return Err(ErrorCode::AmountOutBelowMinimum);
        }
        Ok(())
    } else {
        let input_amount = if a_to_b {
            amount_a
        } else {
            amount_b
        };
        if input_amount > other_amount_threshold {
            return Err(ErrorCode::AmountInAboveMaximum);
        }
        Ok(())
    }
}

} // verus!
