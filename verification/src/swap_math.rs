//! One step of the swap state machine: the largest move towards a target
//! square-root price that the remaining amount can pay for.

use vstd::arithmetic::div_mod::{lemma_div_by_multiple, lemma_div_is_ordered};
use vstd::arithmetic::mul::{
    lemma_mul_inequality, lemma_mul_is_commutative, lemma_mul_strict_inequality,
};
use vstd::prelude::*;

use crate::errors::ErrorCode;
use crate::tick_math::{MAX_SQRT_PRICE_X64, MIN_SQRT_PRICE_X64};
use crate::token_math::{
    amount_delta_a, amount_delta_b, div_round_up, get_amount_delta_a, get_amount_delta_b,
    get_next_sqrt_price_from_a_round_up, get_next_sqrt_price_from_b_round_down,
};

verus! {

/// Fee rates are expressed in hundredths of a basis point: a denominator of
/// one million.
pub const FEE_RATE_MUL_VALUE: u32 = 1_000_000;

/// The largest fee rate a pool (static or adaptive) may charge: 6%.
pub const MAX_FEE_RATE: u16 = 60_000;

/// One step of a swap: the price moved to, the gross input consumed, the
/// output produced, and the fee charged on top of the input.
#[derive(Clone, Copy, Debug, PartialEq, Eq, Structural)]
pub struct SwapStepComputation {
    pub amount_in: u64,
    pub amount_out: u64,
    pub next_price: u128,
    pub fee_amount: u64,
}

/// The gross input a step from `curr` to `next` consumes (rounded up).
pub open spec fn step_amount_in(curr: nat, next: nat, liquidity: nat, a_to_b: bool) -> nat {
    if a_to_b {
        amount_delta_a(next, curr, liquidity, true)
    } else {
        amount_delta_b(curr, next, liquidity, true)
    }
}

/// The output a step from `curr` to `next` yields (rounded down).
pub open spec fn step_amount_out(curr: nat, next: nat, liquidity: nat, a_to_b: bool) -> nat {
    if a_to_b {
        amount_delta_b(next, curr, liquidity, false)
    } else {
        amount_delta_a(curr, next, liquidity, false)
    }
}

/// `ceil(amount * fee_rate / (FEE_RATE_MUL_VALUE - fee_rate))`: the fee that
/// makes `amount` the net input after fees.
pub fn calculate_fee_from_input(amount: u64, fee_rate: u32) -> (r: u64)
    requires
        fee_rate <= MAX_FEE_RATE,
    ensures
        r == div_round_up(
            amount as nat * fee_rate as nat,
            (FEE_RATE_MUL_VALUE - fee_rate) as nat,
        ),
{
    proof {
        vstd::arithmetic::mul::lemma_mul_upper_bound(
            amount as int,
            u64::MAX as int,
            fee_rate as int,
            MAX_FEE_RATE as int,
        );
    }
    let num = (amount as u128) * (fee_rate as u128);
    let den = (FEE_RATE_MUL_VALUE - fee_rate) as u128;
    let q = num / den;
    let rem = num % den;
    proof {
        if amount > 0 {
            assert(num < den * amount as int) by {
                lemma_mul_strict_inequality(fee_rate as int, den as int, amount as int);
                lemma_mul_is_commutative(amount as int, fee_rate as int);
            }
            assert(q < amount) by {
                vstd::arithmetic::div_mod::lemma_multiply_divide_lt(
                    num as int,
                    den as int,
                    amount as int,
                );
            }
        } else {
            assert(num == 0) by {
                vstd::arithmetic::mul::lemma_mul_by_zero_is_zero(fee_rate as int);
            }
            assert(q == 0) by {
                vstd::arithmetic::div_mod::lemma_small_div_converse(num as int, den as int);
            }
        }
    }
    if rem != 0 {
        proof {
            if amount == 0 {
                assert(num == 0) by {
                    vstd::arithmetic::mul::lemma_mul_by_zero_is_zero(fee_rate as int);
                }
                assert(rem == 0) by {
                    vstd::arithmetic::div_mod::lemma_small_mod(0, den as nat);
                }
            }
            assert(q + 1 <= u64::MAX);
            assert(num == amount as nat * fee_rate as nat);
            assert(den == (FEE_RATE_MUL_VALUE - fee_rate) as nat);
            assert(q == (amount as nat * fee_rate as nat) / ((FEE_RATE_MUL_VALUE
                - fee_rate) as nat));
            assert(rem == (amount as nat * fee_rate as nat) % ((FEE_RATE_MUL_VALUE
                - fee_rate) as nat));
        }
        (q + 1) as u64
    } else {
        q as u64
    }
}

/// Computes the maximal step towards `sqrt_price_target` that consumes at
/// most `amount_remaining` (net of fee for exact-in; gross output for
/// exact-out).
///
/// On success the returned price lies between the current price and the
/// target (so a-to-b swaps never raise the price, and b-to-a swaps never
/// lower it), the amounts are exactly the Q64.64 delta formulas between the
/// two prices, and the fee is exactly the declared formula. Errors report
/// intermediate values that left their integer ranges.
pub fn compute_swap(
    amount_remaining: u64,
    fee_rate: u32,
    liquidity: u128,
    sqrt_price_current: u128,
    sqrt_price_target: u128,
    amount_specified_is_input: bool,
    a_to_b: bool,
) -> (r: Result<SwapStepComputation, ErrorCode>)
    requires
        fee_rate <= MAX_FEE_RATE,
        MIN_SQRT_PRICE_X64 <= sqrt_price_current <= MAX_SQRT_PRICE_X64,
        MIN_SQRT_PRICE_X64 <= sqrt_price_target <= MAX_SQRT_PRICE_X64,
        a_to_b ==> sqrt_price_target <= sqrt_price_current,
        !a_to_b ==> sqrt_price_current <= sqrt_price_target,
    ensures
        r is Err ==> (r == Err::<SwapStepComputation, ErrorCode>(ErrorCode::NumberCastError) || r
            == Err::<SwapStepComputation, ErrorCode>(ErrorCode::DivideByZero) || r == Err::<
            SwapStepComputation,
            ErrorCode,
        >(ErrorCode::SqrtPriceOutOfBounds) || r == Err::<SwapStepComputation, ErrorCode>(
            ErrorCode::AmountCalcOverflow,
        )),
        r is Ok ==> ({
            let s = r->Ok_0;
            (a_to_b ==> sqrt_price_target <= s.next_price <= sqrt_price_current) && (!a_to_b
                ==> sqrt_price_current <= s.next_price <= sqrt_price_target) && s.amount_in
                == step_amount_in(
                sqrt_price_current as nat,
                s.next_price as nat,
                liquidity as nat,
                a_to_b,
            ) && s.amount_out == step_amount_out(
                sqrt_price_current as nat,
                s.next_price as nat,
                liquidity as nat,
                a_to_b,
            ) && ((amount_specified_is_input && s.next_price != sqrt_price_target) ==> s.amount_in
                + s.fee_amount == amount_remaining) && ((!amount_specified_is_input
                || s.next_price == sqrt_price_target) ==> s.fee_amount == div_round_up(
                s.amount_in as nat * fee_rate as nat,
                (FEE_RATE_MUL_VALUE - fee_rate) as nat,
            ))
        }),
{
    let initial_fixed_delta = get_amount_fixed_delta(
        sqrt_price_current,
        sqrt_price_target,
        liquidity,
        amount_specified_is_input,
        a_to_b,
    );

    let amount_calc: u64 = if amount_specified_is_input {
        proof {
            vstd::arithmetic::mul::lemma_mul_upper_bound(
                amount_remaining as int,
                u64::MAX as int,
                (FEE_RATE_MUL_VALUE - fee_rate) as int,
                FEE_RATE_MUL_VALUE as int,
            );
        }
        let num = (amount_remaining as u128) * ((FEE_RATE_MUL_VALUE - fee_rate) as u128);
        let q = num / (FEE_RATE_MUL_VALUE as u128);
        proof {
            assert(num <= amount_remaining as int * FEE_RATE_MUL_VALUE as int) by {
                lemma_mul_inequality(
                    (FEE_RATE_MUL_VALUE - fee_rate) as int,
                    FEE_RATE_MUL_VALUE as int,
                    amount_remaining as int,
                );
                lemma_mul_is_commutative(
                    amount_remaining as int,
                    (FEE_RATE_MUL_VALUE - fee_rate) as int,
                );
                lemma_mul_is_commutative(amount_remaining as int, FEE_RATE_MUL_VALUE as int);
            }
            assert(q <= amount_remaining) by {
                lemma_div_is_ordered(
                    num as int,
                    amount_remaining as int * FEE_RATE_MUL_VALUE as int,
                    FEE_RATE_MUL_VALUE as int,
                );
                lemma_div_by_multiple(amount_remaining as int, FEE_RATE_MUL_VALUE as int);
                lemma_mul_is_commutative(amount_remaining as int, FEE_RATE_MUL_VALUE as int);
            }
        }
        q as u64
    } else {
        amount_remaining
    };

    let next_price_raw: u128 = match initial_fixed_delta {
        Ok(fixed) => {
            if amount_calc >= fixed {
                sqrt_price_target
            } else {
                match get_next_sqrt_price(
                    sqrt_price_current,
                    liquidity,
                    amount_calc,
                    amount_specified_is_input,
                    a_to_b,
                ) {
                    Ok(p) => p,
                    Err(e) => {
                        return Err(e);
                    },
                }
            }
        },
        Err(_) => {
            // the fixed delta to the target exceeds u64, so the remaining
            // amount cannot reach the target
            match get_next_sqrt_price(
                sqrt_price_current,
                liquidity,
                amount_calc,
                amount_specified_is_input,
                a_to_b,
            ) {
                Ok(p) => p,
                Err(e) => {
                    return Err(e);
                },
            }
        },
    };

    // keep the step inside [target, current]
    let next_price: u128 = if a_to_b {
        if next_price_raw < sqrt_price_target {
            sqrt_price_target
        } else if next_price_raw > sqrt_price_current {
            sqrt_price_current
        } else {
            next_price_raw
        }
    } else {
        if next_price_raw > sqrt_price_target {
            sqrt_price_target
        } else if next_price_raw < sqrt_price_current {
            sqrt_price_current
        } else {
            next_price_raw
        }
    };
    let is_max_swap = next_price == sqrt_price_target;

    let amount_fixed_delta = match get_amount_fixed_delta(
        sqrt_price_current,
        next_price,
        liquidity,
        amount_specified_is_input,
        a_to_b,
    ) {
        Ok(v) => v,
        Err(e) => {
            return Err(e);
        },
    };
    let amount_unfixed_delta = match get_amount_unfixed_delta(
        sqrt_price_current,
        next_price,
        liquidity,
        amount_specified_is_input,
        a_to_b,
    ) {
        Ok(v) => v,
        Err(e) => {
            return Err(e);
        },
    };

    let (amount_in, amount_out) = if amount_specified_is_input {
        (amount_fixed_delta, amount_unfixed_delta)
    } else {
        (amount_unfixed_delta, amount_fixed_delta)
    };

    let fee_amount: u64 = if amount_specified_is_input && !is_max_swap {
        match amount_remaining.checked_sub(amount_in) {
            Some(f) => f,
            None => {
                return Err(ErrorCode::AmountCalcOverflow);
            },
        }
    } else {
        calculate_fee_from_input(amount_in, fee_rate)
    };

    Ok(SwapStepComputation { amount_in, amount_out, next_price, fee_amount })
}

/// The delta of the side whose amount was specified, rounded up for an
/// input and down for an output.
fn get_amount_fixed_delta(
    sqrt_price_current: u128,
    sqrt_price_next: u128,
    liquidity: u128,
    amount_specified_is_input: bool,
    a_to_b: bool,
) -> (r: Result<u64, ErrorCode>)
    requires
        MIN_SQRT_PRICE_X64 <= sqrt_price_current <= MAX_SQRT_PRICE_X64,
        MIN_SQRT_PRICE_X64 <= sqrt_price_next <= MAX_SQRT_PRICE_X64,
    ensures
        ({
            let exact: nat = if amount_specified_is_input {
                step_amount_in(
                    sqrt_price_current as nat,
                    sqrt_price_next as nat,
                    liquidity as nat,
                    a_to_b,
                )
            } else {
                step_amount_out(
                    sqrt_price_current as nat,
                    sqrt_price_next as nat,
                    liquidity as nat,
                    a_to_b,
                )
            };
            (exact <= u64::MAX ==> r == Ok::<u64, ErrorCode>(exact as u64)) && (exact > u64::MAX
                ==> r == Err::<u64, ErrorCode>(ErrorCode::NumberCastError))
        }),
{
    if a_to_b == amount_specified_is_input {
        get_amount_delta_a(
            sqrt_price_current,
            sqrt_price_next,
            liquidity,
            amount_specified_is_input,
        )
    } else {
        get_amount_delta_b(
            sqrt_price_current,
            sqrt_price_next,
            liquidity,
            amount_specified_is_input,
        )
    }
}

/// The delta of the other side, rounded down for an output and up for an
/// input.
fn get_amount_unfixed_delta(
    sqrt_price_current: u128,
    sqrt_price_next: u128,
    liquidity: u128,
    amount_specified_is_input: bool,
    a_to_b: bool,
) -> (r: Result<u64, ErrorCode>)
    requires
        MIN_SQRT_PRICE_X64 <= sqrt_price_current <= MAX_SQRT_PRICE_X64,
        MIN_SQRT_PRICE_X64 <= sqrt_price_next <= MAX_SQRT_PRICE_X64,
    ensures
        ({
            let exact: nat = if amount_specified_is_input {
                step_amount_out(
                    sqrt_price_current as nat,
                    sqrt_price_next as nat,
                    liquidity as nat,
                    a_to_b,
                )
            } else {
                step_amount_in(
                    sqrt_price_current as nat,
                    sqrt_price_next as nat,
                    liquidity as nat,
                    a_to_b,
                )
            };
            (exact <= u64::MAX ==> r == Ok::<u64, ErrorCode>(exact as u64)) && (exact > u64::MAX
                ==> r == Err::<u64, ErrorCode>(ErrorCode::NumberCastError))
        }),
{
    if a_to_b == amount_specified_is_input {
        get_amount_delta_b(
            sqrt_price_current,
            sqrt_price_next,
            liquidity,
            !amount_specified_is_input,
        )
    } else {
        get_amount_delta_a(
            sqrt_price_current,
            sqrt_price_next,
            liquidity,
            !amount_specified_is_input,
        )
    }
}

/// The next price when the remaining amount runs out before the target.
fn get_next_sqrt_price(
    sqrt_price: u128,
    liquidity: u128,
    amount: u64,
    amount_specified_is_input: bool,
    a_to_b: bool,
) -> (r: Result<u128, ErrorCode>)
    requires
        MIN_SQRT_PRICE_X64 <= sqrt_price <= MAX_SQRT_PRICE_X64,
    ensures
        r is Err ==> (r == Err::<u128, ErrorCode>(ErrorCode::DivideByZero) || r == Err::<
            u128,
            ErrorCode,
        >(ErrorCode::SqrtPriceOutOfBounds)),
{
    if liquidity == 0 {
        return Err(ErrorCode::DivideByZero);
    }
    if a_to_b == amount_specified_is_input {
        get_next_sqrt_price_from_a_round_up(
            sqrt_price,
            liquidity,
            amount,
            amount_specified_is_input,
        )
    } else {
        get_next_sqrt_price_from_b_round_down(
            sqrt_price,
            liquidity,
            amount,
            amount_specified_is_input,
        )
    }
}

} // verus!
