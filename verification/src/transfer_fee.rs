//! Token transfer fees, modelled as plain values: a basis-point rate and a
//! per-transfer cap.

use vstd::prelude::*;

use crate::errors::ErrorCode;
use crate::token_math::div_round_up;

verus! {

/// 100% in basis points.
pub const MAX_FEE_BASIS_POINTS: u16 = 10_000;

/// The fee a token charges on transfers during the current epoch.
#[derive(Clone, Copy, Debug, PartialEq, Eq, Structural)]
pub struct TransferFee {
    /// Fee rate in basis points of the transferred amount.
    pub basis_points: u16,
    /// Largest fee one transfer can pay.
    pub maximum_fee: u64,
}

impl TransferFee {
    /// A meaningful fee never exceeds 100%.
    pub open spec fn wf(self) -> bool {
        self.basis_points <= MAX_FEE_BASIS_POINTS
    }
}

/// The fee taken from transferring `amount`:
/// `min(ceil(amount * basis_points / 10000), maximum_fee)`.
pub open spec fn transfer_fee_spec(fee: TransferFee, amount: nat) -> nat {
    if fee.basis_points == 0 || amount == 0 {
        0
    } else {
        let raw = div_round_up(amount * fee.basis_points as nat, MAX_FEE_BASIS_POINTS as nat);
        if raw > fee.maximum_fee {
            fee.maximum_fee as nat
        } else {
            raw
        }
    }
}

/// The fee on transferring `amount`, capped by the maximum fee.
pub fn calculate_fee(fee: &TransferFee, amount: u64) -> (r: u64)
    requires
        fee.wf(),
    ensures
        r == transfer_fee_spec(*fee, amount as nat),
        r <= amount,
        r <= fee.maximum_fee,
{
    if fee.basis_points == 0 || amount == 0 {
        return 0;
    }
    proof {
        vstd::arithmetic::mul::lemma_mul_upper_bound(
            amount as int,
            u64::MAX as int,
            fee.basis_points as int,
            MAX_FEE_BASIS_POINTS as int,
        );
        vstd::arithmetic::mul::lemma_mul_nonnegative(amount as int, fee.basis_points as int);
        assert(amount as int * fee.basis_points as int <= amount as int
            * MAX_FEE_BASIS_POINTS as int) by {
            vstd::arithmetic::mul::lemma_mul_inequality(
                fee.basis_points as int,
                MAX_FEE_BASIS_POINTS as int,
                amount as int,
            );
            vstd::arithmetic::mul::lemma_mul_is_commutative(
                amount as int,
                fee.basis_points as int,
            );
            vstd::arithmetic::mul::lemma_mul_is_commutative(
                amount as int,
                MAX_FEE_BASIS_POINTS as int,
            );
        }
        assert((amount as int * MAX_FEE_BASIS_POINTS as int) / (MAX_FEE_BASIS_POINTS as int)
            == amount as int) by {
            vstd::arithmetic::div_mod::lemma_div_by_multiple(
                amount as int,
                MAX_FEE_BASIS_POINTS as int,
            );
            vstd::arithmetic::mul::lemma_mul_is_commutative(
                amount as int,
                MAX_FEE_BASIS_POINTS as int,
            );
        }
        vstd::arithmetic::div_mod::lemma_div_is_ordered(
            amount as int * fee.basis_points as int,
            amount as int * MAX_FEE_BASIS_POINTS as int,
            MAX_FEE_BASIS_POINTS as int,
        );
        let lhs = amount as int * fee.basis_points as int;
        let rhs = amount as int * MAX_FEE_BASIS_POINTS as int;
        if lhs < rhs {
            vstd::arithmetic::div_mod::lemma_multiply_divide_lt(
                lhs,
                MAX_FEE_BASIS_POINTS as int,
                amount as int,
            );
        }
    }
    let num: u128 = (amount as u128) * (fee.basis_points as u128);
    let den: u128 = MAX_FEE_BASIS_POINTS as u128;
    let q = num / den;
    let rem = num % den;
    let raw: u128 = if rem != 0 {
        q + 1
    } else {
        q
    };
    proof {
        if fee.basis_points < MAX_FEE_BASIS_POINTS {
            vstd::arithmetic::mul::lemma_mul_strict_inequality(
                fee.basis_points as int,
                MAX_FEE_BASIS_POINTS as int,
                amount as int,
            );
            vstd::arithmetic::mul::lemma_mul_is_commutative(
                amount as int,
                fee.basis_points as int,
            );
            vstd::arithmetic::mul::lemma_mul_is_commutative(
                MAX_FEE_BASIS_POINTS as int,
                amount as int,
            );
            vstd::arithmetic::div_mod::lemma_multiply_divide_lt(
                num as int,
                den as int,
                amount as int,
            );
        } else {
            // at 100% the division is exact and yields the amount itself
            vstd::arithmetic::div_mod::lemma_div_by_multiple(amount as int, den as int);
            vstd::arithmetic::mul::lemma_mul_is_commutative(amount as int, den as int);
            vstd::arithmetic::div_mod::lemma_mod_multiples_basic(amount as int, den as int);
        }
    }
    if raw > fee.maximum_fee as u128 {
        fee.maximum_fee
    } else {
        raw as u64
    }
}

/// An amount with its transfer fee already taken out.
#[derive(Clone, Copy, Debug, PartialEq, Eq, Structural)]
pub struct TransferFeeExcludedAmount {
    pub amount: u64,
    pub transfer_fee: u64,
}

/// An amount grossed up to cover its transfer fee.
#[derive(Clone, Copy, Debug, PartialEq, Eq, Structural)]
pub struct TransferFeeIncludedAmount {
    pub amount: u64,
    pub transfer_fee: u64,
}

/// What remains of `transfer_fee_included_amount` after the token's
/// transfer fee; without a fee the amount passes through whole.
pub fn calculate_transfer_fee_excluded_amount(
    transfer_fee: &Option<TransferFee>,
    transfer_fee_included_amount: u64,
) -> (r: Result<TransferFeeExcludedAmount, ErrorCode>)
    requires
        transfer_fee is Some ==> transfer_fee->0.wf(),
    ensures
        transfer_fee is None ==> r == Ok::<TransferFeeExcludedAmount, ErrorCode>(
            TransferFeeExcludedAmount { amount: transfer_fee_included_amount, transfer_fee: 0 },
        ),
        transfer_fee is Some ==> ({
            let fee = transfer_fee_spec(transfer_fee->0, transfer_fee_included_amount as nat);
            r == Ok::<TransferFeeExcludedAmount, ErrorCode>(
                TransferFeeExcludedAmount {
                    amount: (transfer_fee_included_amount - fee) as u64,
                    transfer_fee: fee as u64,
                },
            )
        }),
{
    match transfer_fee {
        None => Ok(
            TransferFeeExcludedAmount { amount: transfer_fee_included_amount, transfer_fee: 0 },
        ),
        Some(fee) => {
            let transfer_fee_amount = calculate_fee(fee, transfer_fee_included_amount);
            Ok(
                TransferFeeExcludedAmount {
                    amount: transfer_fee_included_amount - transfer_fee_amount,
                    transfer_fee: transfer_fee_amount,
                },
            )
        },
    }
}

/// The fee to add on top of `post_fee_amount` so the recipient nets it:
/// `ceil(post * 10000 / (10000 - bps)) - post`, capped at the maximum fee;
/// at a 100% rate the cap itself.
pub open spec fn inverse_fee_spec(fee: TransferFee, post_fee_amount: nat) -> nat {
    if post_fee_amount == 0 {
        0
    } else if fee.basis_points == 0 {
        0
    } else if fee.basis_points == MAX_FEE_BASIS_POINTS {
        fee.maximum_fee as nat
    } else {
        let raw = crate::token_math::div_round_up(
            post_fee_amount * MAX_FEE_BASIS_POINTS as nat,
            (MAX_FEE_BASIS_POINTS - fee.basis_points) as nat,
        );
        if raw - post_fee_amount >= fee.maximum_fee {
            fee.maximum_fee as nat
        } else {
            (raw - post_fee_amount) as nat
        }
    }
}

/// The gross amount whose transfer leaves exactly
/// `transfer_fee_excluded_amount` after the fee, together with that fee.
///
/// At a 100% rate the cap itself is the fee. The grossed-up amount is
/// re-checked against the forward fee computation; a mismatch (or leaving
/// `u64`) fails with `TransferFeeCalculationError`.
pub fn calculate_transfer_fee_included_amount(
    transfer_fee: &Option<TransferFee>,
    transfer_fee_excluded_amount: u64,
) -> (r: Result<TransferFeeIncludedAmount, ErrorCode>)
    requires
        transfer_fee is Some ==> transfer_fee->0.wf(),
    ensures
        transfer_fee is None ==> r == Ok::<TransferFeeIncludedAmount, ErrorCode>(
            TransferFeeIncludedAmount { amount: transfer_fee_excluded_amount, transfer_fee: 0 },
        ),
        transfer_fee_excluded_amount == 0 ==> r == Ok::<TransferFeeIncludedAmount, ErrorCode>(
            TransferFeeIncludedAmount { amount: 0, transfer_fee: 0 },
        ),
        transfer_fee is Some && transfer_fee_excluded_amount > 0 ==> ({
            let fee = inverse_fee_spec(transfer_fee->0, transfer_fee_excluded_amount as nat);
            let gross: nat = fee + transfer_fee_excluded_amount as nat;
            &&& (gross <= u64::MAX && transfer_fee_spec(transfer_fee->0, gross) == fee ==> r
                == Ok::<TransferFeeIncludedAmount, ErrorCode>(
                TransferFeeIncludedAmount {
                    amount: gross as u64,
                    transfer_fee: fee as u64,
                },
            ))
            &&& (!(gross <= u64::MAX && transfer_fee_spec(transfer_fee->0, gross) == fee) ==> r
                == Err::<TransferFeeIncludedAmount, ErrorCode>(
                ErrorCode::TransferFeeCalculationError,
            ))
        }),
        r is Ok ==> ({
            let u = r->Ok_0;
            &&& u.amount == u.transfer_fee + transfer_fee_excluded_amount
            &&& (transfer_fee is Some ==> u.transfer_fee == transfer_fee_spec(
                transfer_fee->0,
                u.amount as nat,
            ))
        }),
{
    if transfer_fee_excluded_amount == 0 {
        return Ok(TransferFeeIncludedAmount { amount: 0, transfer_fee: 0 });
    }
    match transfer_fee {
        None => Ok(
            TransferFeeIncludedAmount { amount: transfer_fee_excluded_amount, transfer_fee: 0 },
        ),
        Some(fee) => {
            let transfer_fee_amount: u64 = if fee.basis_points == MAX_FEE_BASIS_POINTS {
                // at a 100% rate every transfer pays the cap
                fee.maximum_fee
            } else {
                calculate_inverse_fee(fee, transfer_fee_excluded_amount)
            };
            if transfer_fee_amount > u64::MAX - transfer_fee_excluded_amount {
                return Err(ErrorCode::TransferFeeCalculationError);
            }
            let transfer_fee_included_amount = transfer_fee_excluded_amount + transfer_fee_amount;
            // re-derive the fee forwards as a consistency check
            let verification = calculate_fee(fee, transfer_fee_included_amount);
            if transfer_fee_amount != verification {
                return Err(ErrorCode::TransferFeeCalculationError);
            }
            Ok(
                TransferFeeIncludedAmount {
                    amount: transfer_fee_included_amount,
                    transfer_fee: transfer_fee_amount,
                },
            )
        },
    }
}

/// The fee to add on top of `post_fee_amount` so the recipient nets it:
/// `ceil(post * 10000 / (10000 - bps)) - post`, capped at the maximum fee.
fn calculate_inverse_fee(fee: &TransferFee, post_fee_amount: u64) -> (r: u64)
    requires
        fee.basis_points < MAX_FEE_BASIS_POINTS,
        post_fee_amount >= 1,
    ensures
        r == inverse_fee_spec(*fee, post_fee_amount as nat),
{
    if fee.basis_points == 0 {
        return 0;
    }
    proof {
        vstd::arithmetic::mul::lemma_mul_upper_bound(
            post_fee_amount as int,
            u64::MAX as int,
            MAX_FEE_BASIS_POINTS as int,
            MAX_FEE_BASIS_POINTS as int,
        );
        vstd::arithmetic::mul::lemma_mul_nonnegative(
            post_fee_amount as int,
            MAX_FEE_BASIS_POINTS as int,
        );
        // the grossed-up value is at least the net value
        vstd::arithmetic::mul::lemma_mul_inequality(
            (MAX_FEE_BASIS_POINTS - fee.basis_points) as int,
            MAX_FEE_BASIS_POINTS as int,
            post_fee_amount as int,
        );
        vstd::arithmetic::mul::lemma_mul_is_commutative(
            post_fee_amount as int,
            MAX_FEE_BASIS_POINTS as int,
        );
        vstd::arithmetic::mul::lemma_mul_is_commutative(
            post_fee_amount as int,
            (MAX_FEE_BASIS_POINTS - fee.basis_points) as int,
        );
        vstd::arithmetic::div_mod::lemma_div_is_ordered(
            post_fee_amount as int * (MAX_FEE_BASIS_POINTS - fee.basis_points) as int,
            post_fee_amount as int * MAX_FEE_BASIS_POINTS as int,
            (MAX_FEE_BASIS_POINTS - fee.basis_points) as int,
        );
        vstd::arithmetic::div_mod::lemma_div_by_multiple(
            post_fee_amount as int,
            (MAX_FEE_BASIS_POINTS - fee.basis_points) as int,
        );
    }
    let num: u128 = (post_fee_amount as u128) * (MAX_FEE_BASIS_POINTS as u128);
    let den: u128 = (MAX_FEE_BASIS_POINTS - fee.basis_points) as u128;
    let q = num / den;
    let rem = num % den;
    let raw: u128 = if rem != 0 {
        q + 1
    } else {
        q
    };
    let fee_u128: u128 = raw - (post_fee_amount as u128);
    // a fee below the cap fits in 64 bits, since the cap does
    if fee_u128 >= fee.maximum_fee as u128 {
        fee.maximum_fee
    } else {
        fee_u128 as u64
    }
}

/// A well-formed transfer fee never exceeds the amount transferred.
pub proof fn lemma_transfer_fee_le_amount(fee: TransferFee, amount: nat)
    requires
        fee.wf(),
    ensures
        transfer_fee_spec(fee, amount) <= amount,
{
    if fee.basis_points == 0 || amount == 0 {
    } else {
        let num = amount * fee.basis_points as nat;
        let den = MAX_FEE_BASIS_POINTS as nat;
        vstd::arithmetic::mul::lemma_mul_nonnegative(amount as int, fee.basis_points as int);
        assert(num <= amount * den) by {
            vstd::arithmetic::mul::lemma_mul_inequality(
                fee.basis_points as int,
                den as int,
                amount as int,
            );
            vstd::arithmetic::mul::lemma_mul_is_commutative(amount as int, fee.basis_points as int);
            vstd::arithmetic::mul::lemma_mul_is_commutative(amount as int, den as int);
        }
        vstd::arithmetic::div_mod::lemma_div_by_multiple(amount as int, den as int);
        vstd::arithmetic::mul::lemma_mul_is_commutative(amount as int, den as int);
        vstd::arithmetic::div_mod::lemma_div_is_ordered(num as int, (amount * den) as int, den as int);
        if fee.basis_points < MAX_FEE_BASIS_POINTS {
            assert(num < amount * den) by {
                vstd::arithmetic::mul::lemma_mul_strict_inequality(
                    fee.basis_points as int,
                    den as int,
                    amount as int,
                );
                vstd::arithmetic::mul::lemma_mul_is_commutative(
                    amount as int,
                    fee.basis_points as int,
                );
                vstd::arithmetic::mul::lemma_mul_is_commutative(amount as int, den as int);
            }
            vstd::arithmetic::div_mod::lemma_multiply_divide_lt(num as int, den as int, amount as int);
        } else {
            vstd::arithmetic::div_mod::lemma_mod_multiples_basic(amount as int, den as int);
        }
    }
}

} // verus!
