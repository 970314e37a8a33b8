//! Signed adjustments of unsigned liquidity amounts.

use vstd::prelude::*;

use crate::errors::ErrorCode;

verus! {

/// Adds a signed liquidity delta to an unsigned liquidity amount.
///
/// Returns the exact mathematical sum when it fits in `u128`, and reports
/// overflow or underflow otherwise.
pub fn add_liquidity_delta(liquidity: u128, delta: i128) -> (r: Result<u128, ErrorCode>)
    ensures
        0 <= liquidity + delta <= u128::MAX ==> r == Ok::<u128, ErrorCode>((liquidity + delta) as u128),
        liquidity + delta > u128::MAX ==> r == Err::<u128, ErrorCode>(ErrorCode::LiquidityOverflow),
        liquidity + delta < 0 ==> r == Err::<u128, ErrorCode>(ErrorCode::LiquidityUnderflow),
{
    if delta == 0 {
        return Ok(liquidity);
    }
    if delta > 0 {
        match liquidity.checked_add(delta as u128) {
            Some(v) => Ok(v),
            None => Err(ErrorCode::LiquidityOverflow),
        }
    } else {
        let magnitude: u128 = if delta == i128::MIN {
            (i128::MAX as u128) + 1
        } else {
            (-delta) as u128
        };
        match liquidity.checked_sub(magnitude) {
            Some(v) => Ok(v),
            None => Err(ErrorCode::LiquidityUnderflow),
        }
    }
}

/// Converts an unsigned liquidity amount into a signed liquidity delta with
/// the requested sign, rejecting amounts that do not fit in `i128`.
pub fn convert_to_liquidity_delta(liquidity_amount: u128, positive: bool) -> (r: Result<
    i128,
    ErrorCode,
>)
    ensures
        liquidity_amount > i128::MAX ==> r == Err::<i128, ErrorCode>(ErrorCode::LiquidityTooHigh),
        liquidity_amount <= i128::MAX && positive ==> r == Ok::<i128, ErrorCode>(
            liquidity_amount as i128,
        ),
        liquidity_amount <= i128::MAX && !positive ==> r == Ok::<i128, ErrorCode>(
            (-(liquidity_amount as int)) as i128,
        ),
{
    if liquidity_amount > i128::MAX as u128 {
        return Err(ErrorCode::LiquidityTooHigh);
    }
    Ok(
        if positive {
            liquidity_amount as i128
        } else {
            -(liquidity_amount as i128)
        },
    )
}

} // verus!
