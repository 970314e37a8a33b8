use solve::errors::ErrorCode;
use solve::liquidity_math::{add_liquidity_delta, convert_to_liquidity_delta};
use solve::swap_math::{calculate_fee_from_input, compute_swap};
use solve::tick::floor_division;
use solve::tick::Tick;
use solve::tick_math::{
    sqrt_price_from_tick_index, tick_index_from_sqrt_price, MAX_SQRT_PRICE_X64, MAX_TICK_INDEX,
    MIN_SQRT_PRICE_X64, MIN_TICK_INDEX,
};
use solve::token_math::{
    checked_mul_div, get_amount_delta_a, get_amount_delta_b,
    get_next_sqrt_price_from_a_round_up, get_next_sqrt_price_from_b_round_down,
    increasing_price_order, mul_shift_right_clip_u64,
};
use solve::transfer_fee::{
    calculate_fee, calculate_transfer_fee_excluded_amount,
    calculate_transfer_fee_included_amount, TransferFee,
};
use solve::u256::{wide_mul_u128, U256};

const Q64: u128 = 1u128 << 64;

#[test]
fn tick_zero_is_unit_price() {
    assert_eq!(sqrt_price_from_tick_index(0), Q64);
}

#[test]
fn tick_math_edges() {
    assert_eq!(sqrt_price_from_tick_index(MIN_TICK_INDEX), MIN_SQRT_PRICE_X64);
    assert_eq!(sqrt_price_from_tick_index(MAX_TICK_INDEX), MAX_SQRT_PRICE_X64);
}

#[test]
fn tick_math_known_values() {
    assert_eq!(sqrt_price_from_tick_index(-1), 18445821805675392311);
    assert_eq!(sqrt_price_from_tick_index(-64), 18387811781193591352);
    assert_eq!(sqrt_price_from_tick_index(64), 18505865242158250042);
}

#[test]
fn tick_from_sqrt_price_brackets() {
    for t in [-443636, -12345, -64, -1, 0, 1, 64, 443636] {
        let p = sqrt_price_from_tick_index(t);
        assert_eq!(tick_index_from_sqrt_price(&p), t);
    }
    // one unit above a tick's price still maps to that tick
    let p = sqrt_price_from_tick_index(100);
    assert_eq!(tick_index_from_sqrt_price(&(p + 1)), 100);
    assert_eq!(tick_index_from_sqrt_price(&MIN_SQRT_PRICE_X64), MIN_TICK_INDEX);
    assert_eq!(tick_index_from_sqrt_price(&MAX_SQRT_PRICE_X64), MAX_TICK_INDEX);
}

#[test]
fn floor_division_rounds_down() {
    assert_eq!(floor_division(7, 2), 3);
    assert_eq!(floor_division(-7, 2), -4);
    assert_eq!(floor_division(-8, 2), -4);
    assert_eq!(floor_division(0, 5), 0);
}

#[test]
fn full_range_indexes_for_spacing() {
    assert_eq!(Tick::full_range_indexes(64), (-443584, 443584));
    assert_eq!(Tick::full_range_indexes(32768), (-425984, 425984));
}

#[test]
fn usable_tick_checks() {
    assert!(Tick::check_is_usable_tick(-64, 64));
    assert!(!Tick::check_is_usable_tick(-63, 64));
    assert!(!Tick::check_is_usable_tick(443648, 64));
    assert!(Tick::check_is_valid_start_tick(0, 64));
    assert!(Tick::check_is_valid_start_tick(-5632, 64));
    assert!(!Tick::check_is_valid_start_tick(-5631, 64));
}

#[test]
fn liquidity_delta_math() {
    assert_eq!(add_liquidity_delta(100, 50), Ok(150));
    assert_eq!(add_liquidity_delta(100, -50), Ok(50));
    assert_eq!(add_liquidity_delta(0, -1), Err(ErrorCode::LiquidityUnderflow));
    assert_eq!(add_liquidity_delta(u128::MAX, 1), Err(ErrorCode::LiquidityOverflow));
    assert_eq!(convert_to_liquidity_delta(5, true), Ok(5));
    assert_eq!(convert_to_liquidity_delta(5, false), Ok(-5));
    assert_eq!(
        convert_to_liquidity_delta(u128::MAX, true),
        Err(ErrorCode::LiquidityTooHigh)
    );
}

#[test]
fn wide_mul_and_div() {
    let p = wide_mul_u128(u128::MAX, u128::MAX);
    // (2^128 - 1)^2 = 2^256 - 2^129 + 1
    assert_eq!(p.lo, 1);
    assert_eq!(p.hi, u128::MAX - 1);
    assert_eq!(checked_mul_div(1u128 << 100, 1u128 << 100, 1u128 << 90), Ok(1u128 << 110));
    assert_eq!(checked_mul_div(10, 10, 3), Ok(33));
    assert_eq!(checked_mul_div(1, 1, 0), Err(ErrorCode::DivideByZero));
    assert_eq!(
        checked_mul_div(u128::MAX, u128::MAX, 1),
        Err(ErrorCode::MulDivOverflow)
    );
}

#[test]
fn u256_byte_round_trip() {
    let v = wide_mul_u128(0x0123_4567_89ab_cdef_1122_3344_5566_7788, 0x99aa_bbcc_ddee_ff00);
    let bytes = v.to_le_bytes();
    let back = U256::from_le_bytes(bytes);
    assert_eq!(back.lo, v.lo);
    assert_eq!(back.hi, v.hi);
    let one = U256::from_u128(1);
    let b = one.to_le_bytes();
    assert_eq!(b[0], 1);
    assert!(b[1..].iter().all(|x| *x == 0));
}

#[test]
fn u256_narrowing() {
    assert_eq!(U256::from_u128(7).try_into_u64(), Ok(7));
    assert_eq!(
        U256::from_u128(u128::MAX).try_into_u64(),
        Err(ErrorCode::NumberCastError)
    );
    assert_eq!(U256::from_u128(u128::MAX).try_into_u128(), Ok(u128::MAX));
    let big = wide_mul_u128(u128::MAX, 2);
    assert_eq!(big.try_into_u128(), Err(ErrorCode::NumberCastError));
}

#[test]
fn amount_deltas_round_as_specified() {
    let p0 = sqrt_price_from_tick_index(-64);
    let p1 = sqrt_price_from_tick_index(64);
    let up = get_amount_delta_a(p0, p1, 1_000_000, true).unwrap();
    let down = get_amount_delta_a(p0, p1, 1_000_000, false).unwrap();
    assert!(down <= up);
    assert!(up - down <= 1);
    let bup = get_amount_delta_b(p0, p1, 1_000_000, true).unwrap();
    let bdown = get_amount_delta_b(p0, p1, 1_000_000, false).unwrap();
    assert!(bdown <= bup);
    assert!(bup - bdown <= 1);
    // exact values for the unit-price pool
    assert_eq!(get_amount_delta_a(Q64, p1, 1_000_000, true).unwrap(), 3195);
    assert_eq!(get_amount_delta_a(Q64, p1, 1_000_000, false).unwrap(), 3194);
    assert_eq!(get_amount_delta_b(p0, Q64, 1_000_000, true).unwrap(), 3195);
    assert_eq!(get_amount_delta_b(p0, Q64, 1_000_000, false).unwrap(), 3194);
}

#[test]
fn next_sqrt_prices_move_the_right_way() {
    let p = Q64;
    let down = get_next_sqrt_price_from_a_round_up(p, 1_000_000, 997, true).unwrap();
    assert!(down < p);
    assert_eq!(down, 18428370987834680440);
    let up = get_next_sqrt_price_from_b_round_down(p, 1_000_000, 997, true).unwrap();
    assert!(up > p);
    let zero = get_next_sqrt_price_from_a_round_up(p, 1_000_000, 0, true).unwrap();
    assert_eq!(zero, p);
}

#[test]
fn compute_swap_single_step_exact_in() {
    // unit price, a to b, exact-in 1000 at a 0.3% fee
    let target = sqrt_price_from_tick_index(-64);
    let step = compute_swap(1000, 3000, 1_000_000, Q64, target, true, true).unwrap();
    assert_eq!(step.amount_in, 997);
    assert_eq!(step.amount_out, 996);
    assert_eq!(step.fee_amount, 3);
    assert_eq!(step.next_price, 18428370987834680440);
    assert!(step.next_price > target);
}

#[test]
fn compute_swap_reaches_target_when_funded() {
    let target = sqrt_price_from_tick_index(-64);
    let step = compute_swap(10_000_000, 3000, 1_000_000, Q64, target, true, true).unwrap();
    assert_eq!(step.next_price, target);
}

#[test]
fn fee_from_input_is_exact_ceiling() {
    // ceil(997 * 3000 / 997000) = 3
    assert_eq!(calculate_fee_from_input(997, 3000), 3);
    assert_eq!(calculate_fee_from_input(0, 3000), 0);
    assert_eq!(calculate_fee_from_input(1_000_000, 0), 0);
}

#[test]
fn transfer_fee_math() {
    let fee = TransferFee { basis_points: 100, maximum_fee: 1_000 };
    assert_eq!(calculate_fee(&fee, 10_000), 100);
    assert_eq!(calculate_fee(&fee, 10_001), 101);
    assert_eq!(calculate_fee(&fee, 1_000_000), 1_000);
    let ex = calculate_transfer_fee_excluded_amount(&Some(fee), 10_000).unwrap();
    assert_eq!(ex.amount, 9_900);
    assert_eq!(ex.transfer_fee, 100);
    let inc = calculate_transfer_fee_included_amount(&Some(fee), 9_900).unwrap();
    assert_eq!(inc.amount, 10_000);
    assert_eq!(inc.transfer_fee, 100);
    let none = calculate_transfer_fee_included_amount(&None, 9_900).unwrap();
    assert_eq!(none.amount, 9_900);
    assert_eq!(none.transfer_fee, 0);
}

#[test]
fn price_order_and_clip() {
    assert_eq!(increasing_price_order(5, 3), (3, 5));
    assert_eq!(increasing_price_order(3, 5), (3, 5));
    assert_eq!(mul_shift_right_clip_u64(Q64, 7), 7);
    assert_eq!(mul_shift_right_clip_u64(u128::MAX, u128::MAX), u64::MAX);
}
