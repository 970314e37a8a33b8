use solve::address::Address;
use solve::errors::ErrorCode;
use solve::growth_math::{wadd, wsub};
use solve::oracle::{AdaptiveFeeConstants, AdaptiveFeeInfo, AdaptiveFeeVariables};
use solve::liquidity_manager::{
    calculate_fee_and_reward_growths, calculate_liquidity_token_deltas,
    calculate_modify_liquidity, check_token_max, check_token_min, sync_modify_liquidity_values,
};
use solve::position::Position;
use solve::solve::Solve;
use solve::sparse_swap::get_start_tick_indexes;
use solve::swap_entry::{check_amounts_against_threshold, swap_with_transfer_fee_extension};
use solve::swap_manager::swap;
use solve::tick::{Tick, TickUpdate};
use solve::tick_array::{ProxiedTickArray, SwapTickSequence, TickArray};
use solve::tick_math::sqrt_price_from_tick_index;
use solve::fee_rate_manager::FeeRateManager;
use solve::two_hop::compute_two_hop_swap;
use solve::transfer_fee::TransferFee;

const Q64: u128 = 1u128 << 64;

fn addr(n: u128) -> Address {
    Address::new(0, n)
}

fn test_pool(tick_spacing: u16, fee_rate: u16, protocol_fee_rate: u16) -> Solve {
    let mut pool = Solve::default();
    pool.initialize(
        addr(1),
        protocol_fee_rate,
        addr(9),
        tick_spacing,
        255,
        tick_spacing,
        Q64,
        fee_rate,
        addr(2),
        addr(3),
        addr(4),
        addr(5),
    )
    .unwrap();
    pool
}

fn init_tick(net: i128, gross: u128) -> TickUpdate {
    TickUpdate {
        initialized: true,
        liquidity_net: net,
        liquidity_gross: gross,
        fee_growth_outside_a: 0,
        fee_growth_outside_b: 0,
        reward_growths_outside: [0, 0, 0],
    }
}

/// Tick arrays for a spacing-64 pool at tick 0 trading downwards, with the
/// boundary ticks of a position at [-64, 64] and optionally [-128, -64].
fn downward_sequence(second_position: bool) -> SwapTickSequence {
    let mut ta0 = TickArray::default();
    ta0.initialize(addr(1), 0, 64).unwrap();
    ta0.update_tick(64, 64, &init_tick(-1_000_000, 1_000_000)).unwrap();

    let mut ta1 = TickArray::default();
    ta1.initialize(addr(1), -5632, 64).unwrap();
    if second_position {
        ta1.update_tick(-64, 64, &init_tick(1_000_000 - 500_000, 1_500_000)).unwrap();
        ta1.update_tick(-128, 64, &init_tick(500_000, 500_000)).unwrap();
    } else {
        ta1.update_tick(-64, 64, &init_tick(1_000_000, 1_000_000)).unwrap();
    }

    let mut ta2 = TickArray::default();
    ta2.initialize(addr(1), -11264, 64).unwrap();

    SwapTickSequence::new(
        ProxiedTickArray::Initialized(ta0),
        Some(ProxiedTickArray::Initialized(ta1)),
        Some(ProxiedTickArray::Initialized(ta2)),
    )
}

#[test]
fn swap_single_in_range_exact_in() {
    let mut pool = test_pool(64, 3000, 0);
    pool.liquidity = 1_000_000;
    let mut seq = downward_sequence(false);
    let update = swap(&pool, &mut seq, 1000, 0, true, true, 100, &None).unwrap();
    assert_eq!(update.amount_a, 1000);
    assert_eq!(update.amount_b, 996);
    assert_eq!(update.lp_fee, 3);
    assert_eq!(update.next_protocol_fee, 0);
    assert_eq!(update.next_liquidity, 1_000_000);
    assert_eq!(update.next_sqrt_price, 18428370987834680440);
    assert_eq!(update.next_tick_index, -20);
    // the whole fee entered the growth accumulator: (3 << 64) / L
    assert_eq!(update.next_fee_growth_global, (3u128 << 64) / 1_000_000);
    assert!(update.next_sqrt_price <= pool.sqrt_price);
}

#[test]
fn swap_splits_protocol_fee() {
    let mut pool = test_pool(64, 3000, 2500);
    pool.liquidity = 1_000_000;
    let mut seq = downward_sequence(false);
    let limit = sqrt_price_from_tick_index(-64);
    // a trade that stops exactly at the limit pays its fee on the way
    let update = swap(&pool, &mut seq, 100_000, limit, true, true, 100, &None).unwrap();
    assert_eq!(update.next_sqrt_price, limit);
    // total fee 10 on 3205 of input: a quarter goes to the protocol
    assert_eq!(update.next_protocol_fee, 2);
    assert_eq!(update.lp_fee, 8);
    // only the liquidity providers' share enters the growth accumulator
    assert_eq!(update.next_fee_growth_global, (8u128 << 64) / 1_000_000);
}

#[test]
fn swap_crosses_initialized_tick() {
    let mut pool = test_pool(64, 3000, 0);
    pool.liquidity = 1_000_000;
    let mut seq = downward_sequence(true);
    let limit = sqrt_price_from_tick_index(-96);
    let update = swap(&pool, &mut seq, 10_000, limit, true, true, 100, &None).unwrap();
    // the swap crossed tick -64: its net left the active liquidity
    assert_eq!(update.next_liquidity, 500_000);
    assert_eq!(update.next_sqrt_price, limit);
    assert!(update.next_tick_index < -64);
    // the crossed tick flipped its fee-growth snapshot to the other side
    let crossed = seq.get_tick(1, -64, 64).unwrap();
    assert!(crossed.initialized);
    assert_eq!(crossed.liquidity_net, 500_000);
    assert!(crossed.fee_growth_outside_a > 0);
    // the input spent stays at most the amount offered
    assert!(update.amount_a <= 10_000);
}

#[test]
fn swap_rejects_malformed_requests() {
    let mut pool = test_pool(64, 3000, 0);
    pool.liquidity = 1_000_000;
    let mut seq = downward_sequence(false);
    assert!(matches!(
        swap(&pool, &mut seq, 0, 0, true, true, 100, &None),
        Err(ErrorCode::ZeroTradableAmount)
    ));
    let mut seq2 = downward_sequence(false);
    assert!(matches!(
        swap(&pool, &mut seq2, 1000, 1, true, true, 100, &None),
        Err(ErrorCode::SqrtPriceOutOfBounds)
    ));
    let mut seq3 = downward_sequence(false);
    // an a-to-b swap needs a limit below the current price
    assert!(matches!(
        swap(&pool, &mut seq3, 1000, Q64 + 1, true, true, 100, &None),
        Err(ErrorCode::InvalidSqrtPriceLimitDirection)
    ));
}

#[test]
fn exact_out_without_limit_must_fill() {
    // a full-range-only spacing makes one array span the whole tick range
    let pool = test_pool(32768, 3000, 0);
    let mut ta0 = TickArray::default();
    ta0.initialize(addr(1), 0, 32768).unwrap();
    let mut ta1 = TickArray::default();
    ta1.initialize(addr(1), -2883584, 32768).unwrap();
    let mut seq = SwapTickSequence::new(
        ProxiedTickArray::Initialized(ta0),
        Some(ProxiedTickArray::Initialized(ta1)),
        None,
    );
    // no liquidity anywhere: the price runs to its bound underfilled
    let r = swap(&pool, &mut seq, 10_000, 0, false, true, 100, &None);
    assert!(matches!(r, Err(ErrorCode::PartialFillError)));
}

#[test]
fn position_round_trip_accrues_only_fees() {
    let mut pool = test_pool(64, 3000, 0);
    let mut position = Position::default();
    position.open_position(addr(10), 64, addr(11), -64, 64).unwrap();

    let mut ta_lower = TickArray::default();
    ta_lower.initialize(addr(1), -5632, 64).unwrap();
    let mut ta_upper = TickArray::default();
    ta_upper.initialize(addr(1), 0, 64).unwrap();

    // open with a million units of liquidity: deposits round up
    let (da_in, db_in) =
        calculate_liquidity_token_deltas(pool.tick_current_index, pool.sqrt_price, &position, 1_000_000)
            .unwrap();
    assert_eq!((da_in, db_in), (3195, 3195));
    let open =
        calculate_modify_liquidity(&pool, &position, &ta_lower, &ta_upper, 1_000_000, 50).unwrap();
    sync_modify_liquidity_values(&mut pool, &mut position, &mut ta_lower, &mut ta_upper, &open, 50)
        .unwrap();
    assert_eq!(pool.liquidity, 1_000_000);
    assert_eq!(position.liquidity, 1_000_000);

    // a small swap accrues 3 units of fee to the only position
    let mut seq = SwapTickSequence::new(
        ProxiedTickArray::Initialized({
            let mut t = TickArray::default();
            t.initialize(addr(1), 0, 64).unwrap();
            t.update_tick(64, 64, &init_tick(-1_000_000, 1_000_000)).unwrap();
            t
        }),
        Some(ProxiedTickArray::Initialized({
            let mut t = TickArray::default();
            t.initialize(addr(1), -5632, 64).unwrap();
            t.update_tick(-64, 64, &init_tick(1_000_000, 1_000_000)).unwrap();
            t
        })),
        None,
    );
    let update = swap(&pool, &mut seq, 1000, 0, true, true, 100, &None).unwrap();
    assert_eq!(update.next_liquidity, 1_000_000);
    pool.update_after_swap(
        update.next_liquidity,
        update.next_tick_index,
        update.next_sqrt_price,
        update.next_fee_growth_global,
        update.next_reward_infos,
        update.next_protocol_fee,
        true,
        100,
    );

    // settle: the accrued fee lands in fee_owed_a, minus rounding dust
    let (settled, rewards) =
        calculate_fee_and_reward_growths(&pool, &position, &ta_lower, &ta_upper, 100).unwrap();
    assert_eq!(settled.fee_owed_a, 2);
    assert_eq!(settled.fee_owed_b, 0);
    position.update(&settled);
    pool.update_rewards(rewards, 100);

    // withdraw everything: amounts round down at the moved price
    let (da_out, db_out) =
        calculate_liquidity_token_deltas(pool.tick_current_index, pool.sqrt_price, &position, -1_000_000)
            .unwrap();
    assert_eq!((da_out, db_out), (4191, 2198));
    // per-token conservation: what leaves never exceeds what came in, and
    // the difference is the rounding dust the pool keeps
    assert!(da_out + position.fee_owed_a <= da_in + update.amount_a);
    assert!(db_out + update.amount_b <= db_in);
    assert_eq!(db_in - db_out - update.amount_b, 1);
    let close =
        calculate_modify_liquidity(&pool, &position, &ta_lower, &ta_upper, -1_000_000, 100)
            .unwrap();
    sync_modify_liquidity_values(&mut pool, &mut position, &mut ta_lower, &mut ta_upper, &close, 100)
        .unwrap();
    assert_eq!(pool.liquidity, 0);
    assert_eq!(position.liquidity, 0);

    // collect fees, then the position is empty and can close
    position.reset_fees_owed();
    assert!(Position::is_position_empty(&position));
    // the boundary ticks reset to uninitialized
    assert!(!ta_lower.get_tick(-64, 64).unwrap().initialized);
    assert!(!ta_upper.get_tick(64, 64).unwrap().initialized);
}

#[test]
fn swap_with_transfer_fees_and_thresholds() {
    let mut pool = test_pool(64, 3000, 0);
    pool.liquidity = 1_000_000;
    let mut seq = downward_sequence(false);
    let input_fee = Some(TransferFee { basis_points: 100, maximum_fee: u64::MAX });
    // exact-in 1000 with a 1% input transfer fee: the pool only sees 990
    let update = swap_with_transfer_fee_extension(
        &pool, &input_fee, &None, &mut seq, 1000, 0, true, true, 100, &None,
    )
    .unwrap();
    assert_eq!(update.amount_a, 1000);
    assert!(update.amount_b < 996);

    // thresholds: exact-in wants a minimum output
    assert!(check_amounts_against_threshold(true, true, update.amount_b, update.amount_a, update.amount_b, &None).is_ok());
    assert_eq!(
        check_amounts_against_threshold(true, true, update.amount_b + 1, update.amount_a, update.amount_b, &None)
            .unwrap_err(),
        ErrorCode::AmountOutBelowMinimum
    );
    // exact-out caps the input
    assert!(check_amounts_against_threshold(false, true, update.amount_a, update.amount_a, update.amount_b, &None).is_ok());
    assert_eq!(
        check_amounts_against_threshold(false, true, update.amount_a - 1, update.amount_a, update.amount_b, &None)
            .unwrap_err(),
        ErrorCode::AmountInAboveMaximum
    );
}

#[test]
fn start_tick_indexes_follow_the_walk_order() {
    assert_eq!(get_start_tick_indexes(0, 64, true), vec![0, -5632, -11264]);
    assert_eq!(get_start_tick_indexes(0, 64, false), vec![0, 5632, 11264]);
    // one spacing below the boundary the next array takes over
    assert_eq!(get_start_tick_indexes(5631, 64, false), vec![5632, 11264, 16896]);
    assert_eq!(get_start_tick_indexes(-1, 64, true), vec![-5632, -11264, -16896]);
    // near the bottom of the range invalid boundaries drop out
    let low = get_start_tick_indexes(-443600, 64, true);
    assert_eq!(low, vec![-444928]);
}

#[test]
fn zeroed_placeholder_reads_as_empty() {
    let placeholder = ProxiedTickArray::Uninitialized(solve::tick_array::ZeroedTickArray::new(0));
    let t = placeholder.get_tick(64, 64).unwrap();
    assert_eq!(t, Tick::default());
    assert_eq!(
        placeholder.get_next_init_tick_index(100, 64, true).unwrap(),
        None
    );
}

#[test]
fn adaptive_fee_climbs_while_crossing_groups() {
    let mut pool = test_pool(64, 1000, 0);
    pool.liquidity = 1_000_000;
    let info = AdaptiveFeeInfo {
        constants: AdaptiveFeeConstants {
            filter_period: 10,
            decay_period: 60,
            reduction_factor: 5000,
            adaptive_fee_control_factor: 10_000,
            max_volatility_accumulator: 100_000,
            tick_group_size: 1,
            major_swap_threshold_ticks: 10,
        },
        variables: AdaptiveFeeVariables::default(),
    };
    let mut seq = downward_sequence(false);
    let limit = sqrt_price_from_tick_index(-64);
    let update = swap(&pool, &mut seq, 100_000, limit, true, true, 2, &Some(info)).unwrap();
    assert_eq!(update.next_sqrt_price, limit);
    let next_info = update.next_adaptive_fee_info.unwrap();
    // the swap walked down through tick groups: the accumulator grew, and
    // never past its cap
    assert!(next_info.variables.volatility_accumulator >= 50_000);
    assert!(next_info.variables.volatility_accumulator <= 100_000);
    // the adaptive component charged more than the base fee alone would
    let mut flat_seq = downward_sequence(false);
    let flat = swap(&pool, &mut flat_seq, 100_000, limit, true, true, 2, &None).unwrap();
    assert!(update.lp_fee + update.next_protocol_fee > flat.lp_fee + flat.next_protocol_fee);
    // and charged correspondingly more input for the same price span
    assert!(update.amount_a >= flat.amount_a);
}

/// Tick arrays for a spacing-64 pool at tick 0 trading upwards.
fn upward_sequence() -> SwapTickSequence {
    let mut ta0 = TickArray::default();
    ta0.initialize(addr(1), 0, 64).unwrap();
    ta0.update_tick(64, 64, &init_tick(-1_000_000, 1_000_000)).unwrap();
    let mut ta1 = TickArray::default();
    ta1.initialize(addr(1), 5632, 64).unwrap();
    let mut ta2 = TickArray::default();
    ta2.initialize(addr(1), 11264, 64).unwrap();
    SwapTickSequence::new(
        ProxiedTickArray::Initialized(ta0),
        Some(ProxiedTickArray::Initialized(ta1)),
        Some(ProxiedTickArray::Initialized(ta2)),
    )
}

#[test]
fn swap_b_to_a_raises_the_price() {
    let mut pool = test_pool(64, 3000, 0);
    pool.liquidity = 1_000_000;
    let mut seq = upward_sequence();
    let update = swap(&pool, &mut seq, 1000, 0, true, false, 100, &None).unwrap();
    assert_eq!(update.amount_b, 1000);
    assert_eq!(update.amount_a, 996);
    assert_eq!(update.lp_fee, 3);
    assert_eq!(update.next_sqrt_price, 18465135477551040038);
    assert_eq!(update.next_tick_index, 19);
    assert!(update.next_sqrt_price >= pool.sqrt_price);
    // the fee accrues on the input side, token B
    assert_eq!(update.next_fee_growth_global, (3u128 << 64) / 1_000_000);
}

#[test]
fn growth_accumulators_wrap_cleanly() {
    // near the top of the accumulator a further add wraps past zero, and
    // the wrapping difference still recovers the growth in between
    let near_top = u128::MAX - 10;
    let later = wadd(near_top, 25);
    assert_eq!(later, 14);
    assert_eq!(wsub(later, near_top), 25);
    assert_eq!(wsub(5, 0), 5);
    assert_eq!(wsub(0, 1), u128::MAX);
}

#[test]
fn liquidity_slippage_bounds() {
    assert!(check_token_max(100, 200, 100, 200).is_ok());
    assert!(matches!(
        check_token_max(100, 200, 101, 200),
        Err(ErrorCode::TokenMaxExceeded)
    ));
    assert!(check_token_min(100, 200, 100, 200).is_ok());
    assert!(matches!(
        check_token_min(100, 200, 100, 199),
        Err(ErrorCode::TokenMinSubceeded)
    ));
}

#[test]
fn two_hop_exact_in_feeds_hop_one_output_to_hop_two() {
    let mut pool_one = test_pool(64, 3000, 0);
    pool_one.liquidity = 1_000_000;
    let mut pool_two = test_pool(64, 3000, 0);
    pool_two.liquidity = 1_000_000;
    let mut seq_one = downward_sequence(false);
    let mut seq_two = downward_sequence(false);
    let (u1, u2) = compute_two_hop_swap(
        &pool_one, &pool_two, &mut seq_one, &mut seq_two,
        &None, &None, &None,
        1000, true, true, true, 0, 0, 100, &None, &None,
    )
    .unwrap();
    assert_eq!(u1.amount_a, 1000);
    assert_eq!(u1.amount_b, 996);
    // the intermediate token cancels: hop two consumes exactly hop one's output
    assert_eq!(u2.amount_a, u1.amount_b);
    // and hop two charges its own fee on the way out
    assert_eq!(u2.amount_b, 992);
}

#[test]
fn two_hop_exact_out_solves_hop_one_backwards() {
    let mut pool_one = test_pool(64, 3000, 0);
    pool_one.liquidity = 1_000_000;
    let mut pool_two = test_pool(64, 3000, 0);
    pool_two.liquidity = 1_000_000;
    let mut seq_one = downward_sequence(false);
    let mut seq_two = downward_sequence(false);
    let (u1, u2) = compute_two_hop_swap(
        &pool_one, &pool_two, &mut seq_one, &mut seq_two,
        &None, &None, &None,
        500, false, true, true, 0, 0, 100, &None, &None,
    )
    .unwrap();
    // the requested output comes out of the second hop
    assert_eq!(u2.amount_b, 500);
    // hop one produced exactly what hop two consumed
    assert_eq!(u1.amount_b, u2.amount_a);
    // each hop pays its own fee, so the first hop's input is the largest leg
    assert!(u1.amount_a > u2.amount_a);
    assert!(u2.amount_a > 500);
}

#[test]
fn two_hop_exact_in_collects_the_intermediate_transfer_fee_once() {
    let mut pool_one = test_pool(64, 3000, 0);
    pool_one.liquidity = 1_000_000;
    let mut pool_two = test_pool(64, 3000, 0);
    pool_two.liquidity = 1_000_000;
    let mut seq_one = downward_sequence(false);
    let mut seq_two = downward_sequence(false);
    // a 1% transfer fee on the intermediate token
    let fee = Some(TransferFee { basis_points: 100, maximum_fee: u64::MAX });
    let (u1, u2) = compute_two_hop_swap(
        &pool_one, &pool_two, &mut seq_one, &mut seq_two,
        &None, &fee, &None,
        1000, true, true, true, 0, 0, 100, &None, &None,
    )
    .unwrap();
    // hop two still consumes the whole intermediate output; its own input
    // accounting takes the 1% fee before the pool trades
    assert_eq!(u1.amount_b, 996);
    assert_eq!(u2.amount_a, 996);
    // hop two trades only the 986 that survive the transfer fee
    assert!(u2.amount_b < 986);
}

fn group64_info() -> AdaptiveFeeInfo {
    AdaptiveFeeInfo {
        constants: AdaptiveFeeConstants {
            filter_period: 10,
            decay_period: 60,
            reduction_factor: 5000,
            adaptive_fee_control_factor: 10_000,
            max_volatility_accumulator: 100_000,
            tick_group_size: 64,
            major_swap_threshold_ticks: 64,
        },
        variables: AdaptiveFeeVariables::default(),
    }
}

fn tick_group_index_of(manager: &FeeRateManager) -> i32 {
    match manager {
        FeeRateManager::Adaptive { tick_group_index, .. } => *tick_group_index,
        FeeRateManager::Static { .. } => panic!("expected an adaptive manager"),
    }
}

#[test]
fn downward_swap_on_a_group_boundary_starts_in_the_group_below() {
    let info = Some(group64_info());
    // tick 128 sits exactly on a group boundary: trading down starts in group 1
    let down = FeeRateManager::new(true, 128, 1_000, 3000, &info).unwrap();
    assert_eq!(tick_group_index_of(&down), 1);
    // trading up from the same tick stays in group 2
    let up = FeeRateManager::new(false, 128, 1_000, 3000, &info).unwrap();
    assert_eq!(tick_group_index_of(&up), 2);
    // off the boundary there is no shift in either direction
    let mid = FeeRateManager::new(true, 100, 1_000, 3000, &info).unwrap();
    assert_eq!(tick_group_index_of(&mid), 1);
}

#[test]
fn skipping_fast_forwards_the_tick_group() {
    let info = Some(group64_info());
    let mut manager = FeeRateManager::new(true, 0, 1_000, 3000, &info).unwrap();
    // a downward swap starting at tick 0 begins in group -1
    assert_eq!(tick_group_index_of(&manager), -1);
    // the skip lands exactly on tick -128, a usable group boundary, so the
    // last traversed group is -3, and the manager steps once more to -4
    let landing = sqrt_price_from_tick_index(-128);
    manager.advance_tick_group_after_skip(landing, landing, -128).unwrap();
    assert_eq!(tick_group_index_of(&manager), -4);
}
