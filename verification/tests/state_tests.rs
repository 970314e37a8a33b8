use solve::address::Address;
use solve::adaptive_fee_tier::AdaptiveFeeTier;
use solve::errors::ErrorCode;
use solve::fee_tier::FeeTier;
use solve::lock_config::{LockConfig, LockType};
use solve::oracle::{
    AdaptiveFeeConstants, AdaptiveFeeVariables, Oracle, is_valid_trade_enable_timestamp,
};
use solve::position::{Position, PositionUpdate, validate_tick_range_for_solve};
use solve::position_bundle::PositionBundle;
use solve::solve::{Solve, SolveRewardInfo};
use solve::tick_array::TickArray;

fn addr(n: u128) -> Address {
    Address::new(0, n)
}

fn test_pool() -> Solve {
    let mut pool = Solve::default();
    pool.initialize(
        addr(1),
        0,
        addr(9),
        64,
        255,
        64,
        1u128 << 64,
        3000,
        addr(2),
        addr(3),
        addr(4),
        addr(5),
    )
    .unwrap();
    pool
}

#[test]
fn test_solve_reward_info_not_initialized() {
    let reward_info = SolveRewardInfo::default();
    assert!(!reward_info.initialized());
}

#[test]
fn test_solve_reward_info_initialized() {
    let reward_info = &mut SolveRewardInfo::default();
    reward_info.mint = addr(42);
    assert!(reward_info.initialized());
}

#[test]
fn pool_initialize_sets_price_and_tick() {
    let pool = test_pool();
    assert_eq!(pool.sqrt_price, 1u128 << 64);
    assert_eq!(pool.tick_current_index, 0);
    assert_eq!(pool.liquidity, 0);
    assert_eq!(pool.fee_rate, 3000);
    assert_eq!(pool.fee_tier_index(), 64);
    assert!(!pool.is_initialized_with_adaptive_fee_tier());
}

#[test]
fn pool_initialize_rejects_bad_inputs() {
    let mut pool = Solve::default();
    // mints must be strictly ordered
    let r = pool.initialize(
        addr(1),
        0,
        addr(9),
        64,
        255,
        64,
        1u128 << 64,
        3000,
        addr(4),
        addr(3),
        addr(2),
        addr(5),
    );
    assert_eq!(r, Err(ErrorCode::InvalidTokenMintOrder));
    let r2 = pool.initialize(
        addr(1),
        0,
        addr(9),
        64,
        255,
        64,
        1,
        3000,
        addr(2),
        addr(3),
        addr(4),
        addr(5),
    );
    assert_eq!(r2, Err(ErrorCode::SqrtPriceOutOfBounds));
    let r3 = pool.initialize(
        addr(1),
        0,
        addr(9),
        64,
        255,
        64,
        1u128 << 64,
        60_001,
        addr(2),
        addr(3),
        addr(4),
        addr(5),
    );
    assert_eq!(r3, Err(ErrorCode::FeeRateMaxExceeded));
}

#[test]
fn pool_reward_slots_fill_in_order() {
    let mut pool = test_pool();
    assert_eq!(
        pool.initialize_reward(1, addr(7), addr(8)),
        Err(ErrorCode::InvalidRewardIndex)
    );
    pool.initialize_reward(0, addr(7), addr(8)).unwrap();
    assert!(pool.reward_infos[0].initialized());
    assert_eq!(
        pool.initialize_reward(2, addr(7), addr(8)),
        Err(ErrorCode::InvalidRewardIndex)
    );
    pool.initialize_reward(1, addr(17), addr(18)).unwrap();
    assert!(pool.reward_infos[1].initialized());
}

#[test]
fn pool_fee_rate_updates_are_guarded() {
    let mut pool = test_pool();
    assert_eq!(pool.update_fee_rate(60_001), Err(ErrorCode::FeeRateMaxExceeded));
    pool.update_fee_rate(100).unwrap();
    assert_eq!(pool.fee_rate, 100);
    assert_eq!(
        pool.update_protocol_fee_rate(2_501),
        Err(ErrorCode::ProtocolFeeRateMaxExceeded)
    );
    pool.update_protocol_fee_rate(300).unwrap();
    assert_eq!(pool.protocol_fee_rate, 300);
}

#[test]
fn position_open_and_range_rules() {
    let mut position = Position::default();
    // unusable tick
    assert_eq!(
        position.open_position(addr(1), 64, addr(2), -63, 64),
        Err(ErrorCode::InvalidTickIndex)
    );
    // reversed range
    assert_eq!(
        position.open_position(addr(1), 64, addr(2), 64, -64),
        Err(ErrorCode::InvalidTickIndex)
    );
    position.open_position(addr(1), 64, addr(2), -64, 64).unwrap();
    assert_eq!(position.tick_lower_index, -64);
    assert_eq!(position.tick_upper_index, 64);
}

#[test]
fn full_range_only_pool_rejects_partial_ranges() {
    // a range off the grid is malformed before the full-range rule applies
    assert_eq!(
        validate_tick_range_for_solve(32768, -1024, 1024),
        Err(ErrorCode::InvalidTickIndex)
    );
    // a usable but partial range violates the full-range-only rule
    assert_eq!(
        validate_tick_range_for_solve(32768, -32768, 32768),
        Err(ErrorCode::FullRangeOnlyPool)
    );
    assert!(validate_tick_range_for_solve(32768, -425984, 425984).is_ok());
}

#[test]
fn position_reset_requires_empty_and_new_range() {
    let mut position = Position::default();
    position.open_position(addr(1), 64, addr(2), -64, 64).unwrap();
    assert_eq!(
        position.reset_position_range(64, -64, 64),
        Err(ErrorCode::SameTickRangeNotAllowed)
    );
    position.reset_position_range(64, -128, 128).unwrap();
    assert_eq!(position.tick_lower_index, -128);
    let mut full = Position::default();
    full.open_position(addr(1), 64, addr(2), -64, 64).unwrap();
    full.update(&PositionUpdate { liquidity: 5, ..PositionUpdate::default() });
    assert_eq!(
        full.reset_position_range(64, -128, 128),
        Err(ErrorCode::ClosePositionNotEmpty)
    );
}

#[test]
fn tick_array_lookup_and_update() {
    let mut array = TickArray::default();
    array.initialize(addr(1), -5632, 64).unwrap();
    assert_eq!(array.start_tick_index(), -5632);
    let t = array.get_tick(-64, 64).unwrap();
    assert!(!t.initialized);
    assert_eq!(array.get_tick(-63, 64), Err(ErrorCode::TickNotFound));
    assert_eq!(array.get_tick(64, 64), Err(ErrorCode::TickNotFound));
    let mut bad = TickArray::default();
    assert_eq!(bad.initialize(addr(1), -5631, 64), Err(ErrorCode::InvalidStartTick));
}

#[test]
fn oracle_constants_validation() {
    assert!(AdaptiveFeeConstants::validate_constants(64, 10, 60, 5000, 10000, 100_000, 1, 10));
    // decay must exceed filter
    assert!(!AdaptiveFeeConstants::validate_constants(64, 60, 60, 5000, 10000, 100_000, 1, 10));
    // tick group size must divide the spacing
    assert!(!AdaptiveFeeConstants::validate_constants(64, 10, 60, 5000, 10000, 100_000, 48, 10));
    // accumulator times group size must stay in u32
    assert!(!AdaptiveFeeConstants::validate_constants(
        64, 10, 60, 5000, 10000, u32::MAX, 2, 10
    ));
    let mut oracle = Oracle::default();
    let r = oracle.initialize(addr(1), None, 64, 60, 60, 5000, 10000, 100_000, 1, 10);
    assert_eq!(r, Err(ErrorCode::InvalidAdaptiveFeeConstants));
    oracle
        .initialize(addr(1), Some(500), 64, 10, 60, 5000, 10000, 100_000, 1, 10)
        .unwrap();
    assert!(!oracle.is_trade_enabled(499));
    assert!(oracle.is_trade_enabled(500));
}

#[test]
fn trade_enable_timestamp_window() {
    assert!(is_valid_trade_enable_timestamp(None, 1_000, true));
    assert!(is_valid_trade_enable_timestamp(None, 1_000, false));
    assert!(is_valid_trade_enable_timestamp(Some(1_000), 1_000, true));
    assert!(is_valid_trade_enable_timestamp(Some(980), 1_000, true));
    assert!(!is_valid_trade_enable_timestamp(Some(900), 1_000, true));
    assert!(is_valid_trade_enable_timestamp(Some(1_000 + 60 * 60 * 72), 1_000, true));
    assert!(!is_valid_trade_enable_timestamp(Some(1_001 + 60 * 60 * 72), 1_000, true));
    // a permissionless tier must not defer trading
    assert!(!is_valid_trade_enable_timestamp(Some(1_000), 1_000, false));
}

#[test]
fn volatility_accumulator_is_capped() {
    let constants = AdaptiveFeeConstants {
        filter_period: 10,
        decay_period: 60,
        reduction_factor: 5000,
        adaptive_fee_control_factor: 10_000,
        max_volatility_accumulator: 100_000,
        tick_group_size: 1,
        major_swap_threshold_ticks: 10,
    };
    let mut vars = AdaptiveFeeVariables::default();
    vars.update_volatility_accumulator(5, &constants).unwrap();
    assert_eq!(vars.volatility_accumulator, 50_000);
    vars.update_volatility_accumulator(500, &constants).unwrap();
    assert_eq!(vars.volatility_accumulator, 100_000);
}

#[test]
fn reference_decays_after_idle_window() {
    let constants = AdaptiveFeeConstants {
        filter_period: 10,
        decay_period: 60,
        reduction_factor: 5000,
        adaptive_fee_control_factor: 10_000,
        max_volatility_accumulator: 100_000,
        tick_group_size: 1,
        major_swap_threshold_ticks: 10,
    };
    let mut vars = AdaptiveFeeVariables::default();
    vars.last_reference_update_timestamp = 1_000;
    vars.update_reference(0, 1_002, &constants).unwrap();
    vars.update_volatility_accumulator(5, &constants).unwrap();
    assert_eq!(vars.volatility_accumulator, 50_000);
    // 15 seconds idle lies in the decay window: the accumulator halves into
    // the reference
    vars.update_reference(5, 1_017, &constants).unwrap();
    assert_eq!(vars.volatility_reference, 25_000);
    assert_eq!(vars.tick_group_index_reference, 5);
    // past the decay window the reference clears
    let mut cold = vars;
    cold.update_reference(7, 1_100, &constants).unwrap();
    assert_eq!(cold.volatility_reference, 0);
}

#[test]
fn reference_resets_when_too_old() {
    let constants = AdaptiveFeeConstants {
        filter_period: 10,
        decay_period: 60,
        reduction_factor: 5000,
        adaptive_fee_control_factor: 10_000,
        max_volatility_accumulator: 100_000,
        tick_group_size: 1,
        major_swap_threshold_ticks: 10,
    };
    let mut vars = AdaptiveFeeVariables::default();
    vars.last_reference_update_timestamp = 1_000;
    // keep the major-swap timestamp fresh so only the reference age triggers
    vars.last_major_swap_timestamp = 4_650;
    vars.volatility_reference = 7_777;
    vars.volatility_accumulator = 9_999;
    // more than an hour since the reference moved: forced reset
    vars.update_reference(12, 4_700, &constants).unwrap();
    assert_eq!(vars.volatility_reference, 0);
    assert_eq!(vars.tick_group_index_reference, 12);
    assert_eq!(vars.last_reference_update_timestamp, 4_700);
    // timestamps may never run backwards
    let mut back = vars;
    assert_eq!(
        back.update_reference(12, 100, &constants),
        Err(ErrorCode::InvalidTimestamp)
    );
}

#[test]
fn major_swap_freezes_reference_updates() {
    let constants = AdaptiveFeeConstants {
        filter_period: 10,
        decay_period: 60,
        reduction_factor: 5000,
        adaptive_fee_control_factor: 10_000,
        max_volatility_accumulator: 100_000,
        tick_group_size: 1,
        major_swap_threshold_ticks: 10,
    };
    let mut vars = AdaptiveFeeVariables::default();
    vars.last_reference_update_timestamp = 1_000;
    vars.volatility_accumulator = 50_000;
    // a 12-tick move crosses the 10-tick threshold
    let pre = 1u128 << 64;
    let post = solve::tick_math::sqrt_price_from_tick_index(12);
    vars.update_major_swap_timestamp(pre, post, 1_020, &constants).unwrap();
    assert_eq!(vars.last_major_swap_timestamp, 1_020);
    // five seconds later the elapsed time sits inside the filter window, so
    // the references hold and the accumulator keeps climbing
    let before = vars;
    vars.update_reference(3, 1_025, &constants).unwrap();
    assert_eq!(vars, before);
    // a small move does not stamp the timestamp
    let mut quiet = AdaptiveFeeVariables::default();
    let post_small = solve::tick_math::sqrt_price_from_tick_index(5);
    quiet
        .update_major_swap_timestamp(pre, post_small, 999, &constants)
        .unwrap();
    assert_eq!(quiet.last_major_swap_timestamp, 0);
}

#[test]
fn fee_tier_rules() {
    let mut tier = FeeTier::default();
    assert_eq!(tier.initialize(addr(1), 0, 3000), Err(ErrorCode::InvalidTickSpacing));
    assert_eq!(tier.initialize(addr(1), 64, 60_001), Err(ErrorCode::FeeRateMaxExceeded));
    tier.initialize(addr(1), 64, 3000).unwrap();
    assert_eq!(tier.default_fee_rate, 3000);
}

#[test]
fn adaptive_fee_tier_rules() {
    let mut tier = AdaptiveFeeTier::default();
    // an index equal to the spacing is reserved for static tiers
    assert_eq!(
        tier.initialize(addr(1), 64, 64, addr(0), addr(0), 3000, 10, 60, 5000, 10000, 100_000, 1, 10),
        Err(ErrorCode::InvalidFeeTierIndex)
    );
    tier.initialize(addr(1), 1064, 64, addr(0), addr(0), 3000, 10, 60, 5000, 10000, 100_000, 1, 10)
        .unwrap();
    assert!(tier.is_valid_initialize_pool_authority(addr(123)));
    assert!(!tier.is_permissioned());
    tier.update_initialize_pool_authority(addr(77));
    assert!(tier.is_permissioned());
    assert!(!tier.is_valid_initialize_pool_authority(addr(123)));
    assert!(tier.is_valid_initialize_pool_authority(addr(77)));
}

#[test]
fn position_bundle_bitmap() {
    let mut bundle = PositionBundle::default();
    bundle.initialize(addr(5)).unwrap();
    assert!(bundle.is_deletable());
    bundle.open_bundled_position(0).unwrap();
    assert_eq!(
        bundle.open_bundled_position(0),
        Err(ErrorCode::BundledPositionAlreadyOpened)
    );
    assert!(!bundle.is_deletable());
    bundle.open_bundled_position(255).unwrap();
    assert_eq!(bundle.open_bundled_position(256), Err(ErrorCode::InvalidBundleIndex));
    bundle.close_bundled_position(0).unwrap();
    assert_eq!(
        bundle.close_bundled_position(0),
        Err(ErrorCode::BundledPositionAlreadyClosed)
    );
    bundle.close_bundled_position(255).unwrap();
    assert!(bundle.is_deletable());
}

#[test]
fn lock_config_records_the_lock() {
    let mut lock = LockConfig::default();
    lock.initialize(addr(1), addr(2), addr(3), 777, LockType::Permanent).unwrap();
    assert_eq!(lock.locked_timestamp, 777);
    lock.update_position_owner(addr(9));
    assert_eq!(lock.position_owner, addr(9));
}
