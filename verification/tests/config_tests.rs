use solve::address::Address;
use solve::collect::{calculate_collect_reward, to_timestamp_u64, validate_reward_emissions};
use solve::config::{SolvesConfig, SolvesConfigExtension, TokenBadge};
use solve::errors::ErrorCode;
use solve::position::PositionRewardInfo;
use solve::solve::Solve;
use solve::two_hop::{check_intermediate_token_amounts, validate_two_hop_pools};
use solve::token_extensions::{
    get_token_extension_types, is_supported_token_mint, verify_supported_token_mint,
};

fn addr(n: u128) -> Address {
    Address::new(0, n)
}

#[test]
fn config_authorities_and_rate() {
    let mut config = SolvesConfig::default();
    assert_eq!(
        config.initialize(addr(1), addr(2), addr(3), 2_501),
        Err(ErrorCode::ProtocolFeeRateMaxExceeded)
    );
    config.initialize(addr(1), addr(2), addr(3), 300).unwrap();
    assert_eq!(config.default_protocol_fee_rate, 300);
    config.update_fee_authority(addr(4));
    config.update_collect_protocol_fees_authority(addr(5));
    config.update_reward_emissions_super_authority(addr(6));
    assert_eq!(config.fee_authority, addr(4));
    assert_eq!(config.collect_protocol_fees_authority, addr(5));
    assert_eq!(config.reward_emissions_super_authority, addr(6));
}

#[test]
fn config_extension_and_badge() {
    let mut ext = SolvesConfigExtension::default();
    ext.initialize(addr(1), addr(2)).unwrap();
    assert_eq!(ext.config_extension_authority, addr(2));
    assert_eq!(ext.token_badge_authority, addr(2));
    ext.update_config_extension_authority(addr(3));
    ext.update_token_badge_authority(addr(4));
    assert_eq!(ext.config_extension_authority, addr(3));
    assert_eq!(ext.token_badge_authority, addr(4));

    let mut badge = TokenBadge::default();
    badge.initialize(addr(1), addr(9)).unwrap();
    assert_eq!(badge.token_mint, addr(9));
}

#[test]
fn collect_reward_pays_what_the_vault_has() {
    let owed = PositionRewardInfo { growth_inside_checkpoint: 0, amount_owed: 100 };
    assert_eq!(calculate_collect_reward(owed, 250), (100, 0));
    assert_eq!(calculate_collect_reward(owed, 40), (40, 60));
    let nothing = PositionRewardInfo { growth_inside_checkpoint: 0, amount_owed: 0 };
    assert_eq!(calculate_collect_reward(nothing, 250), (0, 0));
}

#[test]
fn timestamps_must_be_unsigned() {
    assert_eq!(to_timestamp_u64(12345), Ok(12345));
    assert_eq!(to_timestamp_u64(0), Ok(0));
    assert_eq!(to_timestamp_u64(-1), Err(ErrorCode::InvalidTimestamp));
}

#[test]
fn reward_emissions_need_a_funded_vault() {
    // one token per second in Q64.64 needs 86400 tokens for a day
    let one_per_second = 1u128 << 64;
    assert_eq!(
        validate_reward_emissions(86_399, one_per_second),
        Err(ErrorCode::RewardVaultAmountInsufficient)
    );
    assert_eq!(validate_reward_emissions(86_400, one_per_second), Ok(()));
    assert_eq!(validate_reward_emissions(0, 0), Ok(()));
    assert_eq!(
        validate_reward_emissions(u64::MAX, u128::MAX),
        Err(ErrorCode::NumberCastError)
    );
}

#[test]
fn two_hop_validations() {
    let mut pool_one = Solve::default();
    pool_one
        .initialize(addr(1), 0, addr(9), 64, 255, 64, 1u128 << 64, 3000, addr(2), addr(3), addr(4), addr(5))
        .unwrap();
    let mut pool_two = Solve::default();
    pool_two
        .initialize(addr(1), 0, addr(9), 64, 255, 64, 1u128 << 64, 3000, addr(4), addr(13), addr(14), addr(15))
        .unwrap();
    // same pool twice is rejected
    assert_eq!(
        validate_two_hop_pools(addr(100), addr(100), &pool_one, &pool_two, true, true),
        Err(ErrorCode::DuplicateTwoHopPool)
    );
    // a-to-b on pool one outputs mint 4, which is pool two's input for a-to-b
    assert_eq!(
        validate_two_hop_pools(addr(100), addr(101), &pool_one, &pool_two, true, true),
        Ok(())
    );
    // the other direction on pool two expects mint 14 instead
    assert_eq!(
        validate_two_hop_pools(addr(100), addr(101), &pool_one, &pool_two, true, false),
        Err(ErrorCode::InvalidIntermediaryMint)
    );
}

#[test]
fn intermediate_amounts_must_cancel() {
    assert_eq!(check_intermediate_token_amounts(500, 500), Ok(()));
    assert_eq!(
        check_intermediate_token_amounts(500, 499),
        Err(ErrorCode::IntermediateTokenAmountMismatch)
    );
}

#[test]
fn tlv_walk_lists_extension_types() {
    // one transfer-fee entry (type 1) with a 4-byte value, then uninitialized
    let data = vec![1, 0, 4, 0, 9, 9, 9, 9, 0, 0];
    assert_eq!(get_token_extension_types(&data).unwrap(), vec![1]);
    // two entries back to back
    let two = vec![1, 0, 1, 0, 7, 18, 0, 0, 0];
    assert_eq!(get_token_extension_types(&two).unwrap(), vec![1, 18]);
    // a trailing fragment shorter than a type ends the walk quietly
    let frag = vec![1, 0, 0, 0, 5];
    assert_eq!(get_token_extension_types(&frag).unwrap(), vec![1]);
    // a truncated value is malformed
    let bad = vec![1, 0, 200, 0, 1];
    assert!(matches!(
        get_token_extension_types(&bad),
        Err(ErrorCode::UnsupportedTokenMint)
    ));
    // an unknown extension number is rejected
    let unknown = vec![99, 0, 0, 0];
    assert!(matches!(
        get_token_extension_types(&unknown),
        Err(ErrorCode::UnsupportedTokenMint)
    ));
    assert_eq!(get_token_extension_types(&vec![]).unwrap(), Vec::<u16>::new());
}

#[test]
fn mint_support_rules() {
    // legacy-program mints are always fine
    assert_eq!(is_supported_token_mint(true, false, false, &vec![], false), Ok(true));
    // the extended native mint is rejected
    assert_eq!(is_supported_token_mint(false, true, false, &vec![], false), Ok(false));
    // a freeze authority needs a badge
    assert_eq!(is_supported_token_mint(false, false, true, &vec![], false), Ok(false));
    assert_eq!(is_supported_token_mint(false, false, true, &vec![], true), Ok(true));
    // a transfer-fee extension is always supported
    let transfer_fee = vec![1, 0, 0, 0];
    assert_eq!(is_supported_token_mint(false, false, false, &transfer_fee, false), Ok(true));
    // a transfer hook needs a badge
    let hook = vec![14, 0, 0, 0];
    assert_eq!(is_supported_token_mint(false, false, false, &hook, false), Ok(false));
    assert_eq!(is_supported_token_mint(false, false, false, &hook, true), Ok(true));
    // a non-transferable token can never trade
    let non_transferable = vec![9, 0, 0, 0];
    assert_eq!(
        is_supported_token_mint(false, false, false, &non_transferable, true),
        Ok(false)
    );
    assert!(matches!(
        verify_supported_token_mint(false, false, false, &non_transferable, true),
        Err(ErrorCode::UnsupportedTokenMint)
    ));
    assert!(verify_supported_token_mint(true, false, false, &vec![], false).is_ok());
}
