//! Global configuration records: the config, its extension, and token
//! badges.

use vstd::prelude::*;

use crate::address::Address;
use crate::errors::ErrorCode;
use crate::solve::MAX_PROTOCOL_FEE_RATE;

verus! {

/// The root configuration every pool points at: the authorities and the
/// default protocol fee rate.
#[derive(Clone, Copy, Debug)]
pub struct SolvesConfig {
    pub fee_authority: Address,
    pub collect_protocol_fees_authority: Address,
    pub reward_emissions_super_authority: Address,
    pub default_protocol_fee_rate: u16,
}

impl SolvesConfig {
    pub fn default() -> (r: SolvesConfig)
        ensures
            r.fee_authority.is_null(),
            r.default_protocol_fee_rate == 0,
    {
        SolvesConfig {
            fee_authority: Address::null(),
            collect_protocol_fees_authority: Address::null(),
            reward_emissions_super_authority: Address::null(),
            default_protocol_fee_rate: 0,
        }
    }

    /// Sets the authorities and the default protocol fee rate, which must
    /// not exceed the maximum.
    pub fn initialize(
        &mut self,
        fee_authority: Address,
        collect_protocol_fees_authority: Address,
        reward_emissions_super_authority: Address,
        default_protocol_fee_rate: u16,
    ) -> (r: Result<(), ErrorCode>)
        ensures
            default_protocol_fee_rate > MAX_PROTOCOL_FEE_RATE ==> r == Err::<(), ErrorCode>(
                ErrorCode::ProtocolFeeRateMaxExceeded,
            ),
            default_protocol_fee_rate <= MAX_PROTOCOL_FEE_RATE ==> (r == Ok::<(), ErrorCode>(())
                && *final(self) == (SolvesConfig {
                fee_authority,
                collect_protocol_fees_authority,
                reward_emissions_super_authority,
                default_protocol_fee_rate,
            })),
    {
        self.fee_authority = fee_authority;
        self.collect_protocol_fees_authority = collect_protocol_fees_authority;
        self.reward_emissions_super_authority = reward_emissions_super_authority;
        self.update_default_protocol_fee_rate(default_protocol_fee_rate)
    }

    pub fn update_fee_authority(&mut self, fee_authority: Address)
        ensures
            *final(self) == (SolvesConfig { fee_authority, ..*old(self) }),
    {
        self.fee_authority = fee_authority;
    }

    pub fn update_collect_protocol_fees_authority(&mut self, collect_protocol_fees_authority: Address)
        ensures
            *final(self) == (SolvesConfig { collect_protocol_fees_authority, ..*old(self) }),
    {
        self.collect_protocol_fees_authority = collect_protocol_fees_authority;
    }

    pub fn update_reward_emissions_super_authority(&mut self, reward_emissions_super_authority: Address)
        ensures
            *final(self) == (SolvesConfig { reward_emissions_super_authority, ..*old(self) }),
    {
        self.reward_emissions_super_authority = reward_emissions_super_authority;
    }

    /// Sets the default protocol fee rate for new pools, rejecting rates
    /// over the maximum.
    pub fn update_default_protocol_fee_rate(&mut self, default_protocol_fee_rate: u16) -> (r:
        Result<(), ErrorCode>)
        ensures
            default_protocol_fee_rate > MAX_PROTOCOL_FEE_RATE ==> (r == Err::<(), ErrorCode>(
                ErrorCode::ProtocolFeeRateMaxExceeded,
            ) && *final(self) == *old(self)),
            default_protocol_fee_rate <= MAX_PROTOCOL_FEE_RATE ==> (r == Ok::<(), ErrorCode>(())
                && *final(self) == (SolvesConfig { default_protocol_fee_rate, ..*old(self) })),
    {
        if default_protocol_fee_rate > MAX_PROTOCOL_FEE_RATE {
            return Err(ErrorCode::ProtocolFeeRateMaxExceeded);
        }
        self.default_protocol_fee_rate = default_protocol_fee_rate;
        Ok(())
    }
}

/// Extension record of a config: the authorities added after the original
/// layout froze.
#[derive(Clone, Copy, Debug)]
pub struct SolvesConfigExtension {
    pub solves_config: Address,
    pub config_extension_authority: Address,
    pub token_badge_authority: Address,
}

impl SolvesConfigExtension {
    pub fn default() -> (r: SolvesConfigExtension)
        ensures
            r.solves_config.is_null(),
    {
        SolvesConfigExtension {
            solves_config: Address::null(),
            config_extension_authority: Address::null(),
            token_badge_authority: Address::null(),
        }
    }

    /// Binds the extension to its config; both authorities start as the
    /// given default.
    pub fn initialize(&mut self, solves_config: Address, default_authority: Address) -> (r: Result<
        (),
        ErrorCode,
    >)
        ensures
            r is Ok,
            *final(self) == (SolvesConfigExtension {
                solves_config,
                config_extension_authority: default_authority,
                token_badge_authority: default_authority,
            }),
    {
        self.solves_config = solves_config;
        self.config_extension_authority = default_authority;
        self.token_badge_authority = default_authority;
        Ok(())
    }

    pub fn update_config_extension_authority(&mut self, config_extension_authority: Address)
        ensures
            *final(self) == (SolvesConfigExtension { config_extension_authority, ..*old(self) }),
    {
        self.config_extension_authority = config_extension_authority;
    }

    pub fn update_token_badge_authority(&mut self, token_badge_authority: Address)
        ensures
            *final(self) == (SolvesConfigExtension { token_badge_authority, ..*old(self) }),
    {
        self.token_badge_authority = token_badge_authority;
    }
}

/// A badge allowing an otherwise unsupported token into pools of one
/// config.
#[derive(Clone, Copy, Debug)]
pub struct TokenBadge {
    pub solves_config: Address,
    pub token_mint: Address,
}

impl TokenBadge {
    pub fn default() -> (r: TokenBadge)
        ensures
            r.solves_config.is_null(),
            r.token_mint.is_null(),
    {
        TokenBadge { solves_config: Address::null(), token_mint: Address::null() }
    }

    /// Issues the badge for one mint under one config.
    pub fn initialize(&mut self, solves_config: Address, token_mint: Address) -> (r: Result<
        (),
        ErrorCode,
    >)
        ensures
            r is Ok,
            *final(self) == (TokenBadge { solves_config, token_mint }),
    {
        self.solves_config = solves_config;
        self.token_mint = token_mint;
        Ok(())
    }
}

} // verus!
