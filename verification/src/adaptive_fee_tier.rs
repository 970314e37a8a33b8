//! Adaptive fee tiers: a base rate plus validated volatility-tracking
//! constants, and the authorities allowed to use them.

use vstd::prelude::*;

use crate::address::Address;
use crate::errors::ErrorCode;
use crate::oracle::{valid_adaptive_fee_constants, AdaptiveFeeConstants};
use crate::swap_math::MAX_FEE_RATE;

verus! {

/// An adaptive fee tier of one config.
#[derive(Clone, Copy, Debug)]
pub struct AdaptiveFeeTier {
    pub solves_config: Address,
    /// Distinct from every tick spacing; those indexes name static tiers.
    pub fee_tier_index: u16,
    pub tick_spacing: u16,
    /// Who may create pools on this tier; null means permissionless.
    pub initialize_pool_authority: Address,
    /// Who may set fee rates on this tier's pools by delegation.
    pub delegated_fee_authority: Address,
    pub default_base_fee_rate: u16,
    pub filter_period: u16,
    pub decay_period: u16,
    pub reduction_factor: u16,
    pub adaptive_fee_control_factor: u32,
    pub max_volatility_accumulator: u32,
    pub tick_group_size: u16,
    pub major_swap_threshold_ticks: u16,
}

impl AdaptiveFeeTier {
    /// The constants this tier configures, as one record.
    pub open spec fn constants(self) -> AdaptiveFeeConstants {
        AdaptiveFeeConstants {
            filter_period: self.filter_period,
            decay_period: self.decay_period,
            reduction_factor: self.reduction_factor,
            adaptive_fee_control_factor: self.adaptive_fee_control_factor,
            max_volatility_accumulator: self.max_volatility_accumulator,
            tick_group_size: self.tick_group_size,
            major_swap_threshold_ticks: self.major_swap_threshold_ticks,
        }
    }

    pub fn default() -> (r: AdaptiveFeeTier)
        ensures
            r.solves_config.is_null(),
            r.tick_spacing == 0,
    {
        AdaptiveFeeTier {
            solves_config: Address::null(),
            fee_tier_index: 0,
            tick_spacing: 0,
            initialize_pool_authority: Address::null(),
            delegated_fee_authority: Address::null(),
            default_base_fee_rate: 0,
            filter_period: 0,
            decay_period: 0,
            reduction_factor: 0,
            adaptive_fee_control_factor: 0,
            max_volatility_accumulator: 0,
            tick_group_size: 0,
            major_swap_threshold_ticks: 0,
        }
    }

    /// Creates the tier: the index must not collide with static tiers, the
    /// spacing must be positive, the base rate within the maximum, and the
    /// constants valid for the spacing.
    #[allow(clippy::too_many_arguments)]
    pub fn initialize(
        &mut self,
        solves_config: Address,
        fee_tier_index: u16,
        tick_spacing: u16,
        initialize_pool_authority: Address,
        delegated_fee_authority: Address,
        default_base_fee_rate: u16,
        filter_period: u16,
        decay_period: u16,
        reduction_factor: u16,
        adaptive_fee_control_factor: u32,
        max_volatility_accumulator: u32,
        tick_group_size: u16,
        major_swap_threshold_ticks: u16,
    ) -> (r: Result<(), ErrorCode>)
        ensures
            fee_tier_index == tick_spacing ==> r == Err::<(), ErrorCode>(
                ErrorCode::InvalidFeeTierIndex,
            ),
            fee_tier_index != tick_spacing && tick_spacing == 0 ==> r == Err::<(), ErrorCode>(
                ErrorCode::InvalidTickSpacing,
            ),
            fee_tier_index != tick_spacing && tick_spacing >= 1 && default_base_fee_rate
                > MAX_FEE_RATE ==> r == Err::<(), ErrorCode>(ErrorCode::FeeRateMaxExceeded),
            fee_tier_index != tick_spacing && tick_spacing >= 1 && default_base_fee_rate
                <= MAX_FEE_RATE && valid_adaptive_fee_constants(
                tick_spacing as int,
                AdaptiveFeeConstants {
                    filter_period,
                    decay_period,
                    reduction_factor,
                    adaptive_fee_control_factor,
                    max_volatility_accumulator,
                    tick_group_size,
                    major_swap_threshold_ticks,
                },
            ) ==> r is Ok,
            r is Ok ==> ({
                &&& fee_tier_index != tick_spacing
                &&& tick_spacing >= 1
                &&& default_base_fee_rate <= MAX_FEE_RATE
                &&& valid_adaptive_fee_constants(
                    tick_spacing as int,
                    final(self).constants(),
                )
                &&& *final(self) == (AdaptiveFeeTier {
                    solves_config,
                    fee_tier_index,
                    tick_spacing,
                    initialize_pool_authority,
                    delegated_fee_authority,
                    default_base_fee_rate,
                    filter_period,
                    decay_period,
                    reduction_factor,
                    adaptive_fee_control_factor,
                    max_volatility_accumulator,
                    tick_group_size,
                    major_swap_threshold_ticks,
                })
            }),
    {
        if fee_tier_index == tick_spacing {
            // this index space names static tiers
            return Err(ErrorCode::InvalidFeeTierIndex);
        }
        if tick_spacing == 0 {
            return Err(ErrorCode::InvalidTickSpacing);
        }

        self.solves_config = solves_config;
        self.fee_tier_index = fee_tier_index;
        self.tick_spacing = tick_spacing;

        let rate_check = self.update_default_base_fee_rate(default_base_fee_rate);
        match rate_check {
            Ok(_) => (),
            Err(e) => {
                return Err(e);
            },
        }

        self.update_initialize_pool_authority(initialize_pool_authority);
        self.update_delegated_fee_authority(delegated_fee_authority);

        self.update_adaptive_fee_constants(
            filter_period,
            decay_period,
            reduction_factor,
            adaptive_fee_control_factor,
            max_volatility_accumulator,
            tick_group_size,
            major_swap_threshold_ticks,
        )
    }

    pub fn update_initialize_pool_authority(&mut self, initialize_pool_authority: Address)
        ensures
            *final(self) == (AdaptiveFeeTier { initialize_pool_authority, ..*old(self) }),
    {
        self.initialize_pool_authority = initialize_pool_authority;
    }

    pub fn update_delegated_fee_authority(&mut self, delegated_fee_authority: Address)
        ensures
            *final(self) == (AdaptiveFeeTier { delegated_fee_authority, ..*old(self) }),
    {
        self.delegated_fee_authority = delegated_fee_authority;
    }

    /// Sets the base fee rate, rejecting rates over the maximum.
    pub fn update_default_base_fee_rate(&mut self, default_base_fee_rate: u16) -> (r: Result<
        (),
        ErrorCode,
    >)
        ensures
            default_base_fee_rate > MAX_FEE_RATE ==> (r == Err::<(), ErrorCode>(
                ErrorCode::FeeRateMaxExceeded,
            ) && *final(self) == *old(self)),
            default_base_fee_rate <= MAX_FEE_RATE ==> (r == Ok::<(), ErrorCode>(()) && *final(self)
                == (AdaptiveFeeTier { default_base_fee_rate, ..*old(self) })),
    {
        if default_base_fee_rate > MAX_FEE_RATE {
            return Err(ErrorCode::FeeRateMaxExceeded);
        }
        self.default_base_fee_rate = default_base_fee_rate;
        Ok(())
    }

    /// Replaces the adaptive constants after validating them against this
    /// tier's tick spacing.
    #[allow(clippy::too_many_arguments)]
    pub fn update_adaptive_fee_constants(
        &mut self,
        filter_period: u16,
        decay_period: u16,
        reduction_factor: u16,
        adaptive_fee_control_factor: u32,
        max_volatility_accumulator: u32,
        tick_group_size: u16,
        major_swap_threshold_ticks: u16,
    ) -> (r: Result<(), ErrorCode>)
        requires
            1 <= old(self).tick_spacing,
        ensures
            ({
                let c = AdaptiveFeeConstants {
                    filter_period,
                    decay_period,
                    reduction_factor,
                    adaptive_fee_control_factor,
                    max_volatility_accumulator,
                    tick_group_size,
                    major_swap_threshold_ticks,
                };
                &&& (!valid_adaptive_fee_constants(old(self).tick_spacing as int, c) ==> r
                    == Err::<(), ErrorCode>(ErrorCode::InvalidAdaptiveFeeConstants) && *final(self)
                    == *old(self))
                &&& (valid_adaptive_fee_constants(old(self).tick_spacing as int, c) ==> r
                    == Ok::<(), ErrorCode>(()) && *final(self) == (AdaptiveFeeTier {
                    filter_period,
                    decay_period,
                    reduction_factor,
                    adaptive_fee_control_factor,
                    max_volatility_accumulator,
                    tick_group_size,
                    major_swap_threshold_ticks,
                    ..*old(self)
                }))
            }),
    {
        if !AdaptiveFeeConstants::validate_constants(
            self.tick_spacing,
            filter_period,
            decay_period,
            reduction_factor,
            adaptive_fee_control_factor,
            max_volatility_accumulator,
            tick_group_size,
            major_swap_threshold_ticks,
        ) {
            return Err(ErrorCode::InvalidAdaptiveFeeConstants);
        }
        self.filter_period = filter_period;
        self.decay_period = decay_period;
        self.reduction_factor = reduction_factor;
        self.adaptive_fee_control_factor = adaptive_fee_control_factor;
        self.max_volatility_accumulator = max_volatility_accumulator;
        self.tick_group_size = tick_group_size;
        self.major_swap_threshold_ticks = major_swap_threshold_ticks;
        Ok(())
    }

    /// Whether `initialize_pool_authority` may create a pool on this tier:
    /// always on a permissionless tier, else only the configured authority.
    pub fn is_valid_initialize_pool_authority(&self, initialize_pool_authority: Address) -> (r:
        bool)
        ensures
            r == (self.initialize_pool_authority.is_null() || self.initialize_pool_authority
                == initialize_pool_authority),
    {
        if self.initialize_pool_authority.is_none() {
            return true;
        }
        self.initialize_pool_authority.hi == initialize_pool_authority.hi
            && self.initialize_pool_authority.lo == initialize_pool_authority.lo
    }

    /// Whether pool creation on this tier needs an authority.
    pub fn is_permissioned(&self) -> (r: bool)
        ensures
            r == !self.initialize_pool_authority.is_null(),
    {
        !self.initialize_pool_authority.is_none()
    }
}

} // verus!
