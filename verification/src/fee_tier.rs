//! Static fee tiers: a default fee rate per tick spacing.

use vstd::prelude::*;

use crate::address::Address;
use crate::errors::ErrorCode;
use crate::swap_math::MAX_FEE_RATE;

verus! {

/// A static fee tier of one config: pools created with this tick spacing
/// start at its default fee rate.
#[derive(Clone, Copy, Debug)]
pub struct FeeTier {
    pub solves_config: Address,
    pub tick_spacing: u16,
    pub default_fee_rate: u16,
}

impl FeeTier {
    pub fn default() -> (r: FeeTier)
        ensures
            r.solves_config.is_null(),
            r.tick_spacing == 0,
            r.default_fee_rate == 0,
    {
        FeeTier { solves_config: Address::null(), tick_spacing: 0, default_fee_rate: 0 }
    }

    /// Binds the tier to a config; the spacing must be positive and the
    /// rate within the maximum.
    pub fn initialize(
        &mut self,
        solves_config: Address,
        tick_spacing: u16,
        default_fee_rate: u16,
    ) -> (r: Result<(), ErrorCode>)
        ensures
            tick_spacing == 0 ==> r == Err::<(), ErrorCode>(ErrorCode::InvalidTickSpacing),
            tick_spacing >= 1 && default_fee_rate > MAX_FEE_RATE ==> r == Err::<(), ErrorCode>(
                ErrorCode::FeeRateMaxExceeded,
            ),
            tick_spacing >= 1 && default_fee_rate <= MAX_FEE_RATE ==> (r == Ok::<(), ErrorCode>(())
                && *final(self) == (FeeTier { solves_config, tick_spacing, default_fee_rate })),
    {
        if tick_spacing == 0 {
            return Err(ErrorCode::InvalidTickSpacing);
        }
        self.solves_config = solves_config;
        self.tick_spacing = tick_spacing;
        self.update_default_fee_rate(default_fee_rate)
    }

    /// Sets the default fee rate, rejecting rates over the maximum.
    pub fn update_default_fee_rate(&mut self, default_fee_rate: u16) -> (r: Result<(), ErrorCode>)
        ensures
            default_fee_rate > MAX_FEE_RATE ==> (r == Err::<(), ErrorCode>(
                ErrorCode::FeeRateMaxExceeded,
            ) && *final(self) == *old(self)),
            default_fee_rate <= MAX_FEE_RATE ==> (r == Ok::<(), ErrorCode>(()) && *final(self)
                == (FeeTier { default_fee_rate, ..*old(self) })),
    {
        if default_fee_rate > MAX_FEE_RATE {
            return Err(ErrorCode::FeeRateMaxExceeded);
        }
        self.default_fee_rate = default_fee_rate;
        Ok(())
    }
}

} // verus!
