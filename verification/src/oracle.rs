//! The adaptive-fee oracle: per-pool volatility tracking constants and
//! variables.

use vstd::prelude::*;

use crate::address::Address;
use crate::errors::ErrorCode;
use crate::tick_math::{sqrt_price_from_tick_index, sqrt_price_from_tick_spec};
use crate::token_math::increasing_price_order;
use crate::u256::wide_mul_u128;
use vstd::arithmetic::power2::pow2;

verus! {

/// Trades may be deferred at most this far into the future (72 hours).
pub const MAX_TRADE_ENABLE_TIMESTAMP_DELTA: u64 = 60 * 60 * 72;

/// One crossed tick group adds this much to the volatility accumulator.
pub const VOLATILITY_ACCUMULATOR_SCALE_FACTOR: u16 = 10_000;

/// Denominator of the decay reduction factor.
pub const REDUCTION_FACTOR_DENOMINATOR: u16 = 10_000;

/// Denominator of the adaptive-fee control factor.
pub const ADAPTIVE_FEE_CONTROL_FACTOR_DENOMINATOR: u32 = 100_000;

/// A reference older than this is forcibly reset (anti-DoS), in seconds.
pub const MAX_REFERENCE_AGE: u64 = 3_600;

/// The tuning parameters of one adaptive-fee tier.
#[derive(Clone, Copy, Debug, PartialEq, Eq, Structural)]
pub struct AdaptiveFeeConstants {
    /// High-frequency window in seconds; at least 1.
    pub filter_period: u16,
    /// Decay window in seconds; greater than `filter_period`.
    pub decay_period: u16,
    /// Accumulator decay per reference update, over 10000.
    pub reduction_factor: u16,
    /// Maps squared volatility to a fee rate, over 100000.
    pub adaptive_fee_control_factor: u32,
    /// Cap of the volatility accumulator.
    pub max_volatility_accumulator: u32,
    /// Tick-group width; divides the tick spacing.
    pub tick_group_size: u16,
    /// Price move, in ticks, that counts as a major swap.
    pub major_swap_threshold_ticks: u16,
}

/// The exact conditions under which a set of adaptive-fee constants is
/// accepted for a pool with the given tick spacing.
pub open spec fn valid_adaptive_fee_constants(tick_spacing: int, c: AdaptiveFeeConstants) -> bool {
    &&& c.filter_period >= 1
    &&& c.decay_period >= 1
    &&& c.decay_period > c.filter_period
    &&& c.adaptive_fee_control_factor < ADAPTIVE_FEE_CONTROL_FACTOR_DENOMINATOR
    &&& c.max_volatility_accumulator * c.tick_group_size <= u32::MAX
    &&& c.reduction_factor < REDUCTION_FACTOR_DENOMINATOR
    &&& c.tick_group_size >= 1
    &&& c.tick_group_size <= tick_spacing
    &&& tick_spacing % c.tick_group_size as int == 0
    &&& c.major_swap_threshold_ticks >= 1
    &&& c.major_swap_threshold_ticks <= tick_spacing * crate::tick::TICK_ARRAY_SIZE
}

impl AdaptiveFeeConstants {
    pub fn default() -> (r: AdaptiveFeeConstants)
        ensures
            r == (AdaptiveFeeConstants {
                filter_period: 0,
                decay_period: 0,
                reduction_factor: 0,
                adaptive_fee_control_factor: 0,
                max_volatility_accumulator: 0,
                tick_group_size: 0,
                major_swap_threshold_ticks: 0,
            }),
    {
        AdaptiveFeeConstants {
            filter_period: 0,
            decay_period: 0,
            reduction_factor: 0,
            adaptive_fee_control_factor: 0,
            max_volatility_accumulator: 0,
            tick_group_size: 0,
            major_swap_threshold_ticks: 0,
        }
    }

    /// Checks every constraint of `valid_adaptive_fee_constants`.
    #[allow(clippy::too_many_arguments)]
    pub fn validate_constants(
        tick_spacing: u16,
        filter_period: u16,
        decay_period: u16,
        reduction_factor: u16,
        adaptive_fee_control_factor: u32,
        max_volatility_accumulator: u32,
        tick_group_size: u16,
        major_swap_threshold_ticks: u16,
    ) -> (r: bool)
        requires
            1 <= tick_spacing,
        ensures
            r == valid_adaptive_fee_constants(
                tick_spacing as int,
                AdaptiveFeeConstants {
                    filter_period,
                    decay_period,
                    reduction_factor,
                    adaptive_fee_control_factor,
                    max_volatility_accumulator,
                    tick_group_size,
                    major_swap_threshold_ticks,
                },
            ),
    {
        if filter_period == 0 {
            return false;
        }
        if decay_period == 0 || decay_period <= filter_period {
            return false;
        }
        if adaptive_fee_control_factor >= ADAPTIVE_FEE_CONTROL_FACTOR_DENOMINATOR {
            return false;
        }
        proof {
            vstd::arithmetic::mul::lemma_mul_upper_bound(
                max_volatility_accumulator as int,
                0xffff_ffff,
                tick_group_size as int,
                0xffff,
            );
            vstd::arithmetic::mul::lemma_mul_nonnegative(
                max_volatility_accumulator as int,
                tick_group_size as int,
            );
        }
        if (max_volatility_accumulator as u64) * (tick_group_size as u64) > u32::MAX as u64 {
            return false;
        }
        if reduction_factor >= REDUCTION_FACTOR_DENOMINATOR {
            return false;
        }
        if tick_group_size == 0 || tick_group_size > tick_spacing {
            return false;
        }
        if tick_spacing % tick_group_size != 0 {
            return false;
        }
        let ticks_in_tick_array: i64 = (tick_spacing as i64) * 88;
        if major_swap_threshold_ticks == 0 || (major_swap_threshold_ticks as i64)
            > ticks_in_tick_array {
            return false;
        }
        proof {
            vstd::arithmetic::mul::lemma_mul_is_commutative(tick_spacing as int, 88);
        }
        true
    }
}

/// The volatility state the adaptive fee evolves per swap.
#[derive(Clone, Copy, Debug, PartialEq, Eq, Structural)]
pub struct AdaptiveFeeVariables {
    /// When the references were last moved.
    pub last_reference_update_timestamp: u64,
    /// When the last major swap finished.
    pub last_major_swap_timestamp: u64,
    /// The decayed accumulator carried into the current trading burst.
    pub volatility_reference: u32,
    /// Tick group the current burst is measured from.
    pub tick_group_index_reference: i32,
    /// Scaled count of tick groups crossed since the reference.
    pub volatility_accumulator: u32,
}

/// The variables after a volatility-accumulator update at `tick_group_index`:
/// the accumulator becomes the reference plus the scaled distance from the
/// reference group, clamped at the configured maximum; nothing else moves.
pub open spec fn vars_after_volatility_update(
    vars: AdaptiveFeeVariables,
    tick_group_index: int,
    constants: AdaptiveFeeConstants,
) -> AdaptiveFeeVariables {
    let index_delta: int = if vars.tick_group_index_reference >= tick_group_index {
        vars.tick_group_index_reference - tick_group_index
    } else {
        tick_group_index - vars.tick_group_index_reference
    };
    let unclamped = vars.volatility_reference + index_delta * VOLATILITY_ACCUMULATOR_SCALE_FACTOR;
    let clamped: int = if unclamped <= constants.max_volatility_accumulator as int {
        unclamped
    } else {
        constants.max_volatility_accumulator as int
    };
    AdaptiveFeeVariables { volatility_accumulator: clamped as u32, ..vars }
}

impl AdaptiveFeeVariables {
    pub fn default() -> (r: AdaptiveFeeVariables)
        ensures
            r == (AdaptiveFeeVariables {
                last_reference_update_timestamp: 0,
                last_major_swap_timestamp: 0,
                volatility_reference: 0,
                tick_group_index_reference: 0,
                volatility_accumulator: 0,
            }),
    {
        AdaptiveFeeVariables {
            last_reference_update_timestamp: 0,
            last_major_swap_timestamp: 0,
            volatility_reference: 0,
            tick_group_index_reference: 0,
            volatility_accumulator: 0,
        }
    }

    /// Accumulates the tick-group distance from the reference, capped at the
    /// configured maximum. The cap always holds afterwards.
    pub fn update_volatility_accumulator(
        &mut self,
        tick_group_index: i32,
        adaptive_fee_constants: &AdaptiveFeeConstants,
    ) -> (r: Result<(), ErrorCode>)
        ensures
            r is Ok,
            ({
                let index_delta: int = if old(self).tick_group_index_reference >= tick_group_index {
                    old(self).tick_group_index_reference - tick_group_index
                } else {
                    tick_group_index - old(self).tick_group_index_reference
                };
                let unclamped = old(self).volatility_reference + index_delta
                    * VOLATILITY_ACCUMULATOR_SCALE_FACTOR;
                final(self).volatility_accumulator as int == if unclamped
                    <= adaptive_fee_constants.max_volatility_accumulator as int {
                    unclamped
                } else {
                    adaptive_fee_constants.max_volatility_accumulator as int
                }
            }),
            final(self).volatility_accumulator <= adaptive_fee_constants.max_volatility_accumulator,
            *final(self) == (AdaptiveFeeVariables {
                volatility_accumulator: final(self).volatility_accumulator,
                ..*old(self)
            }),
            *final(self) == vars_after_volatility_update(
                *old(self),
                tick_group_index as int,
                *adaptive_fee_constants,
            ),
    {
        let reference = self.tick_group_index_reference;
        let index_delta: u64 = if reference >= tick_group_index {
            ((reference as i64) - (tick_group_index as i64)) as u64
        } else {
            ((tick_group_index as i64) - (reference as i64)) as u64
        };
        proof {
            vstd::arithmetic::mul::lemma_mul_upper_bound(
                index_delta as int,
                0x1_0000_0000,
                VOLATILITY_ACCUMULATOR_SCALE_FACTOR as int,
                10_000,
            );
            vstd::arithmetic::mul::lemma_mul_nonnegative(
                index_delta as int,
                VOLATILITY_ACCUMULATOR_SCALE_FACTOR as int,
            );
        }
        let unclamped: u64 = (self.volatility_reference as u64) + index_delta
            * (VOLATILITY_ACCUMULATOR_SCALE_FACTOR as u64);
        let capped: u64 = if unclamped <= adaptive_fee_constants.max_volatility_accumulator as u64 {
            unclamped
        } else {
            adaptive_fee_constants.max_volatility_accumulator as u64
        };
        self.volatility_accumulator = capped as u32;
        Ok(())
    }

    /// Moves the references forward for a swap at `current_timestamp`.
    ///
    /// Too-old references reset outright; within the filter period nothing
    /// changes; within the decay period the accumulator decays into the
    /// reference; past it the reference clears.
    pub fn update_reference(
        &mut self,
        tick_group_index: i32,
        current_timestamp: u64,
        adaptive_fee_constants: &AdaptiveFeeConstants,
    ) -> (r: Result<(), ErrorCode>)
        requires
            adaptive_fee_constants.reduction_factor < REDUCTION_FACTOR_DENOMINATOR,
            adaptive_fee_constants.filter_period < adaptive_fee_constants.decay_period,
        ensures
            ({
                let max_timestamp = if old(self).last_reference_update_timestamp >= old(self).last_major_swap_timestamp {
                    old(self).last_reference_update_timestamp
                } else {
                    old(self).last_major_swap_timestamp
                };
                let reference_age = current_timestamp - old(self).last_reference_update_timestamp;
                let elapsed = current_timestamp - max_timestamp;
                &&& (current_timestamp < max_timestamp ==> r == Err::<(), ErrorCode>(
                    ErrorCode::InvalidTimestamp,
                ) && *final(self) == *old(self))
                &&& (current_timestamp >= max_timestamp && reference_age > MAX_REFERENCE_AGE ==> r
                    == Ok::<(), ErrorCode>(()) && *final(self) == (AdaptiveFeeVariables {
                    tick_group_index_reference: tick_group_index,
                    volatility_reference: 0,
                    last_reference_update_timestamp: current_timestamp,
                    ..*old(self)
                }))
                &&& (current_timestamp >= max_timestamp && reference_age <= MAX_REFERENCE_AGE
                    && elapsed < adaptive_fee_constants.filter_period ==> r == Ok::<
                    (),
                    ErrorCode,
                >(()) && *final(self) == *old(self))
                &&& (current_timestamp >= max_timestamp && reference_age <= MAX_REFERENCE_AGE
                    && adaptive_fee_constants.filter_period <= elapsed
                    < adaptive_fee_constants.decay_period ==> r == Ok::<(), ErrorCode>(())
                    && *final(self) == (AdaptiveFeeVariables {
                    tick_group_index_reference: tick_group_index,
                    volatility_reference: ((old(self).volatility_accumulator as int
                        * adaptive_fee_constants.reduction_factor as int)
                        / REDUCTION_FACTOR_DENOMINATOR as int) as u32,
                    last_reference_update_timestamp: current_timestamp,
                    ..*old(self)
                }))
                &&& (current_timestamp >= max_timestamp && reference_age <= MAX_REFERENCE_AGE
                    && elapsed >= adaptive_fee_constants.decay_period ==> r == Ok::<
                    (),
                    ErrorCode,
                >(()) && *final(self) == (AdaptiveFeeVariables {
                    tick_group_index_reference: tick_group_index,
                    volatility_reference: 0,
                    last_reference_update_timestamp: current_timestamp,
                    ..*old(self)
                }))
            }),
    {
        let max_timestamp = if self.last_reference_update_timestamp
            >= self.last_major_swap_timestamp {
            self.last_reference_update_timestamp
        } else {
            self.last_major_swap_timestamp
        };
        if current_timestamp < max_timestamp {
            return Err(ErrorCode::InvalidTimestamp);
        }

        let reference_age = current_timestamp - self.last_reference_update_timestamp;
        if reference_age > MAX_REFERENCE_AGE {
            // the references are too old, so reset them
            self.tick_group_index_reference = tick_group_index;
            self.volatility_reference = 0;
            self.last_reference_update_timestamp = current_timestamp;
            return Ok(());
        }

        let elapsed = current_timestamp - max_timestamp;
        if elapsed < adaptive_fee_constants.filter_period as u64 {
            // high-frequency trading window: references unchanged
        } else if elapsed < adaptive_fee_constants.decay_period as u64 {
            self.tick_group_index_reference = tick_group_index;
            proof {
                vstd::arithmetic::mul::lemma_mul_upper_bound(
                    old(self).volatility_accumulator as int,
                    0xffff_ffff,
                    adaptive_fee_constants.reduction_factor as int,
                    0xffff,
                );
                vstd::arithmetic::mul::lemma_mul_nonnegative(
                    old(self).volatility_accumulator as int,
                    adaptive_fee_constants.reduction_factor as int,
                );
                vstd::arithmetic::div_mod::lemma_div_nonincreasing(
                    old(self).volatility_accumulator as int
                        * adaptive_fee_constants.reduction_factor as int,
                    REDUCTION_FACTOR_DENOMINATOR as int,
                );
                let acc = old(self).volatility_accumulator as int;
                let red = adaptive_fee_constants.reduction_factor as int;
                let den = REDUCTION_FACTOR_DENOMINATOR as int;
                if old(self).volatility_accumulator > 0 {
                    assert(acc * red < den * acc) by {
                        vstd::arithmetic::mul::lemma_mul_strict_inequality(red, den, acc);
                        vstd::arithmetic::mul::lemma_mul_is_commutative(acc, red);
                    }
                    vstd::arithmetic::div_mod::lemma_multiply_divide_lt(acc * red, den, acc);
                } else {
                    assert(acc * red == 0) by {
                        vstd::arithmetic::mul::lemma_mul_basics(red);
                    }
                    vstd::arithmetic::div_mod::lemma_basic_div(0, den);
                }
            }
            self.volatility_reference = (((self.volatility_accumulator as u64)
                * (adaptive_fee_constants.reduction_factor as u64)) / (
            REDUCTION_FACTOR_DENOMINATOR as u64)) as u32;
            self.last_reference_update_timestamp = current_timestamp;
        } else {
            self.tick_group_index_reference = tick_group_index;
            self.volatility_reference = 0;
            self.last_reference_update_timestamp = current_timestamp;
        }
        Ok(())
    }

    /// Stamps the major-swap timestamp when the price moved at least the
    /// threshold's worth of ticks.
    pub fn update_major_swap_timestamp(
        &mut self,
        pre_sqrt_price: u128,
        post_sqrt_price: u128,
        current_timestamp: u64,
        adaptive_fee_constants: &AdaptiveFeeConstants,
    ) -> (r: Result<(), ErrorCode>)
        requires
            1 <= adaptive_fee_constants.major_swap_threshold_ticks,
            pre_sqrt_price <= crate::tick_math::MAX_SQRT_PRICE_X64,
            post_sqrt_price <= crate::tick_math::MAX_SQRT_PRICE_X64,
        ensures
            r is Ok,
            ({
                let smaller: nat = if pre_sqrt_price <= post_sqrt_price {
                    pre_sqrt_price as nat
                } else {
                    post_sqrt_price as nat
                };
                let larger: nat = if pre_sqrt_price <= post_sqrt_price {
                    post_sqrt_price as nat
                } else {
                    pre_sqrt_price as nat
                };
                let target = (smaller * sqrt_price_from_tick_spec(
                    adaptive_fee_constants.major_swap_threshold_ticks as int,
                )) / pow2(64);
                &&& (larger >= target ==> *final(self) == (AdaptiveFeeVariables {
                    last_major_swap_timestamp: current_timestamp,
                    ..*old(self)
                }))
                &&& (larger < target ==> *final(self) == *old(self))
            }),
    {
        let is_major = Self::is_major_swap(
            pre_sqrt_price,
            post_sqrt_price,
            adaptive_fee_constants.major_swap_threshold_ticks,
        );
        match is_major {
            Ok(true) => {
                self.last_major_swap_timestamp = current_timestamp;
                Ok(())
            },
            Ok(false) => Ok(()),
            Err(e) => {
                proof {
                    assert(false);
                }
                Err(e)
            },
        }
    }

    /// Whether the move from `pre_sqrt_price` to `post_sqrt_price` spans at
    /// least `major_swap_threshold_ticks` ticks' worth of price ratio,
    /// within the fixed-point rounding of the threshold factor.
    fn is_major_swap(
        pre_sqrt_price: u128,
        post_sqrt_price: u128,
        major_swap_threshold_ticks: u16,
    ) -> (r: Result<bool, ErrorCode>)
        requires
            1 <= major_swap_threshold_ticks,
            pre_sqrt_price <= crate::tick_math::MAX_SQRT_PRICE_X64,
            post_sqrt_price <= crate::tick_math::MAX_SQRT_PRICE_X64,
        ensures
            ({
                let smaller: nat = if pre_sqrt_price <= post_sqrt_price {
                    pre_sqrt_price as nat
                } else {
                    post_sqrt_price as nat
                };
                let larger: nat = if pre_sqrt_price <= post_sqrt_price {
                    post_sqrt_price as nat
                } else {
                    pre_sqrt_price as nat
                };
                let target = (smaller * sqrt_price_from_tick_spec(
                    major_swap_threshold_ticks as int,
                )) / pow2(64);
                r == Ok::<bool, ErrorCode>(larger >= target)
            }),
    {
        let (smaller_sqrt_price, larger_sqrt_price) = increasing_price_order(
            pre_sqrt_price,
            post_sqrt_price,
        );
        // major_swap_sqrt_price_target
        //   = smaller_sqrt_price * sqrt(pow(1.0001, major_swap_threshold_ticks))
        //   = smaller_sqrt_price * sqrt_price_from_tick_index(major_swap_threshold_ticks) >> 64
        let major_swap_sqrt_price_factor = sqrt_price_from_tick_index(
            major_swap_threshold_ticks as i32,
        );
        proof {
            // a u16 tick threshold keeps the factor under a fixed ceiling,
            // so the shifted product always fits 128 bits
            crate::tick_math::lemma_sqrt_price_factor_upper(
                major_swap_threshold_ticks as int,
            );
            vstd::arithmetic::mul::lemma_mul_upper_bound(
                smaller_sqrt_price as int,
                crate::tick_math::MAX_SQRT_PRICE_X64 as int,
                sqrt_price_from_tick_spec(major_swap_threshold_ticks as int) as int,
                488565748650866590023,
            );
            crate::u256::lemma_pow2_64_value();
            vstd::arithmetic::div_mod::lemma_div_is_ordered(
                (smaller_sqrt_price as nat * sqrt_price_from_tick_spec(
                    major_swap_threshold_ticks as int,
                )) as int,
                79226673521066979257578248091int * 488565748650866590023,
                pow2(64) as int,
            );
            assert((79226673521066979257578248091int * 488565748650866590023)
                / 0x1_0000_0000_0000_0000 <= u128::MAX);
        }
        let product = wide_mul_u128(smaller_sqrt_price, major_swap_sqrt_price_factor);
        let shifted = product.shr64();
        let major_swap_sqrt_price_target = match shifted.try_into_u128() {
            Ok(v) => v,
            Err(_) => {
                proof {
                    assert(false);
                }
                0
            },
        };
        Ok(larger_sqrt_price >= major_swap_sqrt_price_target)
    }
}

/// The borrowed adaptive-fee state a swap works on.
#[derive(Clone, Copy, Debug, PartialEq, Eq, Structural)]
pub struct AdaptiveFeeInfo {
    pub constants: AdaptiveFeeConstants,
    pub variables: AdaptiveFeeVariables,
}

/// The persistent oracle record of an adaptive-fee pool.
#[derive(Clone, Copy, Debug)]
pub struct Oracle {
    pub solve: Address,
    /// Trades are rejected before this time; zero means immediately
    /// enabled.
    pub trade_enable_timestamp: u64,
    pub adaptive_fee_constants: AdaptiveFeeConstants,
    pub adaptive_fee_variables: AdaptiveFeeVariables,
}

impl Oracle {
    pub fn default() -> (r: Oracle)
        ensures
            r.solve.is_null(),
            r.trade_enable_timestamp == 0,
            r.adaptive_fee_constants == (AdaptiveFeeConstants {
                filter_period: 0,
                decay_period: 0,
                reduction_factor: 0,
                adaptive_fee_control_factor: 0,
                max_volatility_accumulator: 0,
                tick_group_size: 0,
                major_swap_threshold_ticks: 0,
            }),
            r.adaptive_fee_variables == (AdaptiveFeeVariables {
                last_reference_update_timestamp: 0,
                last_major_swap_timestamp: 0,
                volatility_reference: 0,
                tick_group_index_reference: 0,
                volatility_accumulator: 0,
            }),
    {
        Oracle {
            solve: Address::null(),
            trade_enable_timestamp: 0,
            adaptive_fee_constants: AdaptiveFeeConstants::default(),
            adaptive_fee_variables: AdaptiveFeeVariables::default(),
        }
    }

    /// Binds the oracle to a pool, validating and storing the constants and
    /// clearing the variables.
    #[allow(clippy::too_many_arguments)]
    pub fn initialize(
        &mut self,
        solve: Address,
        trade_enable_timestamp: Option<u64>,
        tick_spacing: u16,
        filter_period: u16,
        decay_period: u16,
        reduction_factor: u16,
        adaptive_fee_control_factor: u32,
        max_volatility_accumulator: u32,
        tick_group_size: u16,
        major_swap_threshold_ticks: u16,
    ) -> (r: Result<(), ErrorCode>)
        requires
            1 <= tick_spacing,
        ensures
            ({
                let constants = AdaptiveFeeConstants {
                    filter_period,
                    decay_period,
                    reduction_factor,
                    adaptive_fee_control_factor,
                    max_volatility_accumulator,
                    tick_group_size,
                    major_swap_threshold_ticks,
                };
                &&& (valid_adaptive_fee_constants(tick_spacing as int, constants) ==> r == Ok::<
                    (),
                    ErrorCode,
                >(()) && *final(self) == (Oracle {
                    solve,
                    trade_enable_timestamp: if trade_enable_timestamp is Some {
                        trade_enable_timestamp->0
                    } else {
                        0
                    },
                    adaptive_fee_constants: constants,
                    adaptive_fee_variables: AdaptiveFeeVariables {
                        last_reference_update_timestamp: 0,
                        last_major_swap_timestamp: 0,
                        volatility_reference: 0,
                        tick_group_index_reference: 0,
                        volatility_accumulator: 0,
                    },
                }))
                &&& (!valid_adaptive_fee_constants(tick_spacing as int, constants) ==> r == Err::<
                    (),
                    ErrorCode,
                >(ErrorCode::InvalidAdaptiveFeeConstants))
            }),
    {
        self.solve = solve;
        self.trade_enable_timestamp = match trade_enable_timestamp {
            Some(t) => t,
            None => 0,
        };
        let constants = AdaptiveFeeConstants {
            filter_period,
            decay_period,
            reduction_factor,
            adaptive_fee_control_factor,
            max_volatility_accumulator,
            tick_group_size,
            major_swap_threshold_ticks,
        };
        let check = self.initialize_adaptive_fee_constants(constants, tick_spacing);
        match check {
            Ok(_) => (),
            Err(e) => {
                return Err(e);
            },
        }
        self.adaptive_fee_variables = AdaptiveFeeVariables::default();
        Ok(())
    }

    /// Validates and installs a set of adaptive-fee constants.
    pub fn initialize_adaptive_fee_constants(
        &mut self,
        constants: AdaptiveFeeConstants,
        tick_spacing: u16,
    ) -> (r: Result<(), ErrorCode>)
        requires
            1 <= tick_spacing,
        ensures
            valid_adaptive_fee_constants(tick_spacing as int, constants) ==> r == Ok::<
                (),
                ErrorCode,
            >(()) && *final(self) == (Oracle { adaptive_fee_constants: constants, ..*old(self) }),
            !valid_adaptive_fee_constants(tick_spacing as int, constants) ==> r == Err::<
                (),
                ErrorCode,
            >(ErrorCode::InvalidAdaptiveFeeConstants) && *final(self) == *old(self),
    {
        if !AdaptiveFeeConstants::validate_constants(
            tick_spacing,
            constants.filter_period,
            constants.decay_period,
            constants.reduction_factor,
            constants.adaptive_fee_control_factor,
            constants.max_volatility_accumulator,
            constants.tick_group_size,
            constants.major_swap_threshold_ticks,
        ) {
            return Err(ErrorCode::InvalidAdaptiveFeeConstants);
        }
        self.adaptive_fee_constants = constants;
        Ok(())
    }

    /// Writes back the variables a swap evolved.
    pub fn update_adaptive_fee_variables(&mut self, variables: AdaptiveFeeVariables)
        ensures
            *final(self) == (Oracle { adaptive_fee_variables: variables, ..*old(self) }),
    {
        self.adaptive_fee_variables = variables;
    }

    /// Whether trading is enabled at `current_timestamp`.
    pub fn is_trade_enabled(&self, current_timestamp: u64) -> (r: bool)
        ensures
            r == (self.trade_enable_timestamp <= current_timestamp),
    {
        self.trade_enable_timestamp <= current_timestamp
    }
}

/// Whether a proposed trade-enable timestamp is acceptable now: only a
/// permissioned tier may defer trading, at most 30 seconds into the past
/// and at most 72 hours into the future.
pub fn is_valid_trade_enable_timestamp(
    trade_enable_timestamp: Option<u64>,
    current_timestamp: u64,
    is_permissioned_adaptive_fee_tier: bool,
) -> (r: bool)
    ensures
        trade_enable_timestamp is None ==> r,
        trade_enable_timestamp is Some ==> r == ({
            let t = trade_enable_timestamp->0;
            &&& is_permissioned_adaptive_fee_tier
            &&& t + 30 >= current_timestamp
            &&& t <= current_timestamp + MAX_TRADE_ENABLE_TIMESTAMP_DELTA
        }),
{
    match trade_enable_timestamp {
        None => true,
        Some(t) => {
            // a permissionless tier may not defer trading at all
            if !is_permissioned_adaptive_fee_tier {
                return false;
            }
            let not_too_old = current_timestamp <= 30 || t >= current_timestamp - 30;
            let not_too_far = t <= MAX_TRADE_ENABLE_TIMESTAMP_DELTA || t
                - MAX_TRADE_ENABLE_TIMESTAMP_DELTA <= current_timestamp;
            not_too_old && not_too_far
        },
    }
}

} // verus!
