//! The per-swap fee-rate controller: static pools charge their fixed rate;
//! adaptive pools add a component driven by the volatility accumulator.

use vstd::prelude::*;

use crate::errors::ErrorCode;
use crate::oracle::{
    vars_after_volatility_update, AdaptiveFeeConstants, AdaptiveFeeInfo, AdaptiveFeeVariables,
    REDUCTION_FACTOR_DENOMINATOR,
};
use crate::swap_math::MAX_FEE_RATE;
use crate::tick::floor_division;
use crate::tick_math::{
    sqrt_price_from_tick_index, sqrt_price_from_tick_spec, MAX_TICK_INDEX, MIN_TICK_INDEX,
};
use crate::token_math::div_round_up;

verus! {

/// The constants an adaptive controller can run on: exactly the parts of
/// tier validation its arithmetic relies on.
pub open spec fn usable_constants(c: AdaptiveFeeConstants) -> bool {
    &&& c.tick_group_size >= 1
    &&& c.adaptive_fee_control_factor < crate::oracle::ADAPTIVE_FEE_CONTROL_FACTOR_DENOMINATOR
    &&& c.max_volatility_accumulator * c.tick_group_size <= u32::MAX
    &&& c.reduction_factor < REDUCTION_FACTOR_DENOMINATOR
    &&& c.filter_period < c.decay_period
    &&& c.major_swap_threshold_ticks >= 1
}

/// The fee-rate state a swap carries across its steps.
pub enum FeeRateManager {
    /// A pool with an adaptive-fee tier: the controller walks tick groups.
    Adaptive {
        a_to_b: bool,
        tick_group_index: i32,
        static_fee_rate: u16,
        adaptive_fee_constants: AdaptiveFeeConstants,
        adaptive_fee_variables: AdaptiveFeeVariables,
    },
    /// A pool with a static fee tier.
    Static { static_fee_rate: u16 },
}

/// The post-skip state of an adaptive manager, given the tick `t` that
/// holds the post-skip price. The manager fast-forwards to the group of
/// `t` (one group lower when an a-to-b swap stopped exactly on a usable
/// group boundary), updates the volatility accumulator only if the group
/// moved against the swap direction, and then steps one group further for
/// the next loop iteration.
pub open spec fn skip_advanced(
    pre: FeeRateManager,
    post: FeeRateManager,
    sqrt_price: u128,
    next_tick_sqrt_price: u128,
    t: i32,
) -> bool {
    let a_to_b = pre->Adaptive_a_to_b;
    let constants = pre->Adaptive_adaptive_fee_constants;
    let tgs = constants.tick_group_size as int;
    let exact = sqrt_price == next_tick_sqrt_price || sqrt_price_from_tick_spec(t as int)
        == sqrt_price;
    let on_boundary = exact && crate::tick::is_usable_tick(t as int, tgs);
    let g = t as int / tgs;
    let last: int = if on_boundary && a_to_b && g > i32::MIN as int {
        g - 1
    } else {
        g
    };
    let old_tgi = pre->Adaptive_tick_group_index as int;
    let moved: bool = if a_to_b {
        last < old_tgi
    } else {
        last > old_tgi
    };
    let mid: int = if moved {
        last
    } else {
        old_tgi
    };
    let fin: int = if a_to_b {
        if mid > i32::MIN as int {
            mid - 1
        } else {
            mid
        }
    } else {
        if mid < i32::MAX as int {
            mid + 1
        } else {
            mid
        }
    };
    &&& post is Adaptive
    &&& post->Adaptive_a_to_b == a_to_b
    &&& post->Adaptive_static_fee_rate == pre->Adaptive_static_fee_rate
    &&& post->Adaptive_adaptive_fee_constants == constants
    &&& post->Adaptive_tick_group_index == fin
    &&& post->Adaptive_adaptive_fee_variables == (if moved {
        vars_after_volatility_update(pre->Adaptive_adaptive_fee_variables, last, constants)
    } else {
        pre->Adaptive_adaptive_fee_variables
    })
}

/// The adaptive fee component for an accumulator value:
/// `ceil((acc * group_size)^2 * control_factor / (10^5 * 10^4 * 10^4))`.
pub open spec fn adaptive_fee_rate_spec(c: AdaptiveFeeConstants, v: AdaptiveFeeVariables) -> nat {
    let crossed: nat = v.volatility_accumulator as nat * c.tick_group_size as nat;
    div_round_up(
        crossed * crossed * c.adaptive_fee_control_factor as nat,
        100_000nat * 10_000 * 10_000,
    )
}

/// The total fee rate: the static rate plus the adaptive component, capped
/// at `MAX_FEE_RATE`.
pub open spec fn total_fee_rate_spec(m: FeeRateManager) -> nat {
    match m {
        FeeRateManager::Static { static_fee_rate } => static_fee_rate as nat,
        FeeRateManager::Adaptive { static_fee_rate, adaptive_fee_constants, adaptive_fee_variables, .. } => {
            let total: nat = static_fee_rate as nat + adaptive_fee_rate_spec(
                adaptive_fee_constants,
                adaptive_fee_variables,
            );
            if total > MAX_FEE_RATE as nat {
                MAX_FEE_RATE as nat
            } else {
                total
            }
        },
    }
}

impl FeeRateManager {
    /// Controller well-formedness: the static rate is in range and, for an
    /// adaptive controller, the constants are usable.
    pub open spec fn wf(self) -> bool {
        match self {
            FeeRateManager::Static { static_fee_rate } => static_fee_rate <= MAX_FEE_RATE,
            FeeRateManager::Adaptive { static_fee_rate, adaptive_fee_constants, .. } => {
                &&& static_fee_rate <= MAX_FEE_RATE
                &&& usable_constants(adaptive_fee_constants)
            },
        }
    }

    /// Builds the controller for one swap: static when the pool carries no
    /// adaptive-fee info, otherwise adaptive with the references moved
    /// forward to `timestamp`. A downward swap that starts exactly on a
    /// tick-group boundary enters the group below it.
    pub fn new(
        a_to_b: bool,
        current_tick_index: i32,
        timestamp: u64,
        static_fee_rate: u16,
        adaptive_fee_info: &Option<AdaptiveFeeInfo>,
    ) -> (r: Result<FeeRateManager, ErrorCode>)
        requires
            static_fee_rate <= MAX_FEE_RATE,
            adaptive_fee_info is Some ==> usable_constants(adaptive_fee_info->0.constants),
            -0x0200_0000 <= current_tick_index <= 0x0200_0000,
        ensures
            adaptive_fee_info is None ==> r == Ok::<FeeRateManager, ErrorCode>(
                FeeRateManager::Static { static_fee_rate },
            ),
            r is Err ==> r == Err::<FeeRateManager, ErrorCode>(ErrorCode::InvalidTimestamp),
            r is Ok ==> r->Ok_0.wf(),
            r is Ok && adaptive_fee_info is Some ==> ({
                let m = r->Ok_0;
                let tgs = adaptive_fee_info->0.constants.tick_group_size as int;
                let base_group = current_tick_index as int / tgs;
                &&& m is Adaptive
                &&& m->Adaptive_a_to_b == a_to_b
                &&& m->Adaptive_static_fee_rate == static_fee_rate
                &&& m->Adaptive_adaptive_fee_constants == adaptive_fee_info->0.constants
                &&& m->Adaptive_tick_group_index == (if a_to_b && current_tick_index as int % tgs
                    == 0 {
                    base_group - 1
                } else {
                    base_group
                })
                &&& m->Adaptive_adaptive_fee_variables.volatility_accumulator
                    == adaptive_fee_info->0.variables.volatility_accumulator
            }),
    {
        match adaptive_fee_info {
            None => Ok(FeeRateManager::Static { static_fee_rate }),
            Some(info) => {
                let base_group = floor_division(
                    current_tick_index,
                    info.constants.tick_group_size as i32,
                );
                // a downward trade from a group boundary enters the group
                // below the boundary
                let on_boundary = (base_group as i64) * (info.constants.tick_group_size as i64)
                    == current_tick_index as i64;
                proof {
                    vstd::arithmetic::div_mod::lemma_fundamental_div_mod(
                        current_tick_index as int,
                        info.constants.tick_group_size as int,
                    );
                    vstd::arithmetic::mul::lemma_mul_is_commutative(
                        info.constants.tick_group_size as int,
                        base_group as int,
                    );
                    vstd::arithmetic::div_mod::lemma_mod_division_less_than_divisor(
                        current_tick_index as int,
                        info.constants.tick_group_size as int,
                    );
                    assert(-0x0201_0000 <= base_group as int * (
                    info.constants.tick_group_size as int) <= 0x0200_0000);
                    assert(base_group >= -0x0201_0000) by (nonlinear_arith)
                        requires
                            base_group as int * (info.constants.tick_group_size as int)
                                >= -0x0201_0000,
                            1 <= info.constants.tick_group_size,
                    ;
                }
                let tick_group_index: i32 = if a_to_b && on_boundary {
                    base_group - 1
                } else {
                    base_group
                };
                let mut variables = info.variables;
                let updated = variables.update_reference(
                    tick_group_index,
                    timestamp,
                    &info.constants,
                );
                match updated {
                    Ok(_) => (),
                    Err(e) => {
                        return Err(e);
                    },
                }
                Ok(
                    FeeRateManager::Adaptive {
                        a_to_b,
                        tick_group_index,
                        static_fee_rate,
                        adaptive_fee_constants: info.constants,
                        adaptive_fee_variables: variables,
                    },
                )
            },
        }
    }

    /// Folds the current tick group into the volatility accumulator; the
    /// accumulator never exceeds its configured maximum afterwards.
    pub fn update_volatility_accumulator(&mut self) -> (r: Result<(), ErrorCode>)
        requires
            old(self).wf(),
        ensures
            r is Ok,
            final(self).wf(),
            (*old(self)) is Static ==> *final(self) == *old(self),
            (*old(self)) is Adaptive ==> ({
                &&& (*final(self)) is Adaptive
                &&& final(self)->Adaptive_a_to_b == old(self)->Adaptive_a_to_b
                &&& final(self)->Adaptive_tick_group_index == old(self)->Adaptive_tick_group_index
                &&& final(self)->Adaptive_static_fee_rate == old(self)->Adaptive_static_fee_rate
                &&& final(self)->Adaptive_adaptive_fee_constants == old(
                    self,
                )->Adaptive_adaptive_fee_constants
                &&& final(self)->Adaptive_adaptive_fee_variables.volatility_accumulator <= old(
                    self,
                )->Adaptive_adaptive_fee_constants.max_volatility_accumulator
                &&& ({
                    let vars = old(self)->Adaptive_adaptive_fee_variables;
                    let index_delta: int = if vars.tick_group_index_reference >= old(
                        self,
                    )->Adaptive_tick_group_index {
                        vars.tick_group_index_reference - old(self)->Adaptive_tick_group_index
                    } else {
                        old(self)->Adaptive_tick_group_index - vars.tick_group_index_reference
                    };
                    let unclamped = vars.volatility_reference + index_delta
                        * crate::oracle::VOLATILITY_ACCUMULATOR_SCALE_FACTOR;
                    let cap = old(
                        self,
                    )->Adaptive_adaptive_fee_constants.max_volatility_accumulator as int;
                    final(self)->Adaptive_adaptive_fee_variables == (AdaptiveFeeVariables {
                        volatility_accumulator: (if unclamped <= cap {
                            unclamped
                        } else {
                            cap
                        }) as u32,
                        ..vars
                    })
                })
            }),
    {
        match self {
            FeeRateManager::Static { .. } => Ok(()),
            FeeRateManager::Adaptive {
                tick_group_index,
                adaptive_fee_constants,
                adaptive_fee_variables,
                ..
            } => {
                let tgi = *tick_group_index;
                let constants = *adaptive_fee_constants;
                adaptive_fee_variables.update_volatility_accumulator(tgi, &constants)
            },
        }
    }

    /// The fee rate this step charges, never above `MAX_FEE_RATE`.
    pub fn get_total_fee_rate(&self) -> (r: u32)
        requires
            self.wf(),
        ensures
            r == total_fee_rate_spec(*self),
            r <= MAX_FEE_RATE,
    {
        match self {
            FeeRateManager::Static { static_fee_rate } => *static_fee_rate as u32,
            FeeRateManager::Adaptive {
                static_fee_rate,
                adaptive_fee_constants,
                adaptive_fee_variables,
                ..
            } => {
                proof {
                    vstd::arithmetic::mul::lemma_mul_upper_bound(
                        adaptive_fee_variables.volatility_accumulator as int,
                        0xffff_ffff,
                        adaptive_fee_constants.tick_group_size as int,
                        0xffff,
                    );
                    vstd::arithmetic::mul::lemma_mul_nonnegative(
                        adaptive_fee_variables.volatility_accumulator as int,
                        adaptive_fee_constants.tick_group_size as int,
                    );
                }
                let crossed: u64 = (adaptive_fee_variables.volatility_accumulator as u64)
                    * (adaptive_fee_constants.tick_group_size as u64);
                proof {
                    vstd::arithmetic::mul::lemma_mul_upper_bound(
                        crossed as int,
                        0xffff_ffff_ffff,
                        crossed as int,
                        0xffff_ffff_ffff,
                    );
                    vstd::arithmetic::mul::lemma_mul_nonnegative(crossed as int, crossed as int);
                }
                let squared: u128 = (crossed as u128) * (crossed as u128);
                proof {
                    vstd::arithmetic::mul::lemma_mul_upper_bound(
                        squared as int,
                        0xffff_ffff_ffff_ffff_ffff_ffff,
                        adaptive_fee_constants.adaptive_fee_control_factor as int,
                        0xf_ffff,
                    );
                    vstd::arithmetic::mul::lemma_mul_nonnegative(
                        squared as int,
                        adaptive_fee_constants.adaptive_fee_control_factor as int,
                    );
                }
                let num: u128 = squared * (
                adaptive_fee_constants.adaptive_fee_control_factor as u128);
                let den: u128 = 100_000u128 * 10_000 * 10_000;
                let q = num / den;
                let rem = num % den;
                let adaptive_rate: u128 = if rem != 0 {
                    q + 1
                } else {
                    q
                };
                let total: u128 = (*static_fee_rate as u128) + if adaptive_rate > (
                MAX_FEE_RATE as u128) {
                    MAX_FEE_RATE as u128
                } else {
                    adaptive_rate
                };
                if total > MAX_FEE_RATE as u128 {
                    MAX_FEE_RATE as u32
                } else {
                    total as u32
                }
            },
        }
    }

    /// The sub-step price target: the boundary of the current tick group,
    /// unless no liquidity is active — then the step skips straight to the
    /// given target.
    pub fn get_bounded_sqrt_price_target(&self, sqrt_price: u128, curr_liquidity: u128) -> (r: (
        u128,
        bool,
    ))
        requires
            self.wf(),
        ensures
            (*self) is Static ==> r == (sqrt_price, false),
            (*self) is Adaptive && curr_liquidity == 0 ==> r == (sqrt_price, true),
            (*self) is Adaptive && curr_liquidity > 0 ==> ({
                let tgi = self->Adaptive_tick_group_index;
                let tgs = self->Adaptive_adaptive_fee_constants.tick_group_size as int;
                let boundary: int = if self->Adaptive_a_to_b {
                    tgi * tgs
                } else {
                    tgi * tgs + tgs
                };
                let clamped: int = if boundary < MIN_TICK_INDEX {
                    MIN_TICK_INDEX as int
                } else if boundary > MAX_TICK_INDEX {
                    MAX_TICK_INDEX as int
                } else {
                    boundary
                };
                let boundary_price = sqrt_price_from_tick_spec(clamped);
                &&& r.1 == false
                &&& (self->Adaptive_a_to_b ==> r.0 == if sqrt_price as nat >= boundary_price {
                    sqrt_price as nat
                } else {
                    boundary_price
                })
                &&& (!self->Adaptive_a_to_b ==> r.0 == if sqrt_price as nat <= boundary_price {
                    sqrt_price as nat
                } else {
                    boundary_price
                })
            }),
    {
        match self {
            FeeRateManager::Static { .. } => (sqrt_price, false),
            FeeRateManager::Adaptive { a_to_b, tick_group_index, adaptive_fee_constants, .. } => {
                if curr_liquidity == 0 {
                    return (sqrt_price, true);
                }
                let tgs = adaptive_fee_constants.tick_group_size as i64;
                proof {
                    assert(-0x8000_0000_0000 <= (*tick_group_index as int) * (
                    adaptive_fee_constants.tick_group_size as int) <= 0x8000_0000_0000)
                        by (nonlinear_arith)
                        requires
                            -0x8000_0000 <= *tick_group_index <= 0x7fff_ffff,
                            0 <= adaptive_fee_constants.tick_group_size <= 0xffff,
                    ;
                }
                let boundary: i64 = if *a_to_b {
                    (*tick_group_index as i64) * tgs
                } else {
                    (*tick_group_index as i64) * tgs + tgs
                };
                let clamped: i32 = if boundary < MIN_TICK_INDEX as i64 {
                    MIN_TICK_INDEX
                } else if boundary > MAX_TICK_INDEX as i64 {
                    MAX_TICK_INDEX
                } else {
                    boundary as i32
                };
                let boundary_sqrt_price = sqrt_price_from_tick_index(clamped);
                if *a_to_b {
                    (
                        if sqrt_price >= boundary_sqrt_price {
                            sqrt_price
                        } else {
                            boundary_sqrt_price
                        },
                        false,
                    )
                } else {
                    (
                        if sqrt_price <= boundary_sqrt_price {
                            sqrt_price
                        } else {
                            boundary_sqrt_price
                        },
                        false,
                    )
                }
            },
        }
    }

    /// Moves to the next tick group in the trade direction. At the ends of
    /// the `i32` range the index stays put (the tick range ends long before
    /// that).
    pub fn advance_tick_group(&mut self)
        requires
            old(self).wf(),
        ensures
            final(self).wf(),
            (*old(self)) is Static ==> *final(self) == *old(self),
            (*old(self)) is Adaptive ==> ({
                let expected: int = if old(self)->Adaptive_a_to_b {
                    if old(self)->Adaptive_tick_group_index > i32::MIN {
                        old(self)->Adaptive_tick_group_index - 1
                    } else {
                        i32::MIN as int
                    }
                } else {
                    if old(self)->Adaptive_tick_group_index < i32::MAX {
                        old(self)->Adaptive_tick_group_index + 1
                    } else {
                        i32::MAX as int
                    }
                };
                &&& (*final(self)) is Adaptive
                &&& final(self)->Adaptive_tick_group_index == expected
                &&& final(self)->Adaptive_a_to_b == old(self)->Adaptive_a_to_b
                &&& final(self)->Adaptive_static_fee_rate == old(self)->Adaptive_static_fee_rate
                &&& final(self)->Adaptive_adaptive_fee_constants == old(
                    self,
                )->Adaptive_adaptive_fee_constants
                &&& final(self)->Adaptive_adaptive_fee_variables == old(
                    self,
                )->Adaptive_adaptive_fee_variables
            }),
    {
        match self {
            FeeRateManager::Static { .. } => (),
            FeeRateManager::Adaptive { a_to_b, tick_group_index, .. } => {
                if *a_to_b {
                    if *tick_group_index > i32::MIN {
                        *tick_group_index = *tick_group_index - 1;
                    }
                } else {
                    if *tick_group_index < i32::MAX {
                        *tick_group_index = *tick_group_index + 1;
                    }
                }
            },
        }
    }

    /// After a skipped step, fast-forwards the tick group to the one that
    /// holds the new price, folds it into the accumulator, and advances.
    pub fn advance_tick_group_after_skip(
        &mut self,
        sqrt_price: u128,
        next_tick_sqrt_price: u128,
        next_tick_index: i32,
    ) -> (r: Result<(), ErrorCode>)
        requires
            old(self).wf(),
            crate::tick_math::MIN_SQRT_PRICE_X64 <= sqrt_price
                <= crate::tick_math::MAX_SQRT_PRICE_X64,
            MIN_TICK_INDEX <= next_tick_index <= MAX_TICK_INDEX,
        ensures
            final(self).wf(),
            r is Ok,
            (*old(self)) is Static ==> *final(self) == *old(self),
            (*old(self)) is Adaptive ==> ({
                &&& (*final(self)) is Adaptive
                &&& final(self)->Adaptive_adaptive_fee_variables.volatility_accumulator <= old(
                    self,
                )->Adaptive_adaptive_fee_constants.max_volatility_accumulator
                    || final(self)->Adaptive_adaptive_fee_variables.volatility_accumulator == old(
                    self,
                )->Adaptive_adaptive_fee_variables.volatility_accumulator
            }),
            (*old(self)) is Adaptive ==> exists|t: i32|
                #![trigger skip_advanced(
                    *old(self),
                    *final(self),
                    sqrt_price,
                    next_tick_sqrt_price,
                    t,
                )]
                {
                    &&& MIN_TICK_INDEX <= t <= MAX_TICK_INDEX
                    &&& (sqrt_price == next_tick_sqrt_price ==> t == next_tick_index)
                    &&& (sqrt_price != next_tick_sqrt_price ==> sqrt_price_from_tick_spec(t as int)
                        <= sqrt_price < sqrt_price_from_tick_spec(t as int + 1))
                    &&& skip_advanced(
                        *old(self),
                        *final(self),
                        sqrt_price,
                        next_tick_sqrt_price,
                        t,
                    )
                },
    {
        let (a_to_b, old_tgi, constants, variables): (
            bool,
            i32,
            AdaptiveFeeConstants,
            AdaptiveFeeVariables,
        ) = match self {
            FeeRateManager::Static { .. } => {
                return Ok(());
            },
            FeeRateManager::Adaptive {
                a_to_b,
                tick_group_index,
                adaptive_fee_constants,
                adaptive_fee_variables,
                ..
            } => (*a_to_b, *tick_group_index, *adaptive_fee_constants, *adaptive_fee_variables),
        };
        let tgs = constants.tick_group_size;
        let (tick_index, is_on_tick_group_boundary): (i32, bool) = if sqrt_price
            == next_tick_sqrt_price {
            let on_boundary = crate::tick::Tick::check_is_usable_tick(next_tick_index, tgs);
            (next_tick_index, on_boundary)
        } else {
            let t = crate::tick_math::tick_index_from_sqrt_price(&sqrt_price);
            let exact = crate::tick_math::sqrt_price_from_tick_index(t) == sqrt_price;
            let on_boundary = exact && crate::tick::Tick::check_is_usable_tick(t, tgs);
            (t, on_boundary)
        };
        let base_group = floor_division(tick_index, tgs as i32);
        let last_traversed: i32 = if is_on_tick_group_boundary && a_to_b {
            if base_group > i32::MIN {
                base_group - 1
            } else {
                base_group
            }
        } else {
            base_group
        };
        let moved = if a_to_b {
            last_traversed < old_tgi
        } else {
            last_traversed > old_tgi
        };
        let mut new_tgi = old_tgi;
        let mut new_variables = variables;
        if moved {
            new_tgi = last_traversed;
            let updated = new_variables.update_volatility_accumulator(new_tgi, &constants);
            match updated {
                Ok(_) => (),
                Err(e) => {
                    return Err(e);
                },
            }
        }
        if a_to_b {
            if new_tgi > i32::MIN {
                new_tgi = new_tgi - 1;
            }
        } else {
            if new_tgi < i32::MAX {
                new_tgi = new_tgi + 1;
            }
        }
        match self {
            FeeRateManager::Adaptive { tick_group_index, adaptive_fee_variables, .. } => {
                *tick_group_index = new_tgi;
                *adaptive_fee_variables = new_variables;
            },
            FeeRateManager::Static { .. } => {},
        }
        proof {
            assert(skip_advanced(*old(self), *self, sqrt_price, next_tick_sqrt_price, tick_index));
        }
        Ok(())
    }


    /// Stamps the major-swap timestamp when the whole swap moved the price
    /// by at least the configured threshold.
    pub fn update_major_swap_timestamp(
        &mut self,
        timestamp: u64,
        pre_sqrt_price: u128,
        post_sqrt_price: u128,
    ) -> (r: Result<(), ErrorCode>)
        requires
            old(self).wf(),
            pre_sqrt_price <= crate::tick_math::MAX_SQRT_PRICE_X64,
            post_sqrt_price <= crate::tick_math::MAX_SQRT_PRICE_X64,
        ensures
            final(self).wf(),
            r is Ok,
            (*old(self)) is Static ==> *final(self) == *old(self),
            (*old(self)) is Adaptive ==> ({
                &&& (*final(self)) is Adaptive
                &&& final(self)->Adaptive_a_to_b == old(self)->Adaptive_a_to_b
                &&& final(self)->Adaptive_tick_group_index == old(self)->Adaptive_tick_group_index
                &&& final(self)->Adaptive_static_fee_rate == old(self)->Adaptive_static_fee_rate
                &&& final(self)->Adaptive_adaptive_fee_constants == old(
                    self,
                )->Adaptive_adaptive_fee_constants
            }),
    {
        match self {
            FeeRateManager::Static { .. } => Ok(()),
            FeeRateManager::Adaptive {
                adaptive_fee_constants,
                adaptive_fee_variables,
                ..
            } => {
                let constants = *adaptive_fee_constants;
                adaptive_fee_variables.update_major_swap_timestamp(
                    pre_sqrt_price,
                    post_sqrt_price,
                    timestamp,
                    &constants,
                )
            },
        }
    }

    /// The adaptive-fee state to write back, if the pool has an oracle.
    pub fn get_next_adaptive_fee_info(&self) -> (r: Option<AdaptiveFeeInfo>)
        ensures
            (*self) is Static ==> r is None,
            (*self) is Adaptive ==> r == Some(
                AdaptiveFeeInfo {
                    constants: self->Adaptive_adaptive_fee_constants,
                    variables: self->Adaptive_adaptive_fee_variables,
                },
            ),
    {
        match self {
            FeeRateManager::Static { .. } => None,
            FeeRateManager::Adaptive {
                adaptive_fee_constants,
                adaptive_fee_variables,
                ..
            } => Some(
                AdaptiveFeeInfo {
                    constants: *adaptive_fee_constants,
                    variables: *adaptive_fee_variables,
                },
            ),
        }
    }
}

} // verus!
