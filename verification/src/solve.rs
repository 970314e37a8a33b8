//! The central pool record: price, active liquidity, fee and reward
//! accumulators.

use vstd::prelude::*;

use crate::address::Address;
use crate::errors::ErrorCode;
use crate::swap_math::MAX_FEE_RATE;
use crate::tick_math::{
    sqrt_price_from_tick_spec, tick_index_from_sqrt_price, MAX_SQRT_PRICE_X64, MIN_SQRT_PRICE_X64,
};

verus! {

/// Number of reward streams a pool can carry.
pub const NUM_REWARDS: usize = 3;

/// The largest protocol fee rate, in basis points of the fee.
pub const MAX_PROTOCOL_FEE_RATE: u16 = 2_500;

/// Basis-point denominator for the protocol fee split.
pub const PROTOCOL_FEE_RATE_MUL_VALUE: u16 = 10_000;

/// One reward stream: its token, emission rate and global growth
/// accumulator.
#[derive(Clone, Copy, Debug, PartialEq, Eq, Structural)]
pub struct SolveRewardInfo {
    /// Reward token mint; the null address means "not initialized".
    pub mint: Address,
    /// Reward vault token account.
    pub vault: Address,
    /// Authority allowed to initialize the reward and set emissions.
    pub authority: Address,
    /// Q64.64 tokens per second per unit of liquidity.
    pub emissions_per_second_x64: u128,
    /// Q64.64 wrapping accumulator of tokens per unit of liquidity.
    pub growth_global_x64: u128,
}

impl SolveRewardInfo {
    /// A reward is initialized exactly when its mint is set.
    pub open spec fn initialized_spec(self) -> bool {
        !self.mint.is_null()
    }

    pub fn default() -> (r: SolveRewardInfo)
        ensures
            r == SolveRewardInfo::zero(),
    {
        SolveRewardInfo {
            mint: Address::null(),
            vault: Address::null(),
            authority: Address::null(),
            emissions_per_second_x64: 0,
            growth_global_x64: 0,
        }
    }

    /// The all-null reward slot.
    pub open spec fn zero() -> SolveRewardInfo {
        SolveRewardInfo {
            mint: Address { hi: 0, lo: 0 },
            vault: Address { hi: 0, lo: 0 },
            authority: Address { hi: 0, lo: 0 },
            emissions_per_second_x64: 0,
            growth_global_x64: 0,
        }
    }

    /// An empty reward slot waiting for `authority` to initialize it.
    pub fn new(authority: Address) -> (r: SolveRewardInfo)
        ensures
            r.mint.is_null(),
            r.vault.is_null(),
            r.authority == authority,
            r.emissions_per_second_x64 == 0,
            r.growth_global_x64 == 0,
            !r.initialized_spec(),
    {
        SolveRewardInfo {
            mint: Address::null(),
            vault: Address::null(),
            authority,
            emissions_per_second_x64: 0,
            growth_global_x64: 0,
        }
    }

    /// Whether this reward has been initialized. Once initialized, a reward
    /// cannot revert.
    pub fn initialized(&self) -> (r: bool)
        ensures
            r == self.initialized_spec(),
    {
        !self.mint.is_none()
    }

    /// Projects the reward slots onto their growth accumulators.
    pub fn to_reward_growths(reward_infos: &[SolveRewardInfo; 3]) -> (r: [u128; 3])
        ensures
            r[0] == reward_infos[0].growth_global_x64,
            r[1] == reward_infos[1].growth_global_x64,
            r[2] == reward_infos[2].growth_global_x64,
    {
        [
            reward_infos[0].growth_global_x64,
            reward_infos[1].growth_global_x64,
            reward_infos[2].growth_global_x64,
        ]
    }
}

/// The pool record.
#[derive(Clone, Copy, Debug)]
pub struct Solve {
    pub solves_config: Address,
    pub solve_bump: u8,
    pub tick_spacing: u16,
    pub fee_tier_index_seed: u16,
    /// Hundredths of a basis point, at most `MAX_FEE_RATE`.
    pub fee_rate: u16,
    /// Basis points of the fee, at most `MAX_PROTOCOL_FEE_RATE`.
    pub protocol_fee_rate: u16,
    /// Currently active in-range liquidity.
    pub liquidity: u128,
    /// Q64.64 square-root price, within the tick-math range.
    pub sqrt_price: u128,
    pub tick_current_index: i32,
    pub protocol_fee_owed_a: u64,
    pub protocol_fee_owed_b: u64,
    pub token_mint_a: Address,
    pub token_vault_a: Address,
    /// Q64.64 wrapping fee-growth accumulator for token A.
    pub fee_growth_global_a: u128,
    pub token_mint_b: Address,
    pub token_vault_b: Address,
    /// Q64.64 wrapping fee-growth accumulator for token B.
    pub fee_growth_global_b: u128,
    pub reward_last_updated_timestamp: u64,
    pub reward_infos: [SolveRewardInfo; 3],
}

/// The pool's tick index brackets its square-root price (price
/// consistency).
pub open spec fn price_consistent(tick_current_index: int, sqrt_price: nat) -> bool {
    sqrt_price_from_tick_spec(tick_current_index) <= sqrt_price < sqrt_price_from_tick_spec(
        tick_current_index + 1,
    )
}

/// The tick index and price a swap ends on: either the tick brackets the
/// price, or the price sits exactly on the tick boundary the swap stopped
/// at (one step past it in the trade direction).
pub open spec fn tick_price_state(tick_index: int, sqrt_price: nat) -> bool {
    ||| price_consistent(tick_index, sqrt_price)
    ||| (crate::tick_math::MIN_TICK_INDEX <= tick_index + 1 <= crate::tick_math::MAX_TICK_INDEX
        && sqrt_price == sqrt_price_from_tick_spec(tick_index + 1))
    ||| (crate::tick_math::MIN_TICK_INDEX <= tick_index <= crate::tick_math::MAX_TICK_INDEX
        && sqrt_price == sqrt_price_from_tick_spec(tick_index))
}

impl Solve {
    /// Structural invariant of a live pool.
    pub open spec fn wf(self) -> bool {
        &&& 1 <= self.tick_spacing
        &&& self.fee_rate <= MAX_FEE_RATE
        &&& self.protocol_fee_rate <= MAX_PROTOCOL_FEE_RATE
        &&& MIN_SQRT_PRICE_X64 <= self.sqrt_price <= MAX_SQRT_PRICE_X64
        &&& crate::tick_math::MIN_TICK_INDEX - 1 <= self.tick_current_index
            <= crate::tick_math::MAX_TICK_INDEX
    }

    pub fn default() -> (r: Solve)
        ensures
            r.liquidity == 0,
            r.sqrt_price == 0,
            r.tick_current_index == 0,
            r.tick_spacing == 0,
    {
        Solve {
            solves_config: Address::null(),
            solve_bump: 0,
            tick_spacing: 0,
            fee_tier_index_seed: 0,
            fee_rate: 0,
            protocol_fee_rate: 0,
            liquidity: 0,
            sqrt_price: 0,
            tick_current_index: 0,
            protocol_fee_owed_a: 0,
            protocol_fee_owed_b: 0,
            token_mint_a: Address::null(),
            token_vault_a: Address::null(),
            fee_growth_global_a: 0,
            token_mint_b: Address::null(),
            token_vault_b: Address::null(),
            fee_growth_global_b: 0,
            reward_last_updated_timestamp: 0,
            reward_infos: [
                SolveRewardInfo::default(),
                SolveRewardInfo::default(),
                SolveRewardInfo::default(),
            ],
        }
    }

    pub fn input_token_mint(&self, a_to_b: bool) -> (r: Address)
        ensures
            r == if a_to_b {
                self.token_mint_a
            } else {
                self.token_mint_b
            },
    {
        if a_to_b {
            self.token_mint_a
        } else {
            self.token_mint_b
        }
    }

    pub fn input_token_vault(&self, a_to_b: bool) -> (r: Address)
        ensures
            r == if a_to_b {
                self.token_vault_a
            } else {
                self.token_vault_b
            },
    {
        if a_to_b {
            self.token_vault_a
        } else {
            self.token_vault_b
        }
    }

    pub fn output_token_mint(&self, a_to_b: bool) -> (r: Address)
        ensures
            r == if a_to_b {
                self.token_mint_b
            } else {
                self.token_mint_a
            },
    {
        if a_to_b {
            self.token_mint_b
        } else {
            self.token_mint_a
        }
    }

    pub fn output_token_vault(&self, a_to_b: bool) -> (r: Address)
        ensures
            r == if a_to_b {
                self.token_vault_b
            } else {
                self.token_vault_a
            },
    {
        if a_to_b {
            self.token_vault_b
        } else {
            self.token_vault_a
        }
    }

    /// Creates the pool: orders the mints, validates the price, and derives
    /// the initial tick from the price.
    pub fn initialize(
        &mut self,
        solves_config: Address,
        default_protocol_fee_rate: u16,
        reward_emissions_super_authority: Address,
        fee_tier_index: u16,
        bump: u8,
        tick_spacing: u16,
        sqrt_price: u128,
        default_fee_rate: u16,
        token_mint_a: Address,
        token_vault_a: Address,
        token_mint_b: Address,
        token_vault_b: Address,
    ) -> (r: Result<(), ErrorCode>)
        requires
            1 <= tick_spacing,
        ensures
            !token_mint_a.lt_spec(token_mint_b) ==> r == Err::<(), ErrorCode>(
                ErrorCode::InvalidTokenMintOrder,
            ),
            token_mint_a.lt_spec(token_mint_b) && !(MIN_SQRT_PRICE_X64 <= sqrt_price
                <= MAX_SQRT_PRICE_X64) ==> r == Err::<(), ErrorCode>(
                ErrorCode::SqrtPriceOutOfBounds,
            ),
            token_mint_a.lt_spec(token_mint_b) && MIN_SQRT_PRICE_X64 <= sqrt_price
                <= MAX_SQRT_PRICE_X64 && default_fee_rate > MAX_FEE_RATE ==> r == Err::<
                (),
                ErrorCode,
            >(ErrorCode::FeeRateMaxExceeded),
            token_mint_a.lt_spec(token_mint_b) && MIN_SQRT_PRICE_X64 <= sqrt_price
                <= MAX_SQRT_PRICE_X64 && default_fee_rate <= MAX_FEE_RATE
                && default_protocol_fee_rate > MAX_PROTOCOL_FEE_RATE ==> r == Err::<
                (),
                ErrorCode,
            >(ErrorCode::ProtocolFeeRateMaxExceeded),
            token_mint_a.lt_spec(token_mint_b) && MIN_SQRT_PRICE_X64 <= sqrt_price
                <= MAX_SQRT_PRICE_X64 && default_fee_rate <= MAX_FEE_RATE
                && default_protocol_fee_rate <= MAX_PROTOCOL_FEE_RATE ==> r is Ok,
            r is Err ==> *final(self) == *old(self),
            r is Ok ==> ({
                &&& token_mint_a.lt_spec(token_mint_b)
                &&& final(self).wf()
                &&& final(self).solves_config == solves_config
                &&& final(self).fee_tier_index_seed == fee_tier_index
                &&& final(self).solve_bump == bump
                &&& final(self).tick_spacing == tick_spacing
                &&& final(self).fee_rate == default_fee_rate
                &&& final(self).protocol_fee_rate == default_protocol_fee_rate
                &&& final(self).liquidity == 0
                &&& final(self).sqrt_price == sqrt_price
                &&& price_consistent(
                    final(self).tick_current_index as int,
                    sqrt_price as nat,
                )
                &&& final(self).protocol_fee_owed_a == 0
                &&& final(self).protocol_fee_owed_b == 0
                &&& final(self).token_mint_a == token_mint_a
                &&& final(self).token_vault_a == token_vault_a
                &&& final(self).fee_growth_global_a == 0
                &&& final(self).token_mint_b == token_mint_b
                &&& final(self).token_vault_b == token_vault_b
                &&& final(self).fee_growth_global_b == 0
                &&& final(self).reward_infos[0] == SolveRewardInfo {
                    authority: reward_emissions_super_authority,
                    ..SolveRewardInfo::zero()
                }
                &&& final(self).reward_infos[1] == final(self).reward_infos[0]
                &&& final(self).reward_infos[2] == final(self).reward_infos[0]
            }),
    {
        if !token_mint_a.lt(&token_mint_b) {
            return Err(ErrorCode::InvalidTokenMintOrder);
        }
        if sqrt_price < MIN_SQRT_PRICE_X64 || sqrt_price > MAX_SQRT_PRICE_X64 {
            return Err(ErrorCode::SqrtPriceOutOfBounds);
        }
        if default_fee_rate > MAX_FEE_RATE {
            return Err(ErrorCode::FeeRateMaxExceeded);
        }
        if default_protocol_fee_rate > MAX_PROTOCOL_FEE_RATE {
            return Err(ErrorCode::ProtocolFeeRateMaxExceeded);
        }

        self.solves_config = solves_config;
        self.fee_tier_index_seed = fee_tier_index;
        self.solve_bump = bump;
        self.tick_spacing = tick_spacing;
        self.fee_rate = default_fee_rate;
        self.protocol_fee_rate = default_protocol_fee_rate;
        self.liquidity = 0;
        self.sqrt_price = sqrt_price;
        self.tick_current_index = tick_index_from_sqrt_price(&sqrt_price);
        self.protocol_fee_owed_a = 0;
        self.protocol_fee_owed_b = 0;
        self.token_mint_a = token_mint_a;
        self.token_vault_a = token_vault_a;
        self.fee_growth_global_a = 0;
        self.token_mint_b = token_mint_b;
        self.token_vault_b = token_vault_b;
        self.fee_growth_global_b = 0;
        let slot = SolveRewardInfo::new(reward_emissions_super_authority);
        self.reward_infos = [slot, slot, slot];
        Ok(())
    }

    /// Replaces the reward state and its update timestamp together.
    pub fn update_rewards(&mut self, reward_infos: [SolveRewardInfo; 3], reward_last_updated_timestamp: u64)
        ensures
            *final(self) == (Solve {
                reward_infos,
                reward_last_updated_timestamp,
                ..*old(self)
            }),
    {
        self.reward_last_updated_timestamp = reward_last_updated_timestamp;
        self.reward_infos = reward_infos;
    }

    /// Replaces rewards and the active liquidity together, after a
    /// liquidity modification.
    pub fn update_rewards_and_liquidity(
        &mut self,
        reward_infos: [SolveRewardInfo; 3],
        liquidity: u128,
        reward_last_updated_timestamp: u64,
    )
        ensures
            *final(self) == (Solve {
                reward_infos,
                liquidity,
                reward_last_updated_timestamp,
                ..*old(self)
            }),
    {
        self.update_rewards(reward_infos, reward_last_updated_timestamp);
        self.liquidity = liquidity;
    }

    /// Sets the authority of one reward slot.
    pub fn update_reward_authority(&mut self, index: usize, authority: Address) -> (r: Result<
        (),
        ErrorCode,
    >)
        ensures
            index >= 3 ==> (r == Err::<(), ErrorCode>(ErrorCode::InvalidRewardIndex) && *final(self) == *old(self)),
            index < 3 ==> (r == Ok::<(), ErrorCode>(()) && final(self).reward_infos[index as int]
                == (SolveRewardInfo { authority, ..old(self).reward_infos[index as int] })
                && forall|k: int|
                0 <= k < 3 && k != index ==> final(self).reward_infos[k] == old(self).reward_infos[k]),
    {
        if index >= NUM_REWARDS {
            return Err(ErrorCode::InvalidRewardIndex);
        }
        let mut updated = self.reward_infos[index];
        updated.authority = authority;
        self.reward_infos = replace_reward(&self.reward_infos, index, updated);
        Ok(())
    }

    /// Commits refreshed rewards and sets one slot's emission rate.
    pub fn update_emissions(
        &mut self,
        index: usize,
        reward_infos: [SolveRewardInfo; 3],
        timestamp: u64,
        emissions_per_second_x64: u128,
    ) -> (r: Result<(), ErrorCode>)
        ensures
            index >= 3 ==> (r == Err::<(), ErrorCode>(ErrorCode::InvalidRewardIndex) && *final(self) == *old(self)),
            index < 3 ==> (r == Ok::<(), ErrorCode>(()) && final(self).reward_infos[index as int]
                == (SolveRewardInfo { emissions_per_second_x64, ..reward_infos[index as int] })
                && final(self).reward_last_updated_timestamp == timestamp && forall|k: int|
                0 <= k < 3 && k != index ==> final(self).reward_infos[k] == reward_infos[k]),
    {
        if index >= NUM_REWARDS {
            return Err(ErrorCode::InvalidRewardIndex);
        }
        self.update_rewards(reward_infos, timestamp);
        let mut updated = self.reward_infos[index];
        updated.emissions_per_second_x64 = emissions_per_second_x64;
        self.reward_infos = replace_reward(&self.reward_infos, index, updated);
        Ok(())
    }

    /// Initializes the lowest uninitialized reward slot, which must be the
    /// requested one.
    pub fn initialize_reward(&mut self, index: usize, mint: Address, vault: Address) -> (r: Result<
        (),
        ErrorCode,
    >)
        requires
            !mint.is_null(),
        ensures
            r is Ok ==> ({
                &&& index < 3
                &&& !old(self).reward_infos[index as int].initialized_spec()
                &&& forall|k: int|
                    0 <= k < index ==> old(self).reward_infos[k].initialized_spec()
                &&& final(self).reward_infos[index as int] == (SolveRewardInfo {
                    mint,
                    vault,
                    ..old(self).reward_infos[index as int]
                })
                &&& forall|k: int|
                    0 <= k < 3 && k != index ==> final(self).reward_infos[k] == old(self).reward_infos[k]
            }),
            r is Err ==> (r == Err::<(), ErrorCode>(ErrorCode::InvalidRewardIndex) && *final(self)
                == *old(self)),
            index < 3 && !old(self).reward_infos[index as int].initialized_spec() && (forall|
                k: int,
            |
                0 <= k < index ==> old(self).reward_infos[k].initialized_spec()) ==> r is Ok,
    {
        if index >= NUM_REWARDS {
            return Err(ErrorCode::InvalidRewardIndex);
        }
        let lowest_index: usize = if !self.reward_infos[0].initialized() {
            0
        } else if !self.reward_infos[1].initialized() {
            1
        } else if !self.reward_infos[2].initialized() {
            2
        } else {
            return Err(ErrorCode::InvalidRewardIndex);
        };
        if lowest_index != index {
            return Err(ErrorCode::InvalidRewardIndex);
        }
        let mut updated = self.reward_infos[index];
        updated.mint = mint;
        updated.vault = vault;
        self.reward_infos = replace_reward(&self.reward_infos, index, updated);
        Ok(())
    }

    /// Commits the result of a swap to the pool record.
    pub fn update_after_swap(
        &mut self,
        liquidity: u128,
        tick_index: i32,
        sqrt_price: u128,
        fee_growth_global: u128,
        reward_infos: [SolveRewardInfo; 3],
        protocol_fee: u64,
        is_token_fee_in_a: bool,
        reward_last_updated_timestamp: u64,
    )
        requires
            is_token_fee_in_a ==> old(self).protocol_fee_owed_a + protocol_fee <= u64::MAX,
            !is_token_fee_in_a ==> old(self).protocol_fee_owed_b + protocol_fee <= u64::MAX,
            tick_price_state(tick_index as int, sqrt_price as nat),
            MIN_SQRT_PRICE_X64 <= sqrt_price <= MAX_SQRT_PRICE_X64,
            crate::tick_math::MIN_TICK_INDEX - 1 <= tick_index <= crate::tick_math::MAX_TICK_INDEX,
        ensures
            old(self).wf() ==> final(self).wf(),
            final(self).tick_current_index == tick_index,
            final(self).sqrt_price == sqrt_price,
            final(self).liquidity == liquidity,
            final(self).reward_infos == reward_infos,
            final(self).reward_last_updated_timestamp == reward_last_updated_timestamp,
            is_token_fee_in_a ==> final(self).fee_growth_global_a == fee_growth_global && final(self).protocol_fee_owed_a == old(self).protocol_fee_owed_a + protocol_fee && final(self).fee_growth_global_b == old(self).fee_growth_global_b && final(self).protocol_fee_owed_b == old(self).protocol_fee_owed_b,
            !is_token_fee_in_a ==> final(self).fee_growth_global_b == fee_growth_global && final(self).protocol_fee_owed_b == old(self).protocol_fee_owed_b + protocol_fee && final(self).fee_growth_global_a == old(self).fee_growth_global_a && final(self).protocol_fee_owed_a == old(self).protocol_fee_owed_a,
            final(self).tick_spacing == old(self).tick_spacing,
            final(self).fee_rate == old(self).fee_rate,
            final(self).protocol_fee_rate == old(self).protocol_fee_rate,
            final(self).token_mint_a == old(self).token_mint_a,
            final(self).token_mint_b == old(self).token_mint_b,
    {
        self.tick_current_index = tick_index;
        self.sqrt_price = sqrt_price;
        self.liquidity = liquidity;
        self.reward_infos = reward_infos;
        self.reward_last_updated_timestamp = reward_last_updated_timestamp;
        if is_token_fee_in_a {
            self.fee_growth_global_a = fee_growth_global;
            self.protocol_fee_owed_a = self.protocol_fee_owed_a + protocol_fee;
        } else {
            self.fee_growth_global_b = fee_growth_global;
            self.protocol_fee_owed_b = self.protocol_fee_owed_b + protocol_fee;
        }
    }

    /// Sets the fee rate, rejecting rates over the maximum.
    pub fn update_fee_rate(&mut self, fee_rate: u16) -> (r: Result<(), ErrorCode>)
        ensures
            fee_rate > MAX_FEE_RATE ==> (r == Err::<(), ErrorCode>(ErrorCode::FeeRateMaxExceeded)
                && *final(self) == *old(self)),
            fee_rate <= MAX_FEE_RATE ==> (r == Ok::<(), ErrorCode>(()) && *final(self) == (Solve {
                fee_rate,
                ..*old(self)
            })),
    {
        if fee_rate > MAX_FEE_RATE {
            return Err(ErrorCode::FeeRateMaxExceeded);
        }
        self.fee_rate = fee_rate;
        Ok(())
    }

    /// Sets the protocol fee rate, rejecting rates over the maximum.
    pub fn update_protocol_fee_rate(&mut self, protocol_fee_rate: u16) -> (r: Result<
        (),
        ErrorCode,
    >)
        ensures
            protocol_fee_rate > MAX_PROTOCOL_FEE_RATE ==> (r == Err::<(), ErrorCode>(
                ErrorCode::ProtocolFeeRateMaxExceeded,
            ) && *final(self) == *old(self)),
            protocol_fee_rate <= MAX_PROTOCOL_FEE_RATE ==> (r == Ok::<(), ErrorCode>(()) && *final(self) == (Solve { protocol_fee_rate, ..*old(self) })),
    {
        if protocol_fee_rate > MAX_PROTOCOL_FEE_RATE {
            return Err(ErrorCode::ProtocolFeeRateMaxExceeded);
        }
        self.protocol_fee_rate = protocol_fee_rate;
        Ok(())
    }

    /// Zeroes the collected protocol fees, after they are paid out.
    pub fn reset_protocol_fees_owed(&mut self)
        ensures
            *final(self) == (Solve { protocol_fee_owed_a: 0, protocol_fee_owed_b: 0, ..*old(self) }),
    {
        self.protocol_fee_owed_a = 0;
        self.protocol_fee_owed_b = 0;
    }

    /// The fee-tier key this pool was created with.
    pub fn fee_tier_index(&self) -> (r: u16)
        ensures
            r == self.fee_tier_index_seed,
    {
        self.fee_tier_index_seed
    }

    /// Static tiers reuse the tick spacing as their index; adaptive tiers
    /// use a distinct value.
    pub fn is_initialized_with_adaptive_fee_tier(&self) -> (r: bool)
        ensures
            r == (self.fee_tier_index_seed != self.tick_spacing),
    {
        self.fee_tier_index_seed != self.tick_spacing
    }
}

/// A copy of the reward array with one slot replaced.
pub fn replace_reward(rewards: &[SolveRewardInfo; 3], index: usize, value: SolveRewardInfo) -> (r:
    [SolveRewardInfo; 3])
    requires
        index < 3,
    ensures
        r[index as int] == value,
        forall|k: int| 0 <= k < 3 && k != index ==> r[k] == rewards[k],
{
    if index == 0 {
        [value, rewards[1], rewards[2]]
    } else if index == 1 {
        [rewards[0], value, rewards[2]]
    } else {
        [rewards[0], rewards[1], value]
    }
}

} // verus!
