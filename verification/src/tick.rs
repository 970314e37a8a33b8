//! Per-tick state and the predicates that say which ticks a pool can use.

use vstd::prelude::*;

use crate::tick_math::{MAX_TICK_INDEX, MIN_TICK_INDEX};

verus! {

/// Number of tick slots in one tick array.
pub const TICK_ARRAY_SIZE: i32 = 88;

/// `TICK_ARRAY_SIZE` as a `usize`.
pub const TICK_ARRAY_SIZE_USIZE: usize = 88;

/// Pools with a tick spacing at or above this only accept full-range
/// positions.
pub const FULL_RANGE_ONLY_TICK_SPACING_THRESHOLD: u16 = 32768;

/// The state stored for one initializable tick.
#[derive(Clone, Copy, Debug, PartialEq)]
pub struct Tick {
    pub initialized: bool,
    pub liquidity_net: i128,
    pub liquidity_gross: u128,
    pub fee_growth_outside_a: u128,
    pub fee_growth_outside_b: u128,
    pub reward_growths_outside: [u128; 3],
}

/// The new value a tick takes after a liquidity change or a cross.
#[derive(Clone, Copy, Debug, PartialEq)]
pub struct TickUpdate {
    pub initialized: bool,
    pub liquidity_net: i128,
    pub liquidity_gross: u128,
    pub fee_growth_outside_a: u128,
    pub fee_growth_outside_b: u128,
    pub reward_growths_outside: [u128; 3],
}

/// A tick is usable for a pool when it lies in range and on the pool's grid.
pub open spec fn is_usable_tick(tick_index: int, tick_spacing: int) -> bool {
    MIN_TICK_INDEX <= tick_index <= MAX_TICK_INDEX && tick_index % tick_spacing == 0
}

/// A start index is valid when the array is aligned and overlaps the tick
/// range.
pub open spec fn is_valid_start_tick(start_tick_index: int, tick_spacing: int) -> bool {
    let ticks_in_array = TICK_ARRAY_SIZE * tick_spacing;
    start_tick_index % ticks_in_array == 0 && start_tick_index <= MAX_TICK_INDEX
        && start_tick_index + ticks_in_array > MIN_TICK_INDEX
}

/// Whether `value % divisor == 0`, for a possibly negative value.
fn is_divisible(value: i32, divisor: u32) -> (r: bool)
    requires
        1 <= divisor,
        divisor <= 0x8000_0000,
    ensures
        r == (value as int % divisor as int == 0),
{
    let magnitude: u32 = if value < 0 {
        ((-(value as i64)) as u32)
    } else {
        value as u32
    };
    let rem = magnitude % divisor;
    proof {
        if value < 0 {
            lemma_neg_divisibility(magnitude as int, divisor as int);
        }
    }
    rem == 0
}

/// `m % d == 0` exactly when `(-m) % d == 0`.
proof fn lemma_neg_divisibility(m: int, d: int)
    requires
        0 <= m,
        1 <= d,
    ensures
        (m % d == 0) <==> ((-m) % d == 0),
{
    vstd::arithmetic::div_mod::lemma_fundamental_div_mod(m, d);
    vstd::arithmetic::div_mod::lemma_fundamental_div_mod(-m, d);
    if m % d == 0 {
        let q = m / d;
        assert(-m == (-q) * d + 0) by (nonlinear_arith)
            requires
                m == d * q,
        ;
        vstd::arithmetic::div_mod::lemma_fundamental_div_mod_converse(-m, d, -q, 0);
    }
    if (-m) % d == 0 {
        let q = (-m) / d;
        assert(m == (-q) * d + 0) by (nonlinear_arith)
            requires
                -m == d * q,
        ;
        vstd::arithmetic::div_mod::lemma_fundamental_div_mod_converse(m, d, -q, 0);
    }
}

/// Floor division of a signed dividend by a positive divisor.
pub fn floor_division(dividend: i32, divisor: i32) -> (r: i32)
    requires
        1 <= divisor,
    ensures
        r == dividend as int / divisor as int,
        r as int * divisor as int <= dividend,
{
    let d = divisor as u64;
    let r: i32 = if dividend >= 0 {
        ((dividend as u64) / d) as i32
    } else {
        let m = (-(dividend as i64)) as u64;
        let q = (m + d - 1) / d;
        proof {
            lemma_floor_div_negative(m as int, d as int, q as int);
        }
        (-(q as i64)) as i32
    };
    proof {
        vstd::arithmetic::div_mod::lemma_fundamental_div_mod(dividend as int, divisor as int);
        vstd::arithmetic::div_mod::lemma_mod_division_less_than_divisor(
            dividend as int,
            divisor as int,
        );
        assert(divisor as int * (dividend as int / divisor as int) == (dividend as int
            / divisor as int) * divisor as int) by {
            vstd::arithmetic::mul::lemma_mul_is_commutative(
                divisor as int,
                dividend as int / divisor as int,
            );
        }
    }
    r
}

/// Negating a ceiling quotient gives the floor quotient of the negation.
proof fn lemma_floor_div_negative(m: int, d: int, q: int)
    requires
        0 < m,
        1 <= d,
        q == (m + d - 1) / d,
    ensures
        -q == (-m) / d,
        q * d < m + d,
        m <= q * d,
        q <= m,
{
    vstd::arithmetic::div_mod::lemma_fundamental_div_mod(m + d - 1, d);
    vstd::arithmetic::div_mod::lemma_mod_division_less_than_divisor(m + d - 1, d);
    vstd::arithmetic::div_mod::lemma_div_pos_is_pos(m + d - 1, d);
    let s = q * d - m;
    assert(d * q == q * d) by {
        vstd::arithmetic::mul::lemma_mul_is_commutative(d, q);
    }
    assert(0 <= s < d);
    assert((-q) * d == -m - s) by (nonlinear_arith)
        requires
            s == q * d - m,
    ;
    vstd::arithmetic::div_mod::lemma_fundamental_div_mod_converse(-m, d, -q, s);
    assert(q <= m) by (nonlinear_arith)
        requires
            q * d < m + d,
            1 <= d,
            0 <= q,
            0 < m,
    ;
}

impl Tick {
    /// The zero tick: uninitialized, no liquidity, no growth snapshots.
    pub fn default() -> (r: Tick)
        ensures
            r == Tick::zero(),
    {
        Tick {
            initialized: false,
            liquidity_net: 0,
            liquidity_gross: 0,
            fee_growth_outside_a: 0,
            fee_growth_outside_b: 0,
            reward_growths_outside: [0, 0, 0],
        }
    }

    /// The all-zero tick value.
    pub open spec fn zero() -> Tick {
        Tick {
            initialized: false,
            liquidity_net: 0,
            liquidity_gross: 0,
            fee_growth_outside_a: 0,
            fee_growth_outside_b: 0,
            reward_growths_outside: [0, 0, 0],
        }
    }

    /// The tick value a `TickUpdate` writes.
    pub open spec fn from_update(update: TickUpdate) -> Tick {
        Tick {
            initialized: update.initialized,
            liquidity_net: update.liquidity_net,
            liquidity_gross: update.liquidity_gross,
            fee_growth_outside_a: update.fee_growth_outside_a,
            fee_growth_outside_b: update.fee_growth_outside_b,
            reward_growths_outside: update.reward_growths_outside,
        }
    }

    /// Overwrites this tick with the update.
    pub fn update(&mut self, update: &TickUpdate)
        ensures
            *final(self) == Tick::from_update(*update),
    {
        self.initialized = update.initialized;
        self.liquidity_net = update.liquidity_net;
        self.liquidity_gross = update.liquidity_gross;
        self.fee_growth_outside_a = update.fee_growth_outside_a;
        self.fee_growth_outside_b = update.fee_growth_outside_b;
        self.reward_growths_outside = update.reward_growths_outside;
    }

    /// Whether `tick_index` is in range and a multiple of the spacing.
    pub fn check_is_usable_tick(tick_index: i32, tick_spacing: u16) -> (r: bool)
        requires
            1 <= tick_spacing,
        ensures
            r == is_usable_tick(tick_index as int, tick_spacing as int),
    {
        if tick_index < MIN_TICK_INDEX || tick_index > MAX_TICK_INDEX {
            return false;
        }
        is_divisible(tick_index, tick_spacing as u32)
    }

    /// Whether `start_tick_index` is a valid array boundary for the spacing.
    pub fn check_is_valid_start_tick(start_tick_index: i32, tick_spacing: u16) -> (r: bool)
        requires
            1 <= tick_spacing,
        ensures
            r == is_valid_start_tick(start_tick_index as int, tick_spacing as int),
    {
        let ticks_in_array: i64 = (TICK_ARRAY_SIZE as i64) * (tick_spacing as i64);
        if start_tick_index > MAX_TICK_INDEX {
            return false;
        }
        if (start_tick_index as i64) + ticks_in_array <= MIN_TICK_INDEX as i64 {
            return false;
        }
        is_divisible(start_tick_index, (ticks_in_array as u32))
    }

    /// The extreme usable ticks for this spacing.
    pub fn full_range_indexes(tick_spacing: u16) -> (r: (i32, i32))
        requires
            1 <= tick_spacing,
        ensures
            r.0 == -((443636int / tick_spacing as int) * tick_spacing as int),
            r.1 == (443636int / tick_spacing as int) * tick_spacing as int,
            is_usable_tick(r.0 as int, tick_spacing as int),
            is_usable_tick(r.1 as int, tick_spacing as int),
            r.0 <= 0 <= r.1,
    {
        let steps: u32 = 443636 / (tick_spacing as u32);
        proof {
            vstd::arithmetic::div_mod::lemma_fundamental_div_mod(443636int, tick_spacing as int);
            vstd::arithmetic::div_mod::lemma_mod_division_less_than_divisor(
                443636int,
                tick_spacing as int,
            );
            assert(steps as int * tick_spacing as int <= 443636) by {
                vstd::arithmetic::mul::lemma_mul_is_commutative(
                    tick_spacing as int,
                    443636int / tick_spacing as int,
                );
            }
        }
        let upper: u32 = steps * (tick_spacing as u32);
        proof {
            vstd::arithmetic::div_mod::lemma_fundamental_div_mod(443636int, tick_spacing as int);
            vstd::arithmetic::div_mod::lemma_mod_division_less_than_divisor(
                443636int,
                tick_spacing as int,
            );
            assert(tick_spacing as int * (443636int / tick_spacing as int) == (443636int
                / tick_spacing as int) * tick_spacing as int) by {
                vstd::arithmetic::mul::lemma_mul_is_commutative(
                    tick_spacing as int,
                    443636int / tick_spacing as int,
                );
            }
            vstd::arithmetic::div_mod::lemma_mod_multiples_basic(
                443636int / tick_spacing as int,
                tick_spacing as int,
            );
            lemma_neg_divisibility(upper as int, tick_spacing as int);
        }
        ((-(upper as i64)) as i32, upper as i32)
    }
}

} // verus!
