//! Wrapping Q64.64 growth arithmetic.
//!
//! Growth accumulators wrap modulo 2^128 by design: the wrapping difference
//! of a later and an earlier snapshot is always the growth added in
//! between, no matter how often the accumulator wrapped past zero.

use vstd::prelude::*;

verus! {

/// `(a + b) mod 2^128`.
pub open spec fn wrapping_add_u128(a: nat, b: nat) -> nat {
    if a + b <= u128::MAX {
        a + b
    } else {
        (a + b - 0x1_0000_0000_0000_0000_0000_0000_0000_0000) as nat
    }
}

/// `(a - b) mod 2^128`.
pub open spec fn wrapping_sub_u128(a: nat, b: nat) -> nat {
    if a >= b {
        (a - b) as nat
    } else {
        (a + 0x1_0000_0000_0000_0000_0000_0000_0000_0000 - b) as nat
    }
}

/// Executable wrapping addition modulo 2^128.
pub fn wadd(a: u128, b: u128) -> (r: u128)
    ensures
        r == wrapping_add_u128(a as nat, b as nat),
{
    if b <= u128::MAX - a {
        a + b
    } else {
        a - (u128::MAX - b) - 1
    }
}

/// Executable wrapping subtraction modulo 2^128.
pub fn wsub(a: u128, b: u128) -> (r: u128)
    ensures
        r == wrapping_sub_u128(a as nat, b as nat),
{
    if a >= b {
        a - b
    } else {
        (u128::MAX - b) + a + 1
    }
}

/// Wrap safety of growth snapshots: subtracting the earlier snapshot from
/// the later one recovers exactly the growth added in between, even when
/// the addition wrapped.
pub proof fn lemma_growth_wrap_round_trip(earlier: u128, growth: u128)
    ensures
        wrapping_sub_u128(wrapping_add_u128(earlier as nat, growth as nat), earlier as nat)
            == growth,
{
}

/// Wrap safety across two accumulations: two growths added one after the
/// other are recovered together by one wrapping difference, as long as the
/// true total fits the accumulator's width.
pub proof fn lemma_growth_wrap_two_steps(earlier: u128, growth_0: u128, growth_1: u128)
    requires
        growth_0 + growth_1 <= u128::MAX,
    ensures
        wrapping_sub_u128(
            wrapping_add_u128(
                wrapping_add_u128(earlier as nat, growth_0 as nat),
                growth_1 as nat,
            ),
            earlier as nat,
        ) == growth_0 + growth_1,
{
}

} // verus!
