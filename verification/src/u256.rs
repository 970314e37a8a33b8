//! A 256-bit unsigned integer built from two 128-bit halves.
//!
//! The swap and delta formulas multiply two Q64.64 quantities before
//! dividing, so their intermediates need 256 bits (and, for the shifted
//! divisions, 320 bits of dividend). Every operation here is specified
//! exactly against the mathematical value `lo + hi * 2^128`.

use vstd::arithmetic::div_mod::{
    lemma_fundamental_div_mod, lemma_fundamental_div_mod_converse, lemma_mod_multiples_vanish,
};
use vstd::arithmetic::mul::{
    lemma_mul_inequality, lemma_mul_is_associative, lemma_mul_upper_bound,
};
use vstd::arithmetic::power2::{lemma2_to64, lemma2_to64_rest, lemma_pow2_adds, pow2};
use vstd::prelude::*;

use crate::errors::ErrorCode;

verus! {

/// 2^64 as a `u128`.
pub const TWO_POW_64: u128 = 0x1_0000_0000_0000_0000;

/// An unsigned 256-bit integer: `lo + hi * 2^128`.
#[derive(Clone, Copy, Debug, PartialEq, Eq, Structural)]
pub struct U256 {
    pub lo: u128,
    pub hi: u128,
}

impl U256 {
    /// The mathematical value of this integer.
    pub open spec fn as_nat(self) -> nat {
        self.lo as nat + self.hi as nat * 0x1_0000_0000_0000_0000_0000_0000_0000_0000
    }

    pub fn zero() -> (r: U256)
        ensures
            r.as_nat() == 0,
    {
        U256 { lo: 0, hi: 0 }
    }

    pub fn from_u128(x: u128) -> (r: U256)
        ensures
            r.as_nat() == x,
    {
        U256 { lo: x, hi: 0 }
    }

    /// Narrows to `u64`, rejecting values that do not fit.
    pub fn try_into_u64(self) -> (r: Result<u64, ErrorCode>)
        ensures
            self.as_nat() <= u64::MAX ==> r == Ok::<u64, ErrorCode>((self.as_nat()) as u64),
            self.as_nat() > u64::MAX ==> r == Err::<u64, ErrorCode>(ErrorCode::NumberCastError),
    {
        if self.hi == 0 && self.lo <= u64::MAX as u128 {
            Ok(self.lo as u64)
        } else {
            Err(ErrorCode::NumberCastError)
        }
    }

    /// Narrows to `u128`, rejecting values that do not fit.
    pub fn try_into_u128(self) -> (r: Result<u128, ErrorCode>)
        ensures
            self.as_nat() <= u128::MAX ==> r == Ok::<u128, ErrorCode>((self.as_nat()) as u128),
            self.as_nat() > u128::MAX ==> r == Err::<u128, ErrorCode>(ErrorCode::NumberCastError),
    {
        if self.hi == 0 {
            Ok(self.lo)
        } else {
            Err(ErrorCode::NumberCastError)
        }
    }

    /// `self >= other` on the mathematical values.
    pub fn ge(&self, other: &U256) -> (r: bool)
        ensures
            r == (self.as_nat() >= other.as_nat()),
    {
        self.hi > other.hi || (self.hi == other.hi && self.lo >= other.lo)
    }

    /// Exact subtraction; the caller establishes that no borrow out occurs.
    pub fn sub(&self, other: &U256) -> (r: U256)
        requires
            self.as_nat() >= other.as_nat(),
        ensures
            r.as_nat() == self.as_nat() - other.as_nat(),
    {
        if self.lo >= other.lo {
            U256 { lo: self.lo - other.lo, hi: self.hi - other.hi }
        } else {
            U256 { lo: (u128::MAX - other.lo) + self.lo + 1, hi: self.hi - other.hi - 1 }
        }
    }

    /// Exact addition when the sum fits in 256 bits.
    pub fn checked_add(&self, other: &U256) -> (r: Option<U256>)
        ensures
            self.as_nat() + other.as_nat() <= u256_max() ==> (r is Some
                && r->Some_0.as_nat() == self.as_nat() + other.as_nat()),
            self.as_nat() + other.as_nat() > u256_max() ==> r is None,
    {
        proof {
            lemma_pow2_256_value();
        }
        let (lo, carry): (u128, u128) = if self.lo <= u128::MAX - other.lo {
            (self.lo + other.lo, 0)
        } else {
            ((self.lo - (u128::MAX - other.lo)) - 1, 1)
        };
        if other.hi <= u128::MAX - carry && self.hi <= u128::MAX - (other.hi + carry) {
            Some(U256 { lo, hi: self.hi + other.hi + carry })
        } else {
            None
        }
    }

    /// Exact multiplication by 2^64 when the result fits in 256 bits.
    pub fn checked_shl64(&self) -> (r: Option<U256>)
        ensures
            self.as_nat() * pow2(64) <= u256_max() ==> (r is Some && r->Some_0.as_nat()
                == self.as_nat() * pow2(64)),
            self.as_nat() * pow2(64) > u256_max() ==> r is None,
    {
        proof {
            lemma_pow2_64_value();
            lemma_pow2_256_value();
            vstd::arithmetic::power2::lemma_pow2_pos(256);
        }
        let ghost v = self.as_nat() as int;
        let ghost p64 = pow2(64) as int;
        if self.hi >= TWO_POW_64 {
            proof {
                let bound = TWO_POW_64 as int * 0x1_0000_0000_0000_0000_0000_0000_0000_0000;
                assert(v >= bound);
                vstd::arithmetic::mul::lemma_mul_inequality(bound, v, p64);
                assert(bound * p64 == pow2(256));
            }
            return None;
        }
        let r = U256 {
            lo: (self.lo % TWO_POW_64) * TWO_POW_64,
            hi: self.hi * TWO_POW_64 + self.lo / TWO_POW_64,
        };
        proof {
            let p = TWO_POW_64 as int;
            lemma_fundamental_div_mod(self.lo as int, p);
            // both sides expand to hi * 2^192 + (lo / 2^64) * 2^128 + (lo % 2^64) * 2^64
            assert(r.as_nat() == self.as_nat() * pow2(64));
            let bound = (TWO_POW_64 as int - 1) * 0x1_0000_0000_0000_0000_0000_0000_0000_0000
                + (u128::MAX as int);
            assert(v <= bound);
            vstd::arithmetic::mul::lemma_mul_inequality(v, bound, p64);
            assert(bound * p64 < pow2(256));
        }
        Some(r)
    }

    /// Exact division by 2^64, rounding down.
    pub fn shr64(&self) -> (r: U256)
        ensures
            r.as_nat() == self.as_nat() / pow2(64),
    {
        proof {
            lemma_pow2_64_value();
        }
        let r = U256 {
            lo: self.lo / TWO_POW_64 + (self.hi % TWO_POW_64) * TWO_POW_64,
            hi: self.hi / TWO_POW_64,
        };
        proof {
            let v = self.as_nat() as int;
            let p = TWO_POW_64 as int;
            lemma_fundamental_div_mod(self.lo as int, p);
            lemma_fundamental_div_mod(self.hi as int, p);
            assert(v == p * (r.as_nat() as int) + (self.lo as int % p));
            lemma_fundamental_div_mod_converse(v, p, r.as_nat() as int, self.lo as int % p);
        }
        r
    }


    /// Reads a 256-bit value from its 32 little-endian bytes.
    pub fn from_le_bytes(bytes: [u8; 32]) -> (r: U256)
        ensures
            r.lo == bytes[0] + bytes[1] * 0x100 + bytes[2] * 0x10000 + bytes[3] * 0x1000000 + bytes[4] * 0x100000000 + bytes[5] * 0x10000000000 + bytes[6] * 0x1000000000000 + bytes[7] * 0x100000000000000 + bytes[8] * 0x10000000000000000 + bytes[9] * 0x1000000000000000000 + bytes[10] * 0x100000000000000000000 + bytes[11] * 0x10000000000000000000000 + bytes[12] * 0x1000000000000000000000000 + bytes[13] * 0x100000000000000000000000000 + bytes[14] * 0x10000000000000000000000000000 + bytes[15] * 0x1000000000000000000000000000000,
            r.hi == bytes[16] + bytes[17] * 0x100 + bytes[18] * 0x10000 + bytes[19] * 0x1000000 + bytes[20] * 0x100000000 + bytes[21] * 0x10000000000 + bytes[22] * 0x1000000000000 + bytes[23] * 0x100000000000000 + bytes[24] * 0x10000000000000000 + bytes[25] * 0x1000000000000000000 + bytes[26] * 0x100000000000000000000 + bytes[27] * 0x10000000000000000000000 + bytes[28] * 0x1000000000000000000000000 + bytes[29] * 0x100000000000000000000000000 + bytes[30] * 0x10000000000000000000000000000 + bytes[31] * 0x1000000000000000000000000000000,
    {
        let lo: u128 = (bytes[0] as u128) + (bytes[1] as u128) * 0x100 + (bytes[2] as u128) * 0x10000 + (bytes[3] as u128) * 0x1000000 + (bytes[4] as u128) * 0x100000000 + (bytes[5] as u128) * 0x10000000000 + (bytes[6] as u128) * 0x1000000000000 + (bytes[7] as u128) * 0x100000000000000 + (bytes[8] as u128) * 0x10000000000000000 + (bytes[9] as u128) * 0x1000000000000000000 + (bytes[10] as u128) * 0x100000000000000000000 + (bytes[11] as u128) * 0x10000000000000000000000 + (bytes[12] as u128) * 0x1000000000000000000000000 + (bytes[13] as u128) * 0x100000000000000000000000000 + (bytes[14] as u128) * 0x10000000000000000000000000000 + (bytes[15] as u128) * 0x1000000000000000000000000000000;
        let hi: u128 = (bytes[16] as u128) + (bytes[17] as u128) * 0x100 + (bytes[18] as u128) * 0x10000 + (bytes[19] as u128) * 0x1000000 + (bytes[20] as u128) * 0x100000000 + (bytes[21] as u128) * 0x10000000000 + (bytes[22] as u128) * 0x1000000000000 + (bytes[23] as u128) * 0x100000000000000 + (bytes[24] as u128) * 0x10000000000000000 + (bytes[25] as u128) * 0x1000000000000000000 + (bytes[26] as u128) * 0x100000000000000000000 + (bytes[27] as u128) * 0x10000000000000000000000 + (bytes[28] as u128) * 0x1000000000000000000000000 + (bytes[29] as u128) * 0x100000000000000000000000000 + (bytes[30] as u128) * 0x10000000000000000000000000000 + (bytes[31] as u128) * 0x1000000000000000000000000000000;
        U256 { lo, hi }
    }

    /// Writes the value as 32 little-endian bytes.
    pub fn to_le_bytes(self) -> (r: [u8; 32])
        ensures
            r[0] == self.lo % 0x100,
            r[1] == (self.lo / 0x100) % 0x100,
            r[2] == (self.lo / 0x10000) % 0x100,
            r[3] == (self.lo / 0x1000000) % 0x100,
            r[4] == (self.lo / 0x100000000) % 0x100,
            r[5] == (self.lo / 0x10000000000) % 0x100,
            r[6] == (self.lo / 0x1000000000000) % 0x100,
            r[7] == (self.lo / 0x100000000000000) % 0x100,
            r[8] == (self.lo / 0x10000000000000000) % 0x100,
            r[9] == (self.lo / 0x1000000000000000000) % 0x100,
            r[10] == (self.lo / 0x100000000000000000000) % 0x100,
            r[11] == (self.lo / 0x10000000000000000000000) % 0x100,
            r[12] == (self.lo / 0x1000000000000000000000000) % 0x100,
            r[13] == (self.lo / 0x100000000000000000000000000) % 0x100,
            r[14] == (self.lo / 0x10000000000000000000000000000) % 0x100,
            r[15] == (self.lo / 0x1000000000000000000000000000000) % 0x100,
            r[16] == self.hi % 0x100,
            r[17] == (self.hi / 0x100) % 0x100,
            r[18] == (self.hi / 0x10000) % 0x100,
            r[19] == (self.hi / 0x1000000) % 0x100,
            r[20] == (self.hi / 0x100000000) % 0x100,
            r[21] == (self.hi / 0x10000000000) % 0x100,
            r[22] == (self.hi / 0x1000000000000) % 0x100,
            r[23] == (self.hi / 0x100000000000000) % 0x100,
            r[24] == (self.hi / 0x10000000000000000) % 0x100,
            r[25] == (self.hi / 0x1000000000000000000) % 0x100,
            r[26] == (self.hi / 0x100000000000000000000) % 0x100,
            r[27] == (self.hi / 0x10000000000000000000000) % 0x100,
            r[28] == (self.hi / 0x1000000000000000000000000) % 0x100,
            r[29] == (self.hi / 0x100000000000000000000000000) % 0x100,
            r[30] == (self.hi / 0x10000000000000000000000000000) % 0x100,
            r[31] == (self.hi / 0x1000000000000000000000000000000) % 0x100,
    {
        [
            (self.lo % 0x100) as u8, ((self.lo / 0x100) % 0x100) as u8, ((self.lo / 0x10000) % 0x100) as u8, ((self.lo / 0x1000000) % 0x100) as u8, ((self.lo / 0x100000000) % 0x100) as u8, ((self.lo / 0x10000000000) % 0x100) as u8, ((self.lo / 0x1000000000000) % 0x100) as u8, ((self.lo / 0x100000000000000) % 0x100) as u8, ((self.lo / 0x10000000000000000) % 0x100) as u8, ((self.lo / 0x1000000000000000000) % 0x100) as u8, ((self.lo / 0x100000000000000000000) % 0x100) as u8, ((self.lo / 0x10000000000000000000000) % 0x100) as u8, ((self.lo / 0x1000000000000000000000000) % 0x100) as u8, ((self.lo / 0x100000000000000000000000000) % 0x100) as u8, ((self.lo / 0x10000000000000000000000000000) % 0x100) as u8, ((self.lo / 0x1000000000000000000000000000000) % 0x100) as u8, (self.hi % 0x100) as u8, ((self.hi / 0x100) % 0x100) as u8, ((self.hi / 0x10000) % 0x100) as u8, ((self.hi / 0x1000000) % 0x100) as u8, ((self.hi / 0x100000000) % 0x100) as u8, ((self.hi / 0x10000000000) % 0x100) as u8, ((self.hi / 0x1000000000000) % 0x100) as u8, ((self.hi / 0x100000000000000) % 0x100) as u8, ((self.hi / 0x10000000000000000) % 0x100) as u8, ((self.hi / 0x1000000000000000000) % 0x100) as u8, ((self.hi / 0x100000000000000000000) % 0x100) as u8, ((self.hi / 0x10000000000000000000000) % 0x100) as u8, ((self.hi / 0x1000000000000000000000000) % 0x100) as u8, ((self.hi / 0x100000000000000000000000000) % 0x100) as u8, ((self.hi / 0x10000000000000000000000000000) % 0x100) as u8, ((self.hi / 0x1000000000000000000000000000000) % 0x100) as u8,
        ]
    }

    /// The low 64 bits, `self mod 2^64`.
    pub fn low64(&self) -> (r: u64)
        ensures
            r == self.as_nat() % pow2(64),
    {
        proof {
            lemma_pow2_64_value();
            let p = TWO_POW_64 as int;
            let m = self.hi as int * 0x1_0000_0000_0000_0000;
            assert(self.hi as int * 0x1_0000_0000_0000_0000_0000_0000_0000_0000 == m * p);
            lemma_mod_multiples_vanish(m, self.lo as int, p);
        }
        (self.lo % TWO_POW_64) as u64
    }
}

/// Exact widening multiplication of two 128-bit integers.
pub fn wide_mul_u128(a: u128, b: u128) -> (r: U256)
    ensures
        r.as_nat() == a * b,
{
    proof {
        lemma_pow2_64_value();
    }
    let a0 = a % TWO_POW_64;
    let a1 = a / TWO_POW_64;
    let b0 = b % TWO_POW_64;
    let b1 = b / TWO_POW_64;
    proof {
        lemma_mul_upper_bound(a0 as int, 0xffff_ffff_ffff_ffff, b0 as int, 0xffff_ffff_ffff_ffff);
        lemma_mul_upper_bound(a0 as int, 0xffff_ffff_ffff_ffff, b1 as int, 0xffff_ffff_ffff_ffff);
        lemma_mul_upper_bound(a1 as int, 0xffff_ffff_ffff_ffff, b0 as int, 0xffff_ffff_ffff_ffff);
        lemma_mul_upper_bound(a1 as int, 0xffff_ffff_ffff_ffff, b1 as int, 0xffff_ffff_ffff_ffff);
    }
    let p00 = a0 * b0;
    let p01 = a0 * b1;
    let p10 = a1 * b0;
    let p11 = a1 * b1;
    let t1 = (p00 / TWO_POW_64) + (p01 % TWO_POW_64) + (p10 % TWO_POW_64);
    let t2 = (t1 / TWO_POW_64) + (p01 / TWO_POW_64) + (p10 / TWO_POW_64) + (p11 % TWO_POW_64);
    let t3 = (t2 / TWO_POW_64) + (p11 / TWO_POW_64);
    proof {
        // the schoolbook expansion of the product over 64-bit limbs
        assert(a as int * b as int == p11 as int * (0x1_0000_0000_0000_0000
            * 0x1_0000_0000_0000_0000) + p01 as int * 0x1_0000_0000_0000_0000 + p10 as int
            * 0x1_0000_0000_0000_0000 + p00 as int) by (nonlinear_arith)
            requires
                a == a1 * 0x1_0000_0000_0000_0000 + a0,
                b == b1 * 0x1_0000_0000_0000_0000 + b0,
                p00 == a0 * b0,
                p01 == a0 * b1,
                p10 == a1 * b0,
                p11 == a1 * b1,
        ;
        // recombining the carries keeps the same value
        lemma_fundamental_div_mod(p00 as int, 0x1_0000_0000_0000_0000);
        lemma_fundamental_div_mod(p01 as int, 0x1_0000_0000_0000_0000);
        lemma_fundamental_div_mod(p10 as int, 0x1_0000_0000_0000_0000);
        lemma_fundamental_div_mod(p11 as int, 0x1_0000_0000_0000_0000);
        lemma_fundamental_div_mod(t1 as int, 0x1_0000_0000_0000_0000);
        lemma_fundamental_div_mod(t2 as int, 0x1_0000_0000_0000_0000);
        let c01 = p01 as int / 0x1_0000_0000_0000_0000;
        let r01 = p01 as int % 0x1_0000_0000_0000_0000;
        assert(p01 as int * 0x1_0000_0000_0000_0000 == c01 * (0x1_0000_0000_0000_0000
            * 0x1_0000_0000_0000_0000) + r01 * 0x1_0000_0000_0000_0000) by (nonlinear_arith)
            requires
                p01 as int == c01 * 0x1_0000_0000_0000_0000 + r01,
        ;
        let c10 = p10 as int / 0x1_0000_0000_0000_0000;
        let r10 = p10 as int % 0x1_0000_0000_0000_0000;
        assert(p10 as int * 0x1_0000_0000_0000_0000 == c10 * (0x1_0000_0000_0000_0000
            * 0x1_0000_0000_0000_0000) + r10 * 0x1_0000_0000_0000_0000) by (nonlinear_arith)
            requires
                p10 as int == c10 * 0x1_0000_0000_0000_0000 + r10,
        ;
        assert(t1 as int * 0x1_0000_0000_0000_0000 == (t1 as int / 0x1_0000_0000_0000_0000) * (
        0x1_0000_0000_0000_0000 * 0x1_0000_0000_0000_0000) + (t1 as int
            % 0x1_0000_0000_0000_0000) * 0x1_0000_0000_0000_0000);
        let c2 = t2 as int / 0x1_0000_0000_0000_0000;
        let r2 = t2 as int % 0x1_0000_0000_0000_0000;
        assert(t2 as int * (0x1_0000_0000_0000_0000 * 0x1_0000_0000_0000_0000) == c2 * (
        0x1_0000_0000_0000_0000 * 0x1_0000_0000_0000_0000 * 0x1_0000_0000_0000_0000) + r2 * (
        0x1_0000_0000_0000_0000 * 0x1_0000_0000_0000_0000)) by (nonlinear_arith)
            requires
                t2 as int == c2 * 0x1_0000_0000_0000_0000 + r2,
        ;
        let c11 = p11 as int / 0x1_0000_0000_0000_0000;
        let r11 = p11 as int % 0x1_0000_0000_0000_0000;
        assert(p11 as int * (0x1_0000_0000_0000_0000 * 0x1_0000_0000_0000_0000) == c11 * (
        0x1_0000_0000_0000_0000 * 0x1_0000_0000_0000_0000 * 0x1_0000_0000_0000_0000) + r11 * (
        0x1_0000_0000_0000_0000 * 0x1_0000_0000_0000_0000)) by (nonlinear_arith)
            requires
                p11 as int == c11 * 0x1_0000_0000_0000_0000 + r11,
        ;
        assert(a as int * b as int == (p00 as int % 0x1_0000_0000_0000_0000) + (t1 as int
            % 0x1_0000_0000_0000_0000) * 0x1_0000_0000_0000_0000 + ((t2 as int
            % 0x1_0000_0000_0000_0000) + t3 as int * 0x1_0000_0000_0000_0000) * (
        0x1_0000_0000_0000_0000 * 0x1_0000_0000_0000_0000));
        // the top limb fits because a * b < 2^256
        lemma_mul_upper_bound(a as int, u128::MAX as int, b as int, u128::MAX as int);
        assert(t3 < 0x1_0000_0000_0000_0000);
    }
    let r = U256 { lo: (p00 % TWO_POW_64) + (t1 % TWO_POW_64) * TWO_POW_64, hi: (t2 % TWO_POW_64)
        + t3 * TWO_POW_64 };
    r
}

/// Quotient and remainder of `n * 2^64^(extra64) / d`, by binary long
/// division over the bits of the (possibly 320-bit) dividend.
pub fn div_rem(n: &U256, extra64: bool, d: &U256) -> (qr: (U256, U256))
    requires
        1 <= d.as_nat(),
        d.as_nat() < pow2(255),
        extra64 ==> d.as_nat() >= pow2(64),
    ensures
        dividend_of(*n, extra64) == qr.0.as_nat() * d.as_nat() + qr.1.as_nat(),
        qr.1.as_nat() < d.as_nat(),
{
    let total_bits: u32 = if extra64 {
        320
    } else {
        256
    };
    let ghost dd = dividend_of(*n, extra64);
    let mut i: u32 = total_bits;
    let mut q = U256::zero();
    let mut r = U256::zero();
    proof {
        lemma_dividend_bound(*n, extra64);
        vstd::arithmetic::power2::lemma_pow2_pos(i as nat);
        vstd::arithmetic::div_mod::lemma_basic_div(dd as int, pow2(i as nat) as int);
        vstd::arithmetic::div_mod::lemma_div_of0(d.as_nat() as int);
        vstd::arithmetic::div_mod::lemma_small_mod(0, d.as_nat());
    }
    while i > 0
        invariant
            i <= total_bits,
            total_bits == if extra64 {
                320int
            } else {
                256int
            },
            dd == dividend_of(*n, extra64),
            dd < if extra64 {
                pow2(320)
            } else {
                pow2(256)
            },
            1 <= d.as_nat() < pow2(255),
            extra64 ==> d.as_nat() >= pow2(64),
            q.as_nat() == (dd / pow2(i as nat)) / d.as_nat(),
            r.as_nat() == (dd / pow2(i as nat)) % d.as_nat(),
        decreases i,
    {
        i = i - 1;
        let ghost v_next = dd / pow2((i + 1) as nat);
        let bit: u8 = extract_dividend_bit(n, extra64, i);
        proof {
            lemma_pow2_step(dd, i as nat);
            // the value of the bits read so far doubles and takes in bit i
            assert(dd / pow2(i as nat) == 2 * v_next + bit);
            lemma_pow2_255_double();
            lemma_quotient_bound(dd, i as nat, d.as_nat(), extra64);
            vstd::arithmetic::div_mod::lemma_mod_division_less_than_divisor(
                v_next as int,
                d.as_nat() as int,
            );
        }
        r = shl1_add(&r, bit);
        if r.ge(d) {
            r = r.sub(d);
            q = shl1_add(&q, 1);
        } else {
            q = shl1_add(&q, 0);
        }
        proof {
            lemma_div_mod_step(v_next, bit as nat, d.as_nat());
        }
    }
    proof {
        lemma2_to64();
        vstd::arithmetic::div_mod::lemma_div_basics(dd as int);
        lemma_fundamental_div_mod(dd as int, d.as_nat() as int);
        vstd::arithmetic::mul::lemma_mul_is_commutative(
            d.as_nat() as int,
            (dd / d.as_nat()) as int,
        );
        vstd::arithmetic::div_mod::lemma_mod_division_less_than_divisor(
            dd as int,
            d.as_nat() as int,
        );
    }
    (q, r)
}

/// The value divided by `div_rem`: `n` itself, or `n * 2^64`.
pub open spec fn dividend_of(n: U256, extra64: bool) -> nat {
    if extra64 {
        n.as_nat() * pow2(64)
    } else {
        n.as_nat()
    }
}

/// Shifts left one bit and adds `b` into the vacated position.
fn shl1_add(x: &U256, b: u8) -> (r: U256)
    requires
        b <= 1,
        2 * x.as_nat() + b < pow2(256),
    ensures
        r.as_nat() == 2 * x.as_nat() + b,
{
    proof {
        lemma_pow2_256_value();
    }
    let half: u128 = 0x8000_0000_0000_0000_0000_0000_0000_0000;
    let lo_top = x.lo / half;
    let r = U256 { lo: (x.lo % half) * 2 + (b as u128), hi: x.hi * 2 + lo_top };
    proof {
        lemma_fundamental_div_mod(x.lo as int, half as int);
    }
    r
}

/// Reads bit `i` of the (possibly shifted) dividend.
fn extract_dividend_bit(n: &U256, extra64: bool, i: u32) -> (bit: u8)
    requires
        i < if extra64 { 320int } else { 256int },
    ensures
        bit == (dividend_of(*n, extra64) / pow2(i as nat)) % 2,
        bit <= 1,
{
    if extra64 && i < 64 {
        proof {
            lemma_low_shifted_bits_are_zero(n.as_nat(), i as nat);
        }
        return 0u8;
    }
    let j: u32 = if extra64 {
        i - 64
    } else {
        i
    };
    proof {
        if extra64 {
            lemma_shifted_bit_is_plain_bit(n.as_nat(), j as nat);
        }
    }
    proof {
        lemma_pow2_128_value();
    }
    let bit: u8 = if j < 128 {
        proof {
            vstd::bits::lemma_u128_shr_is_div(n.lo, j as u128);
            lemma_u256_bit_from_limb(n.lo as nat, n.hi as nat, j as nat);
        }
        ((n.lo >> (j as u128)) % 2) as u8
    } else {
        proof {
            vstd::bits::lemma_u128_shr_is_div(n.hi, (j - 128) as u128);
            lemma_u256_bit_from_limb(n.lo as nat, n.hi as nat, j as nat);
        }
        ((n.hi >> ((j - 128) as u128)) % 2) as u8
    };
    bit
}

/// The largest value a `U256` can hold, `2^256 - 1`.
pub open spec fn u256_max() -> nat {
    (pow2(256) - 1) as nat
}

/// The dividend handled by `div_rem` stays below 2^320 (2^256 unshifted).
proof fn lemma_dividend_bound(n: U256, extra64: bool)
    ensures
        n.as_nat() < pow2(256),
        dividend_of(n, extra64) < if extra64 {
            pow2(320)
        } else {
            pow2(256)
        },
{
    lemma_pow2_256_value();
    if extra64 {
        lemma_mul_inequality(n.as_nat() as int, pow2(256) as int - 1, pow2(64) as int);
        lemma_pow2_adds(256, 64);
        lemma_pow2_64_value();
    }
}

/// `pow2(256) == 2 * pow2(255)`.
proof fn lemma_pow2_255_double()
    ensures
        pow2(256) == 2 * pow2(255),
{
    lemma_pow2_adds(255, 1);
    lemma2_to64();
}

/// One step of reading the dividend most-significant-bit first: the value of
/// the top `tb - i` bits is twice the value of the top `tb - i - 1` bits plus
/// bit `i`.
proof fn lemma_pow2_step(dd: nat, i: nat)
    ensures
        dd / pow2(i) == 2 * (dd / pow2(i + 1)) + (dd / pow2(i)) % 2,
{
    lemma_pow2_adds(i, 1);
    lemma2_to64();
    vstd::arithmetic::power2::lemma_pow2_pos(i);
    assert(dd as int / (pow2(i) as int * 2) == (dd as int / pow2(i) as int) / 2) by {
        vstd::arithmetic::div_mod::lemma_div_denominator(dd as int, pow2(i) as int, 2);
    }
    lemma_fundamental_div_mod((dd / pow2(i)) as int, 2);
}

/// The running quotient always leaves room for one more shifted-in bit.
proof fn lemma_quotient_bound(dd: nat, i: nat, d: nat, extra64: bool)
    requires
        dd < if extra64 {
            pow2(320)
        } else {
            pow2(256)
        },
        1 <= d,
        extra64 ==> d >= pow2(64),
        i + 1 <= if extra64 {
            320nat
        } else {
            256nat
        },
    ensures
        2 * ((dd / pow2(i + 1)) / d) + 1 < pow2(256),
{
    let tb: nat = if extra64 {
        320
    } else {
        256
    };
    assert(dd < pow2(tb));
    let v = dd / pow2(i + 1);
    vstd::arithmetic::power2::lemma_pow2_pos(i + 1);
    vstd::arithmetic::power2::lemma_pow2_pos(64);
    vstd::arithmetic::power2::lemma_pow2_pos((tb - i - 1) as nat);
    assert(v < pow2((tb - i - 1) as nat)) by {
        lemma_pow2_adds(i + 1, (tb - i - 1) as nat);
        vstd::arithmetic::div_mod::lemma_multiply_divide_lt(
            dd as int,
            pow2(i + 1) as int,
            pow2((tb - i - 1) as nat) as int,
        );
    }
    let q = v / d;
    assert(q <= v) by {
        vstd::arithmetic::div_mod::lemma_div_nonincreasing(v as int, d as int);
        vstd::arithmetic::div_mod::lemma_div_pos_is_pos(v as int, d as int);
    }
    if tb - i - 1 <= 255 {
        assert(pow2((tb - i - 1) as nat) <= pow2(255)) by {
            vstd::arithmetic::power::lemma_pow_increases(2, (tb - i - 1) as nat, 255);
            vstd::arithmetic::power2::lemma_pow2((tb - i - 1) as nat);
            vstd::arithmetic::power2::lemma_pow2(255);
        }
        assert(q < pow2(255));
    } else {
        // only possible when shifted: use d >= 2^64 to absorb the extra bits
        assert(q <= v / pow2(64)) by {
            vstd::arithmetic::div_mod::lemma_div_is_ordered_by_denominator(
                v as int,
                pow2(64) as int,
                d as int,
            );
        }
        assert(v / pow2(64) < pow2((tb - i - 1 - 64) as nat)) by {
            lemma_pow2_adds(64, (tb - i - 1 - 64) as nat);
            vstd::arithmetic::div_mod::lemma_multiply_divide_lt(
                v as int,
                pow2(64) as int,
                pow2((tb - i - 1 - 64) as nat) as int,
            );
        }
        assert(pow2((tb - i - 1 - 64) as nat) <= pow2(255)) by {
            vstd::arithmetic::power::lemma_pow_increases(2, (tb - i - 1 - 64) as nat, 255);
            vstd::arithmetic::power2::lemma_pow2((tb - i - 1 - 64) as nat);
            vstd::arithmetic::power2::lemma_pow2(255);
        }
        assert(q < pow2(255));
    }
    lemma_pow2_255_double();
}

/// Shifting one bit into a euclidean division: quotient and remainder of
/// `2 * v + b` by `d` from those of `v` by `d`.
proof fn lemma_div_mod_step(v: nat, b: nat, d: nat)
    requires
        b <= 1,
        1 <= d,
    ensures
        2 * (v % d) + b < d ==> (2 * v + b) / d == 2 * (v / d) && (2 * v + b) % d == 2 * (v % d)
            + b,
        2 * (v % d) + b >= d ==> (2 * v + b) / d == 2 * (v / d) + 1 && (2 * v + b) % d == 2 * (v
            % d) + b - d,
{
    lemma_fundamental_div_mod(v as int, d as int);
    let q = v as int / d as int;
    let r = v as int % d as int;
    assert(2 * v as int + b as int == (2 * q) * d + (2 * r + b)) by {
        assert(2 * (d as int * q) == (2 * q) * d as int) by (nonlinear_arith);
    }
    if 2 * r + b < d {
        vstd::arithmetic::div_mod::lemma_fundamental_div_mod_converse(
            2 * v as int + b as int,
            d as int,
            2 * q,
            2 * r + b,
        );
    } else {
        assert(2 * v as int + b as int == (2 * q + 1) * d + (2 * r + b - d)) by {
            assert((2 * q + 1) * d as int == 2 * (d as int * q) + d) by (nonlinear_arith);
        }
        vstd::arithmetic::div_mod::lemma_fundamental_div_mod_converse(
            2 * v as int + b as int,
            d as int,
            2 * q + 1,
            2 * r + b - d,
        );
    }
}

/// Bits below the 64-bit shift of the dividend are zero.
proof fn lemma_low_shifted_bits_are_zero(nv: nat, i: nat)
    requires
        i < 64,
    ensures
        (nv * pow2(64) / pow2(i)) % 2 == 0,
{
    lemma_pow2_adds((64 - i) as nat, i);
    vstd::arithmetic::power2::lemma_pow2_pos(i);
    assert(nv * pow2(64) == (nv * pow2((64 - i) as nat)) * pow2(i)) by {
        lemma_mul_is_associative(nv as int, pow2((64 - i) as nat) as int, pow2(i) as int);
    }
    assert((nv * pow2((64 - i) as nat)) * pow2(i) / pow2(i) == nv * pow2((64 - i) as nat)) by {
        vstd::arithmetic::div_mod::lemma_div_by_multiple(
            (nv * pow2((64 - i) as nat)) as int,
            pow2(i) as int,
        );
    }
    lemma_pow2_adds((64 - i - 1) as nat, 1);
    lemma2_to64();
    assert(nv * pow2((64 - i) as nat) == (nv * pow2((64 - i - 1) as nat)) * 2) by {
        lemma_mul_is_associative(nv as int, pow2((64 - i - 1) as nat) as int, 2);
    }
    vstd::arithmetic::div_mod::lemma_mod_multiples_basic(
        (nv * pow2((64 - i - 1) as nat)) as int,
        2,
    );
}

/// Bit `j + 64` of the shifted dividend is bit `j` of the unshifted value.
proof fn lemma_shifted_bit_is_plain_bit(nv: nat, j: nat)
    ensures
        (nv * pow2(64)) / pow2(j + 64) == nv / pow2(j),
{
    lemma_pow2_adds(64, j);
    vstd::arithmetic::power2::lemma_pow2_pos(j);
    vstd::arithmetic::power2::lemma_pow2_pos(64);
    assert((nv * pow2(64)) as int / (pow2(64) as int * pow2(j) as int) == ((nv * pow2(64)) as int
        / pow2(64) as int) / pow2(j) as int) by {
        vstd::arithmetic::div_mod::lemma_div_denominator(
            (nv * pow2(64)) as int,
            pow2(64) as int,
            pow2(j) as int,
        );
    }
    vstd::arithmetic::div_mod::lemma_div_by_multiple(nv as int, pow2(64) as int);
}

/// A bit of a two-limb value, read from the limb that holds it.
proof fn lemma_u256_bit_from_limb(lo: nat, hi: nat, j: nat)
    requires
        lo < pow2(128),
        j < 256,
    ensures
        j < 128 ==> ((lo + hi * pow2(128)) / pow2(j)) % 2 == (lo / pow2(j)) % 2,
        j >= 128 ==> ((lo + hi * pow2(128)) / pow2(j)) % 2 == (hi / pow2((j - 128) as nat)) % 2,
{
    let nv = lo + hi * pow2(128);
    vstd::arithmetic::power2::lemma_pow2_pos(j);
    vstd::arithmetic::power2::lemma_pow2_pos(128);
    if j < 128 {
        lemma_pow2_adds((128 - j) as nat, j);
        assert(hi * pow2(128) == (hi * pow2((128 - j) as nat)) * pow2(j)) by {
            lemma_mul_is_associative(hi as int, pow2((128 - j) as nat) as int, pow2(j) as int);
        }
        assert(nv as int / pow2(j) as int == lo as int / pow2(j) as int + (hi * pow2(
            (128 - j) as nat,
        )) as int) by {
            vstd::arithmetic::div_mod::lemma_hoist_over_denominator(
                lo as int,
                (hi * pow2((128 - j) as nat)) as int,
                pow2(j) as nat,
            );
        }
        lemma_pow2_adds((128 - j - 1) as nat, 1);
        lemma2_to64();
        assert(hi * pow2((128 - j) as nat) == (hi * pow2((128 - j - 1) as nat)) * 2) by {
            lemma_mul_is_associative(hi as int, pow2((128 - j - 1) as nat) as int, 2);
        }
        assert(((lo as int / pow2(j) as int) + (hi * pow2((128 - j - 1) as nat)) as int * 2) % 2
            == (lo as int / pow2(j) as int) % 2) by {
            lemma_mod_multiples_vanish(
                (hi * pow2((128 - j - 1) as nat)) as int,
                lo as int / pow2(j) as int,
                2,
            );
        }
    } else {
        // first drop the low limb, then index into the high limb
        assert(nv as int / pow2(128) as int == hi as int) by {
            vstd::arithmetic::div_mod::lemma_hoist_over_denominator(
                lo as int,
                hi as int,
                pow2(128) as nat,
            );
            vstd::arithmetic::div_mod::lemma_basic_div(lo as int, pow2(128) as int);
        }
        lemma_pow2_adds(128, (j - 128) as nat);
        vstd::arithmetic::power2::lemma_pow2_pos((j - 128) as nat);
        assert(nv as int / pow2(j) as int == hi as int / pow2((j - 128) as nat) as int) by {
            vstd::arithmetic::div_mod::lemma_div_denominator(
                nv as int,
                pow2(128) as int,
                pow2((j - 128) as nat) as int,
            );
        }
    }
}

/// Powers of two grow with the exponent.
pub proof fn lemma_pow2_increases(a: nat, b: nat)
    requires
        a <= b,
    ensures
        pow2(a) <= pow2(b),
{
    vstd::arithmetic::power::lemma_pow_increases(2, a, b);
    vstd::arithmetic::power2::lemma_pow2(a);
    vstd::arithmetic::power2::lemma_pow2(b);
}

/// `pow2(255)` as a product of half-width literals.
pub proof fn lemma_pow2_255_value()
    ensures
        pow2(255) == pow2(128) * (pow2(64) * pow2(63)),
        pow2(128) == 0x1_0000_0000_0000_0000_0000_0000_0000_0000,
        pow2(64) == 0x1_0000_0000_0000_0000,
        pow2(63) == 0x8000_0000_0000_0000,
{
    lemma_pow2_64_value();
    lemma2_to64();
    lemma2_to64_rest();
    lemma_pow2_128_value();
    lemma_pow2_adds(64, 63);
    lemma_pow2_adds(128, 127);
}

/// `pow2(64)` as a literal.
pub proof fn lemma_pow2_64_value()
    ensures
        pow2(64) == 0x1_0000_0000_0000_0000,
{
    lemma2_to64();
    lemma2_to64_rest();
}

/// `pow2(128)` as a literal.
pub proof fn lemma_pow2_128_value()
    ensures
        pow2(128) == 0x1_0000_0000_0000_0000_0000_0000_0000_0000,
{
    lemma_pow2_64_value();
    lemma_pow2_adds(64, 64);
}

/// `pow2(192)` as the product of two half-width literals.
pub proof fn lemma_pow2_192_value()
    ensures
        pow2(192) == pow2(128) * pow2(64),
        pow2(128) == 0x1_0000_0000_0000_0000_0000_0000_0000_0000,
        pow2(64) == 0x1_0000_0000_0000_0000,
{
    lemma_pow2_64_value();
    lemma_pow2_128_value();
    lemma_pow2_adds(128, 64);
}

/// `pow2(256)` as the product of two half-width literals.
pub proof fn lemma_pow2_256_value()
    ensures
        pow2(256) == pow2(128) * pow2(128),
        pow2(128) == 0x1_0000_0000_0000_0000_0000_0000_0000_0000,
{
    lemma_pow2_128_value();
    lemma_pow2_adds(128, 128);
}

} // verus!
