//! Token-amount deltas and next-price formulas over Q64.64 square-root
//! prices.
//!
//! For liquidity `L` between square-root prices `l <= u` (Q64.64):
//! the token-A amount is `L * (u - l) * 2^64 / (l * u)` and the token-B
//! amount is `L * (u - l) / 2^64`, each with an explicit rounding direction.

use vstd::arithmetic::div_mod::{
    lemma_div_by_multiple, lemma_div_is_ordered, lemma_div_is_ordered_by_denominator,
    lemma_fundamental_div_mod, lemma_fundamental_div_mod_converse,
};
use vstd::arithmetic::mul::{
    lemma_mul_inequality, lemma_mul_is_commutative, lemma_mul_is_distributive_add_other_way,
    lemma_mul_upper_bound,
};
use vstd::arithmetic::power2::pow2;
use vstd::prelude::*;

use crate::errors::ErrorCode;
use crate::tick_math::{MAX_SQRT_PRICE_X64, MIN_SQRT_PRICE_X64};
use crate::u256::{
    lemma_pow2_128_value, lemma_pow2_255_value, lemma_pow2_64_value, lemma_pow2_increases,
    wide_mul_u128, U256, TWO_POW_64,
};

verus! {

/// Division rounding towards positive infinity (`0` when `d == 0`).
pub open spec fn div_round_up(n: nat, d: nat) -> nat {
    if d == 0 {
        0
    } else if n % d == 0 {
        n / d
    } else {
        n / d + 1
    }
}

/// The two prices in increasing order.
pub fn increasing_price_order(sqrt_price_0: u128, sqrt_price_1: u128) -> (r: (u128, u128))
    ensures
        r.0 == if sqrt_price_0 <= sqrt_price_1 {
            sqrt_price_0
        } else {
            sqrt_price_1
        },
        r.1 == if sqrt_price_0 <= sqrt_price_1 {
            sqrt_price_1
        } else {
            sqrt_price_0
        },
{
    if sqrt_price_0 <= sqrt_price_1 {
        (sqrt_price_0, sqrt_price_1)
    } else {
        (sqrt_price_1, sqrt_price_0)
    }
}

/// The exact token-A amount for liquidity `l` between the two prices,
/// rounded in the requested direction.
pub open spec fn amount_delta_a(sqrt_price_0: nat, sqrt_price_1: nat, liquidity: nat, round_up: bool) -> nat {
    let lo = if sqrt_price_0 <= sqrt_price_1 {
        sqrt_price_0
    } else {
        sqrt_price_1
    };
    let hi = if sqrt_price_0 <= sqrt_price_1 {
        sqrt_price_1
    } else {
        sqrt_price_0
    };
    let num = liquidity * ((hi - lo) as nat) * pow2(64);
    let den = lo * hi;
    if round_up {
        div_round_up(num, den)
    } else {
        if den == 0 {
            0
        } else {
            num / den
        }
    }
}

/// The exact token-B amount for liquidity `l` between the two prices,
/// rounded in the requested direction.
pub open spec fn amount_delta_b(sqrt_price_0: nat, sqrt_price_1: nat, liquidity: nat, round_up: bool) -> nat {
    let lo = if sqrt_price_0 <= sqrt_price_1 {
        sqrt_price_0
    } else {
        sqrt_price_1
    };
    let hi = if sqrt_price_0 <= sqrt_price_1 {
        sqrt_price_1
    } else {
        sqrt_price_0
    };
    let num = liquidity * ((hi - lo) as nat);
    if round_up {
        div_round_up(num, pow2(64))
    } else {
        num / pow2(64)
    }
}

/// Valid square-root prices multiply to a divisor the wide division accepts.
proof fn lemma_price_product_bounds(lo: nat, hi: nat)
    requires
        MIN_SQRT_PRICE_X64 <= lo <= MAX_SQRT_PRICE_X64,
        MIN_SQRT_PRICE_X64 <= hi <= MAX_SQRT_PRICE_X64,
    ensures
        pow2(64) <= lo * hi,
        lo * hi < pow2(255),
{
    lemma_pow2_64_value();
    lemma_pow2_255_value();
    assert(MIN_SQRT_PRICE_X64 as int * MIN_SQRT_PRICE_X64 as int <= lo * hi) by {
        lemma_mul_inequality(MIN_SQRT_PRICE_X64 as int, lo as int, MIN_SQRT_PRICE_X64 as int);
        lemma_mul_inequality(MIN_SQRT_PRICE_X64 as int, hi as int, lo as int);
    }
    assert(lo * hi <= MAX_SQRT_PRICE_X64 as int * MAX_SQRT_PRICE_X64 as int) by {
        lemma_mul_upper_bound(
            lo as int,
            MAX_SQRT_PRICE_X64 as int,
            hi as int,
            MAX_SQRT_PRICE_X64 as int,
        );
    }
}

/// Rounds a wide quotient up and narrows it to `u64`.
fn round_and_narrow_u64(q: U256, rem: &U256, round_up: bool) -> (r: Result<u64, ErrorCode>)
    requires
        q.as_nat() + 1 <= crate::u256::u256_max(),
    ensures
        ({
            let exact: nat = if round_up && rem.as_nat() != 0 {
                q.as_nat() + 1
            } else {
                q.as_nat()
            };
            (exact <= u64::MAX ==> r == Ok::<u64, ErrorCode>(exact as u64)) && (exact > u64::MAX
                ==> r == Err::<u64, ErrorCode>(ErrorCode::NumberCastError))
        }),
{
    let rem_is_zero = rem.hi == 0 && rem.lo == 0;
    let out = if round_up && !rem_is_zero {
        match q.checked_add(&U256::from_u128(1)) {
            Some(v) => v,
            None => {
                proof {
                    assert(false);
                }
                U256::zero()
            },
        }
    } else {
        q
    };
    out.try_into_u64()
}

/// Token-A amount between two prices: `L * (hi - lo) * 2^64 / (lo * hi)`.
pub fn get_amount_delta_a(
    sqrt_price_0: u128,
    sqrt_price_1: u128,
    liquidity: u128,
    round_up: bool,
) -> (r: Result<u64, ErrorCode>)
    requires
        MIN_SQRT_PRICE_X64 <= sqrt_price_0 <= MAX_SQRT_PRICE_X64,
        MIN_SQRT_PRICE_X64 <= sqrt_price_1 <= MAX_SQRT_PRICE_X64,
    ensures
        ({
            let exact = amount_delta_a(
                sqrt_price_0 as nat,
                sqrt_price_1 as nat,
                liquidity as nat,
                round_up,
            );
            (exact <= u64::MAX ==> r == Ok::<u64, ErrorCode>(exact as u64)) && (exact > u64::MAX
                ==> r == Err::<u64, ErrorCode>(ErrorCode::NumberCastError))
        }),
{
    let (lo, hi) = increasing_price_order(sqrt_price_0, sqrt_price_1);
    let diff = hi - lo;
    let n = wide_mul_u128(liquidity, diff);
    let d = wide_mul_u128(lo, hi);
    proof {
        lemma_price_product_bounds(lo as nat, hi as nat);
        lemma_pow2_64_value();
    }
    let (q, rem) = crate::u256::div_rem(&n, true, &d);
    proof {
        // q is at most L * diff, so one more still fits in 256 bits
        assert(q.as_nat() <= n.as_nat()) by {
            lemma_div_is_ordered_by_denominator(
                (n.as_nat() * pow2(64)) as int,
                pow2(64) as int,
                d.as_nat() as int,
            );
            lemma_mul_is_commutative(n.as_nat() as int, pow2(64) as int);
            lemma_div_by_multiple(n.as_nat() as int, pow2(64) as int);
            vstd::arithmetic::div_mod::lemma_div_is_ordered(
                (q.as_nat() * d.as_nat()) as int,
                (n.as_nat() * pow2(64)) as int,
                d.as_nat() as int,
            );
            lemma_div_by_multiple(q.as_nat() as int, d.as_nat() as int);
            lemma_mul_is_commutative(q.as_nat() as int, d.as_nat() as int);
        }
        crate::u256::lemma_pow2_256_value();
        assert(n.as_nat() < crate::u256::u256_max()) by {
            lemma_mul_upper_bound(
                liquidity as int,
                u128::MAX as int,
                diff as int,
                u128::MAX as int,
            );
        }
        // the division facts pin q and rem to the spec quotient
        lemma_fundamental_div_mod_converse(
            (n.as_nat() * pow2(64)) as int,
            d.as_nat() as int,
            q.as_nat() as int,
            rem.as_nat() as int,
        );
        assert(liquidity as nat * ((hi - lo) as nat) * pow2(64) == n.as_nat() * pow2(64));
    }
    round_and_narrow_u64(q, &rem, round_up)
}

/// Token-B amount between two prices: `L * (hi - lo) / 2^64`.
pub fn get_amount_delta_b(
    sqrt_price_0: u128,
    sqrt_price_1: u128,
    liquidity: u128,
    round_up: bool,
) -> (r: Result<u64, ErrorCode>)
    requires
        sqrt_price_0 <= MAX_SQRT_PRICE_X64,
        sqrt_price_1 <= MAX_SQRT_PRICE_X64,
    ensures
        ({
            let exact = amount_delta_b(
                sqrt_price_0 as nat,
                sqrt_price_1 as nat,
                liquidity as nat,
                round_up,
            );
            (exact <= u64::MAX ==> r == Ok::<u64, ErrorCode>(exact as u64)) && (exact > u64::MAX
                ==> r == Err::<u64, ErrorCode>(ErrorCode::NumberCastError))
        }),
{
    let (lo, hi) = increasing_price_order(sqrt_price_0, sqrt_price_1);
    let diff = hi - lo;
    let n = wide_mul_u128(liquidity, diff);
    let q = n.shr64();
    let rem_low = n.low64();
    let rem = U256::from_u128(rem_low as u128);
    proof {
        lemma_pow2_64_value();
        crate::u256::lemma_pow2_256_value();
        assert(q.as_nat() <= n.as_nat()) by {
            vstd::arithmetic::div_mod::lemma_div_nonincreasing(
                n.as_nat() as int,
                pow2(64) as int,
            );
            vstd::arithmetic::div_mod::lemma_div_pos_is_pos(n.as_nat() as int, pow2(64) as int);
        }
        assert(n.as_nat() < crate::u256::u256_max()) by {
            lemma_mul_upper_bound(
                liquidity as int,
                u128::MAX as int,
                diff as int,
                u128::MAX as int,
            );
        }
        assert(n.as_nat() % pow2(64) == 0 <==> rem.as_nat() == 0);
    }
    round_and_narrow_u64(q, &rem, round_up)
}

/// `floor(n0 * n1 / d)` with 256-bit intermediates; fails when the quotient
/// leaves `u128` or the divisor is zero.
pub fn checked_mul_div(n0: u128, n1: u128, d: u128) -> (r: Result<u128, ErrorCode>)
    ensures
        d == 0 ==> r == Err::<u128, ErrorCode>(ErrorCode::DivideByZero),
        d > 0 && (n0 as nat * n1 as nat) / (d as nat) > u128::MAX ==> r == Err::<u128, ErrorCode>(
            ErrorCode::MulDivOverflow,
        ),
        d > 0 && (n0 as nat * n1 as nat) / (d as nat) <= u128::MAX ==> r == Ok::<u128, ErrorCode>(
            ((n0 as nat * n1 as nat) / (d as nat)) as u128,
        ),
{
    if d == 0 {
        return Err(ErrorCode::DivideByZero);
    }
    let n = wide_mul_u128(n0, n1);
    let dw = U256::from_u128(d);
    proof {
        lemma_pow2_255_value();
        lemma_pow2_128_value();
        lemma_pow2_increases(128, 255);
    }
    let (q, rem) = crate::u256::div_rem(&n, false, &dw);
    proof {
        lemma_fundamental_div_mod_converse(
            n.as_nat() as int,
            d as int,
            q.as_nat() as int,
            rem.as_nat() as int,
        );
    }
    match q.try_into_u128() {
        Ok(v) => Ok(v),
        Err(_) => Err(ErrorCode::MulDivOverflow),
    }
}

/// `(n0 * n1) >> 64`, clipped to `u64::MAX` when it does not fit.
///
/// Used for settling growth deltas into owed token amounts, where an
/// overflow saturates rather than aborting.
pub fn mul_shift_right_clip_u64(n0: u128, n1: u128) -> (r: u64)
    ensures
        (n0 as nat * n1 as nat) / pow2(64) <= u64::MAX ==> r == (n0 as nat * n1 as nat) / pow2(64),
        (n0 as nat * n1 as nat) / pow2(64) > u64::MAX ==> r == u64::MAX,
{
    let n = wide_mul_u128(n0, n1);
    let q = n.shr64();
    if q.hi == 0 && q.lo <= u64::MAX as u128 {
        q.lo as u64
    } else {
        u64::MAX
    }
}

/// The next square-root price after trading `amount` of token A against
/// liquidity `l` at price `p`: `ceil(l * p * 2^64 / (l * 2^64 ± amount * p))`.
pub open spec fn next_sqrt_price_a(sqrt_price: nat, liquidity: nat, amount: nat, amount_specified_is_input: bool) -> nat {
    let num = liquidity * sqrt_price * pow2(64);
    let den: int = if amount_specified_is_input {
        (liquidity * pow2(64) + amount * sqrt_price) as int
    } else {
        liquidity * pow2(64) - amount * sqrt_price
    };
    if den <= 0 {
        0
    } else {
        div_round_up(num, den as nat)
    }
}

/// Next price after a token-A trade, rounding the price up (towards the
/// pre-trade price for an input, away from it for an output).
///
/// Fails with `DivideByZero` when an output of token A exhausts the curve,
/// and with `SqrtPriceOutOfBounds` when the next price leaves `u128`.
pub fn get_next_sqrt_price_from_a_round_up(
    sqrt_price: u128,
    liquidity: u128,
    amount: u64,
    amount_specified_is_input: bool,
) -> (r: Result<u128, ErrorCode>)
    requires
        1 <= liquidity,
        MIN_SQRT_PRICE_X64 <= sqrt_price <= MAX_SQRT_PRICE_X64,
    ensures
        amount == 0 ==> r == Ok::<u128, ErrorCode>(sqrt_price),
        ({
            let den: int = if amount_specified_is_input {
                liquidity * pow2(64) + amount * sqrt_price
            } else {
                liquidity * pow2(64) - amount * sqrt_price
            };
            let next = next_sqrt_price_a(
                sqrt_price as nat,
                liquidity as nat,
                amount as nat,
                amount_specified_is_input,
            );
            amount > 0 ==> ((den <= 0 ==> r == Err::<u128, ErrorCode>(ErrorCode::DivideByZero))
                && (den > 0 && next > u128::MAX ==> r == Err::<u128, ErrorCode>(
                ErrorCode::SqrtPriceOutOfBounds,
            )) && (den > 0 && next <= u128::MAX ==> r == Ok::<u128, ErrorCode>(next as u128)))
        }),
{
    if amount == 0 {
        return Ok(sqrt_price);
    }
    proof {
        lemma_pow2_64_value();
        crate::u256::lemma_pow2_256_value();
        lemma_pow2_255_value();
    }
    let product = wide_mul_u128(amount as u128, sqrt_price);
    let liquidity_shl = match U256::from_u128(liquidity).checked_shl64() {
        Some(v) => v,
        None => {
            proof {
                assert(liquidity as nat * pow2(64) <= u128::MAX as nat * pow2(64)) by {
                    lemma_mul_inequality(liquidity as int, u128::MAX as int, pow2(64) as int);
                }
                assert(false);
            }
            U256::zero()
        },
    };
    let den = if amount_specified_is_input {
        match liquidity_shl.checked_add(&product) {
            Some(v) => v,
            None => {
                proof {
                    assert(liquidity as nat * pow2(64) <= u128::MAX as nat * pow2(64)) by {
                        lemma_mul_inequality(liquidity as int, u128::MAX as int, pow2(64) as int);
                    }
                    assert(amount as nat * sqrt_price as nat <= u64::MAX as nat * u128::MAX
                        as nat) by {
                        lemma_mul_upper_bound(
                            amount as int,
                            u64::MAX as int,
                            sqrt_price as int,
                            u128::MAX as int,
                        );
                    }
                    assert(false);
                }
                U256::zero()
            },
        }
    } else {
        if product.ge(&liquidity_shl) {
            return Err(ErrorCode::DivideByZero);
        }
        liquidity_shl.sub(&product)
    };
    let num = wide_mul_u128(liquidity, sqrt_price);
    proof {
        assert(num.as_nat() < crate::u256::u256_max()) by {
            lemma_mul_upper_bound(
                liquidity as int,
                u128::MAX as int,
                sqrt_price as int,
                u128::MAX as int,
            );
        }
        assert(liquidity as nat * sqrt_price as nat * pow2(64) == num.as_nat() * pow2(64));
    }
    if den.hi == 0 && den.lo < TWO_POW_64 {
        // small divisor: divide, then push the remainder through the shift
        let (q1, r1) = crate::u256::div_rem(&num, false, &den);
        proof {
            lemma_small_divisor_shift(num.as_nat(), den.as_nat(), q1.as_nat(), r1.as_nat());
        }
        if q1.hi != 0 || q1.lo >= TWO_POW_64 {
            proof {
                assert(q1.as_nat() * pow2(64) >= pow2(64) * pow2(64)) by {
                    lemma_mul_inequality(pow2(64) as int, q1.as_nat() as int, pow2(64) as int);
                    lemma_mul_is_commutative(q1.as_nat() as int, pow2(64) as int);
                }
                // the full quotient is at least q1 * 2^64, so it leaves u128
                assert(num.as_nat() as int * pow2(64) as int >= (q1.as_nat() as int * pow2(
                    64,
                ) as int) * den.as_nat() as int) by (nonlinear_arith)
                    requires
                        num.as_nat() == q1.as_nat() * den.as_nat() + r1.as_nat(),
                        r1.as_nat() >= 0,
                        pow2(64) > 0,
                        den.as_nat() > 0,
                ;
                assert((num.as_nat() * pow2(64)) / den.as_nat() >= q1.as_nat() * pow2(64)) by {
                    lemma_div_is_ordered(
                        (q1.as_nat() * pow2(64)) as int * den.as_nat() as int,
                        num.as_nat() as int * pow2(64) as int,
                        den.as_nat() as int,
                    );
                    lemma_div_by_multiple((q1.as_nat() * pow2(64)) as int, den.as_nat() as int);
                }
                lemma_pow2_128_value();
            }
            return Err(ErrorCode::SqrtPriceOutOfBounds);
        }
        let rem_shift = r1.lo * TWO_POW_64;
        let q2 = rem_shift / den.lo;
        let r2 = rem_shift % den.lo;
        proof {
            assert(rem_shift < den.lo as nat * pow2(64)) by {
                lemma_mul_inequality(r1.lo as int + 1, den.lo as int, pow2(64) as int);
                lemma_mul_is_distributive_add_other_way(pow2(64) as int, r1.lo as int, 1);
            }
            assert(q2 < pow2(64)) by {
                vstd::arithmetic::div_mod::lemma_multiply_divide_lt(
                    rem_shift as int,
                    den.lo as int,
                    pow2(64) as int,
                );
            }
            assert(q1.lo as nat * pow2(64) <= (pow2(64) - 1) as nat * pow2(64)) by {
                lemma_mul_inequality(q1.lo as int, pow2(64) as int - 1, pow2(64) as int);
            }
        }
        let q = q1.lo * TWO_POW_64 + q2;
        proof {
            let dv = den.as_nat() as int;
            let q1v = q1.as_nat() as int;
            let r1v = r1.as_nat() as int;
            let nv = num.as_nat() as int;
            lemma_fundamental_div_mod(rem_shift as int, den.lo as int);
            assert(rem_shift == q2 as int * dv + r2) by {
                lemma_mul_is_commutative(dv, q2 as int);
            }
            // num * 2^64 recombines into q * den + r2
            assert(nv * 0x1_0000_0000_0000_0000 == (q1v * 0x1_0000_0000_0000_0000) * dv + r1v
                * 0x1_0000_0000_0000_0000) by (nonlinear_arith)
                requires
                    nv == q1v * dv + r1v,
            ;
            assert(r1v * 0x1_0000_0000_0000_0000 == rem_shift);
            assert((q1v * 0x1_0000_0000_0000_0000 + q2) * dv == (q1v * 0x1_0000_0000_0000_0000)
                * dv + q2 as int * dv) by {
                lemma_mul_is_distributive_add_other_way(
                    dv,
                    q1v * 0x1_0000_0000_0000_0000,
                    q2 as int,
                );
            }
            assert(nv * 0x1_0000_0000_0000_0000 == q as int * dv + r2);
            lemma_fundamental_div_mod_converse(
                nv * pow2(64) as int,
                dv,
                q as int,
                r2 as int,
            );
        }
        if r2 != 0 {
            if q == u128::MAX {
                return Err(ErrorCode::SqrtPriceOutOfBounds);
            }
            Ok(q + 1)
        } else {
            Ok(q)
        }
    } else {
        proof {
            assert(den.as_nat() < pow2(255)) by {
                assert(liquidity as nat * pow2(64) <= u128::MAX as nat * pow2(64)) by {
                    lemma_mul_inequality(liquidity as int, u128::MAX as int, pow2(64) as int);
                }
                assert(amount as nat * sqrt_price as nat <= u64::MAX as nat * u128::MAX as nat) by {
                    lemma_mul_upper_bound(
                        amount as int,
                        u64::MAX as int,
                        sqrt_price as int,
                        u128::MAX as int,
                    );
                }
            }
            lemma_pow2_128_value();
        }
        let (q, rem) = crate::u256::div_rem(&num, true, &den);
        proof {
            lemma_fundamental_div_mod_converse(
                num.as_nat() as int * pow2(64) as int,
                den.as_nat() as int,
                q.as_nat() as int,
                rem.as_nat() as int,
            );
        }
        let q128 = match q.try_into_u128() {
            Ok(v) => v,
            Err(_) => {
                return Err(ErrorCode::SqrtPriceOutOfBounds);
            },
        };
        if rem.hi != 0 || rem.lo != 0 {
            if q128 == u128::MAX {
                return Err(ErrorCode::SqrtPriceOutOfBounds);
            }
            Ok(q128 + 1)
        } else {
            Ok(q128)
        }
    }
}

/// Splitting a division by a small divisor around a 64-bit shift keeps the
/// remainder small enough for plain 128-bit arithmetic.
proof fn lemma_small_divisor_shift(n: nat, d: nat, q1: nat, r1: nat)
    requires
        1 <= d < pow2(64),
        n == q1 * d + r1,
        r1 < d,
    ensures
        r1 * pow2(64) < pow2(128),
        q1 * pow2(64) + pow2(64) <= crate::u256::u256_max() || q1 >= pow2(64),
{
    lemma_pow2_64_value();
    lemma_pow2_128_value();
    crate::u256::lemma_pow2_256_value();
    assert(r1 * pow2(64) < pow2(64) * pow2(64)) by {
        lemma_mul_inequality(r1 as int + 1, pow2(64) as int, pow2(64) as int);
        vstd::arithmetic::mul::lemma_mul_is_distributive_add_other_way(
            pow2(64) as int,
            r1 as int,
            1,
        );
    }
    if q1 < pow2(64) {
        assert(q1 * pow2(64) <= (pow2(64) - 1) * pow2(64)) by {
            lemma_mul_inequality(q1 as int, pow2(64) as int - 1, pow2(64) as int);
        }
    }
}

/// The next square-root price after trading `amount` of token B against
/// liquidity `l` at price `p`: `p ± amount * 2^64 / l`, the delta rounded
/// down for an input and up for an output.
pub open spec fn next_sqrt_price_b(sqrt_price: nat, liquidity: nat, amount: nat, amount_specified_is_input: bool) -> int {
    if amount_specified_is_input {
        (sqrt_price + (amount * pow2(64)) / liquidity) as int
    } else {
        sqrt_price - div_round_up(amount * pow2(64), liquidity)
    }
}

/// Next price after a token-B trade, rounding the price down.
///
/// Fails with `SqrtPriceOutOfBounds` when the next price leaves `u128` or
/// falls to zero or below.
pub fn get_next_sqrt_price_from_b_round_down(
    sqrt_price: u128,
    liquidity: u128,
    amount: u64,
    amount_specified_is_input: bool,
) -> (r: Result<u128, ErrorCode>)
    requires
        1 <= liquidity,
    ensures
        ({
            let next = next_sqrt_price_b(
                sqrt_price as nat,
                liquidity as nat,
                amount as nat,
                amount_specified_is_input,
            );
            ((0 < next <= u128::MAX) ==> r == Ok::<u128, ErrorCode>(next as u128)) && (!(0 < next
                <= u128::MAX) ==> r == Err::<u128, ErrorCode>(ErrorCode::SqrtPriceOutOfBounds))
        }),
{
    proof {
        lemma_pow2_64_value();
    }
    let amount_x64_lo = (amount as u128) * TWO_POW_64;
    if amount_specified_is_input {
        let delta = amount_x64_lo / liquidity;
        match sqrt_price.checked_add(delta) {
            Some(v) => {
                if v == 0 {
                    Err(ErrorCode::SqrtPriceOutOfBounds)
                } else {
                    Ok(v)
                }
            },
            None => Err(ErrorCode::SqrtPriceOutOfBounds),
        }
    } else {
        let q = amount_x64_lo / liquidity;
        let rem = amount_x64_lo % liquidity;
        let delta = if rem != 0 {
            q + 1
        } else {
            q
        };
        if delta >= sqrt_price {
            Err(ErrorCode::SqrtPriceOutOfBounds)
        } else {
            Ok(sqrt_price - delta)
        }
    }
}

} // verus!
