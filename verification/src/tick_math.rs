//! Conversion between tick indices and Q64.64 square-root prices.
//!
//! A tick `t` stands for the price `1.0001^t`; its square-root price is
//! `1.0001^(t/2)` in Q64.64. The fixed-point value is computed by a chain of
//! per-bit constant multiplications, mirrored exactly by
//! [`sqrt_price_from_tick_spec`]; the inverse direction is a binary search
//! over that same chain, so the bracketing contract holds by construction.

use vstd::arithmetic::div_mod::{lemma_div_by_multiple, lemma_div_is_ordered};
use vstd::arithmetic::mul::{lemma_mul_inequality, lemma_mul_upper_bound};
use vstd::arithmetic::power2::{lemma_pow2_adds, pow2};
use vstd::prelude::*;

use crate::u256::TWO_POW_64;

verus! {

/// The smallest tick the engine accepts.
pub const MIN_TICK_INDEX: i32 = -443636;

/// The largest tick the engine accepts.
pub const MAX_TICK_INDEX: i32 = 443636;

/// `sqrt_price_from_tick_spec(MIN_TICK_INDEX)`.
pub const MIN_SQRT_PRICE_X64: u128 = 4295048016;

/// `sqrt_price_from_tick_spec(MAX_TICK_INDEX)`.
pub const MAX_SQRT_PRICE_X64: u128 = 79226673521066979257578248091;

/// Sentinel: the caller supplied no explicit price limit.
pub const NO_EXPLICIT_SQRT_PRICE_LIMIT: u128 = 0;

/// Q64.64 fractional resolution.
pub const Q64_RESOLUTION: u32 = 64;

/// `floor(2^64 / 1.0001^(2^(k-1)))`: the Q64.64 multiplier for bit `k` of a
/// negative tick's magnitude.
pub open spec fn tick_factor(k: nat) -> nat {
    if k == 0 {
        0xfffcb933bd6fad37
    } else if k == 1 {
        0xfff97272373d4132
    } else if k == 2 {
        0xfff2e50f5f656932
    } else if k == 3 {
        0xffe5caca7e10e4e6
    } else if k == 4 {
        0xffcb9843d60f6159
    } else if k == 5 {
        0xff973b41fa98c081
    } else if k == 6 {
        0xff2ea16466c96a38
    } else if k == 7 {
        0xfe5dee046a99a2a8
    } else if k == 8 {
        0xfcbe86c7900a88ae
    } else if k == 9 {
        0xf987a7253ac41317
    } else if k == 10 {
        0xf3392b0822b70005
    } else if k == 11 {
        0xe7159475a2c29b74
    } else if k == 12 {
        0xd097f3bdfd2022b8
    } else if k == 13 {
        0xa9f746462d870fdf
    } else if k == 14 {
        0x70d869a156d2a1b8
    } else if k == 15 {
        0x31be135f97d08fd9
    } else if k == 16 {
        0x9aa508b5b7a84e1
    } else if k == 17 {
        0x5d6af8dedb8119
    } else if k == 18 {
        0x2216e584f5fa
    } else {
        0
    }
}

/// The Q64.64 ratio `2^64 * 1.0001^(-m/2)` after folding in bits `[0, k)` of
/// the magnitude `m`.
pub open spec fn neg_tick_ratio(m: nat, k: nat) -> nat
    decreases k,
{
    if k == 0 {
        0x1_0000_0000_0000_0000
    } else {
        let prev = neg_tick_ratio(m, (k - 1) as nat);
        if (m / pow2((k - 1) as nat)) % 2 == 1 {
            (prev * tick_factor((k - 1) as nat)) / 0x1_0000_0000_0000_0000
        } else {
            prev
        }
    }
}

/// The Q64.64 square-root price of tick `t`: `2^64 * 1.0001^(t/2)`, rounded
/// by the per-bit multiplication chain.
pub open spec fn sqrt_price_from_tick_spec(t: int) -> nat {
    let m: nat = if t < 0 {
        (-t) as nat
    } else {
        t as nat
    };
    let r = neg_tick_ratio(m, 19);
    if t > 0 {
        if r == 0 {
            0xffff_ffff_ffff_ffff_ffff_ffff_ffff_ffff
        } else {
            0xffff_ffff_ffff_ffff_ffff_ffff_ffff_ffff as nat / r
        }
    } else {
        r
    }
}

proof fn lemma_neg_tick_ratio_bound(m: nat, k: nat)
    ensures
        neg_tick_ratio(m, k) <= 0x1_0000_0000_0000_0000,
    decreases k,
{
    if k > 0 {
        lemma_neg_tick_ratio_bound(m, (k - 1) as nat);
        let prev = neg_tick_ratio(m, (k - 1) as nat);
        let f = tick_factor((k - 1) as nat);
        if (m / pow2((k - 1) as nat)) % 2 == 1 {
            assert(prev as int * f as int <= 0x1_0000_0000_0000_0000 * 0xfffcb933bd6fad37) by {
                lemma_mul_upper_bound(
                    prev as int,
                    0x1_0000_0000_0000_0000,
                    f as int,
                    0xfffcb933bd6fad37,
                );
            }
            lemma_div_is_ordered(
                (prev * f) as int,
                0x1_0000_0000_0000_0000int * 0xfffcb933bd6fad37,
                0x1_0000_0000_0000_0000,
            );
        }
    }
}

fn tick_factor_exec(k: u32) -> (r: u128)
    requires
        k < 19,
    ensures
        r == tick_factor(k as nat),
        r < TWO_POW_64,
{
    if k == 0 {
        0xfffcb933bd6fad37
    } else if k == 1 {
        0xfff97272373d4132
    } else if k == 2 {
        0xfff2e50f5f656932
    } else if k == 3 {
        0xffe5caca7e10e4e6
    } else if k == 4 {
        0xffcb9843d60f6159
    } else if k == 5 {
        0xff973b41fa98c081
    } else if k == 6 {
        0xff2ea16466c96a38
    } else if k == 7 {
        0xfe5dee046a99a2a8
    } else if k == 8 {
        0xfcbe86c7900a88ae
    } else if k == 9 {
        0xf987a7253ac41317
    } else if k == 10 {
        0xf3392b0822b70005
    } else if k == 11 {
        0xe7159475a2c29b74
    } else if k == 12 {
        0xd097f3bdfd2022b8
    } else if k == 13 {
        0xa9f746462d870fdf
    } else if k == 14 {
        0x70d869a156d2a1b8
    } else if k == 15 {
        0x31be135f97d08fd9
    } else if k == 16 {
        0x9aa508b5b7a84e1
    } else if k == 17 {
        0x5d6af8dedb8119
    } else {
        0x2216e584f5fa
    }
}

/// Returns `2^64 * 1.0001^(t/2)` in Q64.64.
pub fn sqrt_price_from_tick_index(tick_index: i32) -> (r: u128)
    requires
        MIN_TICK_INDEX <= tick_index <= MAX_TICK_INDEX,
    ensures
        r == sqrt_price_from_tick_spec(tick_index as int),
{
    let m: u32 = if tick_index < 0 {
        (-tick_index) as u32
    } else {
        tick_index as u32
    };
    let mut r: u128 = TWO_POW_64;
    let mut mask: u32 = 1;
    let mut k: u32 = 0;
    proof {
        vstd::arithmetic::power2::lemma2_to64();
    }
    while k < 19
        invariant
            k <= 19,
            m < 0x80000,
            mask == pow2(k as nat),
            1 <= mask <= 0x80000,
            r == neg_tick_ratio(m as nat, k as nat),
            r <= TWO_POW_64,
        decreases 19 - k,
    {
        if (m / mask) % 2 == 1 {
            let f = tick_factor_exec(k);
            proof {
                lemma_mul_upper_bound(
                    r as int,
                    0x1_0000_0000_0000_0000,
                    f as int,
                    0xffff_ffff_ffff_ffff,
                );
                assert((r * f) / 0x1_0000_0000_0000_0000 <= (0x1_0000_0000_0000_0000 * f as int)
                    / 0x1_0000_0000_0000_0000) by {
                    lemma_mul_inequality(r as int, 0x1_0000_0000_0000_0000, f as int);
                    lemma_div_is_ordered(
                        (r * f) as int,
                        0x1_0000_0000_0000_0000 * f as int,
                        0x1_0000_0000_0000_0000,
                    );
                }
                assert((0x1_0000_0000_0000_0000 * f as int) / 0x1_0000_0000_0000_0000
                    == f as int) by {
                    lemma_div_by_multiple(f as int, 0x1_0000_0000_0000_0000);
                    vstd::arithmetic::mul::lemma_mul_is_commutative(
                        f as int,
                        0x1_0000_0000_0000_0000,
                    );
                }
            }
            r = (r * f) / TWO_POW_64;
        }
        proof {
            lemma_pow2_adds(k as nat, 1);
            vstd::arithmetic::power2::lemma2_to64();
        }
        k = k + 1;
        mask = mask * 2;
    }
    if tick_index > 0 {
        if r == 0 {
            u128::MAX
        } else {
            u128::MAX / r
        }
    } else {
        r
    }
}

#[verifier::rlimit(100)]
/// The ratio chain evaluated at the full tick-range magnitude.
proof fn lemma_ratio_at_range_magnitude()
    ensures
        neg_tick_ratio(443636, 19) == 4295048016,
{
    vstd::arithmetic::power2::lemma2_to64();
    assert(neg_tick_ratio(443636, 0) == 18446744073709551616);
    assert((443636nat / pow2(0)) % 2 == 0);
    assert(neg_tick_ratio(443636, 1) == 18446744073709551616);
    assert((443636nat / pow2(1)) % 2 == 0);
    assert(neg_tick_ratio(443636, 2) == 18446744073709551616);
    assert((443636nat / pow2(2)) % 2 == 1);
    assert((18446744073709551616nat * 18443055278223354162) / 0x1_0000_0000_0000_0000 == 18443055278223354162);
    assert(neg_tick_ratio(443636, 3) == 18443055278223354162);
    assert((443636nat / pow2(3)) % 2 == 0);
    assert(neg_tick_ratio(443636, 4) == 18443055278223354162);
    assert((443636nat / pow2(4)) % 2 == 1);
    assert((18443055278223354162nat * 18431993317065449817) / 0x1_0000_0000_0000_0000 == 18428307471288117479);
    assert(neg_tick_ratio(443636, 5) == 18428307471288117479);
    assert((443636nat / pow2(5)) % 2 == 1);
    assert((18428307471288117479nat * 18417254355718160513) / 0x1_0000_0000_0000_0000 == 18398847226801858501);
    assert(neg_tick_ratio(443636, 6) == 18398847226801858501);
    assert((443636nat / pow2(6)) % 2 == 1);
    assert((18398847226801858501nat * 18387811781193591352) / 0x1_0000_0000_0000_0000 == 18340067951587015306);
    assert(neg_tick_ratio(443636, 7) == 18340067951587015306);
    assert((443636nat / pow2(7)) % 2 == 1);
    assert((18340067951587015306nat * 18329067761203520168) / 0x1_0000_0000_0000_0000 == 18223072152272561885);
    assert(neg_tick_ratio(443636, 8) == 18223072152272561885);
    assert((443636nat / pow2(8)) % 2 == 0);
    assert(neg_tick_ratio(443636, 9) == 18223072152272561885);
    assert((443636nat / pow2(9)) % 2 == 0);
    assert(neg_tick_ratio(443636, 10) == 18223072152272561885);
    assert((443636nat / pow2(10)) % 2 == 1);
    assert((18223072152272561885nat * 17526086738831147013) / 0x1_0000_0000_0000_0000 == 17313578044587773368);
    assert(neg_tick_ratio(443636, 11) == 17313578044587773368);
    assert((443636nat / pow2(11)) % 2 == 0);
    assert(neg_tick_ratio(443636, 12) == 17313578044587773368);
    assert((443636nat / pow2(12)) % 2 == 0);
    assert(neg_tick_ratio(443636, 13) == 17313578044587773368);
    assert((443636nat / pow2(13)) % 2 == 0);
    assert(neg_tick_ratio(443636, 14) == 17313578044587773368);
    assert((443636nat / pow2(14)) % 2 == 1);
    assert((17313578044587773368nat * 8131365268884726200) / 0x1_0000_0000_0000_0000 == 7631863196526440527);
    assert(neg_tick_ratio(443636, 15) == 7631863196526440527);
    assert((443636nat / pow2(15)) % 2 == 1);
    assert((7631863196526440527nat * 3584323654723342297) / 0x1_0000_0000_0000_0000 == 1482921196045045371);
    assert(neg_tick_ratio(443636, 16) == 1482921196045045371);
    assert((443636nat / pow2(16)) % 2 == 0);
    assert(neg_tick_ratio(443636, 17) == 1482921196045045371);
    assert((443636nat / pow2(17)) % 2 == 1);
    assert((1482921196045045371nat * 26294789957452057) / 0x1_0000_0000_0000_0000 == 2113820261052536);
    assert(neg_tick_ratio(443636, 18) == 2113820261052536);
    assert((443636nat / pow2(18)) % 2 == 1);
    assert((2113820261052536nat * 37481735321082) / 0x1_0000_0000_0000_0000 == 4295048016);
    assert(neg_tick_ratio(443636, 19) == 4295048016);
}

#[verifier::rlimit(100)]
proof fn lemma_sqrt_price_at_min_tick()
    ensures
        sqrt_price_from_tick_spec(MIN_TICK_INDEX as int) == MIN_SQRT_PRICE_X64,
{
    lemma_ratio_at_range_magnitude();
}


#[verifier::rlimit(100)]
proof fn lemma_sqrt_price_at_max_tick()
    ensures
        sqrt_price_from_tick_spec(MAX_TICK_INDEX as int) == MAX_SQRT_PRICE_X64,
{
    lemma_ratio_at_range_magnitude();
    vstd::arithmetic::power2::lemma2_to64();
}


#[verifier::rlimit(100)]
proof fn lemma_sqrt_price_past_max_tick()
    ensures
        sqrt_price_from_tick_spec(MAX_TICK_INDEX as int + 1) > MAX_SQRT_PRICE_X64,
{
    vstd::arithmetic::power2::lemma2_to64();
    assert(neg_tick_ratio(443637, 0) == 18446744073709551616);
    assert((443637nat / pow2(0)) % 2 == 1);
    assert((18446744073709551616nat * 18445821805675392311) / 0x1_0000_0000_0000_0000 == 18445821805675392311);
    assert(neg_tick_ratio(443637, 1) == 18445821805675392311);
    assert((443637nat / pow2(1)) % 2 == 0);
    assert(neg_tick_ratio(443637, 2) == 18445821805675392311);
    assert((443637nat / pow2(2)) % 2 == 1);
    assert((18445821805675392311nat * 18443055278223354162) / 0x1_0000_0000_0000_0000 == 18442133194615137336);
    assert(neg_tick_ratio(443637, 3) == 18442133194615137336);
    assert((443637nat / pow2(3)) % 2 == 0);
    assert(neg_tick_ratio(443637, 4) == 18442133194615137336);
    assert((443637nat / pow2(4)) % 2 == 1);
    assert((18442133194615137336nat * 18431993317065449817) / 0x1_0000_0000_0000_0000 == 18427386125014947747);
    assert(neg_tick_ratio(443637, 5) == 18427386125014947747);
    assert((443637nat / pow2(5)) % 2 == 1);
    assert((18427386125014947747nat * 18417254355718160513) / 0x1_0000_0000_0000_0000 == 18397927353430446371);
    assert(neg_tick_ratio(443637, 6) == 18397927353430446371);
    assert((443637nat / pow2(6)) % 2 == 1);
    assert((18397927353430446371nat * 18387811781193591352) / 0x1_0000_0000_0000_0000 == 18339151016958960003);
    assert(neg_tick_ratio(443637, 7) == 18339151016958960003);
    assert((443637nat / pow2(7)) % 2 == 1);
    assert((18339151016958960003nat * 18329067761203520168) / 0x1_0000_0000_0000_0000 == 18222161066995774616);
    assert(neg_tick_ratio(443637, 8) == 18222161066995774616);
    assert((443637nat / pow2(8)) % 2 == 0);
    assert(neg_tick_ratio(443637, 9) == 18222161066995774616);
    assert((443637nat / pow2(9)) % 2 == 0);
    assert(neg_tick_ratio(443637, 10) == 18222161066995774616);
    assert((443637nat / pow2(10)) % 2 == 1);
    assert((18222161066995774616nat * 17526086738831147013) / 0x1_0000_0000_0000_0000 == 17312712430606051627);
    assert(neg_tick_ratio(443637, 11) == 17312712430606051627);
    assert((443637nat / pow2(11)) % 2 == 0);
    assert(neg_tick_ratio(443637, 12) == 17312712430606051627);
    assert((443637nat / pow2(12)) % 2 == 0);
    assert(neg_tick_ratio(443637, 13) == 17312712430606051627);
    assert((443637nat / pow2(13)) % 2 == 0);
    assert(neg_tick_ratio(443637, 14) == 17312712430606051627);
    assert((443637nat / pow2(14)) % 2 == 1);
    assert((17312712430606051627nat * 8131365268884726200) / 0x1_0000_0000_0000_0000 == 7631481631983716444);
    assert(neg_tick_ratio(443637, 15) == 7631481631983716444);
    assert((443637nat / pow2(15)) % 2 == 1);
    assert((7631481631983716444nat * 3584323654723342297) / 0x1_0000_0000_0000_0000 == 1482847055545734231);
    assert(neg_tick_ratio(443637, 16) == 1482847055545734231);
    assert((443637nat / pow2(16)) % 2 == 0);
    assert(neg_tick_ratio(443637, 17) == 1482847055545734231);
    assert((443637nat / pow2(17)) % 2 == 1);
    assert((1482847055545734231nat * 26294789957452057) / 0x1_0000_0000_0000_0000 == 2113714577965649);
    assert(neg_tick_ratio(443637, 18) == 2113714577965649);
    assert((443637nat / pow2(18)) % 2 == 1);
    assert((2113714577965649nat * 37481735321082) / 0x1_0000_0000_0000_0000 == 4294833280);
    assert(neg_tick_ratio(443637, 19) == 4294833280);
    assert(0xffff_ffff_ffff_ffff_ffff_ffff_ffff_ffff as nat / 4294833280 == 79230634750259377580164091359);
}


/// The values of the multiplication chain at the ends of the tick range.
pub proof fn lemma_sqrt_price_edge_values()
    ensures
        sqrt_price_from_tick_spec(MIN_TICK_INDEX as int) == MIN_SQRT_PRICE_X64,
        sqrt_price_from_tick_spec(MAX_TICK_INDEX as int) == MAX_SQRT_PRICE_X64,
        sqrt_price_from_tick_spec(MAX_TICK_INDEX as int + 1) > MAX_SQRT_PRICE_X64,
{
    lemma_sqrt_price_at_min_tick();
    lemma_sqrt_price_at_max_tick();
    lemma_sqrt_price_past_max_tick();
}

/// The inverse conversion: the unique tick whose square-root price bounds
/// `sqrt_price_x64` from below.
pub fn tick_index_from_sqrt_price(sqrt_price_x64: &u128) -> (r: i32)
    requires
        MIN_SQRT_PRICE_X64 <= *sqrt_price_x64 <= MAX_SQRT_PRICE_X64,
    ensures
        MIN_TICK_INDEX <= r <= MAX_TICK_INDEX,
        sqrt_price_from_tick_spec(r as int) <= *sqrt_price_x64,
        *sqrt_price_x64 < sqrt_price_from_tick_spec(r as int + 1),
{
    proof {
        lemma_sqrt_price_edge_values();
    }
    let p = *sqrt_price_x64;
    let mut lo: i32 = MIN_TICK_INDEX;
    let mut hi: i32 = MAX_TICK_INDEX + 1;
    while lo + 1 < hi
        invariant
            MIN_TICK_INDEX <= lo < hi <= MAX_TICK_INDEX + 1,
            sqrt_price_from_tick_spec(lo as int) <= p,
            p < sqrt_price_from_tick_spec(hi as int),
        decreases hi - lo,
    {
        let mid: i32 = lo + (hi - lo) / 2;
        let s = sqrt_price_from_tick_index(mid);
        if s <= p {
            lo = mid;
        } else {
            hi = mid;
        }
    }
    lo
}

/// A tick magnitude below 2^16 keeps the ratio chain above a fixed floor,
/// because every multiplier shrinks the running value and only the first
/// sixteen can apply.
#[verifier::rlimit(100)]
pub proof fn lemma_neg_ratio_lower_u16(m: nat)
    requires
        m <= 0xffff,
    ensures
        neg_tick_ratio(m, 19) >= 696492473859659073,
{
    vstd::arithmetic::power2::lemma2_to64();
    reveal_with_fuel(neg_tick_ratio, 2);
    assert(neg_tick_ratio(m, 0) >= 0x1_0000_0000_0000_0000);
    assert(neg_tick_ratio(m, 1) >= 18445821805675392311) by {
        if (m / pow2(0)) % 2 == 1 {
            lemma_mul_inequality(18446744073709551616, neg_tick_ratio(m, 0) as int, 18445821805675392311);
            lemma_div_is_ordered(
                18446744073709551616int * 18445821805675392311,
                neg_tick_ratio(m, 0) as int * 18445821805675392311,
                0x1_0000_0000_0000_0000,
            );
            assert((18446744073709551616int * 18445821805675392311) / 0x1_0000_0000_0000_0000 == 18445821805675392311);
        }
    }
    assert(neg_tick_ratio(m, 2) >= 18443977407934598850) by {
        if (m / pow2(1)) % 2 == 1 {
            lemma_mul_inequality(18445821805675392311, neg_tick_ratio(m, 1) as int, 18444899583751176498);
            lemma_div_is_ordered(
                18445821805675392311int * 18444899583751176498,
                neg_tick_ratio(m, 1) as int * 18444899583751176498,
                0x1_0000_0000_0000_0000,
            );
            assert((18445821805675392311int * 18444899583751176498) / 0x1_0000_0000_0000_0000 == 18443977407934598850);
        }
    }
    assert(neg_tick_ratio(m, 3) >= 18440289165698567478) by {
        if (m / pow2(2)) % 2 == 1 {
            lemma_mul_inequality(18443977407934598850, neg_tick_ratio(m, 2) as int, 18443055278223354162);
            lemma_div_is_ordered(
                18443977407934598850int * 18443055278223354162,
                neg_tick_ratio(m, 2) as int * 18443055278223354162,
                0x1_0000_0000_0000_0000,
            );
            assert((18443977407934598850int * 18443055278223354162) / 0x1_0000_0000_0000_0000 == 18440289165698567478);
        }
    }
    assert(neg_tick_ratio(m, 4) >= 18432914893692463368) by {
        if (m / pow2(3)) % 2 == 1 {
            lemma_mul_inequality(18440289165698567478, neg_tick_ratio(m, 3) as int, 18439367220385604838);
            lemma_div_is_ordered(
                18440289165698567478int * 18439367220385604838,
                neg_tick_ratio(m, 3) as int * 18439367220385604838,
                0x1_0000_0000_0000_0000,
            );
            assert((18440289165698567478int * 18439367220385604838) / 0x1_0000_0000_0000_0000 == 18432914893692463368);
        }
    }
    assert(neg_tick_ratio(m, 5) >= 18418175195415529478) by {
        if (m / pow2(4)) % 2 == 1 {
            lemma_mul_inequality(18432914893692463368, neg_tick_ratio(m, 4) as int, 18431993317065449817);
            lemma_div_is_ordered(
                18432914893692463368int * 18431993317065449817,
                neg_tick_ratio(m, 4) as int * 18431993317065449817,
                0x1_0000_0000_0000_0000,
            );
            assert((18432914893692463368int * 18431993317065449817) / 0x1_0000_0000_0000_0000 == 18418175195415529478);
        }
    }
    assert(neg_tick_ratio(m, 6) >= 18388731148799035466) by {
        if (m / pow2(5)) % 2 == 1 {
            lemma_mul_inequality(18418175195415529478, neg_tick_ratio(m, 5) as int, 18417254355718160513);
            lemma_div_is_ordered(
                18418175195415529478int * 18417254355718160513,
                neg_tick_ratio(m, 5) as int * 18417254355718160513,
                0x1_0000_0000_0000_0000,
            );
            assert((18418175195415529478int * 18417254355718160513) / 0x1_0000_0000_0000_0000 == 18388731148799035466);
        }
    }
    assert(neg_tick_ratio(m, 7) >= 18329984191681391131) by {
        if (m / pow2(6)) % 2 == 1 {
            lemma_mul_inequality(18388731148799035466, neg_tick_ratio(m, 6) as int, 18387811781193591352);
            lemma_div_is_ordered(
                18388731148799035466int * 18387811781193591352,
                neg_tick_ratio(m, 6) as int * 18387811781193591352,
                0x1_0000_0000_0000_0000,
            );
            assert((18388731148799035466int * 18387811781193591352) / 0x1_0000_0000_0000_0000 == 18329984191681391131);
        }
    }
    assert(neg_tick_ratio(m, 8) >= 18213052719148788671) by {
        if (m / pow2(7)) % 2 == 1 {
            lemma_mul_inequality(18329984191681391131, neg_tick_ratio(m, 7) as int, 18329067761203520168);
            lemma_div_is_ordered(
                18329984191681391131int * 18329067761203520168,
                neg_tick_ratio(m, 7) as int * 18329067761203520168,
                0x1_0000_0000_0000_0000,
            );
            assert((18329984191681391131int * 18329067761203520168) / 0x1_0000_0000_0000_0000 == 18213052719148788671);
        }
    }
    assert(neg_tick_ratio(m, 9) >= 17981422819357802651) by {
        if (m / pow2(8)) % 2 == 1 {
            lemma_mul_inequality(18213052719148788671, neg_tick_ratio(m, 8) as int, 18212142134806087854);
            lemma_div_is_ordered(
                18213052719148788671int * 18212142134806087854,
                neg_tick_ratio(m, 8) as int * 18212142134806087854,
                0x1_0000_0000_0000_0000,
            );
            assert((18213052719148788671int * 18212142134806087854) / 0x1_0000_0000_0000_0000 == 17981422819357802651);
        }
    }
    assert(neg_tick_ratio(m, 10) >= 17526963021261575450) by {
        if (m / pow2(9)) % 2 == 1 {
            lemma_mul_inequality(17981422819357802651, neg_tick_ratio(m, 9) as int, 17980523815641551639);
            lemma_div_is_ordered(
                17981422819357802651int * 17980523815641551639,
                neg_tick_ratio(m, 9) as int * 17980523815641551639,
                0x1_0000_0000_0000_0000,
            );
            assert((17981422819357802651int * 17980523815641551639) / 0x1_0000_0000_0000_0000 == 17526963021261575450);
        }
    }
    assert(neg_tick_ratio(m, 11) >= 16652210978343353594) by {
        if (m / pow2(10)) % 2 == 1 {
            lemma_mul_inequality(17526963021261575450, neg_tick_ratio(m, 10) as int, 17526086738831147013);
            lemma_div_is_ordered(
                17526963021261575450int * 17526086738831147013,
                neg_tick_ratio(m, 10) as int * 17526086738831147013,
                0x1_0000_0000_0000_0000,
            );
            assert((17526963021261575450int * 17526086738831147013) / 0x1_0000_0000_0000_0000 == 16652210978343353594);
        }
    }
    assert(neg_tick_ratio(m, 12) >= 15031501797419866121) by {
        if (m / pow2(11)) % 2 == 1 {
            lemma_mul_inequality(16652210978343353594, neg_tick_ratio(m, 11) as int, 16651378430235024244);
            lemma_div_is_ordered(
                16652210978343353594int * 16651378430235024244,
                neg_tick_ratio(m, 11) as int * 16651378430235024244,
                0x1_0000_0000_0000_0000,
            );
            assert((16652210978343353594int * 16651378430235024244) / 0x1_0000_0000_0000_0000 == 15031501797419866121);
        }
    }
    assert(neg_tick_ratio(m, 13) >= 12247947330323375219) by {
        if (m / pow2(12)) % 2 == 1 {
            lemma_mul_inequality(15031501797419866121, neg_tick_ratio(m, 12) as int, 15030750278693429944);
            lemma_div_is_ordered(
                15031501797419866121int * 15030750278693429944,
                neg_tick_ratio(m, 12) as int * 15030750278693429944,
                0x1_0000_0000_0000_0000,
            );
            assert((15031501797419866121int * 15030750278693429944) / 0x1_0000_0000_0000_0000 == 12247947330323375219);
        }
    }
    assert(neg_tick_ratio(m, 14) >= 8131771826984472022) by {
        if (m / pow2(13)) % 2 == 1 {
            lemma_mul_inequality(12247947330323375219, neg_tick_ratio(m, 13) as int, 12247334978882834399);
            lemma_div_is_ordered(
                12247947330323375219int * 12247334978882834399,
                neg_tick_ratio(m, 13) as int * 12247334978882834399,
                0x1_0000_0000_0000_0000,
            );
            assert((12247947330323375219int * 12247334978882834399) / 0x1_0000_0000_0000_0000 == 8131771826984472022);
        }
    }
    assert(neg_tick_ratio(m, 15) >= 3584502866425897898) by {
        if (m / pow2(14)) % 2 == 1 {
            lemma_mul_inequality(8131771826984472022, neg_tick_ratio(m, 14) as int, 8131365268884726200);
            lemma_div_is_ordered(
                8131771826984472022int * 8131365268884726200,
                neg_tick_ratio(m, 14) as int * 8131365268884726200,
                0x1_0000_0000_0000_0000,
            );
            assert((8131771826984472022int * 8131365268884726200) / 0x1_0000_0000_0000_0000 == 3584502866425897898);
        }
    }
    assert(neg_tick_ratio(m, 16) >= 696492473859659073) by {
        if (m / pow2(15)) % 2 == 1 {
            lemma_mul_inequality(3584502866425897898, neg_tick_ratio(m, 15) as int, 3584323654723342297);
            lemma_div_is_ordered(
                3584502866425897898int * 3584323654723342297,
                neg_tick_ratio(m, 15) as int * 3584323654723342297,
                0x1_0000_0000_0000_0000,
            );
            assert((3584502866425897898int * 3584323654723342297) / 0x1_0000_0000_0000_0000 == 696492473859659073);
        }
    }
    assert((m / pow2(16)) % 2 == 0) by {
        vstd::arithmetic::div_mod::lemma_basic_div(m as int, pow2(16) as int);
        vstd::arithmetic::div_mod::lemma_small_mod(0, 2);
    }
    assert(neg_tick_ratio(m, 17) >= 696492473859659073);
    assert((m / pow2(17)) % 2 == 0) by {
        vstd::arithmetic::div_mod::lemma_basic_div(m as int, pow2(17) as int);
        vstd::arithmetic::div_mod::lemma_small_mod(0, 2);
    }
    assert(neg_tick_ratio(m, 18) >= 696492473859659073);
    assert((m / pow2(18)) % 2 == 0) by {
        vstd::arithmetic::div_mod::lemma_basic_div(m as int, pow2(18) as int);
        vstd::arithmetic::div_mod::lemma_small_mod(0, 2);
    }
    assert(neg_tick_ratio(m, 19) >= 696492473859659073);
}

/// The square-root price of a tick below 2^16 stays under a fixed ceiling.
pub proof fn lemma_sqrt_price_factor_upper(t: int)
    requires
        1 <= t <= 0xffff,
    ensures
        sqrt_price_from_tick_spec(t) <= 488565748650866590023,
{
    lemma_neg_ratio_lower_u16(t as nat);
    let r = neg_tick_ratio(t as nat, 19);
    vstd::arithmetic::div_mod::lemma_div_is_ordered_by_denominator(
        0xffff_ffff_ffff_ffff_ffff_ffff_ffff_ffff,
        696492473859659073,
        r as int,
    );
    assert(0xffff_ffff_ffff_ffff_ffff_ffff_ffff_ffff as int / 696492473859659073int
        == 488565748650866590023);
}

} // verus!
