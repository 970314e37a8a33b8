//! The ordered start indexes of the tick arrays one swap may need.
//!
//! A swap walks up to three arrays; arrays the caller proves derivable but
//! never initialized are represented by zeroed placeholders, so swaps can
//! cross empty regions without materialized storage.

use vstd::prelude::*;

use crate::tick::{floor_division, is_valid_start_tick, Tick, TICK_ARRAY_SIZE};
use crate::tick_math::MIN_TICK_INDEX;

verus! {

/// The aligned start index of the array containing `tick_current_index`.
pub open spec fn start_tick_base(tick_current_index: int, tick_spacing: int) -> int {
    (tick_current_index / (TICK_ARRAY_SIZE * tick_spacing)) * (TICK_ARRAY_SIZE * tick_spacing)
}

/// The start indexes of the arrays a swap from `tick_current_index` can
/// touch, in walk order, keeping only valid boundaries.
///
/// Moving left the swap needs the current array and the two below. Moving
/// right it needs the current array and the two above — or, when the next
/// initializable tick already lies in the following array, the three above.
/// One candidate boundary, kept only when it is a valid start index.
pub open spec fn start_tick_candidate(base: int, offset: int, tick_spacing: int) -> Seq<i32> {
    let start = base + offset * (TICK_ARRAY_SIZE * tick_spacing);
    if is_valid_start_tick(start, tick_spacing) {
        seq![start as i32]
    } else {
        Seq::empty()
    }
}

/// The offsets, in walk order, of the arrays a swap can touch: the current
/// array and the two below when trading down; the current array and the two
/// above when trading up — or the three above when the next initializable
/// tick already lies in the following array.
pub open spec fn start_tick_offsets(a_to_b: bool, shifted: bool, k: int) -> int {
    if a_to_b {
        -k
    } else if shifted {
        k + 1
    } else {
        k
    }
}

/// The exact start indexes `get_start_tick_indexes` returns.
pub open spec fn expected_start_ticks(tick_current_index: int, tick_spacing: int, a_to_b: bool) -> Seq<i32> {
    let w = TICK_ARRAY_SIZE * tick_spacing;
    let base = start_tick_base(tick_current_index, tick_spacing);
    let shifted = tick_current_index + tick_spacing >= base + w;
    start_tick_candidate(base, start_tick_offsets(a_to_b, shifted, 0), tick_spacing)
        + start_tick_candidate(base, start_tick_offsets(a_to_b, shifted, 1), tick_spacing)
        + start_tick_candidate(base, start_tick_offsets(a_to_b, shifted, 2), tick_spacing)
}

/// The start indexes of the arrays a swap from `tick_current_index` can
/// touch, in walk order, keeping only valid boundaries.
#[verifier::rlimit(100)]
pub fn get_start_tick_indexes(tick_current_index: i32, tick_spacing: u16, a_to_b: bool) -> (r: Vec<
    i32,
>)
    requires
        1 <= tick_spacing,
        -0x0080_0000 <= tick_current_index <= 0x0080_0000,
    ensures
        r@ == expected_start_ticks(tick_current_index as int, tick_spacing as int, a_to_b),
        forall|i: int|
            0 <= i < r@.len() ==> is_valid_start_tick(#[trigger] r@[i] as int, tick_spacing as int),
        forall|i: int|
            0 <= i < r@.len() ==> -0x0080_0000 <= #[trigger] r@[i] <= 0x0080_0000,
{
    let ticks_in_array: i32 = TICK_ARRAY_SIZE * (tick_spacing as i32);
    proof {
        vstd::arithmetic::mul::lemma_mul_nonnegative(88, tick_spacing as int);
        lemma_base_bounds(tick_current_index as int, tick_spacing as int);
    }
    let quotient = floor_division(tick_current_index, ticks_in_array);
    let base: i32 = ((quotient as i64) * (ticks_in_array as i64)) as i32;

    let shifted: bool = (tick_current_index as i64) + (tick_spacing as i64) >= (base as i64) + (
    ticks_in_array as i64);

    let (o0, o1, o2): (i32, i32, i32) = if a_to_b {
        (0, -1, -2)
    } else if shifted {
        (1, 2, 3)
    } else {
        (0, 1, 2)
    };

    let mut start_tick_indexes: Vec<i32> = Vec::new();
    push_valid_start(&mut start_tick_indexes, base, o0, ticks_in_array, tick_spacing);
    push_valid_start(&mut start_tick_indexes, base, o1, ticks_in_array, tick_spacing);
    push_valid_start(&mut start_tick_indexes, base, o2, ticks_in_array, tick_spacing);
    proof {
        assert(start_tick_indexes@ =~= expected_start_ticks(
            tick_current_index as int,
            tick_spacing as int,
            a_to_b,
        ));
    }
    start_tick_indexes
}

/// Appends `base + offset * width` when it is a valid start boundary.
fn push_valid_start(
    out: &mut Vec<i32>,
    base: i32,
    offset: i32,
    ticks_in_array: i32,
    tick_spacing: u16,
) -> (r: ())
    requires
        1 <= tick_spacing,
        ticks_in_array == TICK_ARRAY_SIZE * tick_spacing as int,
        -0x00d8_0000 <= base <= 0x0080_0000,
        -2 <= offset <= 3,
    ensures
        final(out)@ == old(out)@ + start_tick_candidate(
            base as int,
            offset as int,
            tick_spacing as int,
        ),
{
    proof {
        assert((-2) * (ticks_in_array as int) <= offset as int * (ticks_in_array as int) <= 3 * (
        ticks_in_array as int)) by (nonlinear_arith)
            requires
                -2 <= offset <= 3,
                0 < ticks_in_array,
        ;
    }
    let candidate: i64 = (base as i64) + (offset as i64) * (ticks_in_array as i64);
    if candidate >= -0x0080_0000 && candidate <= 0x0080_0000 {
        let start_tick_index = candidate as i32;
        if Tick::check_is_valid_start_tick(start_tick_index, tick_spacing) {
            out.push(start_tick_index);
            proof {
                assert(final(out)@ =~= old(out)@ + seq![start_tick_index]);
            }
            return ;
        }
        proof {
            assert(old(out)@ + Seq::<i32>::empty() =~= old(out)@);
        }
        return ;
    }
    // a boundary outside the plausible window is never a valid start
    proof {
        let start = base as int + offset as int * (TICK_ARRAY_SIZE * tick_spacing as int);
        if start > 0x0080_0000 {
            assert(!is_valid_start_tick(start, tick_spacing as int));
        } else {
            assert(start + TICK_ARRAY_SIZE * tick_spacing as int <= MIN_TICK_INDEX);
            assert(!is_valid_start_tick(start, tick_spacing as int));
        }
        assert(old(out)@ + Seq::<i32>::empty() =~= old(out)@);
    }
}

/// The base array boundary stays within the plausible start-index range.
proof fn lemma_base_bounds(tick_current_index: int, tick_spacing: int)
    requires
        1 <= tick_spacing <= 0xffff,
        -0x0080_0000 <= tick_current_index <= 0x0080_0000,
    ensures
        -0x00d8_0000 <= (tick_current_index / (TICK_ARRAY_SIZE * tick_spacing)) * (TICK_ARRAY_SIZE
            * tick_spacing) <= 0x0080_0000,
        -0x0080_0001 <= tick_current_index / (TICK_ARRAY_SIZE * tick_spacing) <= 0x0080_0000,
        0 < TICK_ARRAY_SIZE * tick_spacing <= 0x0058_0000,
{
    let w = TICK_ARRAY_SIZE * tick_spacing;
    assert(0 < w <= 0x0058_0000) by (nonlinear_arith)
        requires
            1 <= tick_spacing <= 0xffff,
            w == 88 * tick_spacing,
    ;
    let q = tick_current_index / w;
    vstd::arithmetic::div_mod::lemma_fundamental_div_mod(tick_current_index, w);
    vstd::arithmetic::div_mod::lemma_mod_division_less_than_divisor(tick_current_index, w);
    assert(q * w == tick_current_index - tick_current_index % w) by {
        vstd::arithmetic::mul::lemma_mul_is_commutative(w, q);
    }
    assert(-0x0080_0001 <= q <= 0x0080_0000) by (nonlinear_arith)
        requires
            q * w == tick_current_index - tick_current_index % w,
            0 <= tick_current_index % w < w,
            0 < w,
            -0x0080_0000 <= tick_current_index <= 0x0080_0000,
    ;
}

} // verus!
