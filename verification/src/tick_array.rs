//! Fixed-size tick arrays, zeroed placeholders, and the tick sequence a
//! single swap walks.

use vstd::prelude::*;

use crate::address::Address;
use crate::errors::ErrorCode;
use crate::tick::{
    floor_division, is_usable_tick, is_valid_start_tick, Tick, TickUpdate, TICK_ARRAY_SIZE,
    TICK_ARRAY_SIZE_USIZE,
};
use crate::tick_math::{MAX_TICK_INDEX, MIN_TICK_INDEX};

verus! {

/// A dense shard of 88 tick slots starting at an aligned boundary.
pub struct TickArray {
    start_tick_index: i32,
    ticks: Vec<Tick>,
    solve: Address,
}

/// The slot a tick occupies in an array starting at `start`.
pub open spec fn tick_offset_spec(start: int, tick_index: int, tick_spacing: int) -> int {
    (tick_index - start) / tick_spacing
}

/// A tick the array stores: within its window and on the grid.
pub open spec fn array_contains(start: int, tick_index: int, tick_spacing: int) -> bool {
    start <= tick_index < start + TICK_ARRAY_SIZE * tick_spacing && is_usable_tick(
        tick_index,
        tick_spacing,
    )
}

impl TickArray {
    /// Structural invariant: 88 slots and a plausible start index.
    pub closed spec fn wf(self) -> bool {
        self.ticks@.len() == TICK_ARRAY_SIZE_USIZE && -0x0080_0000 <= self.start_tick_index
            <= 0x0080_0000
    }

    pub closed spec fn spec_start(self) -> int {
        self.start_tick_index as int
    }

    pub closed spec fn spec_ticks(self) -> Seq<Tick> {
        self.ticks@
    }

    pub closed spec fn spec_solve(self) -> Address {
        self.solve
    }

    /// An array of 88 zero ticks starting at zero.
    pub fn default() -> (r: TickArray)
        ensures
            r.wf(),
            r.spec_start() == 0,
            forall|j: int| 0 <= j < 88 ==> r.spec_ticks()[j] == Tick::zero(),
    {
        let mut ticks: Vec<Tick> = Vec::new();
        let mut i: usize = 0;
        while i < TICK_ARRAY_SIZE_USIZE
            invariant
                i <= 88,
                ticks@.len() == i,
                forall|j: int| 0 <= j < i ==> ticks@[j] == Tick::zero(),
            decreases 88 - i,
        {
            ticks.push(Tick::default());
            i = i + 1;
        }
        TickArray { start_tick_index: 0, ticks, solve: Address::null() }
    }

    /// Binds the array to a pool at a validated start boundary.
    pub fn initialize(&mut self, solve: Address, start_tick_index: i32, tick_spacing: u16) -> (r:
        Result<(), ErrorCode>)
        requires
            old(self).wf(),
            1 <= tick_spacing,
        ensures
            final(self).wf(),
            final(self).spec_ticks() == old(self).spec_ticks(),
            is_valid_start_tick(start_tick_index as int, tick_spacing as int) ==> (r
                == Ok::<(), ErrorCode>(()) && final(self).spec_start() == start_tick_index
                && final(self).spec_solve() == solve),
            !is_valid_start_tick(start_tick_index as int, tick_spacing as int) ==> (r
                == Err::<(), ErrorCode>(ErrorCode::InvalidStartTick) && *final(self) == *old(
                self,
            )),
    {
        if !Tick::check_is_valid_start_tick(start_tick_index, tick_spacing) {
            return Err(ErrorCode::InvalidStartTick);
        }
        self.solve = solve;
        self.start_tick_index = start_tick_index;
        Ok(())
    }

    pub fn start_tick_index(&self) -> (r: i32)
        ensures
            r as int == self.spec_start(),
    {
        self.start_tick_index
    }

    pub fn solve(&self) -> (r: Address)
        ensures
            r == self.spec_solve(),
    {
        self.solve
    }

    /// Fixed arrays never grow.
    pub fn is_variable_size(&self) -> (r: bool)
        ensures
            !r,
    {
        false
    }

    /// The stored tick at `tick_index`, when the array holds it.
    pub fn get_tick(&self, tick_index: i32, tick_spacing: u16) -> (r: Result<Tick, ErrorCode>)
        requires
            self.wf(),
            1 <= tick_spacing,
        ensures
            array_contains(self.spec_start(), tick_index as int, tick_spacing as int) ==> r
                == Ok::<Tick, ErrorCode>(
                self.spec_ticks()[tick_offset_spec(
                    self.spec_start(),
                    tick_index as int,
                    tick_spacing as int,
                )],
            ),
            !array_contains(self.spec_start(), tick_index as int, tick_spacing as int) ==> r
                == Err::<Tick, ErrorCode>(ErrorCode::TickNotFound),
    {
        if !self.check_in_array_bounds(tick_index, tick_spacing) || !Tick::check_is_usable_tick(
            tick_index,
            tick_spacing,
        ) {
            return Err(ErrorCode::TickNotFound);
        }
        let offset = self.tick_offset_unchecked(tick_index, tick_spacing);
        Ok(self.ticks[offset as usize])
    }

    /// Writes `update` into the slot for `tick_index`.
    pub fn update_tick(&mut self, tick_index: i32, tick_spacing: u16, update: &TickUpdate) -> (r:
        Result<(), ErrorCode>)
        requires
            old(self).wf(),
            1 <= tick_spacing,
        ensures
            final(self).wf(),
            final(self).spec_start() == old(self).spec_start(),
            final(self).spec_solve() == old(self).spec_solve(),
            array_contains(old(self).spec_start(), tick_index as int, tick_spacing as int) ==> (r
                == Ok::<(), ErrorCode>(()) && final(self).spec_ticks() == old(
                self,
            ).spec_ticks().update(
                tick_offset_spec(old(self).spec_start(), tick_index as int, tick_spacing as int),
                Tick::from_update(*update),
            )),
            !array_contains(old(self).spec_start(), tick_index as int, tick_spacing as int) ==> (r
                == Err::<(), ErrorCode>(ErrorCode::TickNotFound) && final(self).spec_ticks()
                == old(self).spec_ticks()),
    {
        if !self.check_in_array_bounds(tick_index, tick_spacing) || !Tick::check_is_usable_tick(
            tick_index,
            tick_spacing,
        ) {
            return Err(ErrorCode::TickNotFound);
        }
        let offset = self.tick_offset_unchecked(tick_index, tick_spacing);
        self.ticks[offset as usize].update(update);
        Ok(())
    }

    /// Whether `tick_index` lies in this array's window.
    fn check_in_array_bounds(&self, tick_index: i32, tick_spacing: u16) -> (r: bool)
        requires
            self.wf(),
            1 <= tick_spacing,
        ensures
            r == (self.spec_start() <= tick_index < self.spec_start() + TICK_ARRAY_SIZE
                * tick_spacing as int),
    {
        let upper: i64 = (self.start_tick_index as i64) + 88i64 * (tick_spacing as i64);
        self.start_tick_index <= tick_index && (tick_index as i64) < upper
    }

    /// The slot index of an in-window tick.
    fn tick_offset_unchecked(&self, tick_index: i32, tick_spacing: u16) -> (r: i32)
        requires
            self.wf(),
            1 <= tick_spacing,
            self.spec_start() <= tick_index < self.spec_start() + TICK_ARRAY_SIZE
                * tick_spacing as int,
        ensures
            r == tick_offset_spec(self.spec_start(), tick_index as int, tick_spacing as int),
            0 <= r < 88,
    {
        let offset = floor_division(tick_index - self.start_tick_index, tick_spacing as i32);
        proof {
            vstd::arithmetic::div_mod::lemma_div_pos_is_pos(
                tick_index - self.spec_start(),
                tick_spacing as int,
            );
            vstd::arithmetic::div_mod::lemma_multiply_divide_lt(
                tick_index - self.spec_start(),
                tick_spacing as int,
                88,
            );
            vstd::arithmetic::mul::lemma_mul_is_commutative(88, tick_spacing as int);
        }
        offset
    }

    /// The search window: one spacing lower when the search is shifted
    /// (ascending searches start one slot before the array).
    pub open spec fn in_search_range_spec(self, tick_index: int, tick_spacing: int, shifted: bool) -> bool {
        let lower = self.spec_start() - if shifted {
            tick_spacing
        } else {
            0
        };
        let upper = self.spec_start() + TICK_ARRAY_SIZE * tick_spacing - if shifted {
            tick_spacing
        } else {
            0
        };
        lower <= tick_index < upper
    }

    fn in_search_range(&self, tick_index: i32, tick_spacing: u16, shifted: bool) -> (r: bool)
        requires
            self.wf(),
            1 <= tick_spacing,
        ensures
            r == self.in_search_range_spec(tick_index as int, tick_spacing as int, shifted),
    {
        let shift: i64 = if shifted {
            tick_spacing as i64
        } else {
            0
        };
        let lower: i64 = (self.start_tick_index as i64) - shift;
        let upper: i64 = (self.start_tick_index as i64) + 88i64 * (tick_spacing as i64) - shift;
        lower <= (tick_index as i64) && (tick_index as i64) < upper
    }

    /// The next initialized tick from `tick_index`: to the left inclusive
    /// when `a_to_b`, to the right exclusive otherwise. `Ok(None)` when this
    /// array holds none in that direction.
    #[verifier::loop_isolation(false)]
    pub fn get_next_init_tick_index(&self, tick_index: i32, tick_spacing: u16, a_to_b: bool) -> (r:
        Result<Option<i32>, ErrorCode>)
        requires
            self.wf(),
            1 <= tick_spacing,
        ensures
            !self.in_search_range_spec(tick_index as int, tick_spacing as int, !a_to_b) ==> r
                == Err::<Option<i32>, ErrorCode>(ErrorCode::InvalidTickArraySequence),
            self.in_search_range_spec(tick_index as int, tick_spacing as int, !a_to_b) ==> ({
                let base = tick_offset_spec(
                    self.spec_start(),
                    tick_index as int,
                    tick_spacing as int,
                );
                let from = if a_to_b {
                    base
                } else {
                    base + 1
                };
                match r {
                    Ok(Some(t)) => {
                        let j = tick_offset_spec(self.spec_start(), t as int, tick_spacing as int);
                        &&& t == self.spec_start() + j * tick_spacing
                        &&& 0 <= j < 88
                        &&& (a_to_b ==> j <= from)
                        &&& (!a_to_b ==> j >= from)
                        &&& self.spec_ticks()[j].initialized
                        &&& (a_to_b ==> forall|k: int|
                            j < k <= from && 0 <= k < 88 ==> !self.spec_ticks()[k].initialized)
                        &&& (!a_to_b ==> forall|k: int|
                            from <= k < j ==> !self.spec_ticks()[k].initialized)
                    },
                    Ok(None) => {
                        &&& (a_to_b ==> forall|k: int|
                            0 <= k <= from && k < 88 ==> !self.spec_ticks()[k].initialized)
                        &&& (!a_to_b ==> forall|k: int|
                            from <= k < 88 ==> !self.spec_ticks()[k].initialized)
                    },
                    Err(_) => false,
                }
            }),
    {
        if !self.in_search_range(tick_index, tick_spacing, !a_to_b) {
            return Err(ErrorCode::InvalidTickArraySequence);
        }
        let base = floor_division(tick_index - self.start_tick_index, tick_spacing as i32);
        proof {
            vstd::arithmetic::div_mod::lemma_multiply_divide_lt(
                tick_index - self.spec_start(),
                tick_spacing as int,
                88,
            );
            vstd::arithmetic::mul::lemma_mul_is_commutative(88, tick_spacing as int);
            if tick_index - self.spec_start() >= 0 {
                vstd::arithmetic::div_mod::lemma_div_pos_is_pos(
                    tick_index - self.spec_start(),
                    tick_spacing as int,
                );
            } else {
                // one slot below the window floors to -1
                vstd::arithmetic::div_mod::lemma_fundamental_div_mod_converse(
                    tick_index - self.spec_start(),
                    tick_spacing as int,
                    -1,
                    tick_index - self.spec_start() + tick_spacing,
                );
            }
        }
        let mut curr_offset: i32 = if a_to_b {
            base
        } else {
            base + 1
        };
        let ghost from = curr_offset as int;
        if a_to_b {
            while curr_offset >= 0
                invariant
                    self.wf(),
                    1 <= tick_spacing,
                    curr_offset <= from < 88,
                    forall|k: int|
                        curr_offset < k <= from ==> !self.spec_ticks()[k].initialized,
                decreases curr_offset + 1,
            {
                let t = self.ticks[curr_offset as usize];
                if t.initialized {
                    proof {
                        lemma_offset_roundtrip(
                            self.spec_start(),
                            curr_offset as int,
                            tick_spacing as int,
                        );
                        vstd::arithmetic::mul::lemma_mul_upper_bound(
                            curr_offset as int,
                            87,
                            tick_spacing as int,
                            65535,
                        );
                        vstd::arithmetic::mul::lemma_mul_nonnegative(
                            curr_offset as int,
                            tick_spacing as int,
                        );
                    }
                    return Ok(Some(curr_offset * (tick_spacing as i32) + self.start_tick_index));
                }
                curr_offset = curr_offset - 1;
            }
            Ok(None)
        } else {
            while curr_offset < TICK_ARRAY_SIZE
                invariant
                    self.wf(),
                    1 <= tick_spacing,
                    0 <= from <= curr_offset,
                    curr_offset <= 88,
                    forall|k: int|
                        from <= k < curr_offset ==> !self.spec_ticks()[k].initialized,
                decreases 88 - curr_offset,
            {
                let t = self.ticks[curr_offset as usize];
                if t.initialized {
                    proof {
                        lemma_offset_roundtrip(
                            self.spec_start(),
                            curr_offset as int,
                            tick_spacing as int,
                        );
                        vstd::arithmetic::mul::lemma_mul_upper_bound(
                            curr_offset as int,
                            87,
                            tick_spacing as int,
                            65535,
                        );
                        vstd::arithmetic::mul::lemma_mul_nonnegative(
                            curr_offset as int,
                            tick_spacing as int,
                        );
                    }
                    return Ok(Some(curr_offset * (tick_spacing as i32) + self.start_tick_index));
                }
                curr_offset = curr_offset + 1;
            }
            Ok(None)
        }
    }
}

/// The tick at slot `j` of an array starting at `start` maps back to slot
/// `j`.
proof fn lemma_offset_roundtrip(start: int, j: int, tick_spacing: int)
    requires
        1 <= tick_spacing,
        0 <= j,
    ensures
        tick_offset_spec(start, start + j * tick_spacing, tick_spacing) == j,
{
    assert((start + j * tick_spacing - start) == j * tick_spacing);
    vstd::arithmetic::div_mod::lemma_div_by_multiple(j, tick_spacing);
}

/// A placeholder for a tick array that was never materialized: every slot
/// reads as the zero tick.
pub struct ZeroedTickArray {
    start_tick_index: i32,
}

impl ZeroedTickArray {
    pub closed spec fn spec_start(self) -> int {
        self.start_tick_index as int
    }

    pub closed spec fn wf(self) -> bool {
        -0x0080_0000 <= self.start_tick_index <= 0x0080_0000
    }

    pub fn new(start_tick_index: i32) -> (r: ZeroedTickArray)
        requires
            -0x0080_0000 <= start_tick_index <= 0x0080_0000,
        ensures
            r.wf(),
            r.spec_start() == start_tick_index,
    {
        ZeroedTickArray { start_tick_index }
    }

    pub fn start_tick_index(&self) -> (r: i32)
        ensures
            r as int == self.spec_start(),
    {
        self.start_tick_index
    }
}

/// A tick array a swap can read: a loaded one, or a zeroed placeholder for
/// an address the caller proved would be derivable but never initialized.
pub enum ProxiedTickArray {
    Initialized(TickArray),
    Uninitialized(ZeroedTickArray),
}

impl ProxiedTickArray {
    pub open spec fn wf(self) -> bool {
        match self {
            ProxiedTickArray::Initialized(a) => a.wf(),
            ProxiedTickArray::Uninitialized(z) => z.wf(),
        }
    }

    pub open spec fn spec_start(self) -> int {
        match self {
            ProxiedTickArray::Initialized(a) => a.spec_start(),
            ProxiedTickArray::Uninitialized(z) => z.spec_start(),
        }
    }

    /// The tick stored at slot `j` (zero for a placeholder).
    pub open spec fn spec_tick_at(self, j: int) -> Tick {
        match self {
            ProxiedTickArray::Initialized(a) => a.spec_ticks()[j],
            ProxiedTickArray::Uninitialized(_) => Tick::zero(),
        }
    }

    pub open spec fn in_search_range_spec(self, tick_index: int, tick_spacing: int, shifted: bool) -> bool {
        let lower = self.spec_start() - if shifted {
            tick_spacing
        } else {
            0
        };
        let upper = self.spec_start() + TICK_ARRAY_SIZE * tick_spacing - if shifted {
            tick_spacing
        } else {
            0
        };
        lower <= tick_index < upper
    }

    /// Wraps a loaded array.
    pub fn new_initialized(array: TickArray) -> (r: ProxiedTickArray)
        requires
            array.wf(),
        ensures
            r == ProxiedTickArray::Initialized(array),
            r.wf(),
    {
        ProxiedTickArray::Initialized(array)
    }

    /// A zeroed placeholder for a derivable but never-created array.
    pub fn new_uninitialized(start_tick_index: i32) -> (r: ProxiedTickArray)
        requires
            -0x0080_0000 <= start_tick_index <= 0x0080_0000,
        ensures
            r.wf(),
            r.spec_start() == start_tick_index,
            r is Uninitialized,
    {
        ProxiedTickArray::Uninitialized(ZeroedTickArray::new(start_tick_index))
    }

    pub fn start_tick_index(&self) -> (r: i32)
        ensures
            r as int == self.spec_start(),
    {
        match self {
            ProxiedTickArray::Initialized(a) => a.start_tick_index(),
            ProxiedTickArray::Uninitialized(z) => z.start_tick_index(),
        }
    }

    /// The tick at `tick_index`, when this array's window holds it.
    pub fn get_tick(&self, tick_index: i32, tick_spacing: u16) -> (r: Result<Tick, ErrorCode>)
        requires
            self.wf(),
            1 <= tick_spacing,
        ensures
            array_contains(self.spec_start(), tick_index as int, tick_spacing as int) ==> r
                == Ok::<Tick, ErrorCode>(
                self.spec_tick_at(
                    tick_offset_spec(self.spec_start(), tick_index as int, tick_spacing as int),
                ),
            ),
            !array_contains(self.spec_start(), tick_index as int, tick_spacing as int) ==> r
                == Err::<Tick, ErrorCode>(ErrorCode::TickNotFound),
    {
        match self {
            ProxiedTickArray::Initialized(a) => a.get_tick(tick_index, tick_spacing),
            ProxiedTickArray::Uninitialized(z) => {
                let in_window = z.start_tick_index() <= tick_index && (tick_index as i64) < (
                z.start_tick_index() as i64) + 88i64 * (tick_spacing as i64);
                if in_window && Tick::check_is_usable_tick(tick_index, tick_spacing) {
                    Ok(Tick::default())
                } else {
                    Err(ErrorCode::TickNotFound)
                }
            },
        }
    }

    /// Writes `update` into a loaded array; placeholders reject writes.
    pub fn update_tick(&mut self, tick_index: i32, tick_spacing: u16, update: &TickUpdate) -> (r:
        Result<(), ErrorCode>)
        requires
            old(self).wf(),
            1 <= tick_spacing,
        ensures
            final(self).wf(),
            final(self).spec_start() == old(self).spec_start(),
            (*old(self)) is Initialized ==> (*final(self)) is Initialized,
            (*old(self)) is Uninitialized ==> (r == Err::<(), ErrorCode>(ErrorCode::TickNotFound)
                && *final(self) == *old(self)),
            (*old(self)) is Initialized && array_contains(
                old(self).spec_start(),
                tick_index as int,
                tick_spacing as int,
            ) ==> (r == Ok::<(), ErrorCode>(()) && forall|j: int|
                0 <= j < 88 ==> final(self).spec_tick_at(j) == if j == tick_offset_spec(
                    old(self).spec_start(),
                    tick_index as int,
                    tick_spacing as int,
                ) {
                    Tick::from_update(*update)
                } else {
                    old(self).spec_tick_at(j)
                }),
            (*old(self)) is Initialized && !array_contains(
                old(self).spec_start(),
                tick_index as int,
                tick_spacing as int,
            ) ==> (r == Err::<(), ErrorCode>(ErrorCode::TickNotFound) && forall|j: int|
                0 <= j < 88 ==> final(self).spec_tick_at(j) == old(self).spec_tick_at(j)),
    {
        match self {
            ProxiedTickArray::Initialized(a) => {
                let ghost prev = *a;
                let r = a.update_tick(tick_index, tick_spacing, update);
                proof {
                    if array_contains(
                        prev.spec_start(),
                        tick_index as int,
                        tick_spacing as int,
                    ) {
                        let off = tick_offset_spec(
                            prev.spec_start(),
                            tick_index as int,
                            tick_spacing as int,
                        );
                        assert(0 <= off < 88) by {
                            vstd::arithmetic::div_mod::lemma_div_pos_is_pos(
                                tick_index - prev.spec_start(),
                                tick_spacing as int,
                            );
                            vstd::arithmetic::div_mod::lemma_multiply_divide_lt(
                                tick_index - prev.spec_start(),
                                tick_spacing as int,
                                88,
                            );
                            vstd::arithmetic::mul::lemma_mul_is_commutative(
                                88,
                                tick_spacing as int,
                            );
                        }
                        let s2 = prev.spec_ticks().update(off, Tick::from_update(*update));
                        assert(a.spec_ticks() == s2);
                        assert forall|j: int| 0 <= j < 88 implies a.spec_ticks()[j] == (if j
                            == off {
                            Tick::from_update(*update)
                        } else {
                            prev.spec_ticks()[j]
                        }) by {
                            if j == off {
                                assert(s2[j] == Tick::from_update(*update));
                            } else {
                                assert(s2[j] == prev.spec_ticks()[j]);
                            }
                        }
                    }
                }
                r
            },
            ProxiedTickArray::Uninitialized(_) => Err(ErrorCode::TickNotFound),
        }
    }

    /// The next initialized tick in direction, or `None` when this array has
    /// none (a placeholder never has one).
    pub fn get_next_init_tick_index(&self, tick_index: i32, tick_spacing: u16, a_to_b: bool) -> (r:
        Result<Option<i32>, ErrorCode>)
        requires
            self.wf(),
            1 <= tick_spacing,
        ensures
            !self.in_search_range_spec(tick_index as int, tick_spacing as int, !a_to_b) ==> r
                == Err::<Option<i32>, ErrorCode>(ErrorCode::InvalidTickArraySequence),
            self.in_search_range_spec(tick_index as int, tick_spacing as int, !a_to_b) ==> ({
                match r {
                    Ok(Some(t)) => {
                        let j = tick_offset_spec(self.spec_start(), t as int, tick_spacing as int);
                        &&& t == self.spec_start() + j * tick_spacing
                        &&& 0 <= j < 88
                        &&& self.spec_tick_at(j).initialized
                        &&& (a_to_b ==> t <= tick_index)
                        &&& (!a_to_b ==> t > tick_index)
                    },
                    Ok(None) => true,
                    Err(_) => false,
                }
            }),
    {
        match self {
            ProxiedTickArray::Initialized(a) => {
                let r = a.get_next_init_tick_index(tick_index, tick_spacing, a_to_b);
                proof {
                    if self.in_search_range_spec(tick_index as int, tick_spacing as int, !a_to_b) {
                        if let Ok(Some(t)) = r {
                            let j = tick_offset_spec(
                                a.spec_start(),
                                t as int,
                                tick_spacing as int,
                            );
                            let base = tick_offset_spec(
                                a.spec_start(),
                                tick_index as int,
                                tick_spacing as int,
                            );
                            lemma_offset_monotone(
                                a.spec_start(),
                                j,
                                tick_index as int,
                                tick_spacing as int,
                                a_to_b,
                            );
                        }
                    }
                }
                r
            },
            ProxiedTickArray::Uninitialized(z) => {
                let shift: i64 = if !a_to_b {
                    tick_spacing as i64
                } else {
                    0
                };
                let lower: i64 = (z.start_tick_index() as i64) - shift;
                let upper: i64 = (z.start_tick_index() as i64) + 88i64 * (tick_spacing as i64)
                    - shift;
                if lower <= (tick_index as i64) && (tick_index as i64) < upper {
                    Ok(None)
                } else {
                    Err(ErrorCode::InvalidTickArraySequence)
                }
            },
        }
    }

    /// Whether this array reaches the lowest representable tick.
    pub fn is_min_tick_array(&self) -> (r: bool)
        ensures
            r == (self.spec_start() <= MIN_TICK_INDEX),
    {
        self.start_tick_index() <= MIN_TICK_INDEX
    }

    /// Whether this array reaches the highest representable tick.
    pub fn is_max_tick_array(&self, tick_spacing: u16) -> (r: bool)
        requires
            self.wf(),
            1 <= tick_spacing,
        ensures
            r == (self.spec_start() + TICK_ARRAY_SIZE * tick_spacing as int > MAX_TICK_INDEX),
    {
        let upper: i64 = (self.start_tick_index() as i64) + 88i64 * (tick_spacing as i64);
        upper > MAX_TICK_INDEX as i64
    }

    /// The slot `tick_index` would occupy, possibly outside `[0, 88)`.
    pub fn tick_offset(&self, tick_index: i32, tick_spacing: u16) -> (r: i32)
        requires
            self.wf(),
            1 <= tick_spacing,
            -0x0100_0000 <= tick_index <= 0x0100_0000,
        ensures
            r == tick_offset_spec(self.spec_start(), tick_index as int, tick_spacing as int),
    {
        floor_division(tick_index - self.start_tick_index(), tick_spacing as i32)
    }
}

/// A tick found at or past the search start keeps the search direction.
proof fn lemma_offset_monotone(start: int, j: int, tick_index: int, tick_spacing: int, a_to_b: bool)
    requires
        1 <= tick_spacing,
        a_to_b ==> j <= tick_offset_spec(start, tick_index, tick_spacing),
        !a_to_b ==> j >= tick_offset_spec(start, tick_index, tick_spacing) + 1,
    ensures
        a_to_b ==> start + j * tick_spacing <= tick_index,
        !a_to_b ==> start + j * tick_spacing > tick_index,
{
    let base = tick_offset_spec(start, tick_index, tick_spacing);
    vstd::arithmetic::div_mod::lemma_fundamental_div_mod(tick_index - start, tick_spacing);
    vstd::arithmetic::div_mod::lemma_mod_division_less_than_divisor(
        tick_index - start,
        tick_spacing,
    );
    if a_to_b {
        assert(j * tick_spacing <= base * tick_spacing) by {
            vstd::arithmetic::mul::lemma_mul_inequality(j, base, tick_spacing);
        }
        assert(base * tick_spacing <= tick_index - start) by {
            vstd::arithmetic::mul::lemma_mul_is_commutative(tick_spacing, base);
        }
    } else {
        assert((base + 1) * tick_spacing <= j * tick_spacing) by {
            vstd::arithmetic::mul::lemma_mul_inequality(base + 1, j, tick_spacing);
        }
        assert((base + 1) * tick_spacing > tick_index - start) by {
            vstd::arithmetic::mul::lemma_mul_is_distributive_add_other_way(
                tick_spacing,
                base,
                1,
            );
            vstd::arithmetic::mul::lemma_mul_is_commutative(tick_spacing, base);
        }
    }
}

/// The ordered tick arrays one swap may touch.
pub struct SwapTickSequence {
    arrays: Vec<ProxiedTickArray>,
}

impl SwapTickSequence {
    pub closed spec fn wf(self) -> bool {
        1 <= self.arrays@.len() <= 3 && forall|i: int|
            0 <= i < self.arrays@.len() ==> self.arrays@[i].wf()
    }

    pub closed spec fn spec_len(self) -> int {
        self.arrays@.len() as int
    }

    pub closed spec fn array_at(self, i: int) -> ProxiedTickArray {
        self.arrays@[i]
    }

    pub fn new(ta0: ProxiedTickArray, ta1: Option<ProxiedTickArray>, ta2: Option<
        ProxiedTickArray,
    >) -> (r: SwapTickSequence)
        requires
            ta0.wf(),
            ta1 is Some ==> ta1->0.wf(),
            ta2 is Some ==> ta2->0.wf(),
        ensures
            r.wf(),
            r.array_at(0) == ta0,
    {
        let mut arrays: Vec<ProxiedTickArray> = Vec::new();
        arrays.push(ta0);
        match ta1 {
            Some(a) => arrays.push(a),
            None => (),
        }
        match ta2 {
            Some(a) => arrays.push(a),
            None => (),
        }
        SwapTickSequence { arrays }
    }

    /// The tick at `tick_index` in the chosen array.
    pub fn get_tick(&self, array_index: usize, tick_index: i32, tick_spacing: u16) -> (r: Result<
        Tick,
        ErrorCode,
    >)
        requires
            self.wf(),
            1 <= tick_spacing,
        ensures
            array_index >= self.spec_len() ==> r == Err::<Tick, ErrorCode>(
                ErrorCode::InvalidTickArraySequence,
            ),
            array_index < self.spec_len() ==> ({
                let arr = self.array_at(array_index as int);
                (array_contains(arr.spec_start(), tick_index as int, tick_spacing as int) ==> r
                    == Ok::<Tick, ErrorCode>(
                    arr.spec_tick_at(
                        tick_offset_spec(arr.spec_start(), tick_index as int, tick_spacing as int),
                    ),
                )) && (!array_contains(arr.spec_start(), tick_index as int, tick_spacing as int)
                    ==> r == Err::<Tick, ErrorCode>(ErrorCode::TickNotFound))
            }),
    {
        if array_index >= self.arrays.len() {
            return Err(ErrorCode::InvalidTickArraySequence);
        }
        self.arrays[array_index].get_tick(tick_index, tick_spacing)
    }

    /// Writes `update` to the tick in the chosen array.
    pub fn update_tick(
        &mut self,
        array_index: usize,
        tick_index: i32,
        tick_spacing: u16,
        update: &TickUpdate,
    ) -> (r: Result<(), ErrorCode>)
        requires
            old(self).wf(),
            1 <= tick_spacing,
        ensures
            final(self).wf(),
            final(self).spec_len() == old(self).spec_len(),
            forall|k: int|
                0 <= k < old(self).spec_len() && k != array_index ==> final(self).array_at(k)
                    == old(self).array_at(k),
            array_index < old(self).spec_len() ==> final(self).array_at(
                array_index as int,
            ).spec_start() == old(self).array_at(array_index as int).spec_start(),
            array_index >= old(self).spec_len() ==> (r == Err::<(), ErrorCode>(
                ErrorCode::InvalidTickArraySequence,
            ) && *final(self) == *old(self)),
            r is Err ==> (r == Err::<(), ErrorCode>(ErrorCode::InvalidTickArraySequence) || r
                == Err::<(), ErrorCode>(ErrorCode::TickNotFound)),
            array_index < old(self).spec_len() ==> ({
                let arr = old(self).array_at(array_index as int);
                arr is Initialized && array_contains(
                    arr.spec_start(),
                    tick_index as int,
                    tick_spacing as int,
                ) ==> (r == Ok::<(), ErrorCode>(()) && forall|j: int|
                    0 <= j < 88 ==> final(self).array_at(array_index as int).spec_tick_at(j)
                        == if j == tick_offset_spec(
                        arr.spec_start(),
                        tick_index as int,
                        tick_spacing as int,
                    ) {
                        Tick::from_update(*update)
                    } else {
                        arr.spec_tick_at(j)
                    })
            }),
    {
        if array_index >= self.arrays.len() {
            return Err(ErrorCode::InvalidTickArraySequence);
        }
        let r = self.arrays[array_index].update_tick(tick_index, tick_spacing, update);
        r
    }

    /// The slot `tick_index` would occupy in the chosen array.
    pub fn get_tick_offset(&self, array_index: usize, tick_index: i32, tick_spacing: u16) -> (r:
        Result<i32, ErrorCode>)
        requires
            self.wf(),
            1 <= tick_spacing,
            -0x0100_0000 <= tick_index <= 0x0100_0000,
        ensures
            array_index >= self.spec_len() ==> r == Err::<i32, ErrorCode>(
                ErrorCode::InvalidTickArraySequence,
            ),
            array_index < self.spec_len() ==> r == Ok::<i32, ErrorCode>(
                tick_offset_spec(
                    self.array_at(array_index as int).spec_start(),
                    tick_index as int,
                    tick_spacing as int,
                ) as i32,
            ),
    {
        if array_index >= self.arrays.len() {
            return Err(ErrorCode::InvalidTickArraySequence);
        }
        proof {
            lemma_offset_in_i32(
                self.array_at(array_index as int).spec_start(),
                tick_index as int,
                tick_spacing as int,
            );
        }
        Ok(self.arrays[array_index].tick_offset(tick_index, tick_spacing))
    }

    /// Walks the arrays from `start_array_index` for the next initialized
    /// tick in direction; at the edge of the tick range it reports the
    /// extreme tick itself.
    pub fn get_next_initialized_tick_index(
        &self,
        tick_index: i32,
        tick_spacing: u16,
        a_to_b: bool,
        start_array_index: usize,
    ) -> (r: Result<(usize, i32), ErrorCode>)
        requires
            self.wf(),
            1 <= tick_spacing,
            -0x0200_0000 <= tick_index <= 0x0200_0000,
        ensures
            r is Err ==> r == Err::<(usize, i32), ErrorCode>(ErrorCode::InvalidTickArraySequence),
            r is Ok ==> ({
                let (ai, t) = r->Ok_0;
                &&& ai < self.spec_len()
                &&& ai < 3
                &&& -0x0100_0000 <= t <= 0x0100_0000
                &&& (a_to_b ==> t <= tick_index || t == crate::tick_math::MIN_TICK_INDEX)
                &&& (!a_to_b ==> t > tick_index || t == crate::tick_math::MAX_TICK_INDEX)
                &&& (t != crate::tick_math::MIN_TICK_INDEX && t != crate::tick_math::MAX_TICK_INDEX
                    ==> ({
                    let arr = self.array_at(ai as int);
                    let j = tick_offset_spec(arr.spec_start(), t as int, tick_spacing as int);
                    &&& 0 <= j < 88
                    &&& t == arr.spec_start() + j * tick_spacing
                    &&& arr.spec_tick_at(j).initialized
                }))
            }),
    {
        let mut array_index = start_array_index;
        let mut search_index = tick_index;
        loop
            invariant
                self.wf(),
                1 <= tick_spacing,
                -0x0200_0000 <= search_index <= 0x0200_0000,
                a_to_b ==> search_index <= tick_index,
                !a_to_b ==> search_index >= tick_index,
                array_index >= 0,
            decreases 4 - array_index,
        {
            if array_index >= self.arrays.len() {
                return Err(ErrorCode::InvalidTickArraySequence);
            }
            let next = match self.arrays[array_index].get_next_init_tick_index(
                search_index,
                tick_spacing,
                a_to_b,
            ) {
                Ok(v) => v,
                Err(e) => {
                    return Err(e);
                },
            };
            match next {
                Some(t) => {
                    proof {
                        let arr = self.array_at(array_index as int);
                        if arr.in_search_range_spec(
                            search_index as int,
                            tick_spacing as int,
                            !a_to_b,
                        ) {
                            let j = tick_offset_spec(
                                arr.spec_start(),
                                t as int,
                                tick_spacing as int,
                            );
                            vstd::arithmetic::mul::lemma_mul_nonnegative(j, tick_spacing as int);
                            vstd::arithmetic::mul::lemma_mul_upper_bound(
                                j,
                                87,
                                tick_spacing as int,
                                65535,
                            );
                        }
                    }
                    return Ok((array_index, t));
                },
                None => {
                    let arr_start = self.arrays[array_index].start_tick_index();
                    if a_to_b && self.arrays[array_index].is_min_tick_array() {
                        return Ok((array_index, MIN_TICK_INDEX));
                    }
                    if !a_to_b && self.arrays[array_index].is_max_tick_array(tick_spacing) {
                        return Ok((array_index, MAX_TICK_INDEX));
                    }
                    if array_index + 1 >= self.arrays.len() {
                        return Err(ErrorCode::InvalidTickArraySequence);
                    }
                    search_index = if a_to_b {
                        arr_start - 1
                    } else {
                        arr_start + 88i32 * (tick_spacing as i32) - 1
                    };
                    array_index = array_index + 1;
                },
            }
        }
    }
}

/// Offsets of plausible ticks in plausible arrays fit an `i32`.
proof fn lemma_offset_in_i32(start: int, tick_index: int, tick_spacing: int)
    requires
        1 <= tick_spacing,
        -0x0080_0000 <= start <= 0x0080_0000,
        -0x0100_0000 <= tick_index <= 0x0100_0000,
    ensures
        i32::MIN <= tick_offset_spec(start, tick_index, tick_spacing) <= i32::MAX,
{
    let diff = tick_index - start;
    let q = diff / tick_spacing;
    let r = diff % tick_spacing;
    vstd::arithmetic::div_mod::lemma_fundamental_div_mod(diff, tick_spacing);
    vstd::arithmetic::div_mod::lemma_mod_division_less_than_divisor(diff, tick_spacing);
    assert(-0x0200_0000 <= q <= 0x0200_0000) by (nonlinear_arith)
        requires
            diff == tick_spacing * q + r,
            0 <= r < tick_spacing,
            1 <= tick_spacing,
            -0x0180_0000 <= diff <= 0x0180_0000,
    ;
}

} // verus!
