//! Position bundles: a bitmap of open bundled positions under one mint.

use vstd::prelude::*;

use crate::address::Address;
use crate::errors::ErrorCode;

verus! {

/// Number of bytes in the bundle bitmap.
pub const POSITION_BITMAP_USIZE: usize = 32;

/// Number of position slots in one bundle.
pub const POSITION_BUNDLE_SIZE: u16 = 256;

/// A bundle of positions under one receipt mint, tracked by a bitmap.
pub struct PositionBundle {
    pub position_bundle_mint: Address,
    pub position_bitmap: Vec<u8>,
}

/// Whether bit `bundle_index` of the bitmap is set.
pub open spec fn bundle_bit_set(bitmap: Seq<u8>, bundle_index: int) -> bool {
    (bitmap[bundle_index / 8] as nat / pow2_u8(bundle_index % 8)) % 2 == 1
}

/// The small powers of two a byte's bits live at.
pub open spec fn pow2_u8(k: int) -> nat {
    if k <= 0 {
        1
    } else if k == 1 {
        2
    } else if k == 2 {
        4
    } else if k == 3 {
        8
    } else if k == 4 {
        16
    } else if k == 5 {
        32
    } else if k == 6 {
        64
    } else {
        128
    }
}

impl PositionBundle {
    /// Structural invariant: the bitmap has its fixed size.
    pub open spec fn wf(self) -> bool {
        self.position_bitmap@.len() == POSITION_BITMAP_USIZE
    }

    pub fn default() -> (r: PositionBundle)
        ensures
            r.wf(),
            r.position_bundle_mint.is_null(),
            forall|i: int| 0 <= i < 32 ==> r.position_bitmap@[i] == 0,
    {
        let mut bitmap: Vec<u8> = Vec::new();
        let mut i: usize = 0;
        while i < POSITION_BITMAP_USIZE
            invariant
                i <= 32,
                bitmap@.len() == i,
                forall|j: int| 0 <= j < i ==> bitmap@[j] == 0,
            decreases 32 - i,
        {
            bitmap.push(0);
            i = i + 1;
        }
        PositionBundle { position_bundle_mint: Address::null(), position_bitmap: bitmap }
    }

    /// Binds the bundle to its receipt mint.
    pub fn initialize(&mut self, position_bundle_mint: Address) -> (r: Result<(), ErrorCode>)
        ensures
            r is Ok,
            *final(self) == (PositionBundle { position_bundle_mint, ..*old(self) }),
    {
        self.position_bundle_mint = position_bundle_mint;
        Ok(())
    }

    /// A bundle can be deleted only when no bundled position is open.
    pub fn is_deletable(&self) -> (r: bool)
        requires
            self.wf(),
        ensures
            r == (forall|i: int| 0 <= i < 32 ==> self.position_bitmap@[i] == 0),
    {
        let mut i: usize = 0;
        while i < POSITION_BITMAP_USIZE
            invariant
                self.wf(),
                i <= 32,
                forall|j: int| 0 <= j < i ==> self.position_bitmap@[j] == 0,
            decreases 32 - i,
        {
            if self.position_bitmap[i] != 0 {
                return false;
            }
            i = i + 1;
        }
        true
    }

    /// Marks `bundle_index` open; it must be closed.
    pub fn open_bundled_position(&mut self, bundle_index: u16) -> (r: Result<(), ErrorCode>)
        requires
            old(self).wf(),
        ensures
            final(self).wf(),
            bundle_index >= POSITION_BUNDLE_SIZE ==> r == Err::<(), ErrorCode>(
                ErrorCode::InvalidBundleIndex,
            ) && *final(self) == *old(self),
            bundle_index < POSITION_BUNDLE_SIZE && bundle_bit_set(
                old(self).position_bitmap@,
                bundle_index as int,
            ) ==> r == Err::<(), ErrorCode>(ErrorCode::BundledPositionAlreadyOpened) && *final(self) == *old(self),
            bundle_index < POSITION_BUNDLE_SIZE && !bundle_bit_set(
                old(self).position_bitmap@,
                bundle_index as int,
            ) ==> r == Ok::<(), ErrorCode>(()) && bundle_bit_set(
                final(self).position_bitmap@,
                bundle_index as int,
            ) && (forall|j: int|
                0 <= j < 32 && j != bundle_index / 8 ==> final(self).position_bitmap@[j] == old(self).position_bitmap@[j]),
    {
        self.update_bitmap(bundle_index, true)
    }

    /// Marks `bundle_index` closed; it must be open.
    pub fn close_bundled_position(&mut self, bundle_index: u16) -> (r: Result<(), ErrorCode>)
        requires
            old(self).wf(),
        ensures
            final(self).wf(),
            bundle_index >= POSITION_BUNDLE_SIZE ==> r == Err::<(), ErrorCode>(
                ErrorCode::InvalidBundleIndex,
            ) && *final(self) == *old(self),
            bundle_index < POSITION_BUNDLE_SIZE && !bundle_bit_set(
                old(self).position_bitmap@,
                bundle_index as int,
            ) ==> r == Err::<(), ErrorCode>(ErrorCode::BundledPositionAlreadyClosed) && *final(self) == *old(self),
            bundle_index < POSITION_BUNDLE_SIZE && bundle_bit_set(
                old(self).position_bitmap@,
                bundle_index as int,
            ) ==> r == Ok::<(), ErrorCode>(()) && !bundle_bit_set(
                final(self).position_bitmap@,
                bundle_index as int,
            ) && (forall|j: int|
                0 <= j < 32 && j != bundle_index / 8 ==> final(self).position_bitmap@[j] == old(self).position_bitmap@[j]),
    {
        self.update_bitmap(bundle_index, false)
    }

    /// Flips one bundle bit, rejecting out-of-range indexes and writes that
    /// would not change the bit.
    fn update_bitmap(&mut self, bundle_index: u16, open: bool) -> (r: Result<(), ErrorCode>)
        requires
            old(self).wf(),
        ensures
            final(self).wf(),
            bundle_index >= POSITION_BUNDLE_SIZE ==> r == Err::<(), ErrorCode>(
                ErrorCode::InvalidBundleIndex,
            ) && *final(self) == *old(self),
            bundle_index < POSITION_BUNDLE_SIZE ==> ({
                let was_open = bundle_bit_set(old(self).position_bitmap@, bundle_index as int);
                &&& (open && was_open ==> r == Err::<(), ErrorCode>(
                    ErrorCode::BundledPositionAlreadyOpened,
                ) && *final(self) == *old(self))
                &&& (!open && !was_open ==> r == Err::<(), ErrorCode>(
                    ErrorCode::BundledPositionAlreadyClosed,
                ) && *final(self) == *old(self))
                &&& (open != was_open ==> r == Ok::<(), ErrorCode>(()) && bundle_bit_set(
                    final(self).position_bitmap@,
                    bundle_index as int,
                ) == open && (forall|j: int|
                    0 <= j < 32 && j != bundle_index / 8 ==> final(self).position_bitmap@[j]
                        == old(self).position_bitmap@[j]))
            }),
    {
        if bundle_index >= POSITION_BUNDLE_SIZE {
            return Err(ErrorCode::InvalidBundleIndex);
        }
        let bitmap_index = (bundle_index / 8) as usize;
        let bitmap_offset = bundle_index % 8;
        let bitmap = self.position_bitmap[bitmap_index];

        let mask: u8 = if bitmap_offset == 0 {
            1
        } else if bitmap_offset == 1 {
            2
        } else if bitmap_offset == 2 {
            4
        } else if bitmap_offset == 3 {
            8
        } else if bitmap_offset == 4 {
            16
        } else if bitmap_offset == 5 {
            32
        } else if bitmap_offset == 6 {
            64
        } else {
            128
        };
        let opened = (bitmap / mask) % 2 == 1;

        if open && opened {
            return Err(ErrorCode::BundledPositionAlreadyOpened);
        }
        if !open && !opened {
            return Err(ErrorCode::BundledPositionAlreadyClosed);
        }

        let updated_bitmap: u8 = if opened {
            bitmap - mask
        } else {
            bitmap + mask
        };
        proof {
            lemma_bit_flip(bitmap as nat, mask as nat, bitmap_offset as int, opened);
        }
        self.position_bitmap[bitmap_index] = updated_bitmap;
        Ok(())
    }
}

/// Adding or removing one power of two flips exactly that bit of a byte.
proof fn lemma_bit_flip(bitmap: nat, mask: nat, offset: int, opened: bool)
    requires
        0 <= offset < 8,
        mask == pow2_u8(offset),
        bitmap <= 255,
        opened == ((bitmap / mask) % 2 == 1),
        opened ==> bitmap >= mask,
        !opened ==> bitmap + mask <= 255,
    ensures
        opened ==> ((bitmap - mask) as nat / mask) % 2 == 0,
        !opened ==> ((bitmap + mask) / mask) % 2 == 1,
{
    let q = bitmap / mask;
    let r = bitmap % mask;
    vstd::arithmetic::div_mod::lemma_fundamental_div_mod(bitmap as int, mask as int);
    if opened {
        assert((bitmap - mask) as int == mask * (q - 1) + r) by {
            vstd::arithmetic::mul::lemma_mul_is_distributive_sub(mask as int, q as int, 1);
        }
        vstd::arithmetic::div_mod::lemma_fundamental_div_mod_converse(
            (bitmap - mask) as int,
            mask as int,
            q as int - 1,
            r as int,
        );
        assert((q - 1) % 2 == 0) by {
            assert(q % 2 == 1);
        }
    } else {
        assert((bitmap + mask) as int == mask * (q + 1) + r) by {
            vstd::arithmetic::mul::lemma_mul_is_distributive_add(mask as int, q as int, 1);
        }
        vstd::arithmetic::div_mod::lemma_fundamental_div_mod_converse(
            (bitmap + mask) as int,
            mask as int,
            q as int + 1,
            r as int,
        );
        assert((q + 1) % 2 == 1) by {
            assert(q % 2 == 0);
        }
    }
}

} // verus!
