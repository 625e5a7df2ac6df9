use vstd::prelude::*;

use crate::cpu::{wrap16, Cpu};

verus! {

/// The address that `base` indexed by `index` gives on the zero page: the sum wraps within
/// page 0.
pub open spec fn zero_page_indexed(base: u16, index: u8) -> u16 {
    ((base + index) % 256) as u16
}

/// The address that an indexed absolute access puts on the bus first: the high byte of the
/// base address with the low byte of the indexed sum, whose carry is not added yet.
pub open spec fn indexed_first_try(high: u8, low: u16, index: u8) -> u16 {
    (high * 256 + (low + index) % 256) as u16
}

/// The address of the second byte of a JMP (indirect) pointer: the 6502 does not carry into
/// the high byte, so a pointer at the end of a page wraps to that page's start.
pub open spec fn indirect_next(ab: u16) -> u16 {
    ((ab / 256) * 256 + (ab + 1) % 256) as u16
}

impl Cpu {
    /// Indexes the zero-page address on the bus by X or Y, wrapping within page 0.
    pub fn index_zero_page(&mut self, index: u8)
        ensures
            *final(self) == (Cpu { ab: zero_page_indexed(old(self).ab, index), ..*old(self) }),
    {
        let ab = self.ab;
        assert(ab <= 0xFFFF);
        self.ab = ((ab as u32 + index as u32) % 256) as u16;
    }

    /// Moves to the next byte of a zero-page pointer, wrapping within page 0.
    pub fn next_zero_page_byte(&mut self)
        ensures
            *final(self) == (Cpu { ab: zero_page_indexed(old(self).ab, 1), ..*old(self) }),
    {
        self.index_zero_page(1);
    }

    /// Puts on the bus the address whose high byte is `high` and whose low byte was kept in
    /// `temp`.
    pub fn join_address(&mut self, high: u8)
        ensures
            *final(self) == (Cpu { ab: (high * 256 + old(self).temp % 256) as u16, ..*old(self) }),
    {
        let low = (self.temp % 256) as u16;
        self.ab = (high as u16) * 256 + low;
    }

    /// The first address of an indexed absolute or (indirect),Y access: the high byte is
    /// `high`, the low byte is `temp` plus the index without its carry. Gives whether the
    /// carry crossed a page, which costs a cycle that fixes the high byte.
    pub fn index_absolute(&mut self, high: u8, index: u8) -> (crossed: bool)
        requires
            old(self).temp < 256,
        ensures
            *final(self) == (Cpu { ab: indexed_first_try(high, old(self).temp, index), ..*old(self) }),
            crossed == (old(self).temp + index >= 256),
    {
        let sum = self.temp + index as u16;
        self.ab = (high as u16) * 256 + sum % 256;
        sum >= 0x100
    }

    /// The cycle that adds the carry of an indexed access to the high byte of the address.
    pub fn fix_high_byte(&mut self)
        ensures
            *final(self) == (Cpu { ab: wrap16(old(self).ab + 0x100), ..*old(self) }),
    {
        self.ab = self.ab.wrapping_add(0x100);
    }

    /// Moves to the second byte of a JMP (indirect) pointer, without carrying into the high
    /// byte.
    pub fn next_indirect_byte(&mut self)
        ensures
            *final(self) == (Cpu { ab: indirect_next(old(self).ab), ..*old(self) }),
    {
        let ab = self.ab;
        self.ab = (ab / 256) * 256 + ((ab % 256 + 1) % 256);
    }
}

/// Zero-page indexing never leaves page 0.
pub proof fn lemma_zero_page_stays(base: u16, index: u8)
    ensures
        zero_page_indexed(base, index) < 256,
{
}

/// An indexed absolute access reaches the full sum of the base address and the index: its
/// first address, plus one page when the low byte carried, is that sum within the 64 KiB
/// address space.
pub proof fn lemma_indexed_absolute(high: u8, low: u8, index: u8)
    ensures
        ({
            let first = indexed_first_try(high, low as u16, index);
            let fixed = if low + index >= 256 { wrap16(first + 0x100) } else { first };
            fixed == wrap16(high * 256 + low + index)
        }),
{
}

/// The second byte of a JMP (indirect) pointer comes from the same page as the first: at
/// the end of a page it comes from the page's start.
pub proof fn lemma_indirect_same_page(ab: u16)
    ensures
        indirect_next(ab) / 256 == ab / 256,
        ab % 256 == 255 ==> indirect_next(ab) % 256 == 0,
        ab % 256 < 255 ==> indirect_next(ab) == ab + 1,
{
}

} // verus!
