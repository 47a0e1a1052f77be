//! The layout of the register window, and stores into it.
//!
//! The window is the block of `MMAP_BLOCK_SIZE` bytes that begins
//! `OFFSET_SIZE` bytes above the peripheral base address. Its registers are
//! words of 32 bits at byte offsets that are multiples of four.

use vstd::prelude::*;

verus! {

/// The size in bytes of the register window.
pub const MMAP_BLOCK_SIZE: usize = 4096;

/// The distance in bytes from the peripheral base address to the first
/// register of the window.
pub const OFFSET_SIZE: u32 = 0x20_0000;

/// Byte offset of the first function-select register in the register window.
pub const FUNCTION_SELECT: usize = 0;

/// The registers that raise the output of a pin. A bit that is set in a word
/// stored there raises one pin; a bit that is clear changes nothing.
#[derive(Clone, Copy, Debug, PartialEq, Eq, Structural)]
pub enum GpfSet {
    /// For the pins 0 to 31.
    GpfSet0,
    /// For the pins from 32 on.
    GpfSet1,
}

impl GpfSet {
    /// The register's byte offset in the register window.
    pub open spec fn spec_offset(self) -> usize {
        match self {
            GpfSet::GpfSet0 => 0x001C,
            GpfSet::GpfSet1 => 0x0020,
        }
    }

    /// The register's byte offset in the register window.
    #[verifier::when_used_as_spec(spec_offset)]
    pub fn offset(self) -> (offset: usize)
        ensures
            offset == self.spec_offset(),
    {
        match self {
            GpfSet::GpfSet0 => 0x001C,
            GpfSet::GpfSet1 => 0x0020,
        }
    }
}

/// The registers that lower the output of a pin. A bit that is set in a word
/// stored there lowers one pin; a bit that is clear changes nothing.
#[derive(Clone, Copy, Debug, PartialEq, Eq, Structural)]
pub enum GpfClr {
    /// For the pins 0 to 31.
    GpfClr0,
    /// For the pins from 32 on.
    GpfClr1,
}

impl GpfClr {
    /// The register's byte offset in the register window.
    pub open spec fn spec_offset(self) -> usize {
        match self {
            GpfClr::GpfClr0 => 0x0028,
            GpfClr::GpfClr1 => 0x002C,
        }
    }

    /// The register's byte offset in the register window.
    #[verifier::when_used_as_spec(spec_offset)]
    pub fn offset(self) -> (offset: usize)
        ensures
            offset == self.spec_offset(),
    {
        match self {
            GpfClr::GpfClr0 => 0x0028,
            GpfClr::GpfClr1 => 0x002C,
        }
    }
}

/// A store of one word into the register window: `value` goes to the
/// register at byte offset `offset`, and replaces all 32 bits of it.
#[derive(Clone, Copy, Debug, PartialEq, Eq, Structural)]
pub struct RegisterWrite {
    pub offset: usize,
    pub value: u32,
}

impl RegisterWrite {
    /// The store is aligned to a word and lies inside the register window.
    pub open spec fn in_window(self) -> bool {
        &&& self.offset % 4 == 0
        &&& self.offset + 4 <= MMAP_BLOCK_SIZE
    }

    /// The words of the window after the store, given its words before.
    pub open spec fn apply(self, window: Seq<u32>) -> Seq<u32> {
        window.update(self.offset as int / 4, self.value)
    }
}

/// A sequence of words is an image of the register window: it has one word
/// for each register, in the order of their offsets.
pub open spec fn is_window(window: Seq<u32>) -> bool {
    window.len() * 4 == MMAP_BLOCK_SIZE
}

/// The word that an image of the window holds at a byte offset.
pub open spec fn word_at(window: Seq<u32>, offset: int) -> u32
    recommends
        is_window(window),
        offset % 4 == 0,
        0 <= offset < MMAP_BLOCK_SIZE,
{
    window[offset / 4]
}

} // verus!
