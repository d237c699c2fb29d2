//! The memory access contract shared by every component on the bus.
//!
//! All memory-bearing components offer 8-bit and 16-bit reads and writes over
//! a flat 16-bit address space. The 16-bit accesses are little-endian
//! composites of two 8-bit accesses at `addr` and `addr + 1`, with address
//! arithmetic wrapping modulo 2^16.

use vstd::prelude::*;

verus! {

/// The low byte of a 16-bit word.
pub open spec fn lo8(w: u16) -> u8 {
    (w % 256) as u8
}

/// The high byte of a 16-bit word.
pub open spec fn hi8(w: u16) -> u8 {
    (w / 256) as u8
}

/// The 16-bit word with low byte `lo` and high byte `hi`.
pub open spec fn word_of(lo: u8, hi: u8) -> u16 {
    (lo + hi * 256) as u16
}

/// A device with a byte-addressed 16-bit address space.
///
/// Each device abstracts to a mathematical `Model`; `view8` gives the byte a
/// read returns at each address of a model, and `upd8` gives the model after
/// a byte write. Every operation is total: no address faults.
pub trait Bus: Sized {
    /// The mathematical state of the device.
    type Model;

    /// The model this device currently is in.
    spec fn model(&self) -> Self::Model;

    /// The byte visible at `addr` of model `m`.
    spec fn view8(m: Self::Model, addr: u16) -> u8;

    /// The model after writing `v` at `addr` of model `m`.
    spec fn upd8(m: Self::Model, addr: u16, v: u8) -> Self::Model;

    fn read8(&self, addr: u16) -> (r: u8)
        ensures
            r == Self::view8(self.model(), addr),
    ;

    fn write8(&mut self, addr: u16, data: u8)
        ensures
            final(self).model() == Self::upd8(old(self).model(), addr, data),
    ;

    fn read16(&self, addr: u16) -> (r: u16)
        ensures
            r == word_of(
                Self::view8(self.model(), addr),
                Self::view8(self.model(), addr.wrapping_add(1)),
            ),
    ;

    fn write16(&mut self, addr: u16, data: u16)
        ensures
            final(self).model() == Self::upd8(
                Self::upd8(old(self).model(), addr, lo8(data)),
                addr.wrapping_add(1),
                hi8(data),
            ),
    ;
}

/// The little-endian word visible at `addr`: low byte at `addr`, high byte at
/// `addr + 1`, wrapping.
pub open spec fn bus_view16<B: Bus>(m: B::Model, addr: u16) -> u16 {
    word_of(B::view8(m, addr), B::view8(m, addr.wrapping_add(1)))
}

/// The model after a little-endian word write at `addr`: low byte first, then
/// the high byte at `addr + 1`, wrapping.
pub open spec fn bus_upd16<B: Bus>(m: B::Model, addr: u16, data: u16) -> B::Model {
    B::upd8(B::upd8(m, addr, lo8(data)), addr.wrapping_add(1), hi8(data))
}

/// Facts that tie the bitwise forms used by executable code to the arithmetic
/// forms `lo8`, `hi8` and `word_of` used in contracts.
pub proof fn lemma_word_bits()
    by (bit_vector)
    ensures
        forall|lo: u8, hi: u8| #[trigger] ((lo as u16) | ((hi as u16) << 8)) == lo + hi * 256,
        forall|lo: u8, hi: u8| #[trigger] (((hi as u16) << 8) | (lo as u16)) == lo + hi * 256,
        forall|w: u16| #[trigger] ((w & 0xFF) as u8) == w % 256,
        forall|w: u16| #[trigger] ((w >> 8) as u8) == w / 256,
{
}

} // verus!
