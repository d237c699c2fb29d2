//! A plain byte array behind the bus contract.
//!
//! `Ram` backs the work memory of the machine and stands in for the whole bus
//! in unit tests. Reads outside the backing array return 0xFF, as an open bus
//! would; writes outside it are dropped.

use vstd::prelude::*;

use crate::bus::Bus;
use crate::bus::lemma_word_bits;

verus! {

/// `n` copies of one byte.
pub open spec fn filled(value: u8, n: nat) -> Seq<u8> {
    Seq::new(n, |i: int| value)
}

/// A vector of `n` copies of one byte.
pub fn byte_vec(value: u8, n: usize) -> (r: Vec<u8>)
    ensures
        r@ == filled(value, n as nat),
{
    let mut r: Vec<u8> = Vec::new();
    let mut i: usize = 0;
    while i < n
        invariant
            i <= n,
            r@ == filled(value, i as nat),
        decreases n - i,
    {
        r.push(value);
        i = i + 1;
        proof {
            assert(r@ =~= filled(value, i as nat));
        }
    }
    r
}

/// The byte visible at an address of a byte array; outside it an open bus
/// reads 0xFF.
pub open spec fn ram_view8(m: Seq<u8>, addr: u16) -> u8 {
    if addr < m.len() {
        m[addr as int]
    } else {
        0xFF
    }
}

/// The byte array after a write; a write outside it is dropped.
pub open spec fn ram_upd8(m: Seq<u8>, addr: u16, v: u8) -> Seq<u8> {
    if addr < m.len() {
        m.update(addr as int, v)
    } else {
        m
    }
}

pub struct Ram {
    pub array: Vec<u8>,
}

impl Ram {
    /// The bytes the array holds.
    pub open spec fn view(&self) -> Seq<u8> {
        self.array@
    }

    pub fn new(array: Vec<u8>) -> (r: Ram)
        ensures
            r@ == array@,
    {
        Ram { array }
    }

    pub fn dump(&self) -> (r: Vec<u8>)
        ensures
            r@ == self@,
    {
        self.array.clone()
    }
}

impl Bus for Ram {
    type Model = Seq<u8>;

    open spec fn model(&self) -> Seq<u8> {
        self.array@
    }

    open spec fn view8(m: Seq<u8>, addr: u16) -> u8 {
        if addr < m.len() {
            m[addr as int]
        } else {
            0xFF
        }
    }

    open spec fn upd8(m: Seq<u8>, addr: u16, v: u8) -> Seq<u8> {
        if addr < m.len() {
            m.update(addr as int, v)
        } else {
            m
        }
    }

    fn read8(&self, addr: u16) -> (r: u8) {
        proof {
            // Names the trait-level view so the solver unfolds it here
            assert(<Ram as Bus>::view8(self.model(), addr) == ram_view8(self.array@, addr));
        }
        if (addr as usize) < self.array.len() {
            self.array[addr as usize]
        } else {
            0xFF
        }
    }

    fn write8(&mut self, addr: u16, data: u8) {
        if (addr as usize) < self.array.len() {
            self.array.set(addr as usize, data);
        }
    }

    fn read16(&self, addr: u16) -> (r: u16) {
        let lo = self.read8(addr);
        let hi = self.read8(addr.wrapping_add(1));
        proof {
            lemma_word_bits();
        }
        (lo as u16) | ((hi as u16) << 8)
    }

    fn write16(&mut self, addr: u16, data: u16) {
        proof {
            lemma_word_bits();
        }
        self.write8(addr, (data & 0xFF) as u8);
        self.write8(addr.wrapping_add(1), (data >> 8) as u8);
    }
}

} // verus!
