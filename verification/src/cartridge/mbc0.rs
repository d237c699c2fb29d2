//! The no-banking cartridge: the whole ROM at 0x0000..=0x7FFF and 8 KiB of
//! internal RAM at 0xA000..=0xBFFF.

use vstd::prelude::*;

use crate::cartridge::rom_byte;
use crate::cartridge::valid_cart_addr;
use crate::ram::byte_vec;
use crate::ram::filled;

verus! {

/// The mathematical state of a no-banking cartridge.
pub ghost struct Mbc0View {
    pub rom: Seq<u8>,
    pub ram: Seq<u8>,
}

impl Mbc0View {
    pub open spec fn wf(self) -> bool {
        self.ram.len() == 0x2000
    }

    /// ROM below 0x8000; RAM in the external window. Reads past the end of
    /// the ROM image give 0xFF, as an open bus would.
    pub open spec fn read(self, addr: u16) -> u8 {
        if addr < 0x8000 {
            rom_byte(self.rom, addr as int)
        } else {
            self.ram[addr - 0xA000]
        }
    }

    /// Writes into the RAM window store; writes into the ROM range are
    /// ignored.
    pub open spec fn write(self, addr: u16, data: u8) -> Mbc0View {
        if 0xA000 <= addr < 0xC000 {
            Mbc0View { ram: self.ram.update(addr - 0xA000, data), ..self }
        } else {
            self
        }
    }
}

pub struct Mbc0 {
    rom: Vec<u8>,
    ram: Vec<u8>,
}

impl Mbc0 {
    /// The banks stay in range and the RAM has its fixed size.
    #[verifier::type_invariant]
    spec fn inv(&self) -> bool {
        self@.wf()
    }

    pub closed spec fn view(&self) -> Mbc0View {
        Mbc0View { rom: self.rom@, ram: self.ram@ }
    }

    pub fn new(data: Vec<u8>) -> (r: Mbc0)
        ensures
            r@ == (Mbc0View { rom: data@, ram: filled(0, 0x2000) }),
            r@.wf(),
    {
        Mbc0 { rom: data, ram: byte_vec(0x00, 0x2000) }
    }

    pub fn read(&self, addr: u16) -> (r: u8)
        requires
            valid_cart_addr(addr),
        ensures
            r == self@.read(addr),
    {
        proof {
            use_type_invariant(&*self);
        }
        if addr < 0x8000 {
            if (addr as usize) < self.rom.len() {
                self.rom[addr as usize]
            } else {
                0xFF
            }
        } else {
            self.ram[(addr - 0xA000) as usize]
        }
    }

    pub fn write(&mut self, addr: u16, data: u8)
        requires
            valid_cart_addr(addr),
        ensures
            final(self)@ == old(self)@.write(addr, data),
    {
        proof {
            use_type_invariant(&*self);
        }
        if 0xA000 <= addr && addr < 0xC000 {
            self.ram[(addr - 0xA000) as usize] = data;
        }
    }
}

} // verus!
