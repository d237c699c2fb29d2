//! An earlier spelling of the no-banking cartridge, kept alongside `Mbc0`:
//! the whole ROM at 0x0000..=0x7FFF and 8 KiB of RAM at 0xA000..=0xBFFF.

use vstd::prelude::*;

use crate::cartridge::mbc0::Mbc0View;
use crate::cartridge::rom_byte;
use crate::cartridge::valid_cart_addr;
use crate::ram::byte_vec;
use crate::ram::filled;

verus! {

pub struct NoMbc {
    rom: Vec<u8>,
    ram: Vec<u8>,
}

impl NoMbc {
    /// The banks stay in range and the RAM has its fixed size.
    #[verifier::type_invariant]
    spec fn inv(&self) -> bool {
        self@.wf()
    }

    pub closed spec fn view(&self) -> Mbc0View {
        Mbc0View { rom: self.rom@, ram: self.ram@ }
    }

    pub fn new(data: Vec<u8>) -> (r: NoMbc)
        ensures
            r@ == (Mbc0View { rom: data@, ram: filled(0, 0x2000) }),
            r@.wf(),
    {
        NoMbc { rom: data, ram: byte_vec(0x00, 0x2000) }
    }

    pub fn read(&self, addr: u16) -> (r: u8)
        requires
            valid_cart_addr(addr),
        ensures
            r == self@.read(addr),
    {
        proof {
            use_type_invariant(&*self);
        }
        if addr < 0x8000 {
            if (addr as usize) < self.rom.len() {
                self.rom[addr as usize]
            } else {
                0xFF
            }
        } else {
            self.ram[(addr - 0xA000) as usize]
        }
    }

    /// Writes into the RAM window store; writes into the ROM range are
    /// ignored.
    pub fn write(&mut self, addr: u16, data: u8)
        requires
            valid_cart_addr(addr),
        ensures
            final(self)@ == old(self)@.write(addr, data),
    {
        proof {
            use_type_invariant(&*self);
        }
        if 0xA000 <= addr && addr < 0xC000 {
            self.ram[(addr - 0xA000) as usize] = data;
        }
    }
}

} // verus!
