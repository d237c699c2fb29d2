//! The MBC5 bank controller: a 9-bit ROM bank number set through two
//! registers, sixteen 8 KiB RAM banks and a RAM enable latch. There is no
//! bank-0 quirk.

use vstd::prelude::*;

use crate::cartridge::rom_byte;
use crate::cartridge::valid_cart_addr;
use crate::ram::byte_vec;
use crate::ram::filled;

verus! {

/// The mathematical state of an MBC5 cartridge.
pub ghost struct Mbc5View {
    pub rom: Seq<u8>,
    pub rom_bank: int,
    pub ram: Seq<u8>,
    pub ram_bank: int,
    pub ram_enabled: bool,
}

impl Mbc5View {
    pub open spec fn wf(self) -> bool {
        &&& self.ram.len() == 0x20000
        &&& 0 <= self.rom_bank <= 0x1FF
        &&& 0 <= self.ram_bank <= 0x0F
    }

    /// Bank 0 sits at 0x0000..=0x3FFF; the switchable window at
    /// 0x4000..=0x7FFF maps to `rom_bank * 0x4000`. RAM reads give 0xFF
    /// while disabled.
    pub open spec fn read(self, addr: u16) -> u8 {
        if addr < 0x4000 {
            rom_byte(self.rom, addr as int)
        } else if addr < 0x8000 {
            rom_byte(self.rom, (addr - 0x4000) + self.rom_bank * 0x4000)
        } else if !self.ram_enabled {
            0xFF
        } else {
            self.ram[(addr - 0xA000) + self.ram_bank * 0x2000]
        }
    }

    /// Control writes decode by address range; a low nibble of 0x0A enables
    /// RAM, anything else disables it. RAM-window writes store only while
    /// RAM is enabled.
    pub open spec fn write(self, addr: u16, data: u8) -> Mbc5View {
        if addr < 0x2000 {
            Mbc5View { ram_enabled: data % 16 == 0x0A, ..self }
        } else if addr < 0x3000 {
            Mbc5View { rom_bank: self.rom_bank / 256 * 256 + data, ..self }
        } else if addr < 0x4000 {
            Mbc5View { rom_bank: self.rom_bank % 256 + (data % 2) * 256, ..self }
        } else if addr < 0x6000 {
            Mbc5View { ram_bank: (data % 16) as int, ..self }
        } else if addr < 0x8000 {
            self
        } else if self.ram_enabled {
            Mbc5View {
                ram: self.ram.update((addr - 0xA000) + self.ram_bank * 0x2000, data),
                ..self
            }
        } else {
            self
        }
    }
}

pub struct Mbc5 {
    rom: Vec<u8>,
    rom_bank: usize,
    ram: Vec<u8>,
    ram_bank: usize,
    ram_enabled: bool,
}

impl Mbc5 {
    /// The banks stay in range and the RAM has its fixed size.
    #[verifier::type_invariant]
    spec fn inv(&self) -> bool {
        self@.wf()
    }

    pub closed spec fn view(&self) -> Mbc5View {
        Mbc5View {
            rom: self.rom@,
            rom_bank: self.rom_bank as int,
            ram: self.ram@,
            ram_bank: self.ram_bank as int,
            ram_enabled: self.ram_enabled,
        }
    }

    pub fn new(data: Vec<u8>) -> (r: Mbc5)
        ensures
            r@ == (Mbc5View {
                rom: data@,
                rom_bank: 1,
                ram: filled(0, 0x20000),
                ram_bank: 0,
                ram_enabled: false,
            }),
            r@.wf(),
    {
        Mbc5 {
            rom: data,
            rom_bank: 1,
            ram: byte_vec(0x00, 0x20000),
            ram_bank: 0,
            ram_enabled: false,
        }
    }

    pub fn read(&self, addr: u16) -> (r: u8)
        requires
            valid_cart_addr(addr),
        ensures
            r == self@.read(addr),
    {
        proof {
            use_type_invariant(&*self);
        }
        if addr < 0x4000 {
            if (addr as usize) < self.rom.len() {
                self.rom[addr as usize]
            } else {
                0xFF
            }
        } else if addr < 0x8000 {
            let idx = (addr as usize - 0x4000) + self.rom_bank * 0x4000;
            if idx < self.rom.len() {
                self.rom[idx]
            } else {
                0xFF
            }
        } else if !self.ram_enabled {
            0xFF
        } else {
            self.ram[(addr as usize - 0xA000) + self.ram_bank * 0x2000]
        }
    }

    pub fn write(&mut self, addr: u16, data: u8)
        requires
            valid_cart_addr(addr),
        ensures
            final(self)@ == old(self)@.write(addr, data),
    {
        proof {
            use_type_invariant(&*self);
        }
        if addr < 0x2000 {
            // 0x0A in the low nibble enables RAM; anything else disables it
            self.ram_enabled = data % 16 == 0x0A;
        } else if addr < 0x3000 {
            self.rom_bank = self.rom_bank / 256 * 256 + data as usize;
        } else if addr < 0x4000 {
            self.rom_bank = self.rom_bank % 256 + ((data % 2) as usize) * 256;
        } else if addr < 0x6000 {
            self.ram_bank = (data % 16) as usize;
        } else if addr < 0x8000 {
            // No control register lives here on MBC5
        } else if self.ram_enabled {
            self.ram[(addr as usize - 0xA000) + self.ram_bank * 0x2000] = data;
        }
    }
}

} // verus!
