//! The MBC1 bank controller: a 7-bit ROM bank number split into a 5-bit low
//! part and a 2-bit upper part, 32 KiB of external RAM in four banks, a RAM
//! enable latch, and a banking mode bit that routes the 2-bit register to
//! ROM or RAM banking.

use vstd::prelude::*;

use crate::cartridge::rom_byte;
use crate::cartridge::valid_cart_addr;
use crate::ram::byte_vec;
use crate::ram::filled;

verus! {

/// The bank-0 quirk: a ROM bank number that would be 0x00, 0x20, 0x40 or
/// 0x60 is bumped by one before use.
pub open spec fn bank_quirk(bank: int) -> int {
    if bank == 0x00 || bank == 0x20 || bank == 0x40 || bank == 0x60 {
        bank + 1
    } else {
        bank
    }
}

/// Applies the bank-0 quirk to a ROM bank number.
pub fn increment_rom_bank(rom_bank: usize) -> (r: usize)
    requires
        rom_bank <= 0x7F,
    ensures
        r == bank_quirk(rom_bank as int),
{
    match rom_bank {
        0x00 | 0x20 | 0x40 | 0x60 => rom_bank + 1,
        _ => rom_bank,
    }
}

/// The mathematical state of an MBC1 cartridge.
pub ghost struct Mbc1View {
    pub rom: Seq<u8>,
    pub rom_bank: int,
    pub ram: Seq<u8>,
    pub ram_bank: int,
    /// The banking mode bit: false routes the 2-bit register to the upper
    /// ROM bank bits, true to the RAM bank.
    pub model1: bool,
    pub ram_enabled: bool,
}

impl Mbc1View {
    pub open spec fn wf(self) -> bool {
        &&& self.ram.len() == 0x8000
        &&& 0 <= self.rom_bank <= 0x7F
        &&& 0 <= self.ram_bank <= 3
    }

    /// Bank 0 sits at 0x0000..=0x3FFF; the switchable window at
    /// 0x4000..=0x7FFF maps to `rom_bank * 0x4000`. RAM reads give 0xFF
    /// while disabled.
    pub open spec fn read(self, addr: u16) -> u8 {
        if addr < 0x4000 {
            rom_byte(self.rom, addr as int)
        } else if addr < 0x8000 {
            rom_byte(self.rom, (addr - 0x4000) + self.rom_bank * 0x4000)
        } else if !self.ram_enabled {
            0xFF
        } else {
            self.ram[(addr - 0xA000) + self.ram_bank * 0x2000]
        }
    }

    /// Control writes decode by address range; a low nibble of 0x0A enables
    /// RAM, anything else disables it. RAM-window writes store only while
    /// RAM is enabled.
    pub open spec fn write(self, addr: u16, data: u8) -> Mbc1View {
        if addr < 0x2000 {
            Mbc1View { ram_enabled: data % 16 == 0x0A, ..self }
        } else if addr < 0x4000 {
            Mbc1View {
                rom_bank: bank_quirk(self.rom_bank / 32 * 32 + data % 32),
                ..self
            }
        } else if addr < 0x6000 {
            if !self.model1 {
                Mbc1View {
                    rom_bank: bank_quirk((data % 4) * 32 + self.rom_bank % 32),
                    ..self
                }
            } else {
                Mbc1View { ram_bank: (data % 4) as int, ..self }
            }
        } else if addr < 0x8000 {
            Mbc1View { model1: data % 2 == 1, ..self }
        } else if self.ram_enabled {
            Mbc1View {
                ram: self.ram.update((addr - 0xA000) + self.ram_bank * 0x2000, data),
                ..self
            }
        } else {
            self
        }
    }
}

/// The banking mode: the 2-bit register feeds either the upper ROM bank
/// bits or the RAM bank.
enum MemoryModel {
    Model0,
    Model1,
}

pub struct Mbc1 {
    rom: Vec<u8>,
    rom_bank: usize,
    ram: Vec<u8>,
    ram_bank: usize,
    memory_model: MemoryModel,
    ram_enabled: bool,
}

impl Mbc1 {
    /// The banks stay in range and the RAM has its fixed size.
    #[verifier::type_invariant]
    spec fn inv(&self) -> bool {
        self@.wf()
    }

    pub closed spec fn view(&self) -> Mbc1View {
        Mbc1View {
            rom: self.rom@,
            rom_bank: self.rom_bank as int,
            ram: self.ram@,
            ram_bank: self.ram_bank as int,
            model1: self.memory_model is Model1,
            ram_enabled: self.ram_enabled,
        }
    }

    pub fn new(data: Vec<u8>) -> (r: Mbc1)
        ensures
            r@ == (Mbc1View {
                rom: data@,
                rom_bank: 1,
                ram: filled(0, 0x8000),
                ram_bank: 0,
                model1: false,
                ram_enabled: false,
            }),
            r@.wf(),
    {
        Mbc1 {
            rom: data,
            rom_bank: 1,
            ram: byte_vec(0x00, 0x8000),
            ram_bank: 0,
            memory_model: MemoryModel::Model0,
            ram_enabled: false,
        }
    }

    pub fn read(&self, addr: u16) -> (r: u8)
        requires
            valid_cart_addr(addr),
        ensures
            r == self@.read(addr),
    {
        proof {
            use_type_invariant(&*self);
        }
        if addr < 0x4000 {
            if (addr as usize) < self.rom.len() {
                self.rom[addr as usize]
            } else {
                0xFF
            }
        } else if addr < 0x8000 {
            let idx = (addr as usize - 0x4000) + self.rom_bank * 0x4000;
            if idx < self.rom.len() {
                self.rom[idx]
            } else {
                0xFF
            }
        } else if !self.ram_enabled {
            0xFF
        } else {
            self.ram[(addr as usize - 0xA000) + self.ram_bank * 0x2000]
        }
    }

    pub fn write(&mut self, addr: u16, data: u8)
        requires
            valid_cart_addr(addr),
        ensures
            final(self)@ == old(self)@.write(addr, data),
    {
        proof {
            use_type_invariant(&*self);
        }
        if addr < 0x2000 {
            // 0x0A in the low nibble enables RAM; anything else disables it
            self.ram_enabled = data % 16 == 0x0A;
        } else if addr < 0x4000 {
            let bank = self.rom_bank / 32 * 32 + (data % 32) as usize;
            self.rom_bank = increment_rom_bank(bank);
        } else if addr < 0x6000 {
            match self.memory_model {
                MemoryModel::Model0 => {
                    let bank = ((data % 4) as usize) * 32 + self.rom_bank % 32;
                    self.rom_bank = increment_rom_bank(bank);
                },
                MemoryModel::Model1 => {
                    self.ram_bank = (data % 4) as usize;
                },
            }
        } else if addr < 0x8000 {
            self.memory_model = if data % 2 == 0 {
                MemoryModel::Model0
            } else {
                MemoryModel::Model1
            };
        } else if self.ram_enabled {
            self.ram[(addr as usize - 0xA000) + self.ram_bank * 0x2000] = data;
        }
    }
}

} // verus!
