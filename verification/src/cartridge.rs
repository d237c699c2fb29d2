//! The cartridge: a ROM image plus the memory bank controller its type byte
//! at 0x0147 selects. Bank 0 is always mapped at 0x0000..=0x3FFF; the window
//! at 0x4000..=0x7FFF follows the controller's ROM bank; 0xA000..=0xBFFF is
//! the external RAM window.

pub mod mbc0;
pub mod mbc1;
pub mod mbc5;
pub mod no_mbc;

use vstd::prelude::*;

use crate::cartridge::mbc0::Mbc0;
use crate::cartridge::mbc0::Mbc0View;
use crate::cartridge::mbc1::Mbc1;
use crate::cartridge::mbc1::Mbc1View;
use crate::cartridge::mbc5::Mbc5;
use crate::cartridge::mbc5::Mbc5View;
use crate::ram::filled;

verus! {

/// The address ranges a cartridge answers: the two ROM windows and the
/// external RAM window.
pub open spec fn valid_cart_addr(addr: u16) -> bool {
    addr < 0x8000 || (0xA000 <= addr < 0xC000)
}

/// The byte at a ROM offset; past the end of the image an open bus reads
/// 0xFF.
pub open spec fn rom_byte(rom: Seq<u8>, idx: int) -> u8 {
    if 0 <= idx < rom.len() {
        rom[idx]
    } else {
        0xFF
    }
}

/// Why a cartridge image is rejected.
#[derive(Debug, Copy, Clone, PartialEq, Eq, Structural)]
pub enum CartridgeError {
    /// The type byte names a controller this machine does not have.
    UnsupportedCartridge,
    /// The image ends before the type byte at 0x0147.
    TruncatedCartridge,
}

/// The address of the cartridge type byte.
pub const CARTRIDGE_TYPE_ADDR: u16 = 0x0147;

/// Type bytes that select the no-banking controller.
pub open spec fn is_mbc0_type(b: u8) -> bool {
    b == 0x00 || b == 0x08 || b == 0x09
}

/// Type bytes that select MBC1.
pub open spec fn is_mbc1_type(b: u8) -> bool {
    b == 0x01 || b == 0x02 || b == 0x03
}

/// Type bytes that select MBC5.
pub open spec fn is_mbc5_type(b: u8) -> bool {
    b == 0x19 || b == 0x1A || b == 0x1B || b == 0x1C || b == 0x1D || b == 0x1E
}

/// The mathematical state of a cartridge: one of the three controllers.
pub ghost enum CartView {
    M0(Mbc0View),
    M1(Mbc1View),
    M5(Mbc5View),
}

impl CartView {
    pub open spec fn wf(self) -> bool {
        match self {
            CartView::M0(v) => v.wf(),
            CartView::M1(v) => v.wf(),
            CartView::M5(v) => v.wf(),
        }
    }

    pub open spec fn read(self, addr: u16) -> u8 {
        match self {
            CartView::M0(v) => v.read(addr),
            CartView::M1(v) => v.read(addr),
            CartView::M5(v) => v.read(addr),
        }
    }

    pub open spec fn write(self, addr: u16, data: u8) -> CartView {
        match self {
            CartView::M0(v) => CartView::M0(v.write(addr, data)),
            CartView::M1(v) => CartView::M1(v.write(addr, data)),
            CartView::M5(v) => CartView::M5(v.write(addr, data)),
        }
    }
}

/// The freshly constructed cartridge state for an image, by its type byte.
pub open spec fn fresh_cart(data: Seq<u8>) -> CartView {
    if is_mbc1_type(data[0x0147]) {
        CartView::M1(
            Mbc1View {
                rom: data,
                rom_bank: 1,
                ram: filled(0, 0x8000),
                ram_bank: 0,
                model1: false,
                ram_enabled: false,
            },
        )
    } else if is_mbc5_type(data[0x0147]) {
        CartView::M5(
            Mbc5View {
                rom: data,
                rom_bank: 1,
                ram: filled(0, 0x20000),
                ram_bank: 0,
                ram_enabled: false,
            },
        )
    } else {
        CartView::M0(Mbc0View { rom: data, ram: filled(0, 0x2000) })
    }
}

enum Mbc {
    Mbc0(Mbc0),
    Mbc1(Mbc1),
    Mbc5(Mbc5),
}

pub struct Cartridge {
    mbc: Mbc,
}

impl Cartridge {
    pub closed spec fn view(&self) -> CartView {
        match self.mbc {
            Mbc::Mbc0(ref c) => CartView::M0(c@),
            Mbc::Mbc1(ref c) => CartView::M1(c@),
            Mbc::Mbc5(ref c) => CartView::M5(c@),
        }
    }

    /// Builds the cartridge the image describes. The image is rejected as
    /// truncated when the type byte at 0x0147 lies past its end, and as
    /// unsupported when that byte names no controller this machine has;
    /// every image with a recognized type byte is accepted.
    pub fn new(data: Vec<u8>) -> (r: Result<Cartridge, CartridgeError>)
        ensures
            ({
                let ok = data@.len() > 0x0147 && (is_mbc0_type(data@[0x0147]) || is_mbc1_type(
                    data@[0x0147],
                ) || is_mbc5_type(data@[0x0147]));
                match r {
                    Ok(c) => ok && c@ == fresh_cart(data@),
                    Err(e) => !ok && e == (if data@.len() <= 0x0147 {
                        CartridgeError::TruncatedCartridge
                    } else {
                        CartridgeError::UnsupportedCartridge
                    }),
                }
            }),
    {
        if data.len() <= 0x0147 {
            return Err(CartridgeError::TruncatedCartridge);
        }

        let type_byte = data[0x0147];
        match type_byte {
            0x00 | 0x08 | 0x09 => Ok(Cartridge { mbc: Mbc::Mbc0(Mbc0::new(data)) }),
            0x01 | 0x02 | 0x03 => Ok(Cartridge { mbc: Mbc::Mbc1(Mbc1::new(data)) }),
            0x19 | 0x1A | 0x1B | 0x1C | 0x1D | 0x1E => Ok(
                Cartridge { mbc: Mbc::Mbc5(Mbc5::new(data)) },
            ),
            _ => Err(CartridgeError::UnsupportedCartridge),
        }
    }

    pub fn read(&self, addr: u16) -> (r: u8)
        requires
            valid_cart_addr(addr),
        ensures
            r == self@.read(addr),
    {
        match self.mbc {
            Mbc::Mbc0(ref c) => c.read(addr),
            Mbc::Mbc1(ref c) => c.read(addr),
            Mbc::Mbc5(ref c) => c.read(addr),
        }
    }

    pub fn write(&mut self, addr: u16, data: u8)
        requires
            valid_cart_addr(addr),
        ensures
            final(self)@ == old(self)@.write(addr, data),
    {
        match self.mbc {
            Mbc::Mbc0(ref mut c) => c.write(addr, data),
            Mbc::Mbc1(ref mut c) => c.write(addr, data),
            Mbc::Mbc5(ref mut c) => c.write(addr, data),
        }
    }
}

} // verus!
