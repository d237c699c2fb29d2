//! The LCD registers: their addresses, the LCDC control bits and the STAT
//! status byte with its mode field and interrupt-enable bits.

use vstd::prelude::*;

use crate::bus::Bus;
use crate::ppu::Mode;

verus! {

#[derive(Debug, Copy, Clone)]
pub enum Register {
    LCDC,  // LCD Control
    STAT,  // LCD Control Status
    SCY,  // Scroll Y
    SCX,  // Scroll X
    LY,  // Y-Coordinate
    LYC,  // LY Compare
    DMA,  // DMA Transfer and Start Address
    BGP,  // BG Palette Data
    OBP0,  // Object Palette 0 Data
    OBP1,  // Object Palette 1 Data
    WY,  // Window Y Position
    WX,  // Window X Position - 7
}

/// The I/O address each LCD register sits at.
pub open spec fn reg_addr(r: Register) -> u16 {
    match r {
        Register::LCDC => 0xFF40,
        Register::STAT => 0xFF41,
        Register::SCY => 0xFF42,
        Register::SCX => 0xFF43,
        Register::LY => 0xFF44,
        Register::LYC => 0xFF45,
        Register::DMA => 0xFF46,
        Register::BGP => 0xFF47,
        Register::OBP0 => 0xFF48,
        Register::OBP1 => 0xFF49,
        Register::WY => 0xFF4A,
        Register::WX => 0xFF4B,
    }
}

impl Register {
    fn address(&self) -> (r: u16)
        ensures
            r == reg_addr(*self),
    {
        match *self {
            Register::LCDC => 0xFF40,
            Register::STAT => 0xFF41,
            Register::SCY => 0xFF42,
            Register::SCX => 0xFF43,
            Register::LY => 0xFF44,
            Register::LYC => 0xFF45,
            Register::DMA => 0xFF46,
            Register::BGP => 0xFF47,
            Register::OBP0 => 0xFF48,
            Register::OBP1 => 0xFF49,
            Register::WY => 0xFF4A,
            Register::WX => 0xFF4B,
        }
    }

    pub fn read<B: Bus>(&self, bus: &B) -> (r: u8)
        ensures
            r == B::view8(bus.model(), reg_addr(*self)),
    {
        bus.read8(self.address())
    }

    pub fn write<B: Bus>(&self, bus: &mut B, v: u8)
        ensures
            final(bus).model() == B::upd8(old(bus).model(), reg_addr(*self), v),
    {
        let addr = self.address();
        bus.write8(addr, v);
    }
}

#[derive(Copy, Clone)]
pub struct LCDControl(pub u8);

impl LCDControl {
    pub fn new(v: u8) -> (r: LCDControl)
        ensures
            r.0 == v,
    {
        LCDControl(v)
    }

    pub fn raw(&self) -> (r: u8)
        ensures
            r == self.0,
    {
        self.0
    }

    /// Bit 0: background and window drawing.
    pub fn bgwin_enabled(&self) -> (r: bool)
        ensures
            r == (self.0 & 0x01 != 0),
    {
        self.0 & 0x01 != 0
    }

    /// Bit 1: sprite drawing.
    pub fn obj_enabled(&self) -> (r: bool)
        ensures
            r == (self.0 & 0x02 != 0),
    {
        self.0 & 0x02 != 0
    }

    /// Bit 2: sprites are 8 or 16 pixels tall.
    pub fn obj_height(&self) -> (r: u8)
        ensures
            r == (if self.0 & 0x04 == 0 {
                8u8
            } else {
                16u8
            }),
    {
        if self.0 & 0x04 == 0 {
            8
        } else {
            16
        }
    }

    /// Bit 3: which background tile map is in use.
    pub fn bg_map_loc(&self) -> (r: u16)
        ensures
            r == (if self.0 & 0x08 == 0 {
                0x9800u16
            } else {
                0x9C00u16
            }),
    {
        if self.0 & 0x08 == 0 {
            0x9800
        } else {
            0x9C00
        }
    }

    /// Bit 4: which tile-data area backgrounds and the window use.
    pub fn bgwin_tile_loc(&self) -> (r: u16)
        ensures
            r == (if self.0 & 0x10 == 0 {
                0x8800u16
            } else {
                0x8000u16
            }),
    {
        if self.0 & 0x10 == 0 {
            0x8800
        } else {
            0x8000
        }
    }

    /// Bit 5: window drawing.
    pub fn win_enabled(&self) -> (r: bool)
        ensures
            r == (self.0 & 0x20 != 0),
    {
        self.0 & 0x20 != 0
    }

    /// Bit 6: which window tile map is in use.
    pub fn win_map_loc(&self) -> (r: u16)
        ensures
            r == (if self.0 & 0x40 == 0 {
                0x9800u16
            } else {
                0x9C00u16
            }),
    {
        if self.0 & 0x40 == 0 {
            0x9800
        } else {
            0x9C00
        }
    }

    /// Bit 7: the LCD itself.
    pub fn lcd_enabled(&self) -> (r: bool)
        ensures
            r == (self.0 & 0x80 != 0),
    {
        self.0 & 0x80 != 0
    }
}

/// The mode field in STAT's two low bits.
pub open spec fn mode_bits(mode: Mode) -> u8 {
    match mode {
        Mode::HBlank => 0,
        Mode::VBlank => 1,
        Mode::OAMRead => 2,
        Mode::VRAMRead => 3,
    }
}

/// The mode the two low STAT bits name.
pub open spec fn mode_of_bits(v: u8) -> Mode {
    match v % 4 {
        0u8 => Mode::HBlank,
        1u8 => Mode::VBlank,
        2u8 => Mode::OAMRead,
        _ => Mode::VRAMRead,
    }
}

/// Replacing the mode field or the coincidence bit leaves the four
/// interrupt-enable bits of STAT as they were.
pub proof fn lemma_stat_bits()
    by (bit_vector)
    ensures
        forall|s: u8, c: u8| c < 4 ==> #[trigger] (((s / 4 * 4 + c) as u8) & 0x08) == s & 0x08,
        forall|s: u8, c: u8| c < 4 ==> #[trigger] (((s / 4 * 4 + c) as u8) & 0x10) == s & 0x10,
        forall|s: u8, c: u8| c < 4 ==> #[trigger] (((s / 4 * 4 + c) as u8) & 0x20) == s & 0x20,
        forall|s: u8, c: u8| c < 4 ==> #[trigger] (((s / 4 * 4 + c) as u8) & 0x40) == s & 0x40,
        forall|s: u8| #[trigger] (((s & 0xFB) | 4u8) & 0x40) == s & 0x40,
        forall|s: u8| #[trigger] ((s & 0xFB) & 0x40) == s & 0x40,
{
}

#[derive(Copy, Clone)]
pub struct LCDStatus(pub u8);

impl LCDStatus {
    pub fn new(v: u8) -> (r: LCDStatus)
        ensures
            r.0 == v,
    {
        LCDStatus(v)
    }

    pub fn raw(&self) -> (r: u8)
        ensures
            r == self.0,
    {
        self.0
    }

    /// The mode in the two low bits.
    pub fn mode(&self) -> (r: Mode)
        ensures
            r == mode_of_bits(self.0),
    {
        let v = self.0 % 4;
        if v == 0 {
            Mode::HBlank
        } else if v == 1 {
            Mode::VBlank
        } else if v == 2 {
            Mode::OAMRead
        } else {
            Mode::VRAMRead
        }
    }

    /// Replaces the two low bits with the mode.
    pub fn set_mode(&mut self, mode: Mode)
        ensures
            final(self).0 == old(self).0 / 4 * 4 + mode_bits(mode),
            mode_of_bits(final(self).0) == mode,
    {
        let code: u8 = match mode {
            Mode::HBlank => 0,
            Mode::VBlank => 1,
            Mode::OAMRead => 2,
            Mode::VRAMRead => 3,
        };
        self.0 = self.0 / 4 * 4 + code;
    }

    /// Sets or clears the LY=LYC coincidence bit (bit 2).
    pub fn set_lyc_coincidence(&mut self, v: bool)
        ensures
            final(self).0 == (if v {
                (old(self).0 & 0xFB) | 4u8
            } else {
                old(self).0 & 0xFB
            }),
    {
        self.0 = self.0 & 0xFB;
        if v {
            self.0 = self.0 | 0x04;
        }
    }

    /// Bit 3: request LCDStat on entering HBlank.
    pub fn hblank_interrupt_enabled(&self) -> (r: bool)
        ensures
            r == (self.0 & 0x08 != 0),
    {
        self.0 & 0x08 != 0
    }

    /// Bit 4: request LCDStat on entering VBlank.
    pub fn vblank_interrupt_enabled(&self) -> (r: bool)
        ensures
            r == (self.0 & 0x10 != 0),
    {
        self.0 & 0x10 != 0
    }

    /// Bit 5: request LCDStat on entering the OAM scan.
    pub fn oam_interrupt_enabled(&self) -> (r: bool)
        ensures
            r == (self.0 & 0x20 != 0),
    {
        self.0 & 0x20 != 0
    }

    /// Bit 6: request LCDStat on an LY=LYC coincidence.
    pub fn lyc_coincidence_interrupt_enabled(&self) -> (r: bool)
        ensures
            r == (self.0 & 0x40 != 0),
    {
        self.0 & 0x40 != 0
    }
}

} // verus!
