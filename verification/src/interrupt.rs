//! The interrupt controller: the IE mask at 0xFFFF, the IF pending set at
//! 0xFF0F, and the fixed priority order VBlank, LCDStat, Timer, Serial,
//! Joypad.

use vstd::prelude::*;

use crate::bus::Bus;

verus! {

#[derive(Debug, Copy, Clone, PartialEq, Eq, Structural)]
pub enum Interrupt {
    VBlank,
    LCDStat,
    Timer,
    Serial,
    Joypad,
    NoSource,
}

/// The IF/IE bit of an interrupt source; `NoSource` owns no bit.
pub open spec fn int_mask(source: Interrupt) -> u8 {
    match source {
        Interrupt::VBlank => 0x01,
        Interrupt::LCDStat => 0x02,
        Interrupt::Timer => 0x04,
        Interrupt::Serial => 0x08,
        Interrupt::Joypad => 0x10,
        Interrupt::NoSource => 0x00,
    }
}

/// The highest-priority source whose bit is set in `v`, or `NoSource`.
pub open spec fn first_pending(v: u8) -> Interrupt {
    if v & 0x01 != 0 {
        Interrupt::VBlank
    } else if v & 0x02 != 0 {
        Interrupt::LCDStat
    } else if v & 0x04 != 0 {
        Interrupt::Timer
    } else if v & 0x08 != 0 {
        Interrupt::Serial
    } else if v & 0x10 != 0 {
        Interrupt::Joypad
    } else {
        Interrupt::NoSource
    }
}

/// The interrupt vector each source is serviced through.
pub open spec fn int_vector(source: Interrupt) -> u16 {
    match source {
        Interrupt::VBlank => 0x40,
        Interrupt::LCDStat => 0x48,
        Interrupt::Timer => 0x50,
        Interrupt::Serial => 0x58,
        Interrupt::Joypad => 0x60,
        Interrupt::NoSource => 0x00,
    }
}

pub const IE_REG_ADDR: u16 = 0xFFFF;

pub const IF_REG_ADDR: u16 = 0xFF0F;

fn mask_of(source: &Interrupt) -> (r: u8)
    ensures
        r == int_mask(*source),
{
    match *source {
        Interrupt::VBlank => 0x01,
        Interrupt::LCDStat => 0x02,
        Interrupt::Timer => 0x04,
        Interrupt::Serial => 0x08,
        Interrupt::Joypad => 0x10,
        Interrupt::NoSource => 0x00,
    }
}

/// Marks one source pending: its bit is set in IF. `NoSource` cannot be
/// requested.
pub fn request<B: Bus>(bus: &mut B, source: Interrupt)
    requires
        source != Interrupt::NoSource,
    ensures
        final(bus).model() == B::upd8(
            old(bus).model(),
            IF_REG_ADDR,
            B::view8(old(bus).model(), IF_REG_ADDR) | int_mask(source),
        ),
{
    let if_reg = bus.read8(IF_REG_ADDR);
    bus.write8(IF_REG_ADDR, if_reg | mask_of(&source));
}

/// Clears one source's pending bit in IF. `NoSource` cannot be discarded.
fn discard<B: Bus>(bus: &mut B, source: Interrupt)
    requires
        source != Interrupt::NoSource,
    ensures
        final(bus).model() == B::upd8(
            old(bus).model(),
            IF_REG_ADDR,
            B::view8(old(bus).model(), IF_REG_ADDR) & !int_mask(source),
        ),
{
    let if_reg = bus.read8(IF_REG_ADDR);
    bus.write8(IF_REG_ADDR, if_reg & !mask_of(&source));
}

/// Picks the highest-priority source that is both enabled in IE and pending
/// in IF, clears its pending bit and returns it. When no source is selected
/// the result is `NoSource` and the bus is untouched.
pub fn receive<B: Bus>(bus: &mut B) -> (r: Interrupt)
    ensures
        ({
            let v = B::view8(old(bus).model(), IE_REG_ADDR) & B::view8(
                old(bus).model(),
                IF_REG_ADDR,
            );
            &&& r == first_pending(v)
            &&& final(bus).model() == if r == Interrupt::NoSource {
                old(bus).model()
            } else {
                B::upd8(
                    old(bus).model(),
                    IF_REG_ADDR,
                    B::view8(old(bus).model(), IF_REG_ADDR) & !int_mask(r),
                )
            }
        }),
{
    let ie_reg = bus.read8(IE_REG_ADDR);
    let if_reg = bus.read8(IF_REG_ADDR);
    let v = ie_reg & if_reg;

    if (v & 0x01) != 0 {
        discard(bus, Interrupt::VBlank);
        Interrupt::VBlank
    } else if (v & 0x02) != 0 {
        discard(bus, Interrupt::LCDStat);
        Interrupt::LCDStat
    } else if (v & 0x04) != 0 {
        discard(bus, Interrupt::Timer);
        Interrupt::Timer
    } else if (v & 0x08) != 0 {
        discard(bus, Interrupt::Serial);
        Interrupt::Serial
    } else if (v & 0x10) != 0 {
        discard(bus, Interrupt::Joypad);
        Interrupt::Joypad
    } else {
        Interrupt::NoSource
    }
}

/// The fixed service order: with every source enabled and pending, `receive`
/// picks VBlank first, and as each source's pending bit is discarded the
/// next pick walks down the priority order LCDStat, Timer, Serial, Joypad,
/// ending with no source at all.
pub proof fn lemma_interrupt_service_order()
    ensures
        first_pending(0xFF) == Interrupt::VBlank,
        first_pending(0xFF & !int_mask(Interrupt::VBlank)) == Interrupt::LCDStat,
        first_pending(0xFF & !int_mask(Interrupt::VBlank) & !int_mask(Interrupt::LCDStat))
            == Interrupt::Timer,
        first_pending(
            0xFF & !int_mask(Interrupt::VBlank) & !int_mask(Interrupt::LCDStat) & !int_mask(
                Interrupt::Timer,
            ),
        ) == Interrupt::Serial,
        first_pending(
            0xFF & !int_mask(Interrupt::VBlank) & !int_mask(Interrupt::LCDStat) & !int_mask(
                Interrupt::Timer,
            ) & !int_mask(Interrupt::Serial),
        ) == Interrupt::Joypad,
        first_pending(
            0xFF & !int_mask(Interrupt::VBlank) & !int_mask(Interrupt::LCDStat) & !int_mask(
                Interrupt::Timer,
            ) & !int_mask(Interrupt::Serial) & !int_mask(Interrupt::Joypad),
        ) == Interrupt::NoSource,
{
    assert((0xFFu8 & 0x01 != 0) && (0xFFu8 & !0x01u8) == 0xFE && (0xFEu8 & 0x01) == 0 && (0xFEu8
        & 0x02) != 0 && (0xFEu8 & !0x02u8) == 0xFC && (0xFCu8 & 0x01) == 0 && (0xFCu8 & 0x02)
        == 0 && (0xFCu8 & 0x04) != 0 && (0xFCu8 & !0x04u8) == 0xF8 && (0xF8u8 & 0x01) == 0 && (
    0xF8u8 & 0x02) == 0 && (0xF8u8 & 0x04) == 0 && (0xF8u8 & 0x08) != 0 && (0xF8u8 & !0x08u8)
        == 0xF0 && (0xF0u8 & 0x01) == 0 && (0xF0u8 & 0x02) == 0 && (0xF0u8 & 0x04) == 0 && (
    0xF0u8 & 0x08) == 0 && (0xF0u8 & 0x10) != 0 && (0xF0u8 & !0x10u8) == 0xE0 && (0xE0u8 & 0x01)
        == 0 && (0xE0u8 & 0x02) == 0 && (0xE0u8 & 0x04) == 0 && (0xE0u8 & 0x08) == 0 && (0xE0u8
        & 0x10) == 0) by (bit_vector);
}

/// The raw pending set, as the halt wake-up check wants it.
pub fn dump_raw_flags<B: Bus>(bus: &B) -> (r: u8)
    ensures
        r == B::view8(bus.model(), IF_REG_ADDR),
{
    bus.read8(IF_REG_ADDR)
}

} // verus!
