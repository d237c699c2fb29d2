//! The memory management unit: the 64 KiB address-space router.
//!
//! ROM and external RAM ranges go to the cartridge; 0xE000..=0xFDFF mirrors
//! the work RAM 0x2000 below it; a write to the joypad register raises the
//! handshake flag; a write to DIV stores zero; a write to the DMA register
//! copies 0xA0 bytes into the sprite table; everything else is plain memory.

use vstd::prelude::*;

use crate::bus::Bus;
use crate::bus::lemma_word_bits;
use crate::cartridge::Cartridge;
use crate::cartridge::CartView;
use crate::cartridge::valid_cart_addr;
use crate::ram::Ram;
use crate::ram::byte_vec;
use crate::ram::filled;
use crate::ram::ram_upd8;
use crate::ram::ram_view8;

verus! {

/// The mathematical state of the memory unit.
pub ghost struct MmuView {
    pub cart: CartView,
    pub mem: Seq<u8>,
    pub joypad_requested: bool,
}

/// The work memory after the synchronous DMA copy of the first `n` of the
/// 0xA0 sprite-table bytes: step `k` stores the byte at `src + k` into
/// `0xFE00 + k`.
pub open spec fn dma_copy(mem: Seq<u8>, src: u16, n: nat) -> Seq<u8>
    decreases n,
{
    if n == 0 {
        mem
    } else {
        let prev = dma_copy(mem, src, (n - 1) as nat);
        ram_upd8(
            prev,
            (0xFE00 + n - 1) as u16,
            ram_view8(prev, (src + n - 1) as u16),
        )
    }
}

/// The value each I/O register holds right after the boot ROM hands over.
pub open spec fn boot_io_byte(addr: u16) -> u8 {
    match addr {
        0xFF10u16 => 0x80,
        0xFF11u16 => 0xBF,
        0xFF12u16 => 0xF3,
        0xFF14u16 => 0xBF,
        0xFF16u16 => 0x3F,
        0xFF19u16 => 0xBF,
        0xFF1Au16 => 0x7F,
        0xFF1Bu16 => 0xFF,
        0xFF1Cu16 => 0x9F,
        0xFF1Eu16 => 0xBF,
        0xFF20u16 => 0xFF,
        0xFF23u16 => 0xBF,
        0xFF24u16 => 0x77,
        0xFF25u16 => 0xF3,
        0xFF26u16 => 0xF1,
        0xFF40u16 => 0x91,
        0xFF47u16 => 0xFC,
        0xFF48u16 => 0xFF,
        0xFF49u16 => 0xFF,
        0xFF50u16 => 0x01,
        _ => 0x00,
    }
}

/// The unit's state after the joypad register handshake is answered: the
/// nibble picked by the select bits of the last joypad-register write is
/// merged into the register (with the two reserved top bits), and the
/// request flag drops.
pub open spec fn joypad_answer(m: MmuView, state: (u8, u8)) -> MmuView {
    let value = Mmu::view8(m, 0xFF00);
    let input = if value & 0x10 == 0 {
        state.0
    } else if value & 0x20 == 0 {
        state.1
    } else {
        0x0F
    };
    MmuView { joypad_requested: false, ..Mmu::upd8(m, 0xFF00, value | 0xC0 | input) }
}

struct State {
    joypad_requested: bool,
}

impl State {
    fn new() -> (r: State)
        ensures
            !r.joypad_requested,
    {
        State { joypad_requested: false }
    }
}

pub struct Mmu {
    state: State,
    cart: Cartridge,
    memory: Ram,
}

impl Mmu {
    /// A fresh unit: an all-zero 32 KiB no-banking cartridge and 64 KiB of
    /// clear memory.
    pub fn new() -> (r: Mmu)
        ensures
            r.model() == (MmuView {
                cart: crate::cartridge::fresh_cart(filled(0, 0x8000)),
                mem: filled(0, 0x10000),
                joypad_requested: false,
            }),
    {
        let blank = byte_vec(0x00, 0x8000);
        proof {
            assert(filled(0, 0x8000)[0x0147] == 0);
        }
        let cart = match Cartridge::new(blank) {
            Ok(c) => c,
            Err(_) => unreached(),
        };
        Mmu {
            state: State::new(),
            cart,
            memory: Ram::new(byte_vec(0x00, 0x10000)),
        }
    }

    /// Writes the bytes one after another through the normal routing,
    /// starting at `offset` and wrapping.
    pub fn load(&mut self, offset: u16, data: Vec<u8>)
        ensures
            final(self).model() == load_bytes(old(self).model(), offset, data@, data@.len()),
    {
        let ghost m0 = self.model();
        let mut i: usize = 0;
        while i < data.len()
            invariant
                i <= data@.len(),
                self.model() == load_bytes(m0, offset, data@, i as nat),
            decreases data@.len() - i,
        {
            self.write8(offset.wrapping_add(i as u16), data[i]);
            i = i + 1;
        }
    }

    /// Swaps in a cartridge; memory and the handshake flag stay.
    pub fn load_cartridge(&mut self, cart: Cartridge)
        ensures
            final(self).model() == (MmuView { cart: cart@, ..old(self).model() }),
    {
        self.cart = cart;
    }

    /// Clears the work memory and stores the I/O register values the boot
    /// ROM leaves behind. The cartridge and the handshake flag stay.
    pub fn simulate_bootloader(&mut self)
        ensures
            ({
                let m = final(self).model();
                &&& m.cart == old(self).model().cart
                &&& m.joypad_requested == old(self).model().joypad_requested
                &&& m.mem.len() == 0x10000
                &&& forall|a: u16| ram_view8(m.mem, a) == boot_io_byte(a)
            }),
    {
        self.memory = Ram::new(byte_vec(0x00, 0x10000));
        self.memory.write8(0xFF05, 0x00);
        self.memory.write8(0xFF06, 0x00);
        self.memory.write8(0xFF07, 0x00);
        self.memory.write8(0xFF10, 0x80);
        self.memory.write8(0xFF11, 0xBF);
        self.memory.write8(0xFF12, 0xF3);
        self.memory.write8(0xFF14, 0xBF);
        self.memory.write8(0xFF16, 0x3F);
        self.memory.write8(0xFF17, 0x00);
        self.memory.write8(0xFF19, 0xBF);
        self.memory.write8(0xFF1A, 0x7F);
        self.memory.write8(0xFF1B, 0xFF);
        self.memory.write8(0xFF1C, 0x9F);
        self.memory.write8(0xFF1E, 0xBF);
        self.memory.write8(0xFF20, 0xFF);
        self.memory.write8(0xFF21, 0x00);
        self.memory.write8(0xFF22, 0x00);
        self.memory.write8(0xFF23, 0xBF);
        self.memory.write8(0xFF24, 0x77);
        self.memory.write8(0xFF25, 0xF3);
        self.memory.write8(0xFF26, 0xF1);
        self.memory.write8(0xFF40, 0x91);
        self.memory.write8(0xFF42, 0x00);
        self.memory.write8(0xFF43, 0x00);
        self.memory.write8(0xFF45, 0x00);
        self.memory.write8(0xFF47, 0xFC);
        self.memory.write8(0xFF48, 0xFF);
        self.memory.write8(0xFF49, 0xFF);
        self.memory.write8(0xFF4A, 0x00);
        self.memory.write8(0xFF4B, 0x00);
        self.memory.write8(0xFFFF, 0x00);
        self.memory.write8(0xFF50, 0x01);
        proof {
            assert forall|a: u16| ram_view8(self.model().mem, a) == boot_io_byte(a) by {
                assert(filled(0, 0x10000).len() == 0x10000);
            }
        }
    }

    /// Whether a write to the joypad register asked for fresh button state.
    pub fn is_joypad_state_requested(&self) -> (r: bool)
        ensures
            r == self.model().joypad_requested,
    {
        self.state.joypad_requested
    }

    /// Answers the register handshake: the nibble picked by the select bits
    /// of the last joypad-register write is merged into the register (with
    /// the two reserved top bits), and the request flag drops.
    pub fn receive_joypad_state(&mut self, state: (u8, u8))
        ensures
            final(self).model() == joypad_answer(old(self).model(), state),
    {
        let value = self.read8(0xFF00);

        let input = if value & 0x10 == 0 {
            state.0
        } else if value & 0x20 == 0 {
            state.1
        } else {
            0x0F
        };

        self.write8(0xFF00, value | 0xC0 | input);
        self.state.joypad_requested = false;
    }

    /// The synchronous sprite-table copy a DMA-register write starts:
    /// 0xA0 bytes from `value * 0x100` land at 0xFE00..=0xFE9F.
    fn dma_transfer(&mut self, value: u8)
        ensures
            final(self).model() == (MmuView {
                mem: dma_copy(old(self).model().mem, (value * 0x100) as u16, 0xA0),
                ..old(self).model()
            }),
    {
        let ghost m0 = self.model();
        let start_addr = (value as u16) * 0x100;
        let mut i: u16 = 0;
        while i < 0xA0
            invariant
                i <= 0xA0,
                start_addr == (value * 0x100) as u16,
                self.memory.model() == dma_copy(m0.mem, start_addr, i as nat),
                self.cart@ == m0.cart,
                self.state.joypad_requested == m0.joypad_requested,
            decreases 0xA0 - i,
        {
            let b = self.memory.read8(start_addr + i);
            self.memory.write8(0xFE00 + i, b);
            i = i + 1;
        }
    }
}

/// The unit's state after the bytes of `data[..n]` are written one after
/// another through the normal routing, starting at `offset` and wrapping.
pub open spec fn load_bytes(m: MmuView, offset: u16, data: Seq<u8>, n: nat) -> MmuView
    decreases n,
{
    if n == 0 {
        m
    } else {
        Mmu::upd8(
            load_bytes(m, offset, data, (n - 1) as nat),
            offset.wrapping_add(((n - 1) as usize) as u16),
            data[n - 1],
        )
    }
}

impl Bus for Mmu {
    type Model = MmuView;

    closed spec fn model(&self) -> MmuView {
        MmuView {
            cart: self.cart@,
            mem: self.memory@,
            joypad_requested: self.state.joypad_requested,
        }
    }

    open spec fn view8(m: MmuView, addr: u16) -> u8 {
        if valid_cart_addr(addr) {
            m.cart.read(addr)
        } else if 0xE000 <= addr < 0xFE00 {
            // Mirror of 0xC000..=0xDDFF
            ram_view8(m.mem, (addr - 0x2000) as u16)
        } else {
            ram_view8(m.mem, addr)
        }
    }

    open spec fn upd8(m: MmuView, addr: u16, v: u8) -> MmuView {
        if valid_cart_addr(addr) {
            MmuView { cart: m.cart.write(addr, v), ..m }
        } else if 0xE000 <= addr < 0xFE00 {
            // Mirror of 0xC000..=0xDDFF
            MmuView { mem: ram_upd8(m.mem, (addr - 0x2000) as u16, v), ..m }
        } else if addr == 0xFF00 {
            // Joypad register: a cleared select bit asks for button state
            MmuView {
                mem: ram_upd8(m.mem, addr, v),
                joypad_requested: m.joypad_requested || v & 0x10 == 0 || v & 0x20 == 0,
                ..m
            }
        } else if addr == 0xFF04 {
            // Divider register: always stores zero
            MmuView { mem: ram_upd8(m.mem, addr, 0), ..m }
        } else if addr == 0xFF46 {
            // DMA transfer
            MmuView { mem: dma_copy(m.mem, (v * 0x100) as u16, 0xA0), ..m }
        } else {
            MmuView { mem: ram_upd8(m.mem, addr, v), ..m }
        }
    }

    fn read8(&self, addr: u16) -> (r: u8) {
        if addr < 0x8000 {
            self.cart.read(addr)
        } else if 0xA000 <= addr && addr < 0xC000 {
            self.cart.read(addr)
        } else if 0xE000 <= addr && addr < 0xFE00 {
            // Mirror of 0xC000..=0xDDFF
            self.memory.read8(addr - 0x2000)
        } else {
            self.memory.read8(addr)
        }
    }

    fn read16(&self, addr: u16) -> (r: u16) {
        let lo = self.read8(addr);
        let hi = self.read8(addr.wrapping_add(1));
        proof {
            lemma_word_bits();
        }
        (lo as u16) | ((hi as u16) << 8)
    }

    fn write8(&mut self, addr: u16, data: u8) {
        if addr < 0x8000 {
            self.cart.write(addr, data);
        } else if 0xA000 <= addr && addr < 0xC000 {
            self.cart.write(addr, data);
        } else if 0xE000 <= addr && addr < 0xFE00 {
            // Mirror of 0xC000..=0xDDFF
            self.memory.write8(addr - 0x2000, data);
        } else if addr == 0xFF00 {
            // Joypad register
            if data & 0x10 == 0 || data & 0x20 == 0 {
                self.state.joypad_requested = true;
            }
            self.memory.write8(addr, data);
        } else if addr == 0xFF04 {
            // Divider register
            self.memory.write8(addr, 0);
        } else if addr == 0xFF46 {
            // DMA transfer
            self.dma_transfer(data);
        } else {
            self.memory.write8(addr, data);
        }
    }

    fn write16(&mut self, addr: u16, data: u16) {
        proof {
            lemma_word_bits();
        }
        self.write8(addr, (data & 0xFF) as u8);
        self.write8(addr.wrapping_add(1), (data >> 8) as u8);
    }
}

/// The echo mirror: every byte of 0xC000..=0xDDFF reads back at the address
/// 0x2000 above it.
pub proof fn lemma_echo_mirror(m: MmuView, addr: u16)
    requires
        0xC000 <= addr <= 0xDDFF,
    ensures
        Mmu::view8(m, addr) == Mmu::view8(m, (addr + 0x2000) as u16),
{
}

} // verus!
