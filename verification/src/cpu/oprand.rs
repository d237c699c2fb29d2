//! The operand model: one tagged type per addressing mode.
//!
//! Instruction helpers accept a `Src8` / `Dst8` / `Src16` / `Dst16` operand
//! and branch on its tag, so one helper serves registers, memory reached
//! through a register pair, immediates, direct addresses and the high page.

use vstd::prelude::*;

use crate::bus::Bus;
use crate::bus::bus_view16;
use crate::bus::word_of;
use crate::bus::lemma_word_bits;
use crate::cpu::state::Flag;
use crate::cpu::state::State;
use crate::cpu::state::cf;
use crate::cpu::state::f_low_clear;
use crate::cpu::state::zf;

verus! {

#[derive(Debug, Copy, Clone)]
pub enum Register8 {
    A,
    F,
    B,
    C,
    D,
    E,
    H,
    L,
}

#[derive(Debug, Copy, Clone)]
pub enum Register16 {
    AF,
    BC,
    DE,
    HL,
    PC,
    SP,
}

/// The value of an 8-bit register.
pub open spec fn get_r8(st: State, r: Register8) -> u8 {
    match r {
        Register8::A => st.A,
        Register8::F => st.F,
        Register8::B => st.B,
        Register8::C => st.C,
        Register8::D => st.D,
        Register8::E => st.E,
        Register8::H => st.H,
        Register8::L => st.L,
    }
}

/// The state with one 8-bit register replaced.
pub open spec fn set_r8(st: State, r: Register8, v: u8) -> State {
    match r {
        Register8::A => State { A: v, ..st },
        Register8::F => State { F: v, ..st },
        Register8::B => State { B: v, ..st },
        Register8::C => State { C: v, ..st },
        Register8::D => State { D: v, ..st },
        Register8::E => State { E: v, ..st },
        Register8::H => State { H: v, ..st },
        Register8::L => State { L: v, ..st },
    }
}

/// The value of a 16-bit register: a pair reads high byte first.
pub open spec fn get_r16(st: State, r: Register16) -> u16 {
    match r {
        Register16::AF => word_of(st.F, st.A),
        Register16::BC => word_of(st.C, st.B),
        Register16::DE => word_of(st.E, st.D),
        Register16::HL => word_of(st.L, st.H),
        Register16::PC => st.PC,
        Register16::SP => st.SP,
    }
}

/// The low byte of a word with its low nibble cleared, as a write to F
/// through the AF pair must leave it.
pub open spec fn masked_f(w: u16) -> u8 {
    ((w % 256) / 16 * 16) as u8
}

/// The state with one 16-bit register replaced; a write through AF masks the
/// low nibble of F to zero.
pub open spec fn set_r16(st: State, r: Register16, v: u16) -> State {
    match r {
        Register16::AF => State { A: (v / 256) as u8, F: masked_f(v), ..st },
        Register16::BC => State { B: (v / 256) as u8, C: (v % 256) as u8, ..st },
        Register16::DE => State { D: (v / 256) as u8, E: (v % 256) as u8, ..st },
        Register16::HL => State { H: (v / 256) as u8, L: (v % 256) as u8, ..st },
        Register16::PC => State { PC: v, ..st },
        Register16::SP => State { SP: v, ..st },
    }
}

/// A write through AF leaves the flag nibble well formed.
pub proof fn lemma_masked_f()
    by (bit_vector)
    ensures
        forall|w: u16| f_low_clear(#[trigger] masked_f(w)),
        forall|w: u16| #[trigger] masked_f(w) == ((w & 0xF0) as u8),
{
}

impl Register8 {
    pub fn read8(self, st: &State) -> (r: u8)
        ensures
            r == get_r8(*st, self),
    {
        match self {
            Register8::A => st.A,
            Register8::F => st.F,
            Register8::B => st.B,
            Register8::C => st.C,
            Register8::D => st.D,
            Register8::E => st.E,
            Register8::H => st.H,
            Register8::L => st.L,
        }
    }

    pub fn write8(self, st: &mut State, v: u8)
        ensures
            *final(st) == set_r8(*old(st), self, v),
    {
        match self {
            Register8::A => st.A = v,
            Register8::F => st.F = v,
            Register8::B => st.B = v,
            Register8::C => st.C = v,
            Register8::D => st.D = v,
            Register8::E => st.E = v,
            Register8::H => st.H = v,
            Register8::L => st.L = v,
        }
    }
}

impl Register16 {
    pub fn read16(self, st: &State) -> (r: u16)
        ensures
            r == get_r16(*st, self),
    {
        proof {
            lemma_word_bits();
        }
        match self {
            Register16::AF => ((st.A as u16) << 8) | (st.F as u16),
            Register16::BC => ((st.B as u16) << 8) | (st.C as u16),
            Register16::DE => ((st.D as u16) << 8) | (st.E as u16),
            Register16::HL => ((st.H as u16) << 8) | (st.L as u16),
            Register16::PC => st.PC,
            Register16::SP => st.SP,
        }
    }

    pub fn write16(self, st: &mut State, v: u16)
        ensures
            *final(st) == set_r16(*old(st), self, v),
    {
        proof {
            lemma_word_bits();
            lemma_masked_f();
        }
        match self {
            Register16::AF => {
                st.A = (v >> 8) as u8;
                st.F = (v & 0xF0) as u8;
            },
            Register16::BC => {
                st.B = (v >> 8) as u8;
                st.C = (v & 0xFF) as u8;
            },
            Register16::DE => {
                st.D = (v >> 8) as u8;
                st.E = (v & 0xFF) as u8;
            },
            Register16::HL => {
                st.H = (v >> 8) as u8;
                st.L = (v & 0xFF) as u8;
            },
            Register16::PC => st.PC = v,
            Register16::SP => st.SP = v,
        }
    }
}

#[derive(Debug, Copy, Clone)]
pub enum Address {
    BC,
    DE,
    HL,
    Direct,  // Dereference the 16-bit immediate value
    FF00,    // Dereference $FF00 + 8-bit immediate value
    FF00C,   // Dereference $FF00 + C register
}

/// The address an `Address` operand resolves to.
pub open spec fn addr_spec<B: Bus>(a: Address, st: State, m: B::Model) -> u16 {
    match a {
        Address::BC => get_r16(st, Register16::BC),
        Address::DE => get_r16(st, Register16::DE),
        Address::HL => get_r16(st, Register16::HL),
        Address::Direct => bus_view16::<B>(m, st.PC.wrapping_add(1)),
        Address::FF00 => (0xFF00 + B::view8(m, st.PC.wrapping_add(1))) as u16,
        Address::FF00C => (0xFF00 + st.C) as u16,
    }
}

impl Address {
    pub fn get<B: Bus>(self, st: &State, bus: &B) -> (r: u16)
        ensures
            r == addr_spec::<B>(self, *st, bus.model()),
    {
        match self {
            Address::BC => Register16::BC.read16(st),
            Address::DE => Register16::DE.read16(st),
            Address::HL => Register16::HL.read16(st),
            Address::Direct => bus.read16(st.PC.wrapping_add(1)),
            Address::FF00 => 0xFF00 + bus.read8(st.PC.wrapping_add(1)) as u16,
            Address::FF00C => 0xFF00 + st.C as u16,
        }
    }
}

#[derive(Debug, Copy, Clone)]
pub struct Immediate8;

#[derive(Debug, Copy, Clone)]
pub struct Immediate16;

#[derive(Debug, Copy, Clone)]
pub struct Data16(pub u16);

/// An 8-bit read source.
#[derive(Debug, Copy, Clone)]
pub enum Src8 {
    Reg(Register8),
    At(Address),
    Imm(Immediate8),
}

/// An 8-bit write target.
#[derive(Debug, Copy, Clone)]
pub enum Dst8 {
    Reg(Register8),
    At(Address),
}

/// A 16-bit read source.
#[derive(Debug, Copy, Clone)]
pub enum Src16 {
    Reg(Register16),
    At(Address),
    Imm(Immediate16),
    Lit(Data16),
}

/// A 16-bit write target.
#[derive(Debug, Copy, Clone)]
pub enum Dst16 {
    Reg(Register16),
    At(Address),
}

/// The value an 8-bit source reads.
pub open spec fn src8_spec<B: Bus>(s: Src8, st: State, m: B::Model) -> u8 {
    match s {
        Src8::Reg(r) => get_r8(st, r),
        Src8::At(a) => B::view8(m, addr_spec::<B>(a, st, m)),
        Src8::Imm(_) => B::view8(m, st.PC.wrapping_add(1)),
    }
}

/// The value a 16-bit source reads.
pub open spec fn src16_spec<B: Bus>(s: Src16, st: State, m: B::Model) -> u16 {
    match s {
        Src16::Reg(r) => get_r16(st, r),
        Src16::At(a) => bus_view16::<B>(m, addr_spec::<B>(a, st, m)),
        Src16::Imm(_) => bus_view16::<B>(m, st.PC.wrapping_add(1)),
        Src16::Lit(d) => d.0,
    }
}

/// The CPU state after an 8-bit write: only a register target changes it.
pub open spec fn dst8_st<B: Bus>(d: Dst8, st: State, v: u8) -> State {
    match d {
        Dst8::Reg(r) => set_r8(st, r, v),
        Dst8::At(_) => st,
    }
}

/// The bus model after an 8-bit write: only a memory target changes it.
pub open spec fn dst8_bus<B: Bus>(d: Dst8, st: State, m: B::Model, v: u8) -> B::Model {
    match d {
        Dst8::Reg(_) => m,
        Dst8::At(a) => B::upd8(m, addr_spec::<B>(a, st, m), v),
    }
}

/// The CPU state after a 16-bit write.
pub open spec fn dst16_st<B: Bus>(d: Dst16, st: State, v: u16) -> State {
    match d {
        Dst16::Reg(r) => set_r16(st, r, v),
        Dst16::At(_) => st,
    }
}

/// The bus model after a 16-bit write.
pub open spec fn dst16_bus<B: Bus>(d: Dst16, st: State, m: B::Model, v: u16) -> B::Model {
    match d {
        Dst16::Reg(_) => m,
        Dst16::At(a) => B::upd8(
            B::upd8(m, addr_spec::<B>(a, st, m), (v % 256) as u8),
            addr_spec::<B>(a, st, m).wrapping_add(1),
            (v / 256) as u8,
        ),
    }
}

impl Src8 {
    pub fn read8<B: Bus>(self, st: &State, bus: &B) -> (r: u8)
        ensures
            r == src8_spec::<B>(self, *st, bus.model()),
    {
        match self {
            Src8::Reg(r) => r.read8(st),
            Src8::At(a) => {
                let addr = a.get(st, bus);
                bus.read8(addr)
            },
            Src8::Imm(_) => bus.read8(st.PC.wrapping_add(1)),
        }
    }
}

impl Dst8 {
    /// A write target read back as a source: the same register or address.
    pub open spec fn dst8_src(self) -> Src8 {
        match self {
            Dst8::Reg(r) => Src8::Reg(r),
            Dst8::At(a) => Src8::At(a),
        }
    }

    /// The same operand as a read source, for read-modify-write helpers.
    #[verifier::when_used_as_spec(dst8_src)]
    pub fn as_src(self) -> (r: Src8)
        ensures
            r == self.dst8_src(),
    {
        match self {
            Dst8::Reg(r) => Src8::Reg(r),
            Dst8::At(a) => Src8::At(a),
        }
    }

    pub fn write8<B: Bus>(self, st: &mut State, bus: &mut B, v: u8)
        ensures
            *final(st) == dst8_st::<B>(self, *old(st), v),
            final(bus).model() == dst8_bus::<B>(self, *old(st), old(bus).model(), v),
    {
        match self {
            Dst8::Reg(r) => r.write8(st, v),
            Dst8::At(a) => {
                let addr = a.get(st, bus);
                bus.write8(addr, v);
            },
        }
    }
}

impl Src16 {
    pub fn read16<B: Bus>(self, st: &State, bus: &B) -> (r: u16)
        ensures
            r == src16_spec::<B>(self, *st, bus.model()),
    {
        match self {
            Src16::Reg(r) => r.read16(st),
            Src16::At(a) => {
                let addr = a.get(st, bus);
                bus.read16(addr)
            },
            Src16::Imm(_) => bus.read16(st.PC.wrapping_add(1)),
            Src16::Lit(d) => d.0,
        }
    }
}

impl Dst16 {
    pub fn write16<B: Bus>(self, st: &mut State, bus: &mut B, v: u16)
        ensures
            *final(st) == dst16_st::<B>(self, *old(st), v),
            final(bus).model() == dst16_bus::<B>(self, *old(st), old(bus).model(), v),
    {
        match self {
            Dst16::Reg(r) => r.write16(st, v),
            Dst16::At(a) => {
                let addr = a.get(st, bus);
                bus.write16(addr, v);
            },
        }
    }
}

#[derive(Debug, Copy, Clone)]
pub enum Condition {
    NZ,  // Zero flag is disabled
    Z,  // Zero flag is enabled
    NC,  // Carry flag is disabled
    C,  // Carry flag is enabled
    T,  // True
    F,  // False
}

/// Whether a condition holds of an F byte.
pub open spec fn cond_spec(c: Condition, f: u8) -> bool {
    match c {
        Condition::NZ => !zf(f),
        Condition::Z => zf(f),
        Condition::NC => !cf(f),
        Condition::C => cf(f),
        Condition::T => true,
        Condition::F => false,
    }
}

impl Condition {
    pub fn test(&self, st: &State) -> (r: bool)
        ensures
            r == cond_spec(*self, st.F),
    {
        match *self {
            Condition::NZ => !st.get_flag(Flag::Z),
            Condition::Z => st.get_flag(Flag::Z),
            Condition::NC => !st.get_flag(Flag::C),
            Condition::C => st.get_flag(Flag::C),
            Condition::T => true,
            Condition::F => false,
        }
    }
}

} // verus!
