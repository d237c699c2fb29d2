//! The CPU state: registers, flags, interrupt master enable, halt.
//!
//! F holds the four condition flags in its upper nibble (bit 7 = Z, bit 6 =
//! N, bit 5 = H, bit 4 = C); bits 3..0 of F are always zero.

use vstd::prelude::*;

verus! {

/// The zero flag of an F byte.
pub open spec fn zf(f: u8) -> bool {
    f & 0x80 != 0
}

/// The subtract flag of an F byte.
pub open spec fn nf(f: u8) -> bool {
    f & 0x40 != 0
}

/// The half-carry flag of an F byte.
pub open spec fn hf(f: u8) -> bool {
    f & 0x20 != 0
}

/// The carry flag of an F byte.
pub open spec fn cf(f: u8) -> bool {
    f & 0x10 != 0
}

/// The low nibble of an F byte is zero, as it must always be.
pub open spec fn f_low_clear(f: u8) -> bool {
    f & 0x0F == 0
}

/// The unique F byte with the given four flags and a clear low nibble.
pub open spec fn f_bits(z: bool, n: bool, h: bool, c: bool) -> u8 {
    ((if z { 0x80int } else { 0 }) + (if n { 0x40int } else { 0 }) + (if h { 0x20int } else { 0 })
        + (if c { 0x10int } else { 0 })) as u8
}

/// How each single-flag operation acts on an F byte, and that `f_bits` is the
/// canonical form: an F byte with a clear low nibble is exactly the `f_bits`
/// of its four flags.
pub proof fn lemma_flag_bits()
    by (bit_vector)
    ensures
        forall|f: u8| f_low_clear(f) ==> f == f_bits(zf(f), nf(f), hf(f), cf(f)),
        forall|z: bool, n: bool, h: bool, c: bool| {
            &&& zf(#[trigger] f_bits(z, n, h, c)) == z
            &&& nf(f_bits(z, n, h, c)) == n
            &&& hf(f_bits(z, n, h, c)) == h
            &&& cf(f_bits(z, n, h, c)) == c
            &&& f_low_clear(f_bits(z, n, h, c))
        },
        forall|f: u8| #[trigger] (f | 0x80u8) == f_bits(true, nf(f), hf(f), cf(f)) || !f_low_clear(f),
        forall|f: u8| #[trigger] (f | 0x40u8) == f_bits(zf(f), true, hf(f), cf(f)) || !f_low_clear(f),
        forall|f: u8| #[trigger] (f | 0x20u8) == f_bits(zf(f), nf(f), true, cf(f)) || !f_low_clear(f),
        forall|f: u8| #[trigger] (f | 0x10u8) == f_bits(zf(f), nf(f), hf(f), true) || !f_low_clear(f),
        forall|f: u8| #[trigger] (f & !0x80u8) == f_bits(false, nf(f), hf(f), cf(f)) || !f_low_clear(f),
        forall|f: u8| #[trigger] (f & !0x40u8) == f_bits(zf(f), false, hf(f), cf(f)) || !f_low_clear(f),
        forall|f: u8| #[trigger] (f & !0x20u8) == f_bits(zf(f), nf(f), false, cf(f)) || !f_low_clear(f),
        forall|f: u8| #[trigger] (f & !0x10u8) == f_bits(zf(f), nf(f), hf(f), false) || !f_low_clear(f),
{
}

/// The canonical F byte of any four flags has a clear low nibble.
pub proof fn lemma_f_bits_wf()
    by (bit_vector)
    ensures
        forall|z: bool, n: bool, h: bool, c: bool| f_low_clear(#[trigger] f_bits(z, n, h, c)),
{
}

#[allow(non_snake_case)]
#[derive(Debug, Copy, Clone)]
pub struct State {
    // 8-bit registers
    pub A: u8,
    pub F: u8,
    pub B: u8,
    pub C: u8,
    pub D: u8,
    pub E: u8,
    pub H: u8,
    pub L: u8,
    // 16-bit registers
    pub SP: u16,
    pub PC: u16,
    // Interrupt master enable flag
    pub IME: bool,
    // The CPU sits in the low-power halt state
    pub halted: bool,
    // Snapshot of the raw interrupt flags taken when halting; a change wakes
    // the CPU
    pub interrupts_before_halt: u8,
}

#[derive(Debug, Copy, Clone)]
pub enum Flag {
    Z,  // Zero
    N,  // Subtract
    H,  // Half Carry
    C,  // Carry
}

/// The value of one flag in an F byte.
pub open spec fn flag_of(f: u8, flag: Flag) -> bool {
    match flag {
        Flag::Z => zf(f),
        Flag::N => nf(f),
        Flag::H => hf(f),
        Flag::C => cf(f),
    }
}

/// The F byte with one flag forced to `v` and the others kept.
pub open spec fn f_with(f: u8, flag: Flag, v: bool) -> u8 {
    match flag {
        Flag::Z => f_bits(v, nf(f), hf(f), cf(f)),
        Flag::N => f_bits(zf(f), v, hf(f), cf(f)),
        Flag::H => f_bits(zf(f), nf(f), v, cf(f)),
        Flag::C => f_bits(zf(f), nf(f), hf(f), v),
    }
}

impl State {
    /// The flag nibble is well formed: the low four bits of F are zero.
    pub open spec fn flags_ok(self) -> bool {
        f_low_clear(self.F)
    }

    /// `self` with every register but F as in `other`.
    pub open spec fn with_f(self, f: u8) -> State {
        State { F: f, ..self }
    }

    /// The all-clear state `new` returns.
    pub open spec fn initial() -> State {
        State {
            A: 0, F: 0, B: 0, C: 0, D: 0, E: 0, H: 0, L: 0,
            SP: 0, PC: 0,
            IME: false,
            halted: false,
            interrupts_before_halt: 0,
        }
    }

    pub fn new() -> (r: State)
        ensures
            r == State::initial(),
    {
        State {
            A: 0x00,
            F: 0x00,
            B: 0x00,
            C: 0x00,
            D: 0x00,
            E: 0x00,
            H: 0x00,
            L: 0x00,
            SP: 0x0000,
            PC: 0x0000,
            IME: false,
            halted: false,
            interrupts_before_halt: 0x00,
        }
    }

    pub fn enable_flag(&mut self, flag: Flag)
        requires
            old(self).flags_ok(),
        ensures
            *final(self) == old(self).with_f(f_with(old(self).F, flag, true)),
            final(self).flags_ok(),
    {
        proof {
            lemma_flag_bits();
        }
        match flag {
            Flag::Z => self.F = self.F | 0x80,
            Flag::N => self.F = self.F | 0x40,
            Flag::H => self.F = self.F | 0x20,
            Flag::C => self.F = self.F | 0x10,
        }
    }

    pub fn disable_flag(&mut self, flag: Flag)
        requires
            old(self).flags_ok(),
        ensures
            *final(self) == old(self).with_f(f_with(old(self).F, flag, false)),
            final(self).flags_ok(),
    {
        proof {
            lemma_flag_bits();
        }
        match flag {
            Flag::Z => self.F = self.F & !0x80,
            Flag::N => self.F = self.F & !0x40,
            Flag::H => self.F = self.F & !0x20,
            Flag::C => self.F = self.F & !0x10,
        }
    }

    pub fn get_flag(&self, flag: Flag) -> (r: bool)
        ensures
            r == flag_of(self.F, flag),
    {
        match flag {
            Flag::Z => (self.F & 0x80) != 0,
            Flag::N => (self.F & 0x40) != 0,
            Flag::H => (self.F & 0x20) != 0,
            Flag::C => (self.F & 0x10) != 0,
        }
    }

    pub fn set_flag(&mut self, flag: Flag, v: bool)
        requires
            old(self).flags_ok(),
        ensures
            *final(self) == old(self).with_f(f_with(old(self).F, flag, v)),
            final(self).flags_ok(),
    {
        if v {
            self.enable_flag(flag);
        } else {
            self.disable_flag(flag);
        }
    }
}

} // verus!
