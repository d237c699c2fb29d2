//! One helper per instruction family: loads, 8/16-bit arithmetic, logic,
//! rotates, shifts, bit operations, stack, jumps, calls, returns and the
//! miscellaneous control instructions.
//!
//! Each helper carries an exact contract: the new CPU state, the new bus
//! model and the flag nibble, stated over the operand model. A call, return
//! or taken absolute jump sets the program counter itself and the dispatch
//! table reports a zero byte length for it; the `extra_cycle` field collects
//! the surcharge of a taken branch until `r` folds it into the cycle count
//! of the instruction.

use vstd::prelude::*;

use crate::bus::Bus;
use crate::bus::bus_view16;
use crate::bus::bus_upd16;
use crate::cpu::oprand::Condition;
use crate::cpu::oprand::Data16;
use crate::cpu::oprand::Dst8;
use crate::cpu::oprand::Dst16;
use crate::cpu::oprand::Register16;
use crate::cpu::oprand::Src8;
use crate::cpu::oprand::Src16;
use crate::cpu::oprand::cond_spec;
use crate::cpu::oprand::dst8_bus;
use crate::cpu::oprand::dst8_st;
use crate::cpu::oprand::dst16_bus;
use crate::cpu::oprand::dst16_st;
use crate::cpu::oprand::get_r16;
use crate::cpu::oprand::set_r16;
use crate::cpu::oprand::src8_spec;
use crate::cpu::oprand::src16_spec;
use crate::cpu::state::Flag;
use crate::cpu::state::State;
use crate::cpu::state::cf;
use crate::cpu::state::f_bits;
use crate::cpu::state::lemma_flag_bits;

verus! {

/// The 16-bit sign extension of a byte.
pub open spec fn sext(b: u8) -> u16 {
    if b >= 0x80 {
        (b + 0xFF00) as u16
    } else {
        b as u16
    }
}

/// The 16-bit sign extension of a byte, for address offsets.
pub fn sign_extend(b: u8) -> (r: u16)
    ensures
        r == sext(b),
{
    if b >= 0x80 {
        b as u16 + 0xFF00
    } else {
        b as u16
    }
}

pub struct Processor {
    extra_cycle: u8,
}

/// The surcharge the processor has collected for a taken branch.
pub closed spec fn extra_of(p: Processor) -> u8 {
    p.extra_cycle
}

impl Processor {
    pub fn new() -> (r: Processor)
        ensures
            extra_of(r) == 0,
    {
        Processor { extra_cycle: 0 }
    }

    /// Folds the collected branch surcharge into the cycle count and resets
    /// it, returning the (byte length, cycle) pair of one instruction.
    pub fn r(&mut self, opsize: u8, base_cycle: u8) -> (r: (u8, u8))
        requires
            base_cycle + extra_of(*old(self)) <= 255,
        ensures
            r == (opsize, (base_cycle + extra_of(*old(self))) as u8),
            extra_of(*final(self)) == 0,
    {
        let cycle = base_cycle + self.extra_cycle;
        self.extra_cycle = 0;
        (opsize, cycle)
    }

    /// Byte copy from `rhs` to `lhs`; no flags change.
    pub fn ld8<B: Bus>(&self, st: &mut State, bus: &mut B, lhs: Dst8, rhs: Src8)
        ensures
            ({
                let v = src8_spec::<B>(rhs, *old(st), old(bus).model());
                &&& *final(st) == dst8_st::<B>(lhs, *old(st), v)
                &&& final(bus).model() == dst8_bus::<B>(lhs, *old(st), old(bus).model(), v)
            }),
    {
        let v = rhs.read8(st, bus);
        lhs.write8(st, bus, v);
    }

    /// Byte copy, then HL is incremented (wrapping).
    pub fn ld8_hli<B: Bus>(&self, st: &mut State, bus: &mut B, lhs: Dst8, rhs: Src8)
        ensures
            ({
                let v = src8_spec::<B>(rhs, *old(st), old(bus).model());
                let mid = dst8_st::<B>(lhs, *old(st), v);
                &&& *final(st) == set_r16(
                    mid,
                    Register16::HL,
                    get_r16(mid, Register16::HL).wrapping_add(1),
                )
                &&& final(bus).model() == dst8_bus::<B>(lhs, *old(st), old(bus).model(), v)
            }),
    {
        let v = rhs.read8(st, bus);
        lhs.write8(st, bus, v);
        self.inc16(st, Register16::HL);
    }

    /// Byte copy, then HL is decremented (wrapping).
    pub fn ld8_hld<B: Bus>(&self, st: &mut State, bus: &mut B, lhs: Dst8, rhs: Src8)
        ensures
            ({
                let v = src8_spec::<B>(rhs, *old(st), old(bus).model());
                let mid = dst8_st::<B>(lhs, *old(st), v);
                &&& *final(st) == set_r16(
                    mid,
                    Register16::HL,
                    get_r16(mid, Register16::HL).wrapping_sub(1),
                )
                &&& final(bus).model() == dst8_bus::<B>(lhs, *old(st), old(bus).model(), v)
            }),
    {
        let v = rhs.read8(st, bus);
        lhs.write8(st, bus, v);
        self.dec16(st, Register16::HL);
    }

    /// Word copy from `rhs` to `lhs`; no flags change.
    pub fn ld16<B: Bus>(&self, st: &mut State, bus: &mut B, lhs: Dst16, rhs: Src16)
        ensures
            ({
                let v = src16_spec::<B>(rhs, *old(st), old(bus).model());
                &&& *final(st) == dst16_st::<B>(lhs, *old(st), v)
                &&& final(bus).model() == dst16_bus::<B>(lhs, *old(st), old(bus).model(), v)
            }),
    {
        let v = rhs.read16(st, bus);
        lhs.write16(st, bus, v);
    }

    /// A <- A + x. Z per result, N cleared, H from bit 3, C from bit 7.
    pub fn add8<B: Bus>(&self, st: &mut State, bus: &mut B, rhs: Src8)
        requires
            old(st).flags_ok(),
        ensures
            final(bus).model() == old(bus).model(),
            ({
                let a = old(st).A;
                let b = src8_spec::<B>(rhs, *old(st), old(bus).model());
                *final(st) == (State {
                    A: ((a + b) % 256) as u8,
                    F: f_bits((a + b) % 256 == 0, false, a % 16 + b % 16 > 15, a + b > 255),
                    ..*old(st)
                })
            }),
    {
        proof {
            lemma_flag_bits();
        }
        let a = st.A;
        let b = rhs.read8(st, bus);
        let c: u16 = a as u16 + b as u16;
        let hcarry = (a % 16) + (b % 16) > 15;

        st.set_flag(Flag::Z, c % 256 == 0);
        st.disable_flag(Flag::N);
        st.set_flag(Flag::H, hcarry);
        st.set_flag(Flag::C, c > 255);

        st.A = (c % 256) as u8;
    }

    /// A <- A + x + carry. Flags as for `add8`, with the carry folded in.
    pub fn adc8<B: Bus>(&self, st: &mut State, bus: &mut B, rhs: Src8)
        requires
            old(st).flags_ok(),
        ensures
            final(bus).model() == old(bus).model(),
            ({
                let a = old(st).A;
                let b = src8_spec::<B>(rhs, *old(st), old(bus).model());
                let cy: int = if cf(old(st).F) { 1 } else { 0 };
                *final(st) == (State {
                    A: ((a + b + cy) % 256) as u8,
                    F: f_bits(
                        (a + b + cy) % 256 == 0,
                        false,
                        a % 16 + b % 16 + cy > 15,
                        a + b + cy > 255,
                    ),
                    ..*old(st)
                })
            }),
    {
        proof {
            lemma_flag_bits();
        }
        let a = st.A;
        let b = rhs.read8(st, bus);
        let carry: u16 = if st.get_flag(Flag::C) { 1 } else { 0 };
        let c: u16 = a as u16 + b as u16 + carry;
        let hcarry = (a % 16) as u16 + (b % 16) as u16 + carry > 15;

        st.set_flag(Flag::Z, c % 256 == 0);
        st.disable_flag(Flag::N);
        st.set_flag(Flag::H, hcarry);
        st.set_flag(Flag::C, c > 255);

        st.A = (c % 256) as u8;
    }

    /// A <- A - x. Z per result, N set, H from borrow out of bit 4, C from
    /// borrow out of bit 7.
    pub fn sub8<B: Bus>(&self, st: &mut State, bus: &mut B, rhs: Src8)
        requires
            old(st).flags_ok(),
        ensures
            final(bus).model() == old(bus).model(),
            ({
                let a = old(st).A;
                let b = src8_spec::<B>(rhs, *old(st), old(bus).model());
                *final(st) == (State {
                    A: ((a + 256 - b) % 256) as u8,
                    F: f_bits((a + 256 - b) % 256 == 0, true, a % 16 < b % 16, a < b),
                    ..*old(st)
                })
            }),
    {
        proof {
            lemma_flag_bits();
        }
        let a = st.A;
        let b = rhs.read8(st, bus);
        let c: u16 = (a as u16 + 256 - b as u16) % 256;
        let hborrow = a % 16 < b % 16;

        st.set_flag(Flag::Z, c == 0);
        st.enable_flag(Flag::N);
        st.set_flag(Flag::H, hborrow);
        st.set_flag(Flag::C, a < b);

        st.A = c as u8;
    }

    /// A <- A - x - carry. Flags as for `sub8`, with the carry folded in.
    pub fn sbc8<B: Bus>(&self, st: &mut State, bus: &mut B, rhs: Src8)
        requires
            old(st).flags_ok(),
        ensures
            final(bus).model() == old(bus).model(),
            ({
                let a = old(st).A;
                let b = src8_spec::<B>(rhs, *old(st), old(bus).model());
                let cy: int = if cf(old(st).F) { 1 } else { 0 };
                *final(st) == (State {
                    A: ((a + 256 - b - cy) % 256) as u8,
                    F: f_bits(
                        (a + 256 - b - cy) % 256 == 0,
                        true,
                        a % 16 < b % 16 + cy,
                        a < b + cy,
                    ),
                    ..*old(st)
                })
            }),
    {
        proof {
            lemma_flag_bits();
        }
        let a = st.A;
        let b = rhs.read8(st, bus);
        let carry: u16 = if st.get_flag(Flag::C) { 1 } else { 0 };
        let c: u16 = (a as u16 + 256 - b as u16 - carry) % 256;
        let hborrow = ((a % 16) as u16) < ((b % 16) as u16 + carry);

        st.set_flag(Flag::Z, c == 0);
        st.enable_flag(Flag::N);
        st.set_flag(Flag::H, hborrow);
        st.set_flag(Flag::C, (a as u16) < (b as u16 + carry));

        st.A = c as u8;
    }

    /// Compare A with x: flags as for `sub8`, A kept.
    pub fn cp8<B: Bus>(&self, st: &mut State, bus: &mut B, rhs: Src8)
        requires
            old(st).flags_ok(),
        ensures
            final(bus).model() == old(bus).model(),
            ({
                let a = old(st).A;
                let b = src8_spec::<B>(rhs, *old(st), old(bus).model());
                *final(st) == (State {
                    F: f_bits((a + 256 - b) % 256 == 0, true, a % 16 < b % 16, a < b),
                    ..*old(st)
                })
            }),
    {
        let temp = st.A;
        self.sub8(st, bus, rhs);
        st.A = temp;
    }

    /// rw <- rw + 1 (wrapping). Z per result, N cleared, H from bit 3, C kept.
    pub fn inc8<B: Bus>(&self, st: &mut State, bus: &mut B, rw: Dst8)
        requires
            old(st).flags_ok(),
        ensures
            ({
                let v0 = src8_spec::<B>(rw.as_src(), *old(st), old(bus).model());
                let v = ((v0 + 1) % 256) as u8;
                let flagged = (State {
                    F: f_bits(v == 0, false, v % 16 == 0, cf(old(st).F)),
                    ..*old(st)
                });
                &&& *final(st) == dst8_st::<B>(rw, flagged, v)
                &&& final(bus).model() == dst8_bus::<B>(rw, flagged, old(bus).model(), v)
            }),
    {
        proof {
            lemma_flag_bits();
        }
        let v = rw.as_src().read8(st, bus).wrapping_add(1);

        st.set_flag(Flag::Z, v == 0);
        st.disable_flag(Flag::N);
        st.set_flag(Flag::H, v % 16 == 0);

        rw.write8(st, bus, v);
    }

    /// rw <- rw - 1 (wrapping). Z per result, N set, H from borrow, C kept.
    pub fn dec8<B: Bus>(&self, st: &mut State, bus: &mut B, rw: Dst8)
        requires
            old(st).flags_ok(),
        ensures
            ({
                let v0 = src8_spec::<B>(rw.as_src(), *old(st), old(bus).model());
                let v = ((v0 + 255) % 256) as u8;
                let flagged = (State {
                    F: f_bits(v == 0, true, v % 16 == 15, cf(old(st).F)),
                    ..*old(st)
                });
                &&& *final(st) == dst8_st::<B>(rw, flagged, v)
                &&& final(bus).model() == dst8_bus::<B>(rw, flagged, old(bus).model(), v)
            }),
    {
        proof {
            lemma_flag_bits();
        }
        let v = rw.as_src().read8(st, bus).wrapping_sub(1);

        st.set_flag(Flag::Z, v == 0);
        st.enable_flag(Flag::N);
        st.set_flag(Flag::H, v % 16 == 15);

        rw.write8(st, bus, v);
    }

    /// HL <- HL + rr. N cleared, H from bit 11, C from bit 15, Z kept.
    pub fn add16<B: Bus>(&self, st: &mut State, bus: &mut B, rhs: Src16)
        requires
            old(st).flags_ok(),
        ensures
            final(bus).model() == old(bus).model(),
            ({
                let a = get_r16(*old(st), Register16::HL);
                let b = src16_spec::<B>(rhs, *old(st), old(bus).model());
                let flagged = (State {
                    F: f_bits(
                        crate::cpu::state::zf(old(st).F),
                        false,
                        a % 4096 + b % 4096 > 4095,
                        a + b > 65535,
                    ),
                    ..*old(st)
                });
                *final(st) == set_r16(flagged, Register16::HL, ((a + b) % 65536) as u16)
            }),
    {
        proof {
            lemma_flag_bits();
        }
        let a = Register16::HL.read16(st);
        let b = rhs.read16(st, bus);
        let c: u32 = a as u32 + b as u32;
        let hcarry = a % 4096 + b % 4096 > 4095;

        st.disable_flag(Flag::N);
        st.set_flag(Flag::H, hcarry);
        st.set_flag(Flag::C, c > 65535);

        Register16::HL.write16(st, (c % 65536) as u16);
    }

    /// The signed-offset add shared by `ADD SP,e8` and `LD HL,SP+e8`: returns
    /// `lhs + e8` (sign extended, wrapping). Z and N cleared; H and C come
    /// from the unsigned add of the low byte of `lhs` and the raw offset
    /// byte.
    pub fn add_r16_e8<B: Bus>(&self, st: &mut State, bus: &mut B, lhs: Src16, rhs: Src8) -> (r:
        u16)
        requires
            old(st).flags_ok(),
        ensures
            final(bus).model() == old(bus).model(),
            ({
                let a = src16_spec::<B>(lhs, *old(st), old(bus).model());
                let b = src8_spec::<B>(rhs, *old(st), old(bus).model());
                &&& r == a.wrapping_add(sext(b))
                &&& *final(st) == (State {
                    F: f_bits(false, false, a % 16 + b % 16 > 15, a % 256 + b > 255),
                    ..*old(st)
                })
            }),
    {
        proof {
            lemma_flag_bits();
        }
        let a = lhs.read16(st, bus);
        let b = rhs.read8(st, bus);
        let c = a.wrapping_add(sign_extend(b));
        let hcarry = (a % 16) + (b % 16) as u16 > 15;
        let carry = (a % 256) + b as u16 > 255;

        st.disable_flag(Flag::Z);
        st.disable_flag(Flag::N);
        st.set_flag(Flag::H, hcarry);
        st.set_flag(Flag::C, carry);

        c
    }

    /// SP <- SP + e8 (signed immediate).
    pub fn add_sp_e8<B: Bus>(&self, st: &mut State, bus: &mut B)
        requires
            old(st).flags_ok(),
        ensures
            final(bus).model() == old(bus).model(),
            ({
                let a = old(st).SP;
                let b = B::view8(old(bus).model(), old(st).PC.wrapping_add(1));
                let flagged = (State {
                    F: f_bits(false, false, a % 16 + b % 16 > 15, a % 256 + b > 255),
                    ..*old(st)
                });
                *final(st) == (State { SP: a.wrapping_add(sext(b)), ..flagged })
            }),
    {
        let addr = self.add_r16_e8(st, bus, Src16::Reg(Register16::SP), Src8::Imm(
            crate::cpu::oprand::Immediate8,
        ));
        st.SP = addr;
    }

    /// HL <- SP + e8 (signed immediate).
    pub fn ld_hl_sp_e8<B: Bus>(&self, st: &mut State, bus: &mut B)
        requires
            old(st).flags_ok(),
        ensures
            final(bus).model() == old(bus).model(),
            ({
                let a = old(st).SP;
                let b = B::view8(old(bus).model(), old(st).PC.wrapping_add(1));
                let flagged = (State {
                    F: f_bits(false, false, a % 16 + b % 16 > 15, a % 256 + b > 255),
                    ..*old(st)
                });
                *final(st) == set_r16(flagged, Register16::HL, a.wrapping_add(sext(b)))
            }),
    {
        let addr = self.add_r16_e8(st, bus, Src16::Reg(Register16::SP), Src8::Imm(
            crate::cpu::oprand::Immediate8,
        ));
        Register16::HL.write16(st, addr);
    }

    /// rr <- rr + 1 (wrapping); no flags change.
    pub fn inc16(&self, st: &mut State, rw: Register16)
        ensures
            *final(st) == set_r16(*old(st), rw, get_r16(*old(st), rw).wrapping_add(1)),
    {
        let v = rw.read16(st).wrapping_add(1);
        rw.write16(st, v);
    }

    /// rr <- rr - 1 (wrapping); no flags change.
    pub fn dec16(&self, st: &mut State, rw: Register16)
        ensures
            *final(st) == set_r16(*old(st), rw, get_r16(*old(st), rw).wrapping_sub(1)),
    {
        let v = rw.read16(st).wrapping_sub(1);
        rw.write16(st, v);
    }

    /// A <- A & x. Z per result, N cleared, H set, C cleared.
    pub fn and8<B: Bus>(&self, st: &mut State, bus: &mut B, rhs: Src8)
        requires
            old(st).flags_ok(),
        ensures
            final(bus).model() == old(bus).model(),
            ({
                let c = old(st).A & src8_spec::<B>(rhs, *old(st), old(bus).model());
                *final(st) == (State { A: c, F: f_bits(c == 0, false, true, false), ..*old(st) })
            }),
    {
        proof {
            lemma_flag_bits();
        }
        let c = st.A & rhs.read8(st, bus);

        st.set_flag(Flag::Z, c == 0);
        st.disable_flag(Flag::N);
        st.enable_flag(Flag::H);
        st.disable_flag(Flag::C);

        st.A = c;
    }

    /// A <- A | x. Z per result; N, H and C cleared.
    pub fn or8<B: Bus>(&self, st: &mut State, bus: &mut B, rhs: Src8)
        requires
            old(st).flags_ok(),
        ensures
            final(bus).model() == old(bus).model(),
            ({
                let c = old(st).A | src8_spec::<B>(rhs, *old(st), old(bus).model());
                *final(st) == (State { A: c, F: f_bits(c == 0, false, false, false), ..*old(st) })
            }),
    {
        proof {
            lemma_flag_bits();
        }
        let c = st.A | rhs.read8(st, bus);

        st.set_flag(Flag::Z, c == 0);
        st.disable_flag(Flag::N);
        st.disable_flag(Flag::H);
        st.disable_flag(Flag::C);

        st.A = c;
    }

    /// A <- A ^ x. Z per result; N, H and C cleared.
    pub fn xor8<B: Bus>(&self, st: &mut State, bus: &mut B, rhs: Src8)
        requires
            old(st).flags_ok(),
        ensures
            final(bus).model() == old(bus).model(),
            ({
                let c = old(st).A ^ src8_spec::<B>(rhs, *old(st), old(bus).model());
                *final(st) == (State { A: c, F: f_bits(c == 0, false, false, false), ..*old(st) })
            }),
    {
        proof {
            lemma_flag_bits();
        }
        let c = st.A ^ rhs.read8(st, bus);

        st.set_flag(Flag::Z, c == 0);
        st.disable_flag(Flag::N);
        st.disable_flag(Flag::H);
        st.disable_flag(Flag::C);

        st.A = c;
    }
}

/// The adjustment byte the decimal-adjust instruction adds to or subtracts
/// from A, given the N, H and C flags.
pub open spec fn daa_adjust(a: u8, n: bool, h: bool, c: bool) -> u8 {
    if n {
        ((if h { 0x06int } else { 0 }) + (if c { 0x60int } else { 0 })) as u8
    } else {
        ((if h || a % 16 > 9 { 0x06int } else { 0 }) + (if c || a > 0x99 { 0x60int } else { 0 })) as u8
    }
}

/// The A register after the decimal adjust.
pub open spec fn daa_res(a: u8, n: bool, h: bool, c: bool) -> u8 {
    if n {
        ((a + 256 - daa_adjust(a, n, h, c)) % 256) as u8
    } else {
        ((a + daa_adjust(a, n, h, c)) % 256) as u8
    }
}

impl Processor {
    /// Decimal-adjust A after a BCD addition or subtraction. Z per result, N
    /// kept, H cleared, C set when 0x60 was added.
    #[verifier::rlimit(50)]
    pub fn daa(&self, st: &mut State)
        requires
            old(st).flags_ok(),
        ensures
            ({
                let a = old(st).A;
                let n = crate::cpu::state::nf(old(st).F);
                let h = crate::cpu::state::hf(old(st).F);
                let c = cf(old(st).F);
                *final(st) == (State {
                    A: daa_res(a, n, h, c),
                    F: f_bits(daa_res(a, n, h, c) == 0, n, false, c || (!n && a > 0x99)),
                    ..*old(st)
                })
            }),
    {
        proof {
            lemma_flag_bits();
        }
        let a = st.A;
        let n = st.get_flag(Flag::N);
        let h = st.get_flag(Flag::H);
        let cflag = st.get_flag(Flag::C);

        let mut b: u8 = 0x00;
        if n {
            if h {
                b = b + 0x06;
            }
            if cflag {
                b = b + 0x60;
            }
        } else {
            if h || a % 16 > 9 {
                b = b + 0x06;
            }
            if cflag || a > 0x99 {
                b = b + 0x60;
            }
        }

        let c = if n {
            a.wrapping_sub(b)
        } else {
            a.wrapping_add(b)
        };

        st.set_flag(Flag::Z, c == 0);
        st.disable_flag(Flag::H);
        st.set_flag(Flag::C, cflag || (!n && a > 0x99));

        st.A = c;
    }

    /// Rotate left through carry. Z per result; N, H cleared; C from bit 7.
    pub fn rl8<B: Bus>(&self, st: &mut State, bus: &mut B, rw: Dst8)
        requires
            old(st).flags_ok(),
        ensures
            ({
                let r0 = src8_spec::<B>(rw.as_src(), *old(st), old(bus).model());
                let cin: u8 = if cf(old(st).F) { 1 } else { 0 };
                let w = (r0 << 1) | cin;
                let flagged = (State {
                    F: f_bits(w == 0, false, false, r0 & 0x80 != 0),
                    ..*old(st)
                });
                &&& *final(st) == dst8_st::<B>(rw, flagged, w)
                &&& final(bus).model() == dst8_bus::<B>(rw, flagged, old(bus).model(), w)
            }),
    {
        proof {
            lemma_flag_bits();
        }
        let r = rw.as_src().read8(st, bus);
        let cin: u8 = if st.get_flag(Flag::C) { 1 } else { 0 };
        let w = (r << 1) | cin;

        st.set_flag(Flag::Z, w == 0);
        st.disable_flag(Flag::N);
        st.disable_flag(Flag::H);
        st.set_flag(Flag::C, (r & 0x80) != 0);

        rw.write8(st, bus, w);
    }

    /// Rotate left circular. Z per result; N, H cleared; C from bit 7.
    pub fn rlc8<B: Bus>(&self, st: &mut State, bus: &mut B, rw: Dst8)
        requires
            old(st).flags_ok(),
        ensures
            ({
                let r0 = src8_spec::<B>(rw.as_src(), *old(st), old(bus).model());
                let w = (r0 << 1) | (r0 >> 7);
                let flagged = (State {
                    F: f_bits(w == 0, false, false, r0 & 0x80 != 0),
                    ..*old(st)
                });
                &&& *final(st) == dst8_st::<B>(rw, flagged, w)
                &&& final(bus).model() == dst8_bus::<B>(rw, flagged, old(bus).model(), w)
            }),
    {
        proof {
            lemma_flag_bits();
        }
        let r = rw.as_src().read8(st, bus);
        let w = (r << 1) | (r >> 7);

        st.set_flag(Flag::Z, w == 0);
        st.disable_flag(Flag::N);
        st.disable_flag(Flag::H);
        st.set_flag(Flag::C, (r & 0x80) != 0);

        rw.write8(st, bus, w);
    }

    /// Rotate right through carry. Z per result; N, H cleared; C from bit 0.
    pub fn rr8<B: Bus>(&self, st: &mut State, bus: &mut B, rw: Dst8)
        requires
            old(st).flags_ok(),
        ensures
            ({
                let r0 = src8_spec::<B>(rw.as_src(), *old(st), old(bus).model());
                let cin: u8 = if cf(old(st).F) { 1 } else { 0 };
                let w = (r0 >> 1) | (cin << 7);
                let flagged = (State {
                    F: f_bits(w == 0, false, false, r0 & 0x01 != 0),
                    ..*old(st)
                });
                &&& *final(st) == dst8_st::<B>(rw, flagged, w)
                &&& final(bus).model() == dst8_bus::<B>(rw, flagged, old(bus).model(), w)
            }),
    {
        proof {
            lemma_flag_bits();
        }
        let r = rw.as_src().read8(st, bus);
        let cin: u8 = if st.get_flag(Flag::C) { 1 } else { 0 };
        let w = (r >> 1) | (cin << 7);

        st.set_flag(Flag::Z, w == 0);
        st.disable_flag(Flag::N);
        st.disable_flag(Flag::H);
        st.set_flag(Flag::C, (r & 0x01) != 0);

        rw.write8(st, bus, w);
    }

    /// Rotate right circular. Z per result; N, H cleared; C from bit 0.
    pub fn rrc8<B: Bus>(&self, st: &mut State, bus: &mut B, rw: Dst8)
        requires
            old(st).flags_ok(),
        ensures
            ({
                let r0 = src8_spec::<B>(rw.as_src(), *old(st), old(bus).model());
                let w = (r0 >> 1) | (r0 << 7);
                let flagged = (State {
                    F: f_bits(w == 0, false, false, r0 & 0x01 != 0),
                    ..*old(st)
                });
                &&& *final(st) == dst8_st::<B>(rw, flagged, w)
                &&& final(bus).model() == dst8_bus::<B>(rw, flagged, old(bus).model(), w)
            }),
    {
        proof {
            lemma_flag_bits();
        }
        let r = rw.as_src().read8(st, bus);
        let w = (r >> 1) | (r << 7);

        st.set_flag(Flag::Z, w == 0);
        st.disable_flag(Flag::N);
        st.disable_flag(Flag::H);
        st.set_flag(Flag::C, (r & 0x01) != 0);

        rw.write8(st, bus, w);
    }

    /// RLA: rotate A left through carry, Z forced to zero.
    pub fn rla<B: Bus>(&self, st: &mut State, bus: &mut B)
        requires
            old(st).flags_ok(),
        ensures
            final(bus).model() == old(bus).model(),
            ({
                let a = old(st).A;
                let cin: u8 = if cf(old(st).F) { 1 } else { 0 };
                *final(st) == (State {
                    A: (a << 1) | cin,
                    F: f_bits(false, false, false, a & 0x80 != 0),
                    ..*old(st)
                })
            }),
    {
        proof {
            lemma_flag_bits();
        }
        self.rl8(st, bus, Dst8::Reg(crate::cpu::oprand::Register8::A));
        st.disable_flag(Flag::Z);
    }

    /// RLCA: rotate A left circular, Z forced to zero.
    pub fn rlca<B: Bus>(&self, st: &mut State, bus: &mut B)
        requires
            old(st).flags_ok(),
        ensures
            final(bus).model() == old(bus).model(),
            ({
                let a = old(st).A;
                *final(st) == (State {
                    A: (a << 1) | (a >> 7),
                    F: f_bits(false, false, false, a & 0x80 != 0),
                    ..*old(st)
                })
            }),
    {
        proof {
            lemma_flag_bits();
        }
        self.rlc8(st, bus, Dst8::Reg(crate::cpu::oprand::Register8::A));
        st.disable_flag(Flag::Z);
    }

    /// RRA: rotate A right through carry, Z forced to zero.
    pub fn rra<B: Bus>(&self, st: &mut State, bus: &mut B)
        requires
            old(st).flags_ok(),
        ensures
            final(bus).model() == old(bus).model(),
            ({
                let a = old(st).A;
                let cin: u8 = if cf(old(st).F) { 1 } else { 0 };
                *final(st) == (State {
                    A: (a >> 1) | (cin << 7),
                    F: f_bits(false, false, false, a & 0x01 != 0),
                    ..*old(st)
                })
            }),
    {
        proof {
            lemma_flag_bits();
        }
        self.rr8(st, bus, Dst8::Reg(crate::cpu::oprand::Register8::A));
        st.disable_flag(Flag::Z);
    }

    /// RRCA: rotate A right circular, Z forced to zero.
    pub fn rrca<B: Bus>(&self, st: &mut State, bus: &mut B)
        requires
            old(st).flags_ok(),
        ensures
            final(bus).model() == old(bus).model(),
            ({
                let a = old(st).A;
                *final(st) == (State {
                    A: (a >> 1) | (a << 7),
                    F: f_bits(false, false, false, a & 0x01 != 0),
                    ..*old(st)
                })
            }),
    {
        proof {
            lemma_flag_bits();
        }
        self.rrc8(st, bus, Dst8::Reg(crate::cpu::oprand::Register8::A));
        st.disable_flag(Flag::Z);
    }

    /// Shift left arithmetic. Z per result; N, H cleared; C from bit 7.
    pub fn sla8<B: Bus>(&self, st: &mut State, bus: &mut B, rw: Dst8)
        requires
            old(st).flags_ok(),
        ensures
            ({
                let r0 = src8_spec::<B>(rw.as_src(), *old(st), old(bus).model());
                let w = r0 << 1;
                let flagged = (State {
                    F: f_bits(w == 0, false, false, r0 & 0x80 != 0),
                    ..*old(st)
                });
                &&& *final(st) == dst8_st::<B>(rw, flagged, w)
                &&& final(bus).model() == dst8_bus::<B>(rw, flagged, old(bus).model(), w)
            }),
    {
        proof {
            lemma_flag_bits();
        }
        let r = rw.as_src().read8(st, bus);
        let w = r << 1;

        st.set_flag(Flag::Z, w == 0);
        st.disable_flag(Flag::N);
        st.disable_flag(Flag::H);
        st.set_flag(Flag::C, (r & 0x80) != 0);

        rw.write8(st, bus, w);
    }

    /// Shift right arithmetic (bit 7 kept). Z per result; N, H cleared; C
    /// from bit 0.
    pub fn sra8<B: Bus>(&self, st: &mut State, bus: &mut B, rw: Dst8)
        requires
            old(st).flags_ok(),
        ensures
            ({
                let r0 = src8_spec::<B>(rw.as_src(), *old(st), old(bus).model());
                let w = (r0 >> 1) | (r0 & 0x80);
                let flagged = (State {
                    F: f_bits(w == 0, false, false, r0 & 0x01 != 0),
                    ..*old(st)
                });
                &&& *final(st) == dst8_st::<B>(rw, flagged, w)
                &&& final(bus).model() == dst8_bus::<B>(rw, flagged, old(bus).model(), w)
            }),
    {
        proof {
            lemma_flag_bits();
        }
        let r = rw.as_src().read8(st, bus);
        let w = (r >> 1) | (r & 0x80);

        st.set_flag(Flag::Z, w == 0);
        st.disable_flag(Flag::N);
        st.disable_flag(Flag::H);
        st.set_flag(Flag::C, (r & 0x01) != 0);

        rw.write8(st, bus, w);
    }

    /// Shift right logical. Z per result; N, H cleared; C from bit 0.
    pub fn srl8<B: Bus>(&self, st: &mut State, bus: &mut B, rw: Dst8)
        requires
            old(st).flags_ok(),
        ensures
            ({
                let r0 = src8_spec::<B>(rw.as_src(), *old(st), old(bus).model());
                let w = r0 >> 1;
                let flagged = (State {
                    F: f_bits(w == 0, false, false, r0 & 0x01 != 0),
                    ..*old(st)
                });
                &&& *final(st) == dst8_st::<B>(rw, flagged, w)
                &&& final(bus).model() == dst8_bus::<B>(rw, flagged, old(bus).model(), w)
            }),
    {
        proof {
            lemma_flag_bits();
        }
        let r = rw.as_src().read8(st, bus);
        let w = r >> 1;

        st.set_flag(Flag::Z, w == 0);
        st.disable_flag(Flag::N);
        st.disable_flag(Flag::H);
        st.set_flag(Flag::C, (r & 0x01) != 0);

        rw.write8(st, bus, w);
    }

    /// Swap the nibbles. Z per result; N, H and C cleared.
    pub fn swap8<B: Bus>(&self, st: &mut State, bus: &mut B, rw: Dst8)
        requires
            old(st).flags_ok(),
        ensures
            ({
                let r0 = src8_spec::<B>(rw.as_src(), *old(st), old(bus).model());
                let w = (r0 << 4) | (r0 >> 4);
                let flagged = (State { F: f_bits(w == 0, false, false, false), ..*old(st) });
                &&& *final(st) == dst8_st::<B>(rw, flagged, w)
                &&& final(bus).model() == dst8_bus::<B>(rw, flagged, old(bus).model(), w)
            }),
    {
        proof {
            lemma_flag_bits();
        }
        let r = rw.as_src().read8(st, bus);
        let w = (r << 4) | (r >> 4);

        st.set_flag(Flag::Z, w == 0);
        st.disable_flag(Flag::N);
        st.disable_flag(Flag::H);
        st.disable_flag(Flag::C);

        rw.write8(st, bus, w);
    }

    /// Test one bit. Z set when the bit is clear; N cleared; H set; C kept.
    pub fn bit8<B: Bus>(&self, st: &mut State, bus: &mut B, bit: u8, r: Src8)
        requires
            old(st).flags_ok(),
            bit < 8,
        ensures
            final(bus).model() == old(bus).model(),
            ({
                let v = src8_spec::<B>(r, *old(st), old(bus).model());
                *final(st) == (State {
                    F: f_bits(v & (1u8 << bit) == 0, false, true, cf(old(st).F)),
                    ..*old(st)
                })
            }),
    {
        proof {
            lemma_flag_bits();
        }
        let v = r.read8(st, bus);

        st.set_flag(Flag::Z, (v & (1u8 << bit)) == 0);
        st.disable_flag(Flag::N);
        st.enable_flag(Flag::H);
    }

    /// Set one bit; no flags change.
    pub fn set8<B: Bus>(&self, st: &mut State, bus: &mut B, bit: u8, rw: Dst8)
        requires
            bit < 8,
        ensures
            ({
                let v = src8_spec::<B>(rw.as_src(), *old(st), old(bus).model()) | (1u8 << bit);
                &&& *final(st) == dst8_st::<B>(rw, *old(st), v)
                &&& final(bus).model() == dst8_bus::<B>(rw, *old(st), old(bus).model(), v)
            }),
    {
        let v = rw.as_src().read8(st, bus) | (1u8 << bit);
        rw.write8(st, bus, v);
    }

    /// Clear one bit; no flags change.
    pub fn res8<B: Bus>(&self, st: &mut State, bus: &mut B, bit: u8, rw: Dst8)
        requires
            bit < 8,
        ensures
            ({
                let v = src8_spec::<B>(rw.as_src(), *old(st), old(bus).model()) & !(1u8 << bit);
                &&& *final(st) == dst8_st::<B>(rw, *old(st), v)
                &&& final(bus).model() == dst8_bus::<B>(rw, *old(st), old(bus).model(), v)
            }),
    {
        let v = rw.as_src().read8(st, bus) & !(1u8 << bit);
        rw.write8(st, bus, v);
    }

    /// SP -= 2, then the word is written at the new SP.
    pub fn push16<B: Bus>(&self, st: &mut State, bus: &mut B, r: Src16)
        ensures
            ({
                let v = src16_spec::<B>(r, *old(st), old(bus).model());
                &&& *final(st) == set_r16(*old(st), Register16::SP, old(st).SP.wrapping_sub(2))
                &&& final(bus).model() == bus_upd16::<B>(
                    old(bus).model(),
                    old(st).SP.wrapping_sub(2),
                    v,
                )
            }),
    {
        let sp = Register16::SP.read16(st);
        let v = r.read16(st, bus);
        bus.write16(sp.wrapping_sub(2), v);

        self.dec16(st, Register16::SP);
        self.dec16(st, Register16::SP);
    }

    /// The word at SP is read into the target, then SP += 2.
    pub fn pop16<B: Bus>(&self, st: &mut State, bus: &mut B, w: Dst16)
        ensures
            ({
                let v = bus_view16::<B>(old(bus).model(), old(st).SP);
                let mid = dst16_st::<B>(w, *old(st), v);
                &&& *final(st) == set_r16(mid, Register16::SP, get_r16(mid,
                Register16::SP).wrapping_add(2))
                &&& final(bus).model() == dst16_bus::<B>(w, *old(st), old(bus).model(), v)
            }),
    {
        let sp = Register16::SP.read16(st);
        let v = bus.read16(sp);
        w.write16(st, bus, v);

        self.inc16(st, Register16::SP);
        self.inc16(st, Register16::SP);
    }

    /// Absolute jump: on a met condition PC takes the operand and 4 extra
    /// cycles accrue, and the dispatch reports a zero byte length; otherwise
    /// PC is untouched and the dispatch advances it past the instruction.
    /// Returns whether the jump was taken.
    pub fn jp<B: Bus>(&mut self, st: &mut State, bus: &mut B, cond: Condition, r: Src16) -> (
        taken: bool)
        requires
            extra_of(*old(self)) == 0,
        ensures
            final(bus).model() == old(bus).model(),
            taken == cond_spec(cond, old(st).F),
            ({
                let target = src16_spec::<B>(r, *old(st), old(bus).model());
                &&& *final(st) == (State {
                    PC: if taken { target } else { old(st).PC },
                    ..*old(st)
                })
                &&& extra_of(*final(self)) == if taken { 4int } else { 0 }
            }),
    {
        if cond.test(st) {
            let addr = r.read16(st, bus);
            st.PC = addr;
            self.extra_cycle = 4;
            true
        } else {
            false
        }
    }

    /// Relative jump: on a met condition PC moves by the signed offset, with
    /// 4 extra cycles; the dispatch then advances PC past the 2-byte
    /// instruction in either case, so a taken jump lands at the offset from
    /// the following instruction.
    pub fn jr<B: Bus>(&mut self, st: &mut State, bus: &mut B, cond: Condition, r: Src8)
        requires
            extra_of(*old(self)) == 0,
        ensures
            final(bus).model() == old(bus).model(),
            ({
                let taken = cond_spec(cond, old(st).F);
                let off = src8_spec::<B>(r, *old(st), old(bus).model());
                &&& *final(st) == (State {
                    PC: if taken {
                        old(st).PC.wrapping_add(sext(off))
                    } else {
                        old(st).PC
                    },
                    ..*old(st)
                })
                &&& extra_of(*final(self)) == if taken { 4int } else { 0 }
            }),
    {
        if cond.test(st) {
            let offset = r.read8(st, bus);
            st.PC = st.PC.wrapping_add(sign_extend(offset));
            self.extra_cycle = 4;
        }
    }

    /// Conditional call: on a met condition the address past the 3-byte
    /// instruction is pushed and PC takes the operand, with 12 extra cycles.
    pub fn call<B: Bus>(&mut self, st: &mut State, bus: &mut B, cond: Condition, r: Src16)
        requires
            extra_of(*old(self)) == 0,
        ensures
            ({
                let taken = cond_spec(cond, old(st).F);
                let target = src16_spec::<B>(r, *old(st), old(bus).model());
                let next = old(st).PC.wrapping_add(3);
                &&& *final(st) == if taken {
                    (State { PC: target, SP: old(st).SP.wrapping_sub(2), ..*old(st) })
                } else {
                    (State { PC: next, ..*old(st) })
                }
                &&& final(bus).model() == if taken {
                    bus_upd16::<B>(old(bus).model(), old(st).SP.wrapping_sub(2), next)
                } else {
                    old(bus).model()
                }
                &&& extra_of(*final(self)) == if taken { 12int } else { 0 }
            }),
    {
        // PC + opcode (1 byte) + operand (2 bytes)
        let next_addr = st.PC.wrapping_add(3);

        if cond.test(st) {
            let addr = r.read16(st, bus);
            // Push the next instruction onto the stack
            self.push16(st, bus, Src16::Lit(Data16(next_addr)));
            st.PC = addr;
            self.extra_cycle = 12;
        } else {
            st.PC = next_addr;
        }
    }

    /// Conditional return: on a met condition PC is popped off the stack,
    /// with 12 extra cycles; otherwise PC moves past the 1-byte instruction.
    pub fn ret<B: Bus>(&mut self, st: &mut State, bus: &mut B, cond: Condition)
        requires
            extra_of(*old(self)) == 0,
        ensures
            final(bus).model() == old(bus).model(),
            ({
                let taken = cond_spec(cond, old(st).F);
                &&& *final(st) == if taken {
                    (State {
                        PC: bus_view16::<B>(old(bus).model(), old(st).SP),
                        SP: old(st).SP.wrapping_add(2),
                        ..*old(st)
                    })
                } else {
                    (State { PC: old(st).PC.wrapping_add(1), ..*old(st) })
                }
                &&& extra_of(*final(self)) == if taken { 12int } else { 0 }
            }),
    {
        if cond.test(st) {
            self.pop16(st, bus, Dst16::Reg(Register16::PC));
            self.extra_cycle = 12;
        } else {
            st.PC = st.PC.wrapping_add(1);
        }
    }

    /// Return and re-enable interrupts.
    pub fn reti<B: Bus>(&mut self, st: &mut State, bus: &mut B)
        requires
            extra_of(*old(self)) == 0,
        ensures
            final(bus).model() == old(bus).model(),
            *final(st) == (State {
                PC: bus_view16::<B>(old(bus).model(), old(st).SP),
                SP: old(st).SP.wrapping_add(2),
                IME: true,
                ..*old(st)
            }),
            extra_of(*final(self)) == 12,
    {
        self.ret(st, bus, Condition::T);
        self.ei(st);
    }

    /// Restart: the address past the 1-byte instruction is pushed and PC
    /// takes the fixed vector.
    pub fn rst<B: Bus>(&self, st: &mut State, bus: &mut B, addr: u16)
        ensures
            *final(st) == (State { PC: addr, SP: old(st).SP.wrapping_sub(2), ..*old(st) }),
            final(bus).model() == bus_upd16::<B>(
                old(bus).model(),
                old(st).SP.wrapping_sub(2),
                old(st).PC.wrapping_add(1),
            ),
    {
        let next_addr = st.PC.wrapping_add(1);
        self.push16(st, bus, Src16::Lit(Data16(next_addr)));
        st.PC = addr;
    }

    /// Enable the interrupt master flag.
    pub fn ei(&self, st: &mut State)
        ensures
            *final(st) == (State { IME: true, ..*old(st) }),
    {
        st.IME = true;
    }

    /// Disable the interrupt master flag.
    pub fn di(&self, st: &mut State)
        ensures
            *final(st) == (State { IME: false, ..*old(st) }),
    {
        st.IME = false;
    }

    /// Complement A; N and H set.
    pub fn cpl(&self, st: &mut State)
        requires
            old(st).flags_ok(),
        ensures
            *final(st) == (State {
                A: old(st).A ^ 0xFF,
                F: f_bits(crate::cpu::state::zf(old(st).F), true, true, cf(old(st).F)),
                ..*old(st)
            }),
    {
        proof {
            lemma_flag_bits();
        }
        st.A = st.A ^ 0xFF;
        st.enable_flag(Flag::N);
        st.enable_flag(Flag::H);
    }

    /// Complement the carry flag; N and H cleared.
    pub fn ccf(&self, st: &mut State)
        requires
            old(st).flags_ok(),
        ensures
            *final(st) == (State {
                F: f_bits(crate::cpu::state::zf(old(st).F), false, false, !cf(old(st).F)),
                ..*old(st)
            }),
    {
        proof {
            lemma_flag_bits();
        }
        st.disable_flag(Flag::N);
        st.disable_flag(Flag::H);
        let c = st.get_flag(Flag::C);
        st.set_flag(Flag::C, !c);
    }

    /// Set the carry flag; N and H cleared.
    pub fn scf(&self, st: &mut State)
        requires
            old(st).flags_ok(),
        ensures
            *final(st) == (State {
                F: f_bits(crate::cpu::state::zf(old(st).F), false, false, true),
                ..*old(st)
            }),
    {
        proof {
            lemma_flag_bits();
        }
        st.disable_flag(Flag::N);
        st.disable_flag(Flag::H);
        st.enable_flag(Flag::C);
    }

    /// Halt until the raw interrupt flags change; the current flags are
    /// snapshotted so a change can be seen.
    pub fn halt<B: Bus>(&self, st: &mut State, bus: &mut B)
        ensures
            final(bus).model() == old(bus).model(),
            *final(st) == (State {
                halted: true,
                interrupts_before_halt: B::view8(old(bus).model(), 0xFF0F),
                ..*old(st)
            }),
    {
        st.interrupts_before_halt = bus.read8(0xFF0F);
        st.halted = true;
    }

    /// An opcode with no mapping: treated as a 1-byte no-operation.
    pub fn undefined(&self, opcode: u8) {
        let _ = opcode;
    }
}

/// `PUSH rr` then `POP rr` is a round trip: with a well-formed flag nibble
/// and the full 64 KiB memory behind the bus, pushing any register pair
/// other than SP and popping it back leaves both the pair and SP exactly as
/// they were. The two composed effects below are the contracted effects of
/// `push16` and `pop16` on the work memory bus.
pub proof fn lemma_push_pop_roundtrip(st: State, m: Seq<u8>, rr: Register16)
    requires
        st.flags_ok(),
        rr != Register16::SP,
        m.len() == 0x10000,
    ensures
        ({
            let sp1 = st.SP.wrapping_sub(2);
            let st1 = set_r16(st, Register16::SP, sp1);
            let m1 = bus_upd16::<crate::ram::Ram>(m, sp1, get_r16(st, rr));
            let v = bus_view16::<crate::ram::Ram>(m1, st1.SP);
            let mid = dst16_st::<crate::ram::Ram>(Dst16::Reg(rr), st1, v);
            let st2 = set_r16(mid, Register16::SP, get_r16(mid, Register16::SP).wrapping_add(2));
            &&& v == get_r16(st, rr)
            &&& get_r16(st2, rr) == get_r16(st, rr)
            &&& st2.SP == st.SP
        }),
{
    let sp1 = st.SP.wrapping_sub(2);
    let w = get_r16(st, rr);
    let m1 = bus_upd16::<crate::ram::Ram>(m, sp1, w);
    assert(bus_view16::<crate::ram::Ram>(m1, sp1) == crate::bus::word_of(
        crate::bus::lo8(w),
        crate::bus::hi8(w),
    ));
    assert(crate::bus::word_of(crate::bus::lo8(w), crate::bus::hi8(w)) == w);
    if rr == Register16::AF {
        let f = st.F;
        assert(f % 16 == 0) by (bit_vector)
            requires
                f & 0x0F == 0,
        ;
        assert(crate::cpu::oprand::masked_f(w) == st.F);
    }
}

} // verus!
