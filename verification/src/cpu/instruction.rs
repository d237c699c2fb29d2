//! The opcode decoder: two 256-entry dispatch tables.
//!
//! `exec` runs one unprefixed instruction and `exec_ex` one CB-prefixed
//! instruction, each returning the (byte length, T-cycle) pair of the
//! published opcode table, which the caller adds to PC. A call, return or
//! taken absolute jump sets PC itself and reports a byte length of zero; a
//! met condition adds its surcharge to the cycle count. What each opcode
//! does to the machine is pinned down by `grid_effect`, `misc_effect` and
//! `flow_effect` together.

use vstd::prelude::*;

use crate::bus::Bus;
use crate::cpu::oprand::Address;
use crate::cpu::oprand::Condition;
use crate::cpu::oprand::Dst8;
use crate::cpu::oprand::Dst16;
use crate::cpu::oprand::Immediate8;
use crate::cpu::oprand::Immediate16;
use crate::cpu::oprand::Register8;
use crate::cpu::oprand::Register16;
use crate::cpu::oprand::Src8;
use crate::cpu::oprand::Src16;
use crate::cpu::oprand::cond_spec;
use crate::cpu::oprand::dst8_bus;
use crate::cpu::oprand::dst8_st;
use crate::cpu::oprand::src8_spec;
use crate::cpu::oprand::get_r16;
use crate::cpu::oprand::set_r16;
use crate::bus::bus_upd16;
use crate::bus::bus_view16;
use crate::cpu::state::cf;
use crate::cpu::state::f_bits;
use crate::cpu::processor::Processor;
use crate::cpu::processor::daa_res;
use crate::cpu::processor::sext;
use crate::cpu::state::hf;
use crate::cpu::state::nf;
use crate::cpu::state::zf;
use crate::cpu::state::State;
use crate::cpu::state::lemma_f_bits_wf;

verus! {

/// The (A, F) pair one row of the arithmetic/logic grid computes from the
/// accumulator, the operand byte and the incoming flags; row `k` counts
/// ADD, ADC, SUB, SBC, AND, XOR, OR, CP.
pub open spec fn alu_result(k: u8, a: u8, b: u8, f: u8) -> (u8, u8) {
    let cy: int = if cf(f) { 1 } else { 0 };
    match k % 8 {
        0u8 => (((a + b) % 256) as u8, f_bits((a + b) % 256 == 0, false, a % 16 + b % 16 > 15, a + b > 255)),
        1u8 => (
            ((a + b + cy) % 256) as u8,
            f_bits((a + b + cy) % 256 == 0, false, a % 16 + b % 16 + cy > 15, a + b + cy > 255),
        ),
        2u8 => (
            ((a + 256 - b) % 256) as u8,
            f_bits((a + 256 - b) % 256 == 0, true, a % 16 < b % 16, a < b),
        ),
        3u8 => (
            ((a + 256 - b - cy) % 256) as u8,
            f_bits((a + 256 - b - cy) % 256 == 0, true, a % 16 < b % 16 + cy, a < b + cy),
        ),
        4u8 => (a & b, f_bits(a & b == 0, false, true, false)),
        5u8 => (a ^ b, f_bits(a ^ b == 0, false, false, false)),
        6u8 => (a | b, f_bits(a | b == 0, false, false, false)),
        _ => (a, f_bits((a + 256 - b) % 256 == 0, true, a % 16 < b % 16, a < b)),
    }
}

/// The main-table opcodes that leave PC entirely to the dispatcher:
/// everything except the jumps, calls, returns and restarts.
pub open spec fn pc_neutral(opcode: u8) -> bool {
    &&& !(opcode < 0x40 && opcode % 8 == 0 && opcode >= 0x18)  // JR
    &&& opcode != 0xC3 && opcode != 0xC2 && opcode != 0xCA && opcode != 0xD2 && opcode != 0xDA  // JP
    &&& opcode != 0xE9  // JP (HL)
    &&& opcode != 0xCD && opcode != 0xC4 && opcode != 0xCC && opcode != 0xD4 && opcode != 0xDC  // CALL
    &&& opcode != 0xC0 && opcode != 0xC8 && opcode != 0xD0 && opcode != 0xD8  // RET cc
    &&& opcode != 0xC9 && opcode != 0xD9  // RET, RETI
    &&& !(opcode >= 0xC0 && opcode % 8 == 7)  // RST
}

/// The register pair column of the stack opcodes: BC, DE, HL, AF.
pub open spec fn stack_pair(n: u8) -> Register16 {
    match n % 4 {
        0u8 => Register16::BC,
        1u8 => Register16::DE,
        2u8 => Register16::HL,
        _ => Register16::AF,
    }
}

/// What the dispatch guarantees of the machine state beyond the (length,
/// cycles) pair: exact semantics for the two uniform grids. The 8-bit load
/// grid copies the column operand into the row operand; the arithmetic and
/// logic grid combines the accumulator with the column operand row by row
/// and leaves the bus alone.
pub open spec fn grid_effect<B: Bus>(
    opcode: u8,
    st0: State,
    m0: B::Model,
    st1: State,
    m1: B::Model,
) -> bool {
    &&& (0x40 <= opcode < 0x80 && opcode != 0x76 ==> {
        let v = src8_spec::<B>(cb_target_spec(opcode % 8).dst8_src(), st0, m0);
        &&& st1 == dst8_st::<B>(cb_target_spec((opcode / 8) % 8), st0, v)
        &&& m1 == dst8_bus::<B>(cb_target_spec((opcode / 8) % 8), st0, m0, v)
    })
    &&& (0x80 <= opcode < 0xC0 ==> {
        let b = src8_spec::<B>(cb_target_spec(opcode % 8).dst8_src(), st0, m0);
        let rf = alu_result((opcode / 8) % 8, st0.A, b, st0.F);
        &&& st1 == (State { A: rf.0, F: rf.1, ..st0 })
        &&& m1 == m0
    })
    &&& (opcode >= 0xC0 && opcode % 8 == 6 ==> {
        let b = B::view8(m0, st0.PC.wrapping_add(1));
        let rf = alu_result((opcode / 8) % 8, st0.A, b, st0.F);
        &&& st1 == (State { A: rf.0, F: rf.1, ..st0 })
        &&& m1 == m0
    })
    &&& (opcode < 0x40 && opcode % 8 == 4 ==> {
        let target = cb_target_spec(opcode / 8);
        let v0 = src8_spec::<B>(target.dst8_src(), st0, m0);
        let v = ((v0 + 1) % 256) as u8;
        let flagged = (State { F: f_bits(v == 0, false, v % 16 == 0, cf(st0.F)), ..st0 });
        &&& st1 == dst8_st::<B>(target, flagged, v)
        &&& m1 == dst8_bus::<B>(target, flagged, m0, v)
    })
    &&& (opcode < 0x40 && opcode % 8 == 5 ==> {
        let target = cb_target_spec(opcode / 8);
        let v0 = src8_spec::<B>(target.dst8_src(), st0, m0);
        let v = ((v0 + 255) % 256) as u8;
        let flagged = (State { F: f_bits(v == 0, true, v % 16 == 15, cf(st0.F)), ..st0 });
        &&& st1 == dst8_st::<B>(target, flagged, v)
        &&& m1 == dst8_bus::<B>(target, flagged, m0, v)
    })
    &&& (opcode < 0x40 && opcode % 8 == 6 ==> {
        let target = cb_target_spec(opcode / 8);
        let v = B::view8(m0, st0.PC.wrapping_add(1));
        &&& st1 == dst8_st::<B>(target, st0, v)
        &&& m1 == dst8_bus::<B>(target, st0, m0, v)
    })
    &&& ((opcode == 0x07 || opcode == 0x0F || opcode == 0x17 || opcode == 0x1F) ==> {
        let wf = cb_rot_result(opcode / 8, st0.A, st0.F);
        &&& st1 == (State { A: wf.0, F: f_bits(false, false, false, cf(wf.1)), ..st0 })
        &&& m1 == m0
    })
    &&& (opcode >= 0xC0 && opcode % 16 == 5 ==> {
        let rr = stack_pair(opcode / 16);
        &&& st1 == set_r16(st0, Register16::SP, st0.SP.wrapping_sub(2))
        &&& m1 == bus_upd16::<B>(m0, st0.SP.wrapping_sub(2), get_r16(st0, rr))
    })
    &&& (opcode >= 0xC0 && opcode % 16 == 1 && opcode % 8 != 6 ==> {
        let rr = stack_pair(opcode / 16);
        let v = bus_view16::<B>(m0, st0.SP);
        let mid = set_r16(st0, rr, v);
        &&& st1 == set_r16(mid, Register16::SP, get_r16(mid, Register16::SP).wrapping_add(2))
        &&& m1 == m0
    })
    &&& (opcode >= 0xC0 && opcode % 8 == 7 ==> {
        &&& st1 == (State {
            PC: (opcode - 0xC7) as u16,
            SP: st0.SP.wrapping_sub(2),
            ..st0
        })
        &&& m1 == bus_upd16::<B>(m0, st0.SP.wrapping_sub(2), st0.PC.wrapping_add(1))
    })
}

/// The register pair column of the 16-bit load/arithmetic opcodes:
/// BC, DE, HL, SP.
pub open spec fn wide_pair(n: u8) -> Register16 {
    match n % 4 {
        0u8 => Register16::BC,
        1u8 => Register16::DE,
        2u8 => Register16::HL,
        _ => Register16::SP,
    }
}

/// Whether a main-table opcode has no mapping and runs as a 1-byte
/// no-operation (the stray CB prefix byte included).
pub open spec fn is_undefined(opcode: u8) -> bool {
    opcode == 0xCB || opcode == 0xD3 || opcode == 0xDB || opcode == 0xDD || opcode == 0xE3
        || opcode == 0xE4 || opcode == 0xEB || opcode == 0xEC || opcode == 0xED || opcode == 0xF4
        || opcode == 0xFC || opcode == 0xFD
}

/// The exact machine effect of the main-table opcodes outside the grids and
/// the control flow: no-operations, the 16-bit loads and arithmetic, the
/// loads that move A through memory, the decimal adjust and flag
/// instructions, interrupt enable/disable, HALT and the signed stack
/// arithmetic. PC is left to the dispatcher throughout.
pub open spec fn misc_effect<B: Bus>(
    opcode: u8,
    st0: State,
    m0: B::Model,
    st1: State,
    m1: B::Model,
) -> bool {
    let imm8 = B::view8(m0, st0.PC.wrapping_add(1));
    let imm16 = bus_view16::<B>(m0, st0.PC.wrapping_add(1));
    let hl = get_r16(st0, Register16::HL);
    &&& (opcode == 0x00 || opcode == 0x10 || is_undefined(opcode) ==> st1 == st0 && m1 == m0)
    &&& (opcode == 0x76 ==> st1 == (State {
        halted: true,
        interrupts_before_halt: B::view8(m0, 0xFF0F),
        ..st0
    }) && m1 == m0)
    &&& (opcode < 0x40 && opcode % 16 == 1 ==> st1 == set_r16(st0, wide_pair(opcode / 16), imm16)
        && m1 == m0)
    &&& (opcode < 0x40 && opcode % 16 == 3 ==> st1 == set_r16(
        st0,
        wide_pair(opcode / 16),
        get_r16(st0, wide_pair(opcode / 16)).wrapping_add(1),
    ) && m1 == m0)
    &&& (opcode < 0x40 && opcode % 16 == 11 ==> st1 == set_r16(
        st0,
        wide_pair(opcode / 16),
        get_r16(st0, wide_pair(opcode / 16)).wrapping_sub(1),
    ) && m1 == m0)
    &&& (opcode < 0x40 && opcode % 16 == 9 ==> {
        let b = get_r16(st0, wide_pair(opcode / 16));
        let flagged = (State {
            F: f_bits(zf(st0.F), false, hl % 4096 + b % 4096 > 4095, hl + b > 65535),
            ..st0
        });
        &&& st1 == set_r16(flagged, Register16::HL, ((hl + b) % 65536) as u16)
        &&& m1 == m0
    })
    &&& (opcode == 0x02 ==> st1 == st0 && m1 == B::upd8(m0, get_r16(st0, Register16::BC), st0.A))
    &&& (opcode == 0x12 ==> st1 == st0 && m1 == B::upd8(m0, get_r16(st0, Register16::DE), st0.A))
    &&& (opcode == 0x22 ==> st1 == set_r16(st0, Register16::HL, hl.wrapping_add(1)) && m1
        == B::upd8(m0, hl, st0.A))
    &&& (opcode == 0x32 ==> st1 == set_r16(st0, Register16::HL, hl.wrapping_sub(1)) && m1
        == B::upd8(m0, hl, st0.A))
    &&& (opcode == 0x0A ==> st1 == (State {
        A: B::view8(m0, get_r16(st0, Register16::BC)),
        ..st0
    }) && m1 == m0)
    &&& (opcode == 0x1A ==> st1 == (State {
        A: B::view8(m0, get_r16(st0, Register16::DE)),
        ..st0
    }) && m1 == m0)
    &&& (opcode == 0x2A ==> st1 == set_r16(
        (State { A: B::view8(m0, hl), ..st0 }),
        Register16::HL,
        hl.wrapping_add(1),
    ) && m1 == m0)
    &&& (opcode == 0x3A ==> st1 == set_r16(
        (State { A: B::view8(m0, hl), ..st0 }),
        Register16::HL,
        hl.wrapping_sub(1),
    ) && m1 == m0)
    &&& (opcode == 0x08 ==> st1 == st0 && m1 == bus_upd16::<B>(m0, imm16, st0.SP))
    &&& (opcode == 0xF9 ==> st1 == set_r16(st0, Register16::SP, hl) && m1 == m0)
    &&& (opcode == 0xE0 ==> st1 == st0 && m1 == B::upd8(m0, (0xFF00 + imm8) as u16, st0.A))
    &&& (opcode == 0xF0 ==> st1 == (State { A: B::view8(m0, (0xFF00 + imm8) as u16), ..st0 })
        && m1 == m0)
    &&& (opcode == 0xE2 ==> st1 == st0 && m1 == B::upd8(m0, (0xFF00 + st0.C) as u16, st0.A))
    &&& (opcode == 0xF2 ==> st1 == (State { A: B::view8(m0, (0xFF00 + st0.C) as u16), ..st0 })
        && m1 == m0)
    &&& (opcode == 0xEA ==> st1 == st0 && m1 == B::upd8(m0, imm16, st0.A))
    &&& (opcode == 0xFA ==> st1 == (State { A: B::view8(m0, imm16), ..st0 }) && m1 == m0)
    &&& (opcode == 0x27 ==> st1 == (State {
        A: daa_res(st0.A, nf(st0.F), hf(st0.F), cf(st0.F)),
        F: f_bits(
            daa_res(st0.A, nf(st0.F), hf(st0.F), cf(st0.F)) == 0,
            nf(st0.F),
            false,
            cf(st0.F) || (!nf(st0.F) && st0.A > 0x99),
        ),
        ..st0
    }) && m1 == m0)
    &&& (opcode == 0x2F ==> st1 == (State {
        A: st0.A ^ 0xFF,
        F: f_bits(zf(st0.F), true, true, cf(st0.F)),
        ..st0
    }) && m1 == m0)
    &&& (opcode == 0x37 ==> st1 == (State {
        F: f_bits(zf(st0.F), false, false, true),
        ..st0
    }) && m1 == m0)
    &&& (opcode == 0x3F ==> st1 == (State {
        F: f_bits(zf(st0.F), false, false, !cf(st0.F)),
        ..st0
    }) && m1 == m0)
    &&& (opcode == 0xF3 ==> st1 == (State { IME: false, ..st0 }) && m1 == m0)
    &&& (opcode == 0xFB ==> st1 == (State { IME: true, ..st0 }) && m1 == m0)
    &&& (opcode == 0xE8 ==> {
        let flagged = (State {
            F: f_bits(false, false, st0.SP % 16 + imm8 % 16 > 15, st0.SP % 256 + imm8 > 255),
            ..st0
        });
        &&& st1 == (State { SP: st0.SP.wrapping_add(sext(imm8)), ..flagged })
        &&& m1 == m0
    })
    &&& (opcode == 0xF8 ==> {
        let flagged = (State {
            F: f_bits(false, false, st0.SP % 16 + imm8 % 16 > 15, st0.SP % 256 + imm8 > 255),
            ..st0
        });
        &&& st1 == set_r16(flagged, Register16::HL, st0.SP.wrapping_add(sext(imm8)))
        &&& m1 == m0
    })
}

/// The exact machine effect of the control-flow opcodes: relative and
/// absolute jumps, calls, returns. A taken absolute jump, call or return
/// sets PC itself (and the dispatcher reports a zero length); everything
/// else leaves PC to the dispatcher.
pub open spec fn flow_effect<B: Bus>(
    opcode: u8,
    st0: State,
    m0: B::Model,
    st1: State,
    m1: B::Model,
) -> bool {
    let taken = cond_spec(main_cond(opcode), st0.F);
    let imm16 = bus_view16::<B>(m0, st0.PC.wrapping_add(1));
    let ret_pc = bus_view16::<B>(m0, st0.SP);
    &&& (opcode < 0x40 && opcode % 8 == 0 && opcode >= 0x18 ==> st1 == (State {
        PC: if taken {
            st0.PC.wrapping_add(sext(B::view8(m0, st0.PC.wrapping_add(1))))
        } else {
            st0.PC
        },
        ..st0
    }) && m1 == m0)
    &&& (opcode == 0xC3 || opcode == 0xC2 || opcode == 0xCA || opcode == 0xD2 || opcode == 0xDA
        ==> st1 == (State { PC: if taken { imm16 } else { st0.PC }, ..st0 }) && m1 == m0)
    &&& (opcode == 0xE9 ==> st1 == (State { PC: get_r16(st0, Register16::HL), ..st0 }) && m1
        == m0)
    &&& (opcode == 0xCD || opcode == 0xC4 || opcode == 0xCC || opcode == 0xD4 || opcode == 0xDC
        ==> if taken {
        &&& st1 == (State { PC: imm16, SP: st0.SP.wrapping_sub(2), ..st0 })
        &&& m1 == bus_upd16::<B>(m0, st0.SP.wrapping_sub(2), st0.PC.wrapping_add(3))
    } else {
        &&& st1 == (State { PC: st0.PC.wrapping_add(3), ..st0 })
        &&& m1 == m0
    })
    &&& (opcode == 0xC0 || opcode == 0xC8 || opcode == 0xD0 || opcode == 0xD8 ==> st1 == (if taken {
        (State { PC: ret_pc, SP: st0.SP.wrapping_add(2), ..st0 })
    } else {
        (State { PC: st0.PC.wrapping_add(1), ..st0 })
    }) && m1 == m0)
    &&& (opcode == 0xC9 ==> st1 == (State {
        PC: ret_pc,
        SP: st0.SP.wrapping_add(2),
        ..st0
    }) && m1 == m0)
    &&& (opcode == 0xD9 ==> st1 == (State {
        PC: ret_pc,
        SP: st0.SP.wrapping_add(2),
        IME: true,
        ..st0
    }) && m1 == m0)
}

/// The exact effect of one whole fetch at `st0.PC` for the control-flow
/// opcodes, with the dispatcher's PC advance already folded in: where the
/// jump, call, return or restart really lands, and what the call and
/// restart push.
pub open spec fn flow_step_effect<B: Bus>(
    opcode: u8,
    st0: State,
    m0: B::Model,
    st1: State,
    m1: B::Model,
) -> bool {
    let taken = cond_spec(main_cond(opcode), st0.F);
    let imm8 = B::view8(m0, st0.PC.wrapping_add(1));
    let imm16 = bus_view16::<B>(m0, st0.PC.wrapping_add(1));
    let ret_pc = bus_view16::<B>(m0, st0.SP);
    &&& (opcode < 0x40 && opcode % 8 == 0 && opcode >= 0x18 ==> st1 == (State {
        PC: (if taken {
            st0.PC.wrapping_add(sext(imm8))
        } else {
            st0.PC
        }).wrapping_add(2),
        ..st0
    }) && m1 == m0)
    &&& (opcode == 0xC3 || opcode == 0xC2 || opcode == 0xCA || opcode == 0xD2 || opcode == 0xDA
        ==> st1 == (State {
        PC: if taken {
            imm16
        } else {
            st0.PC.wrapping_add(3)
        },
        ..st0
    }) && m1 == m0)
    &&& (opcode == 0xE9 ==> st1 == (State { PC: get_r16(st0, Register16::HL), ..st0 }) && m1
        == m0)
    &&& (opcode == 0xCD || opcode == 0xC4 || opcode == 0xCC || opcode == 0xD4 || opcode == 0xDC
        ==> if taken {
        &&& st1 == (State { PC: imm16, SP: st0.SP.wrapping_sub(2), ..st0 })
        &&& m1 == bus_upd16::<B>(m0, st0.SP.wrapping_sub(2), st0.PC.wrapping_add(3))
    } else {
        &&& st1 == (State { PC: st0.PC.wrapping_add(3), ..st0 })
        &&& m1 == m0
    })
    &&& (opcode == 0xC0 || opcode == 0xC8 || opcode == 0xD0 || opcode == 0xD8 ==> st1 == (if taken {
        (State { PC: ret_pc, SP: st0.SP.wrapping_add(2), ..st0 })
    } else {
        (State { PC: st0.PC.wrapping_add(1), ..st0 })
    }) && m1 == m0)
    &&& (opcode == 0xC9 ==> st1 == (State {
        PC: ret_pc,
        SP: st0.SP.wrapping_add(2),
        ..st0
    }) && m1 == m0)
    &&& (opcode == 0xD9 ==> st1 == (State {
        PC: ret_pc,
        SP: st0.SP.wrapping_add(2),
        IME: true,
        ..st0
    }) && m1 == m0)
    &&& (opcode >= 0xC0 && opcode % 8 == 7 ==> st1 == (State {
        PC: (opcode - 0xC7) as u16,
        SP: st0.SP.wrapping_sub(2),
        ..st0
    }) && m1 == bus_upd16::<B>(m0, st0.SP.wrapping_sub(2), st0.PC.wrapping_add(1)))
}

/// The condition a conditional opcode tests; `T` for the rest.
pub open spec fn main_cond(op: u8) -> Condition {
    match op {
        0x20u8 => Condition::NZ,
        0x28u8 => Condition::Z,
        0x30u8 => Condition::NC,
        0x38u8 => Condition::C,
        0xC0u8 => Condition::NZ,
        0xC2u8 => Condition::NZ,
        0xC4u8 => Condition::NZ,
        0xC8u8 => Condition::Z,
        0xCAu8 => Condition::Z,
        0xCCu8 => Condition::Z,
        0xD0u8 => Condition::NC,
        0xD2u8 => Condition::NC,
        0xD4u8 => Condition::NC,
        0xD8u8 => Condition::C,
        0xDAu8 => Condition::C,
        0xDCu8 => Condition::C,
        _ => Condition::T,
    }
}

/// The (byte length, cycles) pair the main table returns for an opcode;
/// `taken` tells whether the tested condition held. Control-flow opcodes
/// report length zero: they set PC themselves.
pub open spec fn main_decode(op: u8, taken: bool) -> (u8, u8) {
    match op {
        0x00u8 => (1u8, 4u8),  // NOP
        0x01u8 => (3u8, 12u8),  // LD BC,d16
        0x02u8 => (1u8, 8u8),  // LD (BC),A
        0x03u8 => (1u8, 8u8),  // INC BC
        0x04u8 => (1u8, 4u8),  // INC B
        0x05u8 => (1u8, 4u8),  // DEC B
        0x06u8 => (2u8, 8u8),  // LD B,d8
        0x07u8 => (1u8, 4u8),  // RLCA
        0x08u8 => (3u8, 20u8),  // LD (a16),SP
        0x09u8 => (1u8, 8u8),  // ADD HL,BC
        0x0Au8 => (1u8, 8u8),  // LD A,(BC)
        0x0Bu8 => (1u8, 8u8),  // DEC BC
        0x0Cu8 => (1u8, 4u8),  // INC C
        0x0Du8 => (1u8, 4u8),  // DEC C
        0x0Eu8 => (2u8, 8u8),  // LD C,d8
        0x0Fu8 => (1u8, 4u8),  // RRCA
        0x10u8 => (2u8, 4u8),  // STOP: treated as a 2-byte no-operation
        0x11u8 => (3u8, 12u8),  // LD DE,d16
        0x12u8 => (1u8, 8u8),  // LD (DE),A
        0x13u8 => (1u8, 8u8),  // INC DE
        0x14u8 => (1u8, 4u8),  // INC D
        0x15u8 => (1u8, 4u8),  // DEC D
        0x16u8 => (2u8, 8u8),  // LD D,d8
        0x17u8 => (1u8, 4u8),  // RLA
        0x18u8 => (2u8, if taken { 12u8 } else { 8u8 }),  // JR r8
        0x19u8 => (1u8, 8u8),  // ADD HL,DE
        0x1Au8 => (1u8, 8u8),  // LD A,(DE)
        0x1Bu8 => (1u8, 8u8),  // DEC DE
        0x1Cu8 => (1u8, 4u8),  // INC E
        0x1Du8 => (1u8, 4u8),  // DEC E
        0x1Eu8 => (2u8, 8u8),  // LD E,d8
        0x1Fu8 => (1u8, 4u8),  // RRA
        0x20u8 => (2u8, if taken { 12u8 } else { 8u8 }),  // JR NZ,r8
        0x21u8 => (3u8, 12u8),  // LD HL,d16
        0x22u8 => (1u8, 8u8),  // LD (HL+),A
        0x23u8 => (1u8, 8u8),  // INC HL
        0x24u8 => (1u8, 4u8),  // INC H
        0x25u8 => (1u8, 4u8),  // DEC H
        0x26u8 => (2u8, 8u8),  // LD H,d8
        0x27u8 => (1u8, 4u8),  // DAA
        0x28u8 => (2u8, if taken { 12u8 } else { 8u8 }),  // JR Z,r8
        0x29u8 => (1u8, 8u8),  // ADD HL,HL
        0x2Au8 => (1u8, 8u8),  // LD A,(HL+)
        0x2Bu8 => (1u8, 8u8),  // DEC HL
        0x2Cu8 => (1u8, 4u8),  // INC L
        0x2Du8 => (1u8, 4u8),  // DEC L
        0x2Eu8 => (2u8, 8u8),  // LD L,d8
        0x2Fu8 => (1u8, 4u8),  // CPL
        0x30u8 => (2u8, if taken { 12u8 } else { 8u8 }),  // JR NC,r8
        0x31u8 => (3u8, 12u8),  // LD SP,d16
        0x32u8 => (1u8, 8u8),  // LD (HL-),A
        0x33u8 => (1u8, 8u8),  // INC SP
        0x34u8 => (1u8, 12u8),  // INC (HL)
        0x35u8 => (1u8, 12u8),  // DEC (HL)
        0x36u8 => (2u8, 12u8),  // LD (HL),d8
        0x37u8 => (1u8, 4u8),  // SCF
        0x38u8 => (2u8, if taken { 12u8 } else { 8u8 }),  // JR C,r8
        0x39u8 => (1u8, 8u8),  // ADD HL,SP
        0x3Au8 => (1u8, 8u8),  // LD A,(HL-)
        0x3Bu8 => (1u8, 8u8),  // DEC SP
        0x3Cu8 => (1u8, 4u8),  // INC A
        0x3Du8 => (1u8, 4u8),  // DEC A
        0x3Eu8 => (2u8, 8u8),  // LD A,d8
        0x3Fu8 => (1u8, 4u8),  // CCF
        0x40u8 => (1u8, 4u8),  // LD B,B
        0x41u8 => (1u8, 4u8),  // LD B,C
        0x42u8 => (1u8, 4u8),  // LD B,D
        0x43u8 => (1u8, 4u8),  // LD B,E
        0x44u8 => (1u8, 4u8),  // LD B,H
        0x45u8 => (1u8, 4u8),  // LD B,L
        0x46u8 => (1u8, 8u8),  // LD B,(HL)
        0x47u8 => (1u8, 4u8),  // LD B,A
        0x48u8 => (1u8, 4u8),  // LD C,B
        0x49u8 => (1u8, 4u8),  // LD C,C
        0x4Au8 => (1u8, 4u8),  // LD C,D
        0x4Bu8 => (1u8, 4u8),  // LD C,E
        0x4Cu8 => (1u8, 4u8),  // LD C,H
        0x4Du8 => (1u8, 4u8),  // LD C,L
        0x4Eu8 => (1u8, 8u8),  // LD C,(HL)
        0x4Fu8 => (1u8, 4u8),  // LD C,A
        0x50u8 => (1u8, 4u8),  // LD D,B
        0x51u8 => (1u8, 4u8),  // LD D,C
        0x52u8 => (1u8, 4u8),  // LD D,D
        0x53u8 => (1u8, 4u8),  // LD D,E
        0x54u8 => (1u8, 4u8),  // LD D,H
        0x55u8 => (1u8, 4u8),  // LD D,L
        0x56u8 => (1u8, 8u8),  // LD D,(HL)
        0x57u8 => (1u8, 4u8),  // LD D,A
        0x58u8 => (1u8, 4u8),  // LD E,B
        0x59u8 => (1u8, 4u8),  // LD E,C
        0x5Au8 => (1u8, 4u8),  // LD E,D
        0x5Bu8 => (1u8, 4u8),  // LD E,E
        0x5Cu8 => (1u8, 4u8),  // LD E,H
        0x5Du8 => (1u8, 4u8),  // LD E,L
        0x5Eu8 => (1u8, 8u8),  // LD E,(HL)
        0x5Fu8 => (1u8, 4u8),  // LD E,A
        0x60u8 => (1u8, 4u8),  // LD H,B
        0x61u8 => (1u8, 4u8),  // LD H,C
        0x62u8 => (1u8, 4u8),  // LD H,D
        0x63u8 => (1u8, 4u8),  // LD H,E
        0x64u8 => (1u8, 4u8),  // LD H,H
        0x65u8 => (1u8, 4u8),  // LD H,L
        0x66u8 => (1u8, 8u8),  // LD H,(HL)
        0x67u8 => (1u8, 4u8),  // LD H,A
        0x68u8 => (1u8, 4u8),  // LD L,B
        0x69u8 => (1u8, 4u8),  // LD L,C
        0x6Au8 => (1u8, 4u8),  // LD L,D
        0x6Bu8 => (1u8, 4u8),  // LD L,E
        0x6Cu8 => (1u8, 4u8),  // LD L,H
        0x6Du8 => (1u8, 4u8),  // LD L,L
        0x6Eu8 => (1u8, 8u8),  // LD L,(HL)
        0x6Fu8 => (1u8, 4u8),  // LD L,A
        0x70u8 => (1u8, 8u8),  // LD (HL),B
        0x71u8 => (1u8, 8u8),  // LD (HL),C
        0x72u8 => (1u8, 8u8),  // LD (HL),D
        0x73u8 => (1u8, 8u8),  // LD (HL),E
        0x74u8 => (1u8, 8u8),  // LD (HL),H
        0x75u8 => (1u8, 8u8),  // LD (HL),L
        0x76u8 => (1u8, 4u8),  // HALT
        0x77u8 => (1u8, 8u8),  // LD (HL),A
        0x78u8 => (1u8, 4u8),  // LD A,B
        0x79u8 => (1u8, 4u8),  // LD A,C
        0x7Au8 => (1u8, 4u8),  // LD A,D
        0x7Bu8 => (1u8, 4u8),  // LD A,E
        0x7Cu8 => (1u8, 4u8),  // LD A,H
        0x7Du8 => (1u8, 4u8),  // LD A,L
        0x7Eu8 => (1u8, 8u8),  // LD A,(HL)
        0x7Fu8 => (1u8, 4u8),  // LD A,A
        0x80u8 => (1u8, 4u8),  // ADD A,B
        0x81u8 => (1u8, 4u8),  // ADD A,C
        0x82u8 => (1u8, 4u8),  // ADD A,D
        0x83u8 => (1u8, 4u8),  // ADD A,E
        0x84u8 => (1u8, 4u8),  // ADD A,H
        0x85u8 => (1u8, 4u8),  // ADD A,L
        0x86u8 => (1u8, 8u8),  // ADD A,(HL)
        0x87u8 => (1u8, 4u8),  // ADD A,A
        0x88u8 => (1u8, 4u8),  // ADC A,B
        0x89u8 => (1u8, 4u8),  // ADC A,C
        0x8Au8 => (1u8, 4u8),  // ADC A,D
        0x8Bu8 => (1u8, 4u8),  // ADC A,E
        0x8Cu8 => (1u8, 4u8),  // ADC A,H
        0x8Du8 => (1u8, 4u8),  // ADC A,L
        0x8Eu8 => (1u8, 8u8),  // ADC A,(HL)
        0x8Fu8 => (1u8, 4u8),  // ADC A,A
        0x90u8 => (1u8, 4u8),  // SUB A,B
        0x91u8 => (1u8, 4u8),  // SUB A,C
        0x92u8 => (1u8, 4u8),  // SUB A,D
        0x93u8 => (1u8, 4u8),  // SUB A,E
        0x94u8 => (1u8, 4u8),  // SUB A,H
        0x95u8 => (1u8, 4u8),  // SUB A,L
        0x96u8 => (1u8, 8u8),  // SUB A,(HL)
        0x97u8 => (1u8, 4u8),  // SUB A,A
        0x98u8 => (1u8, 4u8),  // SBC A,B
        0x99u8 => (1u8, 4u8),  // SBC A,C
        0x9Au8 => (1u8, 4u8),  // SBC A,D
        0x9Bu8 => (1u8, 4u8),  // SBC A,E
        0x9Cu8 => (1u8, 4u8),  // SBC A,H
        0x9Du8 => (1u8, 4u8),  // SBC A,L
        0x9Eu8 => (1u8, 8u8),  // SBC A,(HL)
        0x9Fu8 => (1u8, 4u8),  // SBC A,A
        0xA0u8 => (1u8, 4u8),  // AND B
        0xA1u8 => (1u8, 4u8),  // AND C
        0xA2u8 => (1u8, 4u8),  // AND D
        0xA3u8 => (1u8, 4u8),  // AND E
        0xA4u8 => (1u8, 4u8),  // AND H
        0xA5u8 => (1u8, 4u8),  // AND L
        0xA6u8 => (1u8, 8u8),  // AND (HL)
        0xA7u8 => (1u8, 4u8),  // AND A
        0xA8u8 => (1u8, 4u8),  // XOR B
        0xA9u8 => (1u8, 4u8),  // XOR C
        0xAAu8 => (1u8, 4u8),  // XOR D
        0xABu8 => (1u8, 4u8),  // XOR E
        0xACu8 => (1u8, 4u8),  // XOR H
        0xADu8 => (1u8, 4u8),  // XOR L
        0xAEu8 => (1u8, 8u8),  // XOR (HL)
        0xAFu8 => (1u8, 4u8),  // XOR A
        0xB0u8 => (1u8, 4u8),  // OR B
        0xB1u8 => (1u8, 4u8),  // OR C
        0xB2u8 => (1u8, 4u8),  // OR D
        0xB3u8 => (1u8, 4u8),  // OR E
        0xB4u8 => (1u8, 4u8),  // OR H
        0xB5u8 => (1u8, 4u8),  // OR L
        0xB6u8 => (1u8, 8u8),  // OR (HL)
        0xB7u8 => (1u8, 4u8),  // OR A
        0xB8u8 => (1u8, 4u8),  // CP B
        0xB9u8 => (1u8, 4u8),  // CP C
        0xBAu8 => (1u8, 4u8),  // CP D
        0xBBu8 => (1u8, 4u8),  // CP E
        0xBCu8 => (1u8, 4u8),  // CP H
        0xBDu8 => (1u8, 4u8),  // CP L
        0xBEu8 => (1u8, 8u8),  // CP (HL)
        0xBFu8 => (1u8, 4u8),  // CP A
        0xC0u8 => (0u8, if taken { 20u8 } else { 8u8 }),  // RET NZ
        0xC1u8 => (1u8, 12u8),  // POP BC
        0xC2u8 => (if taken { 0u8 } else { 3u8 }, if taken { 16u8 } else { 12u8 }),  // JP NZ,a16
        0xC3u8 => (if taken { 0u8 } else { 3u8 }, if taken { 16u8 } else { 12u8 }),  // JP a16
        0xC4u8 => (0u8, if taken { 24u8 } else { 12u8 }),  // CALL NZ,a16
        0xC5u8 => (1u8, 16u8),  // PUSH BC
        0xC6u8 => (2u8, 8u8),  // ADD A,d8
        0xC7u8 => (0u8, 16u8),  // RST 00H
        0xC8u8 => (0u8, if taken { 20u8 } else { 8u8 }),  // RET Z
        0xC9u8 => (0u8, if taken { 16u8 } else { 4u8 }),  // RET
        0xCAu8 => (if taken { 0u8 } else { 3u8 }, if taken { 16u8 } else { 12u8 }),  // JP Z,a16
        0xCBu8 => (1u8, 4u8),  // Undefined: treated as a 1-byte no-operation
        0xCCu8 => (0u8, if taken { 24u8 } else { 12u8 }),  // CALL Z,a16
        0xCDu8 => (0u8, if taken { 24u8 } else { 12u8 }),  // CALL a16
        0xCEu8 => (2u8, 8u8),  // ADC A,d8
        0xCFu8 => (0u8, 16u8),  // RST 08H
        0xD0u8 => (0u8, if taken { 20u8 } else { 8u8 }),  // RET NC
        0xD1u8 => (1u8, 12u8),  // POP DE
        0xD2u8 => (if taken { 0u8 } else { 3u8 }, if taken { 16u8 } else { 12u8 }),  // JP NC,a16
        0xD3u8 => (1u8, 4u8),  // Undefined: treated as a 1-byte no-operation
        0xD4u8 => (0u8, if taken { 24u8 } else { 12u8 }),  // CALL NC,a16
        0xD5u8 => (1u8, 16u8),  // PUSH DE
        0xD6u8 => (2u8, 8u8),  // SUB A,d8
        0xD7u8 => (0u8, 16u8),  // RST 10H
        0xD8u8 => (0u8, if taken { 20u8 } else { 8u8 }),  // RET C
        0xD9u8 => (0u8, if taken { 16u8 } else { 4u8 }),  // RETI
        0xDAu8 => (if taken { 0u8 } else { 3u8 }, if taken { 16u8 } else { 12u8 }),  // JP C,a16
        0xDBu8 => (1u8, 4u8),  // Undefined: treated as a 1-byte no-operation
        0xDCu8 => (0u8, if taken { 24u8 } else { 12u8 }),  // CALL C,a16
        0xDDu8 => (1u8, 4u8),  // Undefined: treated as a 1-byte no-operation
        0xDEu8 => (2u8, 8u8),  // SBC A,d8
        0xDFu8 => (0u8, 16u8),  // RST 18H
        0xE0u8 => (2u8, 12u8),  // LDH (a8),A
        0xE1u8 => (1u8, 12u8),  // POP HL
        0xE2u8 => (1u8, 8u8),  // LD (C),A
        0xE3u8 => (1u8, 4u8),  // Undefined: treated as a 1-byte no-operation
        0xE4u8 => (1u8, 4u8),  // Undefined: treated as a 1-byte no-operation
        0xE5u8 => (1u8, 16u8),  // PUSH HL
        0xE6u8 => (2u8, 8u8),  // AND d8
        0xE7u8 => (0u8, 16u8),  // RST 20H
        0xE8u8 => (2u8, 16u8),  // ADD SP,r8
        0xE9u8 => (if taken { 0u8 } else { 3u8 }, if taken { 4u8 } else { 0u8 }),  // JP (HL)
        0xEAu8 => (3u8, 16u8),  // LD (a16),A
        0xEBu8 => (1u8, 4u8),  // Undefined: treated as a 1-byte no-operation
        0xECu8 => (1u8, 4u8),  // Undefined: treated as a 1-byte no-operation
        0xEDu8 => (1u8, 4u8),  // Undefined: treated as a 1-byte no-operation
        0xEEu8 => (2u8, 8u8),  // XOR d8
        0xEFu8 => (0u8, 16u8),  // RST 28H
        0xF0u8 => (2u8, 12u8),  // LDH A,(a8)
        0xF1u8 => (1u8, 12u8),  // POP AF
        0xF2u8 => (1u8, 8u8),  // LD A,(C)
        0xF3u8 => (1u8, 4u8),  // DI
        0xF4u8 => (1u8, 4u8),  // Undefined: treated as a 1-byte no-operation
        0xF5u8 => (1u8, 16u8),  // PUSH AF
        0xF6u8 => (2u8, 8u8),  // OR d8
        0xF7u8 => (0u8, 16u8),  // RST 30H
        0xF8u8 => (2u8, 12u8),  // LD HL,SP+r8
        0xF9u8 => (1u8, 8u8),  // LD SP,HL
        0xFAu8 => (3u8, 16u8),  // LD A,(a16)
        0xFBu8 => (1u8, 4u8),  // EI
        0xFCu8 => (1u8, 4u8),  // Undefined: treated as a 1-byte no-operation
        0xFDu8 => (1u8, 4u8),  // Undefined: treated as a 1-byte no-operation
        0xFEu8 => (2u8, 8u8),  // CP d8
        _ => (0u8, 16u8),  // RST 38H
    }
}

/// Opcodes 0x00..0x0F of the low miscellaneous rows.
#[verifier::rlimit(100)]
fn exec_misc_00<B: Bus>(opcode: u8, st: &mut State, bus: &mut B) -> (r: (u8, u8))
    requires
        0x00 <= opcode < 0x10,
        old(st).flags_ok(),
    ensures
        final(st).flags_ok(),
        r == main_decode(opcode, cond_spec(main_cond(opcode), old(st).F)),
        grid_effect::<B>(opcode, *old(st), old(bus).model(), *final(st), final(bus).model()),
        misc_effect::<B>(opcode, *old(st), old(bus).model(), *final(st), final(bus).model()),
        flow_effect::<B>(opcode, *old(st), old(bus).model(), *final(st), final(bus).model()),
{
    proof {
        lemma_f_bits_wf();
        crate::cpu::state::lemma_flag_bits();
    }
    let mut p = Processor::new();
    match opcode {
        0x00 => p.r(1, 4),  // NOP
        // LD BC,d16
        0x01 => {
            p.ld16(st, bus, Dst16::Reg(Register16::BC), Src16::Imm(Immediate16));
            p.r(3, 12)
        },
        // LD (BC),A
        0x02 => {
            p.ld8(st, bus, Dst8::At(Address::BC), Src8::Reg(Register8::A));
            p.r(1, 8)
        },
        // INC BC
        0x03 => {
            p.inc16(st, Register16::BC);
            p.r(1, 8)
        },
        // INC B
        0x04 => {
            p.inc8(st, bus, Dst8::Reg(Register8::B));
            p.r(1, 4)
        },
        // DEC B
        0x05 => {
            p.dec8(st, bus, Dst8::Reg(Register8::B));
            p.r(1, 4)
        },
        // LD B,d8
        0x06 => {
            p.ld8(st, bus, Dst8::Reg(Register8::B), Src8::Imm(Immediate8));
            p.r(2, 8)
        },
        // RLCA
        0x07 => {
            p.rlca(st, bus);
            p.r(1, 4)
        },
        // LD (a16),SP
        0x08 => {
            p.ld16(st, bus, Dst16::At(Address::Direct), Src16::Reg(Register16::SP));
            p.r(3, 20)
        },
        // ADD HL,BC
        0x09 => {
            p.add16(st, bus, Src16::Reg(Register16::BC));
            p.r(1, 8)
        },
        // LD A,(BC)
        0x0A => {
            p.ld8(st, bus, Dst8::Reg(Register8::A), Src8::At(Address::BC));
            p.r(1, 8)
        },
        // DEC BC
        0x0B => {
            p.dec16(st, Register16::BC);
            p.r(1, 8)
        },
        // INC C
        0x0C => {
            p.inc8(st, bus, Dst8::Reg(Register8::C));
            p.r(1, 4)
        },
        // DEC C
        0x0D => {
            p.dec8(st, bus, Dst8::Reg(Register8::C));
            p.r(1, 4)
        },
        // LD C,d8
        0x0E => {
            p.ld8(st, bus, Dst8::Reg(Register8::C), Src8::Imm(Immediate8));
            p.r(2, 8)
        },
        // RRCA
        0x0F => {
            p.rrca(st, bus);
            p.r(1, 4)
        },
        _ => p.r(1, 4),
    }
}

/// Opcodes 0x10..0x1F of the low miscellaneous rows.
#[verifier::rlimit(100)]
fn exec_misc_10<B: Bus>(opcode: u8, st: &mut State, bus: &mut B) -> (r: (u8, u8))
    requires
        0x10 <= opcode < 0x20,
        old(st).flags_ok(),
    ensures
        final(st).flags_ok(),
        r == main_decode(opcode, cond_spec(main_cond(opcode), old(st).F)),
        grid_effect::<B>(opcode, *old(st), old(bus).model(), *final(st), final(bus).model()),
        misc_effect::<B>(opcode, *old(st), old(bus).model(), *final(st), final(bus).model()),
        flow_effect::<B>(opcode, *old(st), old(bus).model(), *final(st), final(bus).model()),
{
    proof {
        lemma_f_bits_wf();
        crate::cpu::state::lemma_flag_bits();
    }
    let mut p = Processor::new();
    match opcode {
        0x10 => p.r(2, 4),  // STOP: treated as a 2-byte no-operation
        // LD DE,d16
        0x11 => {
            p.ld16(st, bus, Dst16::Reg(Register16::DE), Src16::Imm(Immediate16));
            p.r(3, 12)
        },
        // LD (DE),A
        0x12 => {
            p.ld8(st, bus, Dst8::At(Address::DE), Src8::Reg(Register8::A));
            p.r(1, 8)
        },
        // INC DE
        0x13 => {
            p.inc16(st, Register16::DE);
            p.r(1, 8)
        },
        // INC D
        0x14 => {
            p.inc8(st, bus, Dst8::Reg(Register8::D));
            p.r(1, 4)
        },
        // DEC D
        0x15 => {
            p.dec8(st, bus, Dst8::Reg(Register8::D));
            p.r(1, 4)
        },
        // LD D,d8
        0x16 => {
            p.ld8(st, bus, Dst8::Reg(Register8::D), Src8::Imm(Immediate8));
            p.r(2, 8)
        },
        // RLA
        0x17 => {
            p.rla(st, bus);
            p.r(1, 4)
        },
        // JR r8
        0x18 => {
            p.jr(st, bus, Condition::T, Src8::Imm(Immediate8));
            p.r(2, 8)
        },
        // ADD HL,DE
        0x19 => {
            p.add16(st, bus, Src16::Reg(Register16::DE));
            p.r(1, 8)
        },
        // LD A,(DE)
        0x1A => {
            p.ld8(st, bus, Dst8::Reg(Register8::A), Src8::At(Address::DE));
            p.r(1, 8)
        },
        // DEC DE
        0x1B => {
            p.dec16(st, Register16::DE);
            p.r(1, 8)
        },
        // INC E
        0x1C => {
            p.inc8(st, bus, Dst8::Reg(Register8::E));
            p.r(1, 4)
        },
        // DEC E
        0x1D => {
            p.dec8(st, bus, Dst8::Reg(Register8::E));
            p.r(1, 4)
        },
        // LD E,d8
        0x1E => {
            p.ld8(st, bus, Dst8::Reg(Register8::E), Src8::Imm(Immediate8));
            p.r(2, 8)
        },
        // RRA
        0x1F => {
            p.rra(st, bus);
            p.r(1, 4)
        },
        // JR NZ,r8
        _ => p.r(1, 4),
    }
}

/// Opcodes 0x20..0x2F of the low miscellaneous rows.
#[verifier::rlimit(100)]
fn exec_misc_20<B: Bus>(opcode: u8, st: &mut State, bus: &mut B) -> (r: (u8, u8))
    requires
        0x20 <= opcode < 0x30,
        old(st).flags_ok(),
    ensures
        final(st).flags_ok(),
        r == main_decode(opcode, cond_spec(main_cond(opcode), old(st).F)),
        grid_effect::<B>(opcode, *old(st), old(bus).model(), *final(st), final(bus).model()),
        misc_effect::<B>(opcode, *old(st), old(bus).model(), *final(st), final(bus).model()),
        flow_effect::<B>(opcode, *old(st), old(bus).model(), *final(st), final(bus).model()),
{
    proof {
        lemma_f_bits_wf();

    }
    let mut p = Processor::new();
    match opcode {
        0x20 => {
            p.jr(st, bus, Condition::NZ, Src8::Imm(Immediate8));
            p.r(2, 8)
        },
        // LD HL,d16
        0x21 => {
            p.ld16(st, bus, Dst16::Reg(Register16::HL), Src16::Imm(Immediate16));
            p.r(3, 12)
        },
        // LD (HL+),A
        0x22 => {
            p.ld8_hli(st, bus, Dst8::At(Address::HL), Src8::Reg(Register8::A));
            p.r(1, 8)
        },
        // INC HL
        0x23 => {
            p.inc16(st, Register16::HL);
            p.r(1, 8)
        },
        // INC H
        0x24 => {
            p.inc8(st, bus, Dst8::Reg(Register8::H));
            p.r(1, 4)
        },
        // DEC H
        0x25 => {
            p.dec8(st, bus, Dst8::Reg(Register8::H));
            p.r(1, 4)
        },
        // LD H,d8
        0x26 => {
            p.ld8(st, bus, Dst8::Reg(Register8::H), Src8::Imm(Immediate8));
            p.r(2, 8)
        },
        // DAA
        0x27 => {
            p.daa(st);
            p.r(1, 4)
        },
        // JR Z,r8
        0x28 => {
            p.jr(st, bus, Condition::Z, Src8::Imm(Immediate8));
            p.r(2, 8)
        },
        // ADD HL,HL
        0x29 => {
            p.add16(st, bus, Src16::Reg(Register16::HL));
            p.r(1, 8)
        },
        // LD A,(HL+)
        0x2A => {
            p.ld8_hli(st, bus, Dst8::Reg(Register8::A), Src8::At(Address::HL));
            p.r(1, 8)
        },
        // DEC HL
        0x2B => {
            p.dec16(st, Register16::HL);
            p.r(1, 8)
        },
        // INC L
        0x2C => {
            p.inc8(st, bus, Dst8::Reg(Register8::L));
            p.r(1, 4)
        },
        // DEC L
        0x2D => {
            p.dec8(st, bus, Dst8::Reg(Register8::L));
            p.r(1, 4)
        },
        // LD L,d8
        0x2E => {
            p.ld8(st, bus, Dst8::Reg(Register8::L), Src8::Imm(Immediate8));
            p.r(2, 8)
        },
        // CPL
        0x2F => {
            p.cpl(st);
            p.r(1, 4)
        },
        // JR NC,r8
        _ => p.r(1, 4),
    }
}

/// Opcodes 0x30..0x3F of the low miscellaneous rows.
#[verifier::rlimit(100)]
fn exec_misc_30<B: Bus>(opcode: u8, st: &mut State, bus: &mut B) -> (r: (u8, u8))
    requires
        0x30 <= opcode < 0x40,
        old(st).flags_ok(),
    ensures
        final(st).flags_ok(),
        r == main_decode(opcode, cond_spec(main_cond(opcode), old(st).F)),
        grid_effect::<B>(opcode, *old(st), old(bus).model(), *final(st), final(bus).model()),
        misc_effect::<B>(opcode, *old(st), old(bus).model(), *final(st), final(bus).model()),
        flow_effect::<B>(opcode, *old(st), old(bus).model(), *final(st), final(bus).model()),
{
    proof {
        lemma_f_bits_wf();

    }
    let mut p = Processor::new();
    match opcode {
        0x30 => {
            p.jr(st, bus, Condition::NC, Src8::Imm(Immediate8));
            p.r(2, 8)
        },
        // LD SP,d16
        0x31 => {
            p.ld16(st, bus, Dst16::Reg(Register16::SP), Src16::Imm(Immediate16));
            p.r(3, 12)
        },
        // LD (HL-),A
        0x32 => {
            p.ld8_hld(st, bus, Dst8::At(Address::HL), Src8::Reg(Register8::A));
            p.r(1, 8)
        },
        // INC SP
        0x33 => {
            p.inc16(st, Register16::SP);
            p.r(1, 8)
        },
        // INC (HL)
        0x34 => {
            p.inc8(st, bus, Dst8::At(Address::HL));
            p.r(1, 12)
        },
        // DEC (HL)
        0x35 => {
            p.dec8(st, bus, Dst8::At(Address::HL));
            p.r(1, 12)
        },
        // LD (HL),d8
        0x36 => {
            p.ld8(st, bus, Dst8::At(Address::HL), Src8::Imm(Immediate8));
            p.r(2, 12)
        },
        // SCF
        0x37 => {
            p.scf(st);
            p.r(1, 4)
        },
        // JR C,r8
        0x38 => {
            p.jr(st, bus, Condition::C, Src8::Imm(Immediate8));
            p.r(2, 8)
        },
        // ADD HL,SP
        0x39 => {
            p.add16(st, bus, Src16::Reg(Register16::SP));
            p.r(1, 8)
        },
        // LD A,(HL-)
        0x3A => {
            p.ld8_hld(st, bus, Dst8::Reg(Register8::A), Src8::At(Address::HL));
            p.r(1, 8)
        },
        // DEC SP
        0x3B => {
            p.dec16(st, Register16::SP);
            p.r(1, 8)
        },
        // INC A
        0x3C => {
            p.inc8(st, bus, Dst8::Reg(Register8::A));
            p.r(1, 4)
        },
        // DEC A
        0x3D => {
            p.dec8(st, bus, Dst8::Reg(Register8::A));
            p.r(1, 4)
        },
        // LD A,d8
        0x3E => {
            p.ld8(st, bus, Dst8::Reg(Register8::A), Src8::Imm(Immediate8));
            p.r(2, 8)
        },
        // CCF
        0x3F => {
            p.ccf(st);
            p.r(1, 4)
        },
        _ => p.r(1, 4),
    }
}

/// Opcodes 0x00..0x3F: 16-bit loads and arithmetic, INC/DEC, rotates of A,
/// relative jumps and the miscellaneous control instructions.
#[verifier::rlimit(100)]
fn exec_misc<B: Bus>(opcode: u8, st: &mut State, bus: &mut B) -> (r: (u8, u8))
    requires
        0x00 <= opcode < 0x40,
        old(st).flags_ok(),
    ensures
        final(st).flags_ok(),
        r == main_decode(opcode, cond_spec(main_cond(opcode), old(st).F)),
        grid_effect::<B>(opcode, *old(st), old(bus).model(), *final(st), final(bus).model()),
        misc_effect::<B>(opcode, *old(st), old(bus).model(), *final(st), final(bus).model()),
        flow_effect::<B>(opcode, *old(st), old(bus).model(), *final(st), final(bus).model()),
{
    if opcode < 0x10 {
        exec_misc_00(opcode, st, bus)
    } else if opcode < 0x20 {
        exec_misc_10(opcode, st, bus)
    } else if opcode < 0x30 {
        exec_misc_20(opcode, st, bus)
    } else {
        exec_misc_30(opcode, st, bus)
    }
}

/// Opcodes 0x40..0x47: the loads into B.
#[verifier::rlimit(100)]
fn exec_ld_b<B: Bus>(opcode: u8, st: &mut State, bus: &mut B) -> (r: (u8, u8))
    requires
        0x40 <= opcode < 0x48,
        old(st).flags_ok(),
    ensures
        final(st).flags_ok(),
        r == main_decode(opcode, cond_spec(main_cond(opcode), old(st).F)),
        grid_effect::<B>(opcode, *old(st), old(bus).model(), *final(st), final(bus).model()),
        misc_effect::<B>(opcode, *old(st), old(bus).model(), *final(st), final(bus).model()),
        flow_effect::<B>(opcode, *old(st), old(bus).model(), *final(st), final(bus).model()),
{
    proof {
        lemma_f_bits_wf();
    }
    let mut p = Processor::new();
    match opcode {
        // LD B,B
        0x40 => {
            p.ld8(st, bus, Dst8::Reg(Register8::B), Src8::Reg(Register8::B));
            p.r(1, 4)
        },
        // LD B,C
        0x41 => {
            p.ld8(st, bus, Dst8::Reg(Register8::B), Src8::Reg(Register8::C));
            p.r(1, 4)
        },
        // LD B,D
        0x42 => {
            p.ld8(st, bus, Dst8::Reg(Register8::B), Src8::Reg(Register8::D));
            p.r(1, 4)
        },
        // LD B,E
        0x43 => {
            p.ld8(st, bus, Dst8::Reg(Register8::B), Src8::Reg(Register8::E));
            p.r(1, 4)
        },
        // LD B,H
        0x44 => {
            p.ld8(st, bus, Dst8::Reg(Register8::B), Src8::Reg(Register8::H));
            p.r(1, 4)
        },
        // LD B,L
        0x45 => {
            p.ld8(st, bus, Dst8::Reg(Register8::B), Src8::Reg(Register8::L));
            p.r(1, 4)
        },
        // LD B,(HL)
        0x46 => {
            p.ld8(st, bus, Dst8::Reg(Register8::B), Src8::At(Address::HL));
            p.r(1, 8)
        },
        // LD B,A
        0x47 => {
            p.ld8(st, bus, Dst8::Reg(Register8::B), Src8::Reg(Register8::A));
            p.r(1, 4)
        },
        _ => p.r(1, 4),
    }
}

/// Opcodes 0x48..0x4F: the loads into C.
#[verifier::rlimit(100)]
fn exec_ld_c<B: Bus>(opcode: u8, st: &mut State, bus: &mut B) -> (r: (u8, u8))
    requires
        0x48 <= opcode < 0x50,
        old(st).flags_ok(),
    ensures
        final(st).flags_ok(),
        r == main_decode(opcode, cond_spec(main_cond(opcode), old(st).F)),
        grid_effect::<B>(opcode, *old(st), old(bus).model(), *final(st), final(bus).model()),
        misc_effect::<B>(opcode, *old(st), old(bus).model(), *final(st), final(bus).model()),
        flow_effect::<B>(opcode, *old(st), old(bus).model(), *final(st), final(bus).model()),
{
    proof {
        lemma_f_bits_wf();
    }
    let mut p = Processor::new();
    match opcode {
        // LD C,B
        0x48 => {
            p.ld8(st, bus, Dst8::Reg(Register8::C), Src8::Reg(Register8::B));
            p.r(1, 4)
        },
        // LD C,C
        0x49 => {
            p.ld8(st, bus, Dst8::Reg(Register8::C), Src8::Reg(Register8::C));
            p.r(1, 4)
        },
        // LD C,D
        0x4A => {
            p.ld8(st, bus, Dst8::Reg(Register8::C), Src8::Reg(Register8::D));
            p.r(1, 4)
        },
        // LD C,E
        0x4B => {
            p.ld8(st, bus, Dst8::Reg(Register8::C), Src8::Reg(Register8::E));
            p.r(1, 4)
        },
        // LD C,H
        0x4C => {
            p.ld8(st, bus, Dst8::Reg(Register8::C), Src8::Reg(Register8::H));
            p.r(1, 4)
        },
        // LD C,L
        0x4D => {
            p.ld8(st, bus, Dst8::Reg(Register8::C), Src8::Reg(Register8::L));
            p.r(1, 4)
        },
        // LD C,(HL)
        0x4E => {
            p.ld8(st, bus, Dst8::Reg(Register8::C), Src8::At(Address::HL));
            p.r(1, 8)
        },
        // LD C,A
        0x4F => {
            p.ld8(st, bus, Dst8::Reg(Register8::C), Src8::Reg(Register8::A));
            p.r(1, 4)
        },
        _ => p.r(1, 4),
    }
}

/// Opcodes 0x50..0x57: the loads into D.
#[verifier::rlimit(100)]
fn exec_ld_d<B: Bus>(opcode: u8, st: &mut State, bus: &mut B) -> (r: (u8, u8))
    requires
        0x50 <= opcode < 0x58,
        old(st).flags_ok(),
    ensures
        final(st).flags_ok(),
        r == main_decode(opcode, cond_spec(main_cond(opcode), old(st).F)),
        grid_effect::<B>(opcode, *old(st), old(bus).model(), *final(st), final(bus).model()),
        misc_effect::<B>(opcode, *old(st), old(bus).model(), *final(st), final(bus).model()),
        flow_effect::<B>(opcode, *old(st), old(bus).model(), *final(st), final(bus).model()),
{
    proof {
        lemma_f_bits_wf();
    }
    let mut p = Processor::new();
    match opcode {
        // LD D,B
        0x50 => {
            p.ld8(st, bus, Dst8::Reg(Register8::D), Src8::Reg(Register8::B));
            p.r(1, 4)
        },
        // LD D,C
        0x51 => {
            p.ld8(st, bus, Dst8::Reg(Register8::D), Src8::Reg(Register8::C));
            p.r(1, 4)
        },
        // LD D,D
        0x52 => {
            p.ld8(st, bus, Dst8::Reg(Register8::D), Src8::Reg(Register8::D));
            p.r(1, 4)
        },
        // LD D,E
        0x53 => {
            p.ld8(st, bus, Dst8::Reg(Register8::D), Src8::Reg(Register8::E));
            p.r(1, 4)
        },
        // LD D,H
        0x54 => {
            p.ld8(st, bus, Dst8::Reg(Register8::D), Src8::Reg(Register8::H));
            p.r(1, 4)
        },
        // LD D,L
        0x55 => {
            p.ld8(st, bus, Dst8::Reg(Register8::D), Src8::Reg(Register8::L));
            p.r(1, 4)
        },
        // LD D,(HL)
        0x56 => {
            p.ld8(st, bus, Dst8::Reg(Register8::D), Src8::At(Address::HL));
            p.r(1, 8)
        },
        // LD D,A
        0x57 => {
            p.ld8(st, bus, Dst8::Reg(Register8::D), Src8::Reg(Register8::A));
            p.r(1, 4)
        },
        _ => p.r(1, 4),
    }
}

/// Opcodes 0x58..0x5F: the loads into E.
#[verifier::rlimit(100)]
fn exec_ld_e<B: Bus>(opcode: u8, st: &mut State, bus: &mut B) -> (r: (u8, u8))
    requires
        0x58 <= opcode < 0x60,
        old(st).flags_ok(),
    ensures
        final(st).flags_ok(),
        r == main_decode(opcode, cond_spec(main_cond(opcode), old(st).F)),
        grid_effect::<B>(opcode, *old(st), old(bus).model(), *final(st), final(bus).model()),
        misc_effect::<B>(opcode, *old(st), old(bus).model(), *final(st), final(bus).model()),
        flow_effect::<B>(opcode, *old(st), old(bus).model(), *final(st), final(bus).model()),
{
    proof {
        lemma_f_bits_wf();
    }
    let mut p = Processor::new();
    match opcode {
        // LD E,B
        0x58 => {
            p.ld8(st, bus, Dst8::Reg(Register8::E), Src8::Reg(Register8::B));
            p.r(1, 4)
        },
        // LD E,C
        0x59 => {
            p.ld8(st, bus, Dst8::Reg(Register8::E), Src8::Reg(Register8::C));
            p.r(1, 4)
        },
        // LD E,D
        0x5A => {
            p.ld8(st, bus, Dst8::Reg(Register8::E), Src8::Reg(Register8::D));
            p.r(1, 4)
        },
        // LD E,E
        0x5B => {
            p.ld8(st, bus, Dst8::Reg(Register8::E), Src8::Reg(Register8::E));
            p.r(1, 4)
        },
        // LD E,H
        0x5C => {
            p.ld8(st, bus, Dst8::Reg(Register8::E), Src8::Reg(Register8::H));
            p.r(1, 4)
        },
        // LD E,L
        0x5D => {
            p.ld8(st, bus, Dst8::Reg(Register8::E), Src8::Reg(Register8::L));
            p.r(1, 4)
        },
        // LD E,(HL)
        0x5E => {
            p.ld8(st, bus, Dst8::Reg(Register8::E), Src8::At(Address::HL));
            p.r(1, 8)
        },
        // LD E,A
        0x5F => {
            p.ld8(st, bus, Dst8::Reg(Register8::E), Src8::Reg(Register8::A));
            p.r(1, 4)
        },
        _ => p.r(1, 4),
    }
}

/// Opcodes 0x60..0x67: the loads into H.
#[verifier::rlimit(100)]
fn exec_ld_h<B: Bus>(opcode: u8, st: &mut State, bus: &mut B) -> (r: (u8, u8))
    requires
        0x60 <= opcode < 0x68,
        old(st).flags_ok(),
    ensures
        final(st).flags_ok(),
        r == main_decode(opcode, cond_spec(main_cond(opcode), old(st).F)),
        grid_effect::<B>(opcode, *old(st), old(bus).model(), *final(st), final(bus).model()),
        misc_effect::<B>(opcode, *old(st), old(bus).model(), *final(st), final(bus).model()),
        flow_effect::<B>(opcode, *old(st), old(bus).model(), *final(st), final(bus).model()),
{
    proof {
        lemma_f_bits_wf();
    }
    let mut p = Processor::new();
    match opcode {
        // LD H,B
        0x60 => {
            p.ld8(st, bus, Dst8::Reg(Register8::H), Src8::Reg(Register8::B));
            p.r(1, 4)
        },
        // LD H,C
        0x61 => {
            p.ld8(st, bus, Dst8::Reg(Register8::H), Src8::Reg(Register8::C));
            p.r(1, 4)
        },
        // LD H,D
        0x62 => {
            p.ld8(st, bus, Dst8::Reg(Register8::H), Src8::Reg(Register8::D));
            p.r(1, 4)
        },
        // LD H,E
        0x63 => {
            p.ld8(st, bus, Dst8::Reg(Register8::H), Src8::Reg(Register8::E));
            p.r(1, 4)
        },
        // LD H,H
        0x64 => {
            p.ld8(st, bus, Dst8::Reg(Register8::H), Src8::Reg(Register8::H));
            p.r(1, 4)
        },
        // LD H,L
        0x65 => {
            p.ld8(st, bus, Dst8::Reg(Register8::H), Src8::Reg(Register8::L));
            p.r(1, 4)
        },
        // LD H,(HL)
        0x66 => {
            p.ld8(st, bus, Dst8::Reg(Register8::H), Src8::At(Address::HL));
            p.r(1, 8)
        },
        // LD H,A
        0x67 => {
            p.ld8(st, bus, Dst8::Reg(Register8::H), Src8::Reg(Register8::A));
            p.r(1, 4)
        },
        _ => p.r(1, 4),
    }
}

/// Opcodes 0x68..0x6F: the loads into L.
#[verifier::rlimit(100)]
fn exec_ld_l<B: Bus>(opcode: u8, st: &mut State, bus: &mut B) -> (r: (u8, u8))
    requires
        0x68 <= opcode < 0x70,
        old(st).flags_ok(),
    ensures
        final(st).flags_ok(),
        r == main_decode(opcode, cond_spec(main_cond(opcode), old(st).F)),
        grid_effect::<B>(opcode, *old(st), old(bus).model(), *final(st), final(bus).model()),
        misc_effect::<B>(opcode, *old(st), old(bus).model(), *final(st), final(bus).model()),
        flow_effect::<B>(opcode, *old(st), old(bus).model(), *final(st), final(bus).model()),
{
    proof {
        lemma_f_bits_wf();
    }
    let mut p = Processor::new();
    match opcode {
        // LD L,B
        0x68 => {
            p.ld8(st, bus, Dst8::Reg(Register8::L), Src8::Reg(Register8::B));
            p.r(1, 4)
        },
        // LD L,C
        0x69 => {
            p.ld8(st, bus, Dst8::Reg(Register8::L), Src8::Reg(Register8::C));
            p.r(1, 4)
        },
        // LD L,D
        0x6A => {
            p.ld8(st, bus, Dst8::Reg(Register8::L), Src8::Reg(Register8::D));
            p.r(1, 4)
        },
        // LD L,E
        0x6B => {
            p.ld8(st, bus, Dst8::Reg(Register8::L), Src8::Reg(Register8::E));
            p.r(1, 4)
        },
        // LD L,H
        0x6C => {
            p.ld8(st, bus, Dst8::Reg(Register8::L), Src8::Reg(Register8::H));
            p.r(1, 4)
        },
        // LD L,L
        0x6D => {
            p.ld8(st, bus, Dst8::Reg(Register8::L), Src8::Reg(Register8::L));
            p.r(1, 4)
        },
        // LD L,(HL)
        0x6E => {
            p.ld8(st, bus, Dst8::Reg(Register8::L), Src8::At(Address::HL));
            p.r(1, 8)
        },
        // LD L,A
        0x6F => {
            p.ld8(st, bus, Dst8::Reg(Register8::L), Src8::Reg(Register8::A));
            p.r(1, 4)
        },
        _ => p.r(1, 4),
    }
}

/// Opcodes 0x70..0x77: the loads into (HL), and HALT.
#[verifier::rlimit(100)]
fn exec_ld_hl<B: Bus>(opcode: u8, st: &mut State, bus: &mut B) -> (r: (u8, u8))
    requires
        0x70 <= opcode < 0x78,
        old(st).flags_ok(),
    ensures
        final(st).flags_ok(),
        r == main_decode(opcode, cond_spec(main_cond(opcode), old(st).F)),
        grid_effect::<B>(opcode, *old(st), old(bus).model(), *final(st), final(bus).model()),
        misc_effect::<B>(opcode, *old(st), old(bus).model(), *final(st), final(bus).model()),
        flow_effect::<B>(opcode, *old(st), old(bus).model(), *final(st), final(bus).model()),
{
    proof {
        lemma_f_bits_wf();
    }
    let mut p = Processor::new();
    match opcode {
        // LD (HL),B
        0x70 => {
            p.ld8(st, bus, Dst8::At(Address::HL), Src8::Reg(Register8::B));
            p.r(1, 8)
        },
        // LD (HL),C
        0x71 => {
            p.ld8(st, bus, Dst8::At(Address::HL), Src8::Reg(Register8::C));
            p.r(1, 8)
        },
        // LD (HL),D
        0x72 => {
            p.ld8(st, bus, Dst8::At(Address::HL), Src8::Reg(Register8::D));
            p.r(1, 8)
        },
        // LD (HL),E
        0x73 => {
            p.ld8(st, bus, Dst8::At(Address::HL), Src8::Reg(Register8::E));
            p.r(1, 8)
        },
        // LD (HL),H
        0x74 => {
            p.ld8(st, bus, Dst8::At(Address::HL), Src8::Reg(Register8::H));
            p.r(1, 8)
        },
        // LD (HL),L
        0x75 => {
            p.ld8(st, bus, Dst8::At(Address::HL), Src8::Reg(Register8::L));
            p.r(1, 8)
        },
        // HALT
        0x76 => {
            p.halt(st, bus);
            p.r(1, 4)
        },
        // LD (HL),A
        0x77 => {
            p.ld8(st, bus, Dst8::At(Address::HL), Src8::Reg(Register8::A));
            p.r(1, 8)
        },
        _ => p.r(1, 4),
    }
}

/// Opcodes 0x78..0x7F: the loads into A.
#[verifier::rlimit(100)]
fn exec_ld_a<B: Bus>(opcode: u8, st: &mut State, bus: &mut B) -> (r: (u8, u8))
    requires
        0x78 <= opcode < 0x80,
        old(st).flags_ok(),
    ensures
        final(st).flags_ok(),
        r == main_decode(opcode, cond_spec(main_cond(opcode), old(st).F)),
        grid_effect::<B>(opcode, *old(st), old(bus).model(), *final(st), final(bus).model()),
        misc_effect::<B>(opcode, *old(st), old(bus).model(), *final(st), final(bus).model()),
        flow_effect::<B>(opcode, *old(st), old(bus).model(), *final(st), final(bus).model()),
{
    proof {
        lemma_f_bits_wf();
    }
    let mut p = Processor::new();
    match opcode {
        // LD A,B
        0x78 => {
            p.ld8(st, bus, Dst8::Reg(Register8::A), Src8::Reg(Register8::B));
            p.r(1, 4)
        },
        // LD A,C
        0x79 => {
            p.ld8(st, bus, Dst8::Reg(Register8::A), Src8::Reg(Register8::C));
            p.r(1, 4)
        },
        // LD A,D
        0x7A => {
            p.ld8(st, bus, Dst8::Reg(Register8::A), Src8::Reg(Register8::D));
            p.r(1, 4)
        },
        // LD A,E
        0x7B => {
            p.ld8(st, bus, Dst8::Reg(Register8::A), Src8::Reg(Register8::E));
            p.r(1, 4)
        },
        // LD A,H
        0x7C => {
            p.ld8(st, bus, Dst8::Reg(Register8::A), Src8::Reg(Register8::H));
            p.r(1, 4)
        },
        // LD A,L
        0x7D => {
            p.ld8(st, bus, Dst8::Reg(Register8::A), Src8::Reg(Register8::L));
            p.r(1, 4)
        },
        // LD A,(HL)
        0x7E => {
            p.ld8(st, bus, Dst8::Reg(Register8::A), Src8::At(Address::HL));
            p.r(1, 8)
        },
        // LD A,A
        0x7F => {
            p.ld8(st, bus, Dst8::Reg(Register8::A), Src8::Reg(Register8::A));
            p.r(1, 4)
        },
        _ => p.r(1, 4),
    }
}

/// Opcodes 0x40..0x7F: the 8-bit register-to-register load grid, row by
/// row, and HALT.
fn exec_load<B: Bus>(opcode: u8, st: &mut State, bus: &mut B) -> (r: (u8, u8))
    requires
        0x40 <= opcode < 0x80,
        old(st).flags_ok(),
    ensures
        final(st).flags_ok(),
        r == main_decode(opcode, cond_spec(main_cond(opcode), old(st).F)),
        grid_effect::<B>(opcode, *old(st), old(bus).model(), *final(st), final(bus).model()),
        misc_effect::<B>(opcode, *old(st), old(bus).model(), *final(st), final(bus).model()),
        flow_effect::<B>(opcode, *old(st), old(bus).model(), *final(st), final(bus).model()),
{
    if opcode < 0x48 {
        exec_ld_b(opcode, st, bus)
    } else if opcode < 0x50 {
        exec_ld_c(opcode, st, bus)
    } else if opcode < 0x58 {
        exec_ld_d(opcode, st, bus)
    } else if opcode < 0x60 {
        exec_ld_e(opcode, st, bus)
    } else if opcode < 0x68 {
        exec_ld_h(opcode, st, bus)
    } else if opcode < 0x70 {
        exec_ld_l(opcode, st, bus)
    } else if opcode < 0x78 {
        exec_ld_hl(opcode, st, bus)
    } else {
        exec_ld_a(opcode, st, bus)
    }
}

/// Opcodes 0x80..0x87: the 8-bit add row.
#[verifier::rlimit(100)]
fn exec_add<B: Bus>(opcode: u8, st: &mut State, bus: &mut B) -> (r: (u8, u8))
    requires
        0x80 <= opcode < 0x88,
        old(st).flags_ok(),
    ensures
        final(st).flags_ok(),
        r == main_decode(opcode, cond_spec(main_cond(opcode), old(st).F)),
        grid_effect::<B>(opcode, *old(st), old(bus).model(), *final(st), final(bus).model()),
        misc_effect::<B>(opcode, *old(st), old(bus).model(), *final(st), final(bus).model()),
        flow_effect::<B>(opcode, *old(st), old(bus).model(), *final(st), final(bus).model()),
{
    proof {
        lemma_f_bits_wf();
    }
    let mut p = Processor::new();
    match opcode {
        // ADD A,B
        0x80 => {
            p.add8(st, bus, Src8::Reg(Register8::B));
            p.r(1, 4)
        },
        // ADD A,C
        0x81 => {
            p.add8(st, bus, Src8::Reg(Register8::C));
            p.r(1, 4)
        },
        // ADD A,D
        0x82 => {
            p.add8(st, bus, Src8::Reg(Register8::D));
            p.r(1, 4)
        },
        // ADD A,E
        0x83 => {
            p.add8(st, bus, Src8::Reg(Register8::E));
            p.r(1, 4)
        },
        // ADD A,H
        0x84 => {
            p.add8(st, bus, Src8::Reg(Register8::H));
            p.r(1, 4)
        },
        // ADD A,L
        0x85 => {
            p.add8(st, bus, Src8::Reg(Register8::L));
            p.r(1, 4)
        },
        // ADD A,(HL)
        0x86 => {
            p.add8(st, bus, Src8::At(Address::HL));
            p.r(1, 8)
        },
        // ADD A,A
        0x87 => {
            p.add8(st, bus, Src8::Reg(Register8::A));
            p.r(1, 4)
        },
        _ => p.r(1, 4),
    }
}

/// Opcodes 0x88..0x8F: the 8-bit add-with-carry row.
#[verifier::rlimit(100)]
fn exec_adc<B: Bus>(opcode: u8, st: &mut State, bus: &mut B) -> (r: (u8, u8))
    requires
        0x88 <= opcode < 0x90,
        old(st).flags_ok(),
    ensures
        final(st).flags_ok(),
        r == main_decode(opcode, cond_spec(main_cond(opcode), old(st).F)),
        grid_effect::<B>(opcode, *old(st), old(bus).model(), *final(st), final(bus).model()),
        misc_effect::<B>(opcode, *old(st), old(bus).model(), *final(st), final(bus).model()),
        flow_effect::<B>(opcode, *old(st), old(bus).model(), *final(st), final(bus).model()),
{
    proof {
        lemma_f_bits_wf();
    }
    let mut p = Processor::new();
    match opcode {
        // ADC A,B
        0x88 => {
            p.adc8(st, bus, Src8::Reg(Register8::B));
            p.r(1, 4)
        },
        // ADC A,C
        0x89 => {
            p.adc8(st, bus, Src8::Reg(Register8::C));
            p.r(1, 4)
        },
        // ADC A,D
        0x8A => {
            p.adc8(st, bus, Src8::Reg(Register8::D));
            p.r(1, 4)
        },
        // ADC A,E
        0x8B => {
            p.adc8(st, bus, Src8::Reg(Register8::E));
            p.r(1, 4)
        },
        // ADC A,H
        0x8C => {
            p.adc8(st, bus, Src8::Reg(Register8::H));
            p.r(1, 4)
        },
        // ADC A,L
        0x8D => {
            p.adc8(st, bus, Src8::Reg(Register8::L));
            p.r(1, 4)
        },
        // ADC A,(HL)
        0x8E => {
            p.adc8(st, bus, Src8::At(Address::HL));
            p.r(1, 8)
        },
        // ADC A,A
        0x8F => {
            p.adc8(st, bus, Src8::Reg(Register8::A));
            p.r(1, 4)
        },
        _ => p.r(1, 4),
    }
}

/// Opcodes 0x90..0x97: the 8-bit subtract row.
#[verifier::rlimit(100)]
fn exec_sub<B: Bus>(opcode: u8, st: &mut State, bus: &mut B) -> (r: (u8, u8))
    requires
        0x90 <= opcode < 0x98,
        old(st).flags_ok(),
    ensures
        final(st).flags_ok(),
        r == main_decode(opcode, cond_spec(main_cond(opcode), old(st).F)),
        grid_effect::<B>(opcode, *old(st), old(bus).model(), *final(st), final(bus).model()),
        misc_effect::<B>(opcode, *old(st), old(bus).model(), *final(st), final(bus).model()),
        flow_effect::<B>(opcode, *old(st), old(bus).model(), *final(st), final(bus).model()),
{
    proof {
        lemma_f_bits_wf();
    }
    let mut p = Processor::new();
    match opcode {
        // SUB A,B
        0x90 => {
            p.sub8(st, bus, Src8::Reg(Register8::B));
            p.r(1, 4)
        },
        // SUB A,C
        0x91 => {
            p.sub8(st, bus, Src8::Reg(Register8::C));
            p.r(1, 4)
        },
        // SUB A,D
        0x92 => {
            p.sub8(st, bus, Src8::Reg(Register8::D));
            p.r(1, 4)
        },
        // SUB A,E
        0x93 => {
            p.sub8(st, bus, Src8::Reg(Register8::E));
            p.r(1, 4)
        },
        // SUB A,H
        0x94 => {
            p.sub8(st, bus, Src8::Reg(Register8::H));
            p.r(1, 4)
        },
        // SUB A,L
        0x95 => {
            p.sub8(st, bus, Src8::Reg(Register8::L));
            p.r(1, 4)
        },
        // SUB A,(HL)
        0x96 => {
            p.sub8(st, bus, Src8::At(Address::HL));
            p.r(1, 8)
        },
        // SUB A,A
        0x97 => {
            p.sub8(st, bus, Src8::Reg(Register8::A));
            p.r(1, 4)
        },
        _ => p.r(1, 4),
    }
}

/// Opcodes 0x98..0x9F: the 8-bit subtract-with-carry row.
#[verifier::rlimit(100)]
fn exec_sbc<B: Bus>(opcode: u8, st: &mut State, bus: &mut B) -> (r: (u8, u8))
    requires
        0x98 <= opcode < 0xA0,
        old(st).flags_ok(),
    ensures
        final(st).flags_ok(),
        r == main_decode(opcode, cond_spec(main_cond(opcode), old(st).F)),
        grid_effect::<B>(opcode, *old(st), old(bus).model(), *final(st), final(bus).model()),
        misc_effect::<B>(opcode, *old(st), old(bus).model(), *final(st), final(bus).model()),
        flow_effect::<B>(opcode, *old(st), old(bus).model(), *final(st), final(bus).model()),
{
    proof {
        lemma_f_bits_wf();
    }
    let mut p = Processor::new();
    match opcode {
        // SBC A,B
        0x98 => {
            p.sbc8(st, bus, Src8::Reg(Register8::B));
            p.r(1, 4)
        },
        // SBC A,C
        0x99 => {
            p.sbc8(st, bus, Src8::Reg(Register8::C));
            p.r(1, 4)
        },
        // SBC A,D
        0x9A => {
            p.sbc8(st, bus, Src8::Reg(Register8::D));
            p.r(1, 4)
        },
        // SBC A,E
        0x9B => {
            p.sbc8(st, bus, Src8::Reg(Register8::E));
            p.r(1, 4)
        },
        // SBC A,H
        0x9C => {
            p.sbc8(st, bus, Src8::Reg(Register8::H));
            p.r(1, 4)
        },
        // SBC A,L
        0x9D => {
            p.sbc8(st, bus, Src8::Reg(Register8::L));
            p.r(1, 4)
        },
        // SBC A,(HL)
        0x9E => {
            p.sbc8(st, bus, Src8::At(Address::HL));
            p.r(1, 8)
        },
        // SBC A,A
        0x9F => {
            p.sbc8(st, bus, Src8::Reg(Register8::A));
            p.r(1, 4)
        },
        _ => p.r(1, 4),
    }
}

/// Opcodes 0xA0..0xA7: the 8-bit AND row.
#[verifier::rlimit(100)]
fn exec_and<B: Bus>(opcode: u8, st: &mut State, bus: &mut B) -> (r: (u8, u8))
    requires
        0xA0 <= opcode < 0xA8,
        old(st).flags_ok(),
    ensures
        final(st).flags_ok(),
        r == main_decode(opcode, cond_spec(main_cond(opcode), old(st).F)),
        grid_effect::<B>(opcode, *old(st), old(bus).model(), *final(st), final(bus).model()),
        misc_effect::<B>(opcode, *old(st), old(bus).model(), *final(st), final(bus).model()),
        flow_effect::<B>(opcode, *old(st), old(bus).model(), *final(st), final(bus).model()),
{
    proof {
        lemma_f_bits_wf();
    }
    let mut p = Processor::new();
    match opcode {
        // AND B
        0xA0 => {
            p.and8(st, bus, Src8::Reg(Register8::B));
            p.r(1, 4)
        },
        // AND C
        0xA1 => {
            p.and8(st, bus, Src8::Reg(Register8::C));
            p.r(1, 4)
        },
        // AND D
        0xA2 => {
            p.and8(st, bus, Src8::Reg(Register8::D));
            p.r(1, 4)
        },
        // AND E
        0xA3 => {
            p.and8(st, bus, Src8::Reg(Register8::E));
            p.r(1, 4)
        },
        // AND H
        0xA4 => {
            p.and8(st, bus, Src8::Reg(Register8::H));
            p.r(1, 4)
        },
        // AND L
        0xA5 => {
            p.and8(st, bus, Src8::Reg(Register8::L));
            p.r(1, 4)
        },
        // AND (HL)
        0xA6 => {
            p.and8(st, bus, Src8::At(Address::HL));
            p.r(1, 8)
        },
        // AND A
        0xA7 => {
            p.and8(st, bus, Src8::Reg(Register8::A));
            p.r(1, 4)
        },
        _ => p.r(1, 4),
    }
}

/// Opcodes 0xA8..0xAF: the 8-bit XOR row.
#[verifier::rlimit(100)]
fn exec_xor<B: Bus>(opcode: u8, st: &mut State, bus: &mut B) -> (r: (u8, u8))
    requires
        0xA8 <= opcode < 0xB0,
        old(st).flags_ok(),
    ensures
        final(st).flags_ok(),
        r == main_decode(opcode, cond_spec(main_cond(opcode), old(st).F)),
        grid_effect::<B>(opcode, *old(st), old(bus).model(), *final(st), final(bus).model()),
        misc_effect::<B>(opcode, *old(st), old(bus).model(), *final(st), final(bus).model()),
        flow_effect::<B>(opcode, *old(st), old(bus).model(), *final(st), final(bus).model()),
{
    proof {
        lemma_f_bits_wf();
    }
    let mut p = Processor::new();
    match opcode {
        // XOR B
        0xA8 => {
            p.xor8(st, bus, Src8::Reg(Register8::B));
            p.r(1, 4)
        },
        // XOR C
        0xA9 => {
            p.xor8(st, bus, Src8::Reg(Register8::C));
            p.r(1, 4)
        },
        // XOR D
        0xAA => {
            p.xor8(st, bus, Src8::Reg(Register8::D));
            p.r(1, 4)
        },
        // XOR E
        0xAB => {
            p.xor8(st, bus, Src8::Reg(Register8::E));
            p.r(1, 4)
        },
        // XOR H
        0xAC => {
            p.xor8(st, bus, Src8::Reg(Register8::H));
            p.r(1, 4)
        },
        // XOR L
        0xAD => {
            p.xor8(st, bus, Src8::Reg(Register8::L));
            p.r(1, 4)
        },
        // XOR (HL)
        0xAE => {
            p.xor8(st, bus, Src8::At(Address::HL));
            p.r(1, 8)
        },
        // XOR A
        0xAF => {
            p.xor8(st, bus, Src8::Reg(Register8::A));
            p.r(1, 4)
        },
        _ => p.r(1, 4),
    }
}

/// Opcodes 0xB0..0xB7: the 8-bit OR row.
#[verifier::rlimit(100)]
fn exec_or<B: Bus>(opcode: u8, st: &mut State, bus: &mut B) -> (r: (u8, u8))
    requires
        0xB0 <= opcode < 0xB8,
        old(st).flags_ok(),
    ensures
        final(st).flags_ok(),
        r == main_decode(opcode, cond_spec(main_cond(opcode), old(st).F)),
        grid_effect::<B>(opcode, *old(st), old(bus).model(), *final(st), final(bus).model()),
        misc_effect::<B>(opcode, *old(st), old(bus).model(), *final(st), final(bus).model()),
        flow_effect::<B>(opcode, *old(st), old(bus).model(), *final(st), final(bus).model()),
{
    proof {
        lemma_f_bits_wf();
    }
    let mut p = Processor::new();
    match opcode {
        // OR B
        0xB0 => {
            p.or8(st, bus, Src8::Reg(Register8::B));
            p.r(1, 4)
        },
        // OR C
        0xB1 => {
            p.or8(st, bus, Src8::Reg(Register8::C));
            p.r(1, 4)
        },
        // OR D
        0xB2 => {
            p.or8(st, bus, Src8::Reg(Register8::D));
            p.r(1, 4)
        },
        // OR E
        0xB3 => {
            p.or8(st, bus, Src8::Reg(Register8::E));
            p.r(1, 4)
        },
        // OR H
        0xB4 => {
            p.or8(st, bus, Src8::Reg(Register8::H));
            p.r(1, 4)
        },
        // OR L
        0xB5 => {
            p.or8(st, bus, Src8::Reg(Register8::L));
            p.r(1, 4)
        },
        // OR (HL)
        0xB6 => {
            p.or8(st, bus, Src8::At(Address::HL));
            p.r(1, 8)
        },
        // OR A
        0xB7 => {
            p.or8(st, bus, Src8::Reg(Register8::A));
            p.r(1, 4)
        },
        _ => p.r(1, 4),
    }
}

/// Opcodes 0xB8..0xBF: the 8-bit compare row.
#[verifier::rlimit(100)]
fn exec_cp<B: Bus>(opcode: u8, st: &mut State, bus: &mut B) -> (r: (u8, u8))
    requires
        0xB8 <= opcode < 0xC0,
        old(st).flags_ok(),
    ensures
        final(st).flags_ok(),
        r == main_decode(opcode, cond_spec(main_cond(opcode), old(st).F)),
        grid_effect::<B>(opcode, *old(st), old(bus).model(), *final(st), final(bus).model()),
        misc_effect::<B>(opcode, *old(st), old(bus).model(), *final(st), final(bus).model()),
        flow_effect::<B>(opcode, *old(st), old(bus).model(), *final(st), final(bus).model()),
{
    proof {
        lemma_f_bits_wf();
    }
    let mut p = Processor::new();
    match opcode {
        // CP B
        0xB8 => {
            p.cp8(st, bus, Src8::Reg(Register8::B));
            p.r(1, 4)
        },
        // CP C
        0xB9 => {
            p.cp8(st, bus, Src8::Reg(Register8::C));
            p.r(1, 4)
        },
        // CP D
        0xBA => {
            p.cp8(st, bus, Src8::Reg(Register8::D));
            p.r(1, 4)
        },
        // CP E
        0xBB => {
            p.cp8(st, bus, Src8::Reg(Register8::E));
            p.r(1, 4)
        },
        // CP H
        0xBC => {
            p.cp8(st, bus, Src8::Reg(Register8::H));
            p.r(1, 4)
        },
        // CP L
        0xBD => {
            p.cp8(st, bus, Src8::Reg(Register8::L));
            p.r(1, 4)
        },
        // CP (HL)
        0xBE => {
            p.cp8(st, bus, Src8::At(Address::HL));
            p.r(1, 8)
        },
        // CP A
        0xBF => {
            p.cp8(st, bus, Src8::Reg(Register8::A));
            p.r(1, 4)
        },
        _ => p.r(1, 4),
    }
}

/// Opcodes 0x80..0xBF: the 8-bit arithmetic and logic grid, row by row.
fn exec_alu_grid<B: Bus>(opcode: u8, st: &mut State, bus: &mut B) -> (r: (u8, u8))
    requires
        0x80 <= opcode < 0xC0,
        old(st).flags_ok(),
    ensures
        final(st).flags_ok(),
        r == main_decode(opcode, cond_spec(main_cond(opcode), old(st).F)),
        grid_effect::<B>(opcode, *old(st), old(bus).model(), *final(st), final(bus).model()),
        misc_effect::<B>(opcode, *old(st), old(bus).model(), *final(st), final(bus).model()),
        flow_effect::<B>(opcode, *old(st), old(bus).model(), *final(st), final(bus).model()),
{
    if opcode < 0x88 {
        exec_add(opcode, st, bus)
    } else if opcode < 0x90 {
        exec_adc(opcode, st, bus)
    } else if opcode < 0x98 {
        exec_sub(opcode, st, bus)
    } else if opcode < 0xA0 {
        exec_sbc(opcode, st, bus)
    } else if opcode < 0xA8 {
        exec_and(opcode, st, bus)
    } else if opcode < 0xB0 {
        exec_xor(opcode, st, bus)
    } else if opcode < 0xB8 {
        exec_or(opcode, st, bus)
    } else {
        exec_cp(opcode, st, bus)
    }
}

/// Opcodes 0xC0..0xCF of the stack, jump, call and return rows.
#[verifier::rlimit(100)]
fn exec_flow_c0<B: Bus>(opcode: u8, st: &mut State, bus: &mut B) -> (r: (u8, u8))
    requires
        0xC0 <= opcode < 0xD0,
        old(st).flags_ok(),
    ensures
        final(st).flags_ok(),
        r == main_decode(opcode, cond_spec(main_cond(opcode), old(st).F)),
        grid_effect::<B>(opcode, *old(st), old(bus).model(), *final(st), final(bus).model()),
        misc_effect::<B>(opcode, *old(st), old(bus).model(), *final(st), final(bus).model()),
        flow_effect::<B>(opcode, *old(st), old(bus).model(), *final(st), final(bus).model()),
{
    proof {
        lemma_f_bits_wf();
        crate::cpu::oprand::lemma_masked_f();
    }
    let mut p = Processor::new();
    match opcode {
        // RET NZ
        0xC0 => {
            p.ret(st, bus, Condition::NZ);
            p.r(0, 8)
        },
        // POP BC
        0xC1 => {
            p.pop16(st, bus, Dst16::Reg(Register16::BC));
            p.r(1, 12)
        },
        // JP NZ,a16
        0xC2 => {
            let taken = p.jp(st, bus, Condition::NZ, Src16::Imm(Immediate16));
            if taken {
                p.r(0, 12)
            } else {
                p.r(3, 12)
            }
        },
        // JP a16
        0xC3 => {
            let taken = p.jp(st, bus, Condition::T, Src16::Imm(Immediate16));
            if taken {
                p.r(0, 12)
            } else {
                p.r(3, 12)
            }
        },
        // CALL NZ,a16
        0xC4 => {
            p.call(st, bus, Condition::NZ, Src16::Imm(Immediate16));
            p.r(0, 12)
        },
        // PUSH BC
        0xC5 => {
            p.push16(st, bus, Src16::Reg(Register16::BC));
            p.r(1, 16)
        },
        // ADD A,d8
        0xC6 => {
            p.add8(st, bus, Src8::Imm(Immediate8));
            p.r(2, 8)
        },
        // RST 00H
        0xC7 => {
            p.rst(st, bus, 0x00);
            p.r(0, 16)
        },
        // RET Z
        0xC8 => {
            p.ret(st, bus, Condition::Z);
            p.r(0, 8)
        },
        // RET
        0xC9 => {
            p.ret(st, bus, Condition::T);
            p.r(0, 4)
        },
        // JP Z,a16
        0xCA => {
            let taken = p.jp(st, bus, Condition::Z, Src16::Imm(Immediate16));
            if taken {
                p.r(0, 12)
            } else {
                p.r(3, 12)
            }
        },
        // Undefined: treated as a 1-byte no-operation
        0xCB => {
            p.undefined(opcode);
            p.r(1, 4)
        },
        // CALL Z,a16
        0xCC => {
            p.call(st, bus, Condition::Z, Src16::Imm(Immediate16));
            p.r(0, 12)
        },
        // CALL a16
        0xCD => {
            p.call(st, bus, Condition::T, Src16::Imm(Immediate16));
            p.r(0, 12)
        },
        // ADC A,d8
        0xCE => {
            p.adc8(st, bus, Src8::Imm(Immediate8));
            p.r(2, 8)
        },
        // RST 08H
        0xCF => {
            p.rst(st, bus, 0x08);
            p.r(0, 16)
        },
        // RET NC
        _ => p.r(1, 4),
    }
}

/// Opcodes 0xD0..0xDF of the stack, jump, call and return rows.
#[verifier::rlimit(100)]
fn exec_flow_d0<B: Bus>(opcode: u8, st: &mut State, bus: &mut B) -> (r: (u8, u8))
    requires
        0xD0 <= opcode < 0xE0,
        old(st).flags_ok(),
    ensures
        final(st).flags_ok(),
        r == main_decode(opcode, cond_spec(main_cond(opcode), old(st).F)),
        grid_effect::<B>(opcode, *old(st), old(bus).model(), *final(st), final(bus).model()),
        misc_effect::<B>(opcode, *old(st), old(bus).model(), *final(st), final(bus).model()),
        flow_effect::<B>(opcode, *old(st), old(bus).model(), *final(st), final(bus).model()),
{
    proof {
        lemma_f_bits_wf();
        crate::cpu::oprand::lemma_masked_f();
    }
    let mut p = Processor::new();
    match opcode {
        0xD0 => {
            p.ret(st, bus, Condition::NC);
            p.r(0, 8)
        },
        // POP DE
        0xD1 => {
            p.pop16(st, bus, Dst16::Reg(Register16::DE));
            p.r(1, 12)
        },
        // JP NC,a16
        0xD2 => {
            let taken = p.jp(st, bus, Condition::NC, Src16::Imm(Immediate16));
            if taken {
                p.r(0, 12)
            } else {
                p.r(3, 12)
            }
        },
        // Undefined: treated as a 1-byte no-operation
        0xD3 => {
            p.undefined(opcode);
            p.r(1, 4)
        },
        // CALL NC,a16
        0xD4 => {
            p.call(st, bus, Condition::NC, Src16::Imm(Immediate16));
            p.r(0, 12)
        },
        // PUSH DE
        0xD5 => {
            p.push16(st, bus, Src16::Reg(Register16::DE));
            p.r(1, 16)
        },
        // SUB A,d8
        0xD6 => {
            p.sub8(st, bus, Src8::Imm(Immediate8));
            p.r(2, 8)
        },
        // RST 10H
        0xD7 => {
            p.rst(st, bus, 0x10);
            p.r(0, 16)
        },
        // RET C
        0xD8 => {
            p.ret(st, bus, Condition::C);
            p.r(0, 8)
        },
        // RETI
        0xD9 => {
            p.reti(st, bus);
            p.r(0, 4)
        },
        // JP C,a16
        0xDA => {
            let taken = p.jp(st, bus, Condition::C, Src16::Imm(Immediate16));
            if taken {
                p.r(0, 12)
            } else {
                p.r(3, 12)
            }
        },
        // Undefined: treated as a 1-byte no-operation
        0xDB => {
            p.undefined(opcode);
            p.r(1, 4)
        },
        // CALL C,a16
        0xDC => {
            p.call(st, bus, Condition::C, Src16::Imm(Immediate16));
            p.r(0, 12)
        },
        // Undefined: treated as a 1-byte no-operation
        0xDD => {
            p.undefined(opcode);
            p.r(1, 4)
        },
        // SBC A,d8
        0xDE => {
            p.sbc8(st, bus, Src8::Imm(Immediate8));
            p.r(2, 8)
        },
        // RST 18H
        0xDF => {
            p.rst(st, bus, 0x18);
            p.r(0, 16)
        },
        // LDH (a8),A
        _ => p.r(1, 4),
    }
}

/// Opcodes 0xE0..0xEF of the stack, jump, call and return rows.
#[verifier::rlimit(100)]
fn exec_flow_e0<B: Bus>(opcode: u8, st: &mut State, bus: &mut B) -> (r: (u8, u8))
    requires
        0xE0 <= opcode < 0xF0,
        old(st).flags_ok(),
    ensures
        final(st).flags_ok(),
        r == main_decode(opcode, cond_spec(main_cond(opcode), old(st).F)),
        grid_effect::<B>(opcode, *old(st), old(bus).model(), *final(st), final(bus).model()),
        misc_effect::<B>(opcode, *old(st), old(bus).model(), *final(st), final(bus).model()),
        flow_effect::<B>(opcode, *old(st), old(bus).model(), *final(st), final(bus).model()),
{
    proof {
        lemma_f_bits_wf();
        crate::cpu::oprand::lemma_masked_f();
    }
    let mut p = Processor::new();
    match opcode {
        0xE0 => {
            p.ld8(st, bus, Dst8::At(Address::FF00), Src8::Reg(Register8::A));
            p.r(2, 12)
        },
        // POP HL
        0xE1 => {
            p.pop16(st, bus, Dst16::Reg(Register16::HL));
            p.r(1, 12)
        },
        // LD (C),A
        0xE2 => {
            p.ld8(st, bus, Dst8::At(Address::FF00C), Src8::Reg(Register8::A));
            p.r(1, 8)
        },
        // Undefined: treated as a 1-byte no-operation
        0xE3 => {
            p.undefined(opcode);
            p.r(1, 4)
        },
        // Undefined: treated as a 1-byte no-operation
        0xE4 => {
            p.undefined(opcode);
            p.r(1, 4)
        },
        // PUSH HL
        0xE5 => {
            p.push16(st, bus, Src16::Reg(Register16::HL));
            p.r(1, 16)
        },
        // AND d8
        0xE6 => {
            p.and8(st, bus, Src8::Imm(Immediate8));
            p.r(2, 8)
        },
        // RST 20H
        0xE7 => {
            p.rst(st, bus, 0x20);
            p.r(0, 16)
        },
        // ADD SP,r8
        0xE8 => {
            p.add_sp_e8(st, bus);
            p.r(2, 16)
        },
        // JP (HL)
        0xE9 => {
            let taken = p.jp(st, bus, Condition::T, Src16::Reg(Register16::HL));
            if taken {
                p.r(0, 0)
            } else {
                p.r(3, 0)
            }
        },
        // LD (a16),A
        0xEA => {
            p.ld8(st, bus, Dst8::At(Address::Direct), Src8::Reg(Register8::A));
            p.r(3, 16)
        },
        // Undefined: treated as a 1-byte no-operation
        0xEB => {
            p.undefined(opcode);
            p.r(1, 4)
        },
        // Undefined: treated as a 1-byte no-operation
        0xEC => {
            p.undefined(opcode);
            p.r(1, 4)
        },
        // Undefined: treated as a 1-byte no-operation
        0xED => {
            p.undefined(opcode);
            p.r(1, 4)
        },
        // XOR d8
        0xEE => {
            p.xor8(st, bus, Src8::Imm(Immediate8));
            p.r(2, 8)
        },
        // RST 28H
        0xEF => {
            p.rst(st, bus, 0x28);
            p.r(0, 16)
        },
        // LDH A,(a8)
        _ => p.r(1, 4),
    }
}

/// Opcodes 0xF0..0xFF of the stack, jump, call and return rows.
#[verifier::rlimit(100)]
fn exec_flow_f0<B: Bus>(opcode: u8, st: &mut State, bus: &mut B) -> (r: (u8, u8))
    requires
        0xF0 <= opcode < 0x100,
        old(st).flags_ok(),
    ensures
        final(st).flags_ok(),
        r == main_decode(opcode, cond_spec(main_cond(opcode), old(st).F)),
        grid_effect::<B>(opcode, *old(st), old(bus).model(), *final(st), final(bus).model()),
        misc_effect::<B>(opcode, *old(st), old(bus).model(), *final(st), final(bus).model()),
        flow_effect::<B>(opcode, *old(st), old(bus).model(), *final(st), final(bus).model()),
{
    proof {
        lemma_f_bits_wf();
        crate::cpu::oprand::lemma_masked_f();
    }
    let mut p = Processor::new();
    match opcode {
        0xF0 => {
            p.ld8(st, bus, Dst8::Reg(Register8::A), Src8::At(Address::FF00));
            p.r(2, 12)
        },
        // POP AF
        0xF1 => {
            p.pop16(st, bus, Dst16::Reg(Register16::AF));
            p.r(1, 12)
        },
        // LD A,(C)
        0xF2 => {
            p.ld8(st, bus, Dst8::Reg(Register8::A), Src8::At(Address::FF00C));
            p.r(1, 8)
        },
        // DI
        0xF3 => {
            p.di(st);
            p.r(1, 4)
        },
        // Undefined: treated as a 1-byte no-operation
        0xF4 => {
            p.undefined(opcode);
            p.r(1, 4)
        },
        // PUSH AF
        0xF5 => {
            p.push16(st, bus, Src16::Reg(Register16::AF));
            p.r(1, 16)
        },
        // OR d8
        0xF6 => {
            p.or8(st, bus, Src8::Imm(Immediate8));
            p.r(2, 8)
        },
        // RST 30H
        0xF7 => {
            p.rst(st, bus, 0x30);
            p.r(0, 16)
        },
        // LD HL,SP+r8
        0xF8 => {
            p.ld_hl_sp_e8(st, bus);
            p.r(2, 12)
        },
        // LD SP,HL
        0xF9 => {
            p.ld16(st, bus, Dst16::Reg(Register16::SP), Src16::Reg(Register16::HL));
            p.r(1, 8)
        },
        // LD A,(a16)
        0xFA => {
            p.ld8(st, bus, Dst8::Reg(Register8::A), Src8::At(Address::Direct));
            p.r(3, 16)
        },
        // EI
        0xFB => {
            p.ei(st);
            p.r(1, 4)
        },
        // Undefined: treated as a 1-byte no-operation
        0xFC => {
            p.undefined(opcode);
            p.r(1, 4)
        },
        // Undefined: treated as a 1-byte no-operation
        0xFD => {
            p.undefined(opcode);
            p.r(1, 4)
        },
        // CP d8
        0xFE => {
            p.cp8(st, bus, Src8::Imm(Immediate8));
            p.r(2, 8)
        },
        // RST 38H
        0xFF => {
            p.rst(st, bus, 0x38);
            p.r(0, 16)
        },
        _ => p.r(1, 4),
    }
}

/// Opcodes 0xC0..0xFF: stack, jumps, calls, returns, restarts, the
/// d8-operand arithmetic and the undefined opcodes.
#[verifier::rlimit(100)]
fn exec_flow<B: Bus>(opcode: u8, st: &mut State, bus: &mut B) -> (r: (u8, u8))
    requires
        0xC0 <= opcode < 0x100,
        old(st).flags_ok(),
    ensures
        final(st).flags_ok(),
        r == main_decode(opcode, cond_spec(main_cond(opcode), old(st).F)),
        grid_effect::<B>(opcode, *old(st), old(bus).model(), *final(st), final(bus).model()),
        misc_effect::<B>(opcode, *old(st), old(bus).model(), *final(st), final(bus).model()),
        flow_effect::<B>(opcode, *old(st), old(bus).model(), *final(st), final(bus).model()),
{
    if opcode < 0xD0 {
        exec_flow_c0(opcode, st, bus)
    } else if opcode < 0xE0 {
        exec_flow_d0(opcode, st, bus)
    } else if opcode < 0xF0 {
        exec_flow_e0(opcode, st, bus)
    } else {
        exec_flow_f0(opcode, st, bus)
    }
}

/// Runs one unprefixed instruction: dispatches the opcode through the main
/// table and returns its (byte length, cycle) pair. The flag nibble stays
/// well formed.
pub fn exec<B: Bus>(opcode: u8, st: &mut State, bus: &mut B) -> (r: (u8, u8))
    requires
        old(st).flags_ok(),
    ensures
        final(st).flags_ok(),
        r == main_decode(opcode, cond_spec(main_cond(opcode), old(st).F)),
        grid_effect::<B>(opcode, *old(st), old(bus).model(), *final(st), final(bus).model()),
        misc_effect::<B>(opcode, *old(st), old(bus).model(), *final(st), final(bus).model()),
        flow_effect::<B>(opcode, *old(st), old(bus).model(), *final(st), final(bus).model()),
{
    if opcode < 0x40 {
        exec_misc(opcode, st, bus)
    } else if opcode < 0x80 {
        exec_load(opcode, st, bus)
    } else if opcode < 0xC0 {
        exec_alu_grid(opcode, st, bus)
    } else {
        exec_flow(opcode, st, bus)
    }
}

/// The (result, F) pair one row of the CB rotate/shift group computes from
/// the operand byte and the incoming flags; row `k` counts RLC, RRC, RL,
/// RR, SLA, SRA, SWAP, SRL.
pub open spec fn cb_rot_result(k: u8, r: u8, f: u8) -> (u8, u8) {
    let cin: u8 = if cf(f) { 1 } else { 0 };
    match k % 8 {
        0u8 => ({
            let w = (r << 1) | (r >> 7);
            (w, f_bits(w == 0, false, false, r & 0x80 != 0))
        }),
        1u8 => ({
            let w = (r >> 1) | (r << 7);
            (w, f_bits(w == 0, false, false, r & 0x01 != 0))
        }),
        2u8 => ({
            let w = (r << 1) | cin;
            (w, f_bits(w == 0, false, false, r & 0x80 != 0))
        }),
        3u8 => ({
            let w = (r >> 1) | (cin << 7);
            (w, f_bits(w == 0, false, false, r & 0x01 != 0))
        }),
        4u8 => ({
            let w = r << 1;
            (w, f_bits(w == 0, false, false, r & 0x80 != 0))
        }),
        5u8 => ({
            let w = (r >> 1) | (r & 0x80);
            (w, f_bits(w == 0, false, false, r & 0x01 != 0))
        }),
        6u8 => ({
            let w = (r << 4) | (r >> 4);
            (w, f_bits(w == 0, false, false, false))
        }),
        _ => ({
            let w = r >> 1;
            (w, f_bits(w == 0, false, false, r & 0x01 != 0))
        }),
    }
}

/// The exact machine effect of a CB-prefixed opcode: the rotate/shift rows
/// rewrite the column operand and all four flags; BIT only tests; RES and
/// SET rewrite one bit of the operand and keep the flags.
pub open spec fn cb_effect<B: Bus>(
    opcode: u8,
    st0: State,
    m0: B::Model,
    st1: State,
    m1: B::Model,
) -> bool {
    let target = cb_target_spec(opcode % 8);
    let v = src8_spec::<B>(target.dst8_src(), st0, m0);
    let bit = (opcode / 8) % 8;
    if opcode < 0x40 {
        let wf = cb_rot_result(opcode / 8, v, st0.F);
        let flagged = (State { F: wf.1, ..st0 });
        &&& st1 == dst8_st::<B>(target, flagged, wf.0)
        &&& m1 == dst8_bus::<B>(target, flagged, m0, wf.0)
    } else if opcode < 0x80 {
        &&& st1 == (State {
            F: f_bits(v & (1u8 << bit) == 0, false, true, cf(st0.F)),
            ..st0
        })
        &&& m1 == m0
    } else if opcode < 0xC0 {
        ({
            let w = v & !(1u8 << bit);
            &&& st1 == dst8_st::<B>(target, st0, w)
            &&& m1 == dst8_bus::<B>(target, st0, m0, w)
        })
    } else {
        ({
            let w = v | (1u8 << bit);
            &&& st1 == dst8_st::<B>(target, st0, w)
            &&& m1 == dst8_bus::<B>(target, st0, m0, w)
        })
    }
}

/// The (byte length, cycles) pair of a CB-prefixed opcode: always 2 bytes;
/// 16 cycles when the operand is (HL), 8 otherwise.
pub open spec fn cb_decode(op: u8) -> (u8, u8) {
    (2u8, if op % 8 == 6 { 16u8 } else { 8u8 })
}

/// The operand column of a CB-prefixed opcode.
pub open spec fn cb_target_spec(n: u8) -> Dst8 {
    match n {
        0u8 => Dst8::Reg(Register8::B),
        1u8 => Dst8::Reg(Register8::C),
        2u8 => Dst8::Reg(Register8::D),
        3u8 => Dst8::Reg(Register8::E),
        4u8 => Dst8::Reg(Register8::H),
        5u8 => Dst8::Reg(Register8::L),
        6u8 => Dst8::At(Address::HL),
        _ => Dst8::Reg(Register8::A),
    }
}

fn cb_target(n: u8) -> (r: Dst8)
    ensures
        r == cb_target_spec(n),
{
    match n {
        0 => Dst8::Reg(Register8::B),
        1 => Dst8::Reg(Register8::C),
        2 => Dst8::Reg(Register8::D),
        3 => Dst8::Reg(Register8::E),
        4 => Dst8::Reg(Register8::H),
        5 => Dst8::Reg(Register8::L),
        6 => Dst8::At(Address::HL),
        _ => Dst8::Reg(Register8::A),
    }
}

/// Runs one CB-prefixed instruction: rotates, shifts, swap, and the bit
/// test/set/clear families, decoded by row and column. The flag nibble
/// stays well formed.
#[verifier::rlimit(100)]
pub fn exec_ex<B: Bus>(opcode: u8, st: &mut State, bus: &mut B) -> (r: (u8, u8))
    requires
        old(st).flags_ok(),
    ensures
        final(st).flags_ok(),
        r == cb_decode(opcode),
        cb_effect::<B>(opcode, *old(st), old(bus).model(), *final(st), final(bus).model()),
{
    proof {
        lemma_f_bits_wf();
    }
    let mut p = Processor::new();
    let target = cb_target(opcode % 8);
    let bit = (opcode / 8) % 8;
    if opcode < 0x40 {
        match opcode / 8 {
            0 => p.rlc8(st, bus, target),
            1 => p.rrc8(st, bus, target),
            2 => p.rl8(st, bus, target),
            3 => p.rr8(st, bus, target),
            4 => p.sla8(st, bus, target),
            5 => p.sra8(st, bus, target),
            6 => p.swap8(st, bus, target),
            _ => p.srl8(st, bus, target),
        }
    } else if opcode < 0x80 {
        p.bit8(st, bus, bit, target.as_src());
    } else if opcode < 0xC0 {
        p.res8(st, bus, bit, target);
    } else {
        p.set8(st, bus, bit, target);
    }
    let cycle: u8 = if opcode % 8 == 6 {
        16
    } else {
        8
    };
    p.r(2, cycle)
}

} // verus!
