//! The CPU: state machine, fetch/decode/execute step and interrupt service.
//!
//! One `step` call services at most one pending interrupt or executes at most
//! one instruction. A halted CPU wakes when the raw interrupt flags change,
//! and burns four cycles per step while it waits.

pub mod instruction;
pub mod oprand;
pub mod processor;
pub mod state;

use vstd::prelude::*;

use crate::bus::Bus;
use crate::bus::bus_upd16;
use crate::cpu::instruction::cb_decode;
use crate::cpu::instruction::cb_effect;
use crate::cpu::instruction::exec;
use crate::cpu::instruction::grid_effect;
use crate::cpu::instruction::misc_effect;
use crate::cpu::instruction::pc_neutral;
use crate::cpu::instruction::exec_ex;
use crate::cpu::instruction::flow_step_effect;
use crate::cpu::instruction::main_cond;
use crate::cpu::instruction::main_decode;
use crate::cpu::oprand::cond_spec;
use crate::cpu::state::State;
use crate::cpu::state::lemma_f_bits_wf;
use crate::interrupt;
use crate::interrupt::Interrupt;
use crate::interrupt::first_pending;
use crate::interrupt::int_mask;
use crate::interrupt::int_vector;
use crate::interrupt::IE_REG_ADDR;
use crate::interrupt::IF_REG_ADDR;

verus! {

pub struct Cpu {
    pub state: State,
}

/// The register file the boot ROM leaves behind.
pub open spec fn post_boot_state() -> State {
    State {
        A: 0x01,
        F: 0xB0,
        B: 0x00,
        C: 0x13,
        D: 0x00,
        E: 0xD8,
        H: 0x01,
        L: 0x4D,
        SP: 0xFFFE,
        PC: 0x0100,
        IME: false,
        halted: false,
        interrupts_before_halt: 0,
    }
}

/// The CPU state after the halt wake-up check: a halted CPU wakes when the
/// raw interrupt flags no longer match the snapshot taken at HALT.
pub open spec fn after_wake<B: Bus>(st: State, m: B::Model) -> State {
    if st.halted && st.interrupts_before_halt != B::view8(m, IF_REG_ADDR) {
        State { halted: false, ..st }
    } else {
        st
    }
}

/// The source a step would service: the highest-priority interrupt both
/// enabled in IE and pending in IF.
pub open spec fn pending_source<B: Bus>(m: B::Model) -> Interrupt {
    first_pending(B::view8(m, IE_REG_ADDR) & B::view8(m, IF_REG_ADDR))
}

/// Everything one `Cpu::step` call guarantees, as a relation between the
/// CPU state and bus model before and after and the cycle count returned:
/// the halt wake-up, exact interrupt service, halted idling, the opcode
/// table's cycle counts and the per-opcode machine effects.
pub open spec fn cpu_step_rel<B: Bus>(
    st0: State,
    m: B::Model,
    cycle: u8,
    stf: State,
    mf: B::Model,
) -> bool {
        let st1 = after_wake::<B>(st0, m);
        let picked = pending_source::<B>(m);
        if st1.IME && picked != Interrupt::NoSource {
            let cleared = B::upd8(
                m,
                IF_REG_ADDR,
                B::view8(m, IF_REG_ADDR) & !int_mask(picked),
            );
            &&& cycle == 20
            &&& stf == (State {
                IME: false,
                SP: st1.SP.wrapping_sub(2),
                PC: int_vector(picked),
                ..st1
            })
            &&& mf == bus_upd16::<B>(
                cleared,
                st1.SP.wrapping_sub(2),
                st1.PC,
            )
        } else if st1.halted {
            &&& cycle == 4
            &&& stf == st1
            &&& mf == m
        } else {
            ({
                let opcode = B::view8(m, st1.PC);
                &&& (opcode != 0xCB ==> cycle == main_decode(
                    opcode,
                    cond_spec(main_cond(opcode), st1.F),
                ).1)
                &&& (opcode == 0xCB ==> cycle == cb_decode(
                    B::view8(m, st1.PC.wrapping_add(1)),
                ).1)
                &&& (pc_neutral(opcode) && opcode != 0xCB ==> {
                    &&& stf.PC == st1.PC.wrapping_add(
                        main_decode(opcode, cond_spec(main_cond(opcode), st1.F)).0 as u16,
                    )
                    &&& grid_effect::<B>(
                        opcode,
                        st1,
                        m,
                        (State { PC: st1.PC, ..stf }),
                        mf,
                    )
                    &&& misc_effect::<B>(
                        opcode,
                        st1,
                        m,
                        (State { PC: st1.PC, ..stf }),
                        mf,
                    )
                })
                &&& (opcode != 0xCB && !pc_neutral(opcode) ==> flow_step_effect::<B>(
                    opcode,
                    st1,
                    m,
                    stf,
                    mf,
                ))
                &&& (opcode == 0xCB ==> {
                    &&& stf.PC == st1.PC.wrapping_add(2)
                    &&& cb_effect::<B>(
                        B::view8(m, st1.PC.wrapping_add(1)),
                        st1,
                        m,
                        (State { PC: st1.PC, ..stf }),
                        mf,
                    )
                })
            })
        }
}

impl Cpu {
    /// The flag nibble of F is well formed, as every step keeps it.
    pub open spec fn wf(&self) -> bool {
        self.state.flags_ok()
    }

    pub fn new() -> (r: Cpu)
        ensures
            r.state == State::initial(),
            r.wf(),
    {
        proof {
            lemma_f_bits_wf();
            assert(crate::cpu::state::f_bits(false, false, false, false) == 0u8);
        }
        Cpu { state: State::new() }
    }

    /// Clears every register, as `new` does.
    pub fn reset(&mut self)
        ensures
            final(self).state == State::initial(),
            final(self).wf(),
    {
        proof {
            lemma_f_bits_wf();
            assert(crate::cpu::state::f_bits(false, false, false, false) == 0u8);
        }
        self.state = State::new();
    }

    /// Takes the register file to the values the boot ROM leaves behind.
    pub fn simulate_bootloader(&mut self)
        ensures
            final(self).state == post_boot_state(),
            final(self).wf(),
    {
        proof {
            lemma_f_bits_wf();
            assert(crate::cpu::state::f_bits(true, false, true, true) == 0xB0u8);
        }
        self.state = State {
            A: 0x01,
            F: 0xB0,
            B: 0x00,
            C: 0x13,
            D: 0x00,
            E: 0xD8,
            H: 0x01,
            L: 0x4D,
            SP: 0xFFFE,
            PC: 0x0100,
            IME: false,
            halted: false,
            interrupts_before_halt: 0,
        };
    }

    /// One machine step: wake from halt if the interrupt flags moved, then
    /// either service one pending interrupt (20 cycles: PC pushed, the
    /// vector taken, the pending bit and master enable cleared), idle while
    /// halted (4 cycles), or execute one instruction whose cycle count the
    /// opcode table gives. Returns the T-cycles spent.
    pub fn step<B: Bus>(&mut self, bus: &mut B) -> (cycle: u8)
        requires
            old(self).wf(),
        ensures
            final(self).wf(),
            cpu_step_rel::<B>(
                old(self).state,
                old(bus).model(),
                cycle,
                final(self).state,
                final(bus).model(),
            ),
    {
        self.process_halt(bus);
        let interrupt_cycle = self.process_interrupt(bus);
        if interrupt_cycle > 0 {
            return interrupt_cycle;
        }
        self.process_instruction(bus)
    }

    /// A halted CPU wakes when the raw interrupt flags differ from the
    /// snapshot taken at the HALT instruction.
    fn process_halt<B: Bus>(&mut self, bus: &B)
        ensures
            *final(self) == if old(self).state.halted && old(self).state.interrupts_before_halt
                != B::view8(bus.model(), IF_REG_ADDR) {
                Cpu { state: State { halted: false, ..old(self).state } }
            } else {
                *old(self)
            },
    {
        if !self.state.halted {
            return ;
        }
        if self.state.interrupts_before_halt != interrupt::dump_raw_flags(bus) {
            self.state.halted = false;
        }
    }

    /// With the master enable set and a source both enabled and pending, the
    /// highest-priority source is serviced: its pending bit clears, PC is
    /// pushed, PC takes the vector, the master enable drops, and 20 cycles
    /// are spent. Otherwise nothing changes and 0 is returned.
    fn process_interrupt<B: Bus>(&mut self, bus: &mut B) -> (cycle: u8)
        requires
            old(self).wf(),
        ensures
            final(self).wf(),
            ({
                let m = old(bus).model();
                let picked = first_pending(
                    B::view8(m, IE_REG_ADDR) & B::view8(m, IF_REG_ADDR),
                );
                if old(self).state.IME && picked != Interrupt::NoSource {
                    let cleared = B::upd8(
                        m,
                        IF_REG_ADDR,
                        B::view8(m, IF_REG_ADDR) & !int_mask(picked),
                    );
                    &&& cycle == 20
                    &&& final(self).state == (State {
                        IME: false,
                        SP: old(self).state.SP.wrapping_sub(2),
                        PC: int_vector(picked),
                        ..old(self).state
                    })
                    &&& final(bus).model() == bus_upd16::<B>(
                        cleared,
                        old(self).state.SP.wrapping_sub(2),
                        old(self).state.PC,
                    )
                } else {
                    &&& cycle == 0
                    &&& *final(self) == *old(self)
                    &&& final(bus).model() == m
                }
            }),
    {
        if !self.state.IME {
            return 0;
        }

        let source = interrupt::receive(bus);
        let pc: u16 = match source {
            Interrupt::VBlank => 0x40,
            Interrupt::LCDStat => 0x48,
            Interrupt::Timer => 0x50,
            Interrupt::Serial => 0x58,
            Interrupt::Joypad => 0x60,
            Interrupt::NoSource => { return 0; },
        };

        self.state.IME = false;
        let sp = self.state.SP.wrapping_sub(2);
        bus.write16(sp, self.state.PC);
        self.state.SP = sp;
        self.state.PC = pc;
        20
    }

    /// Executes one instruction: four idle cycles while halted; otherwise the
    /// byte at PC dispatches through the main table, or, for the 0xCB
    /// prefix, the next byte dispatches through the CB table. PC advances by
    /// the reported byte length and the instruction's cycle count is
    /// returned.
    #[verifier::rlimit(100)]
    #[verifier::spinoff_prover]
    fn process_instruction<B: Bus>(&mut self, bus: &mut B) -> (cycle: u8)
        requires
            old(self).wf(),
        ensures
            final(self).wf(),
            old(self).state.halted ==> cycle == 4 && *final(self) == *old(self) && final(bus).model() == old(bus).model(),
            ({
                let m = old(bus).model();
                let opcode = B::view8(m, old(self).state.PC);
                &&& !old(self).state.halted && opcode != 0xCB ==> cycle == main_decode(
                    opcode,
                    cond_spec(main_cond(opcode), old(self).state.F),
                ).1
                &&& !old(self).state.halted && opcode == 0xCB ==> cycle == cb_decode(
                    B::view8(m, old(self).state.PC.wrapping_add(1)),
                ).1
                &&& !old(self).state.halted && pc_neutral(opcode) && opcode != 0xCB ==> {
                    &&& final(self).state.PC == old(self).state.PC.wrapping_add(
                        main_decode(opcode, cond_spec(main_cond(opcode), old(self).state.F)).0 as u16,
                    )
                    &&& grid_effect::<B>(
                        opcode,
                        old(self).state,
                        m,
                        (State { PC: old(self).state.PC, ..final(self).state }),
                        final(bus).model(),
                    )
                    &&& misc_effect::<B>(
                        opcode,
                        old(self).state,
                        m,
                        (State { PC: old(self).state.PC, ..final(self).state }),
                        final(bus).model(),
                    )
                }
                &&& !old(self).state.halted && opcode != 0xCB && !pc_neutral(opcode)
                    ==> flow_step_effect::<B>(
                    opcode,
                    old(self).state,
                    m,
                    final(self).state,
                    final(bus).model(),
                )
                &&& !old(self).state.halted && opcode == 0xCB ==> {
                    &&& final(self).state.PC == old(self).state.PC.wrapping_add(2)
                    &&& cb_effect::<B>(
                        B::view8(m, old(self).state.PC.wrapping_add(1)),
                        old(self).state,
                        m,
                        (State { PC: old(self).state.PC, ..final(self).state }),
                        final(bus).model(),
                    )
                }
            }),
    {
        if self.state.halted {
            return 4;
        }

        let addr = self.state.PC;
        let opcode = bus.read8(addr);

        let (bytes, cycles) = if opcode != 0xCB {
            // 1-byte opcode
            exec(opcode, &mut self.state, bus)
        } else {
            // 2-byte opcode behind the CB prefix
            let addr = self.state.PC.wrapping_add(1);
            let opcode = bus.read8(addr);
            exec_ex(opcode, &mut self.state, bus)
        };

        self.state.PC = self.state.PC.wrapping_add(bytes as u16);
        cycles
    }
}

} // verus!
