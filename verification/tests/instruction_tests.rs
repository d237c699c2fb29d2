//! Tests for the opcode dispatch and the fetch/decode/execute step,
//! including the published concrete scenarios.

use gameboy::bus::Bus;
use gameboy::cpu::Cpu;
use gameboy::cpu::instruction::exec;
use gameboy::cpu::instruction::exec_ex;
use gameboy::cpu::oprand::Address;
use gameboy::cpu::oprand::Dst8;
use gameboy::cpu::oprand::Immediate8;
use gameboy::cpu::oprand::Register8;
use gameboy::cpu::oprand::Src8;
use gameboy::cpu::processor::Processor;
use gameboy::cpu::state::Flag;
use gameboy::cpu::state::State;
use gameboy::mmu::Mmu;
use gameboy::ram::Ram;

fn znhc(state: &State) -> (bool, bool, bool, bool) {
    (
        state.get_flag(Flag::Z),
        state.get_flag(Flag::N),
        state.get_flag(Flag::H),
        state.get_flag(Flag::C),
    )
}

#[test]
fn cpu_reset() {
    let mut cpu = Cpu::new();
    cpu.state.A = 1;
    cpu.reset();
    assert_eq!(0, cpu.state.A);
}

#[test]
fn test_ld8_r8_r8() {
    let mut state = State::new();
    let mut ram = Ram::new(vec![0x00]);
    state.A = 0xAA;

    let p = Processor::new();
    p.ld8(&mut state, &mut ram, Dst8::Reg(Register8::B), Src8::Reg(Register8::A));
    assert_eq!(0xAA, state.B);
}

#[test]
fn test_ld8_r8_hl() {
    let mut state = State::new();
    let mut ram = Ram::new(vec![0x00, 0xAA]);
    state.L = 0x01;

    let p = Processor::new();
    p.ld8(&mut state, &mut ram, Dst8::Reg(Register8::B), Src8::At(Address::HL));
    assert_eq!(0xAA, state.B);
}

#[test]
fn test_ld8_r8_d8() {
    let mut state = State::new();
    let mut ram = Ram::new(vec![0x00, 0xAA]);

    let p = Processor::new();
    p.ld8(&mut state, &mut ram, Dst8::Reg(Register8::B), Src8::Imm(Immediate8));
    assert_eq!(0xAA, state.B);
}

#[test]
fn test_add8() {
    for &(a, b, c, flags) in &[
        (0x00u8, 0x01u8, 0x01u8, (false, false, false, false)),
        (0x0F, 0x01, 0x10, (false, false, true, false)),
        (0xF0, 0x10, 0x00, (true, false, false, true)),
        (0xFF, 0x01, 0x00, (true, false, true, true)),
    ] {
        let mut state = State::new();
        let mut ram = Ram::new(vec![0x00]);
        state.A = a;
        state.B = b;

        let p = Processor::new();
        p.add8(&mut state, &mut ram, Src8::Reg(Register8::B));
        assert_eq!(c, state.A);
        assert_eq!(flags, znhc(&state));
    }
}

#[test]
fn test_adc8() {
    for &(a, b, c, flags) in &[
        (0x00u8, 0x01u8, 0x02u8, (false, false, false, false)),
        (0x0E, 0x01, 0x10, (false, false, true, false)),
        (0x00, 0x0F, 0x10, (false, false, true, false)),
        (0xF0, 0x10, 0x01, (false, false, false, true)),
        (0x00, 0xFF, 0x00, (true, false, true, true)),
    ] {
        let mut state = State::new();
        let mut ram = Ram::new(vec![0x00]);
        state.enable_flag(Flag::C);
        state.A = a;
        state.B = b;

        let p = Processor::new();
        p.adc8(&mut state, &mut ram, Src8::Reg(Register8::B));
        assert_eq!(c, state.A);
        assert_eq!(flags, znhc(&state));
    }
}

#[test]
fn test_sub8() {
    for &(a, b, c, flags) in &[
        (0x02u8, 0x01u8, 0x01u8, (false, true, false, false)),
        (0x10, 0x01, 0x0F, (false, true, true, false)),
        (0x00, 0x10, 0xF0, (false, true, false, true)),
        (0x00, 0x01, 0xFF, (false, true, true, true)),
    ] {
        let mut state = State::new();
        let mut ram = Ram::new(vec![0x00]);
        state.A = a;
        state.B = b;

        let p = Processor::new();
        p.sub8(&mut state, &mut ram, Src8::Reg(Register8::B));
        assert_eq!(c, state.A);
        assert_eq!(flags, znhc(&state));
    }
}

#[test]
fn test_sbc8() {
    for &(a, b, c, flags) in &[
        (0x03u8, 0x01u8, 0x01u8, (false, true, false, false)),
        (0x11, 0x01, 0x0F, (false, true, true, false)),
        (0x10, 0x01, 0x0E, (false, true, true, false)),
        (0x00, 0x0F, 0xF0, (false, true, true, true)),
        (0x00, 0xFF, 0x00, (true, true, true, true)),
    ] {
        let mut state = State::new();
        let mut ram = Ram::new(vec![0x00]);
        state.enable_flag(Flag::C);
        state.A = a;
        state.B = b;

        let p = Processor::new();
        p.sbc8(&mut state, &mut ram, Src8::Reg(Register8::B));
        assert_eq!(c, state.A);
        assert_eq!(flags, znhc(&state));
    }
}

#[test]
fn test_logical8() {
    for &(a, b, and, and_flags, or, or_flags, xor, xor_flags) in &[
        (
            0x01u8,
            0x01u8,
            0x01u8,
            (false, false, true, false),
            0x01u8,
            (false, false, false, false),
            0x00u8,
            (true, false, false, false),
        ),
        (
            0x01,
            0x00,
            0x00,
            (true, false, true, false),
            0x01,
            (false, false, false, false),
            0x01,
            (false, false, false, false),
        ),
        (
            0x00,
            0x00,
            0x00,
            (true, false, true, false),
            0x00,
            (true, false, false, false),
            0x00,
            (true, false, false, false),
        ),
    ] {
        {
            let mut state = State::new();
            let mut ram = Ram::new(vec![0x00]);
            state.A = a;
            state.B = b;

            let p = Processor::new();
            p.and8(&mut state, &mut ram, Src8::Reg(Register8::B));
            assert_eq!(and, state.A);
            assert_eq!(and_flags, znhc(&state));
        }
        {
            let mut state = State::new();
            let mut ram = Ram::new(vec![0x00]);
            state.A = a;
            state.B = b;

            let p = Processor::new();
            p.or8(&mut state, &mut ram, Src8::Reg(Register8::B));
            assert_eq!(or, state.A);
            assert_eq!(or_flags, znhc(&state));
        }
        {
            let mut state = State::new();
            let mut ram = Ram::new(vec![0x00]);
            state.A = a;
            state.B = b;

            let p = Processor::new();
            p.xor8(&mut state, &mut ram, Src8::Reg(Register8::B));
            assert_eq!(xor, state.A);
            assert_eq!(xor_flags, znhc(&state));
        }
    }
}

#[test]
fn test_decode_lengths_and_cycles() {
    // A few entries of the published opcode table, through the decoder.
    let mut state = State::new();
    let mut ram = Ram::new(vec![0x00; 0x100]);

    assert_eq!((1, 4), exec(0x00, &mut state, &mut ram));  // NOP
    assert_eq!((3, 12), exec(0x01, &mut state, &mut ram));  // LD BC,d16
    assert_eq!((1, 8), exec(0x02, &mut state, &mut ram));  // LD (BC),A
    assert_eq!((2, 8), exec(0x06, &mut state, &mut ram));  // LD B,d8
    assert_eq!((1, 4), exec(0x80, &mut state, &mut ram));  // ADD A,B
    assert_eq!((1, 8), exec(0x86, &mut state, &mut ram));  // ADD A,(HL)
    assert_eq!((2, 4), exec(0x10, &mut state, &mut ram));  // STOP
    assert_eq!((1, 4), exec(0xD3, &mut state, &mut ram));  // Undefined

    // JP a16 always takes the branch: 16 cycles, PC set directly.
    state = State::new();
    assert_eq!((0, 16), exec(0xC3, &mut state, &mut ram));
    // JP NZ with Z set falls through: 12 cycles and a 3-byte length.
    state = State::new();
    state.enable_flag(Flag::Z);
    assert_eq!((3, 12), exec(0xC2, &mut state, &mut ram));
    // JR is 2 bytes: 12 cycles taken, 8 not taken.
    state = State::new();
    assert_eq!((2, 12), exec(0x18, &mut state, &mut ram));
    state = State::new();
    state.enable_flag(Flag::Z);
    assert_eq!((2, 8), exec(0x20, &mut state, &mut ram));

    // CB-prefixed opcodes are 2 bytes: 16 cycles on (HL), 8 on a register.
    state = State::new();
    assert_eq!((2, 8), exec_ex(0x11, &mut state, &mut ram));  // RL C
    state = State::new();
    assert_eq!((2, 16), exec_ex(0x06, &mut state, &mut ram));  // RLC (HL)
    state = State::new();
    assert_eq!((2, 16), exec_ex(0xC6, &mut state, &mut ram));  // SET 0,(HL)
}

#[test]
fn test_exec_cb_families() {
    // SWAP A via the CB table
    let mut state = State::new();
    let mut ram = Ram::new(vec![0x00; 0x10]);
    state.A = 0b0001_1000;
    exec_ex(0x37, &mut state, &mut ram);
    assert_eq!(0b1000_0001, state.A);

    // BIT 7,A with the bit clear sets Z
    exec_ex(0x7F, &mut state, &mut ram);
    assert_eq!(false, state.get_flag(Flag::Z));
    state.A = 0x01;
    exec_ex(0x7F, &mut state, &mut ram);
    assert_eq!(true, state.get_flag(Flag::Z));
}

#[test]
fn test_step_add_half_carry() {
    // ADD A,B with A=0x0F, B=0x01: half-carry only, one byte, 4 cycles.
    let mut cpu = Cpu::new();
    let mut ram = Ram::new(vec![0x80]);
    cpu.state.A = 0x0F;
    cpu.state.B = 0x01;

    let cycle = cpu.step(&mut ram);
    assert_eq!(0x10, cpu.state.A);
    assert_eq!(0x20, cpu.state.F);
    assert_eq!(1, cpu.state.PC);
    assert_eq!(4, cycle);
}

#[test]
fn test_step_sub_borrow() {
    // SUB A,B with A=0x00, B=0x01: full borrow.
    let mut cpu = Cpu::new();
    let mut ram = Ram::new(vec![0x90]);
    cpu.state.A = 0x00;
    cpu.state.B = 0x01;

    let cycle = cpu.step(&mut ram);
    assert_eq!(0xFF, cpu.state.A);
    assert_eq!(0x70, cpu.state.F);
    assert_eq!(4, cycle);
}

#[test]
fn test_step_ld_then_cp() {
    // LD A,0x42 then CP B with B=0x42: equal compare sets Z and N only.
    let mut cpu = Cpu::new();
    let mut ram = Ram::new(vec![0x3E, 0x42, 0xB8]);
    cpu.state.B = 0x42;

    cpu.step(&mut ram);
    cpu.step(&mut ram);
    assert_eq!(0x42, cpu.state.A);
    assert_eq!(true, cpu.state.get_flag(Flag::Z));
    assert_eq!(true, cpu.state.get_flag(Flag::N));
    assert_eq!(false, cpu.state.get_flag(Flag::H));
    assert_eq!(false, cpu.state.get_flag(Flag::C));
}

#[test]
fn test_step_hl_post_increment() {
    // LD (HL+),A with HL=0xC000, A=0xAA stores at 0xC000 and bumps HL.
    let mut cpu = Cpu::new();
    let mut mmu = Mmu::new();
    mmu.write8(0xC100, 0x22);
    cpu.state.PC = 0xC100;
    cpu.state.H = 0xC0;
    cpu.state.L = 0x00;
    cpu.state.A = 0xAA;

    cpu.step(&mut mmu);
    assert_eq!(0xAA, mmu.read8(0xC000));
    assert_eq!(0xC0, cpu.state.H);
    assert_eq!(0x01, cpu.state.L);
}

#[test]
fn test_step_interrupt_dispatch() {
    // IME set, VBlank enabled and pending: PC is pushed, the vector taken,
    // IME drops, the pending bit clears, and 20 cycles pass.
    let mut cpu = Cpu::new();
    let mut mmu = Mmu::new();
    cpu.state.IME = true;
    cpu.state.SP = 0xFFFE;
    cpu.state.PC = 0x0100;
    mmu.write8(0xFFFF, 0x01);
    mmu.write8(0xFF0F, 0x01);

    let cycle = cpu.step(&mut mmu);
    assert_eq!(20, cycle);
    assert_eq!(0x0040, cpu.state.PC);
    assert_eq!(false, cpu.state.IME);
    assert_eq!(0x00, mmu.read8(0xFF0F));
    assert_eq!(0xFFFC, cpu.state.SP);
    assert_eq!(0x0100, mmu.read16(0xFFFC));
}

#[test]
fn test_step_halt_and_wake() {
    // HALT stops execution at 4 idle cycles per step until IF changes.
    let mut cpu = Cpu::new();
    let mut mmu = Mmu::new();
    mmu.write8(0xC000, 0x76);
    cpu.state.PC = 0xC000;

    cpu.step(&mut mmu);
    assert_eq!(true, cpu.state.halted);
    assert_eq!(0xC001, cpu.state.PC);
    let cycle = cpu.step(&mut mmu);
    assert_eq!(4, cycle);
    assert_eq!(0xC001, cpu.state.PC);

    // A new pending interrupt wakes the CPU; the next step executes again.
    mmu.write8(0xFF0F, 0x04);
    cpu.step(&mut mmu);
    assert_eq!(false, cpu.state.halted);
}

#[test]
fn test_step_control_flow() {
    // JP 0xC005; at 0xC005 JR -3 lands on the byte before the jump target;
    // there a NOP falls through.
    let mut cpu = Cpu::new();
    let mut mmu = Mmu::new();
    mmu.write8(0xC000, 0xC3);  // JP 0xC005
    mmu.write8(0xC001, 0x05);
    mmu.write8(0xC002, 0xC0);
    mmu.write8(0xC005, 0x18);  // JR -3
    mmu.write8(0xC006, 0xFD);
    cpu.state.PC = 0xC000;

    let cycle = cpu.step(&mut mmu);
    assert_eq!(16, cycle);
    assert_eq!(0xC005, cpu.state.PC);

    let cycle = cpu.step(&mut mmu);
    assert_eq!(12, cycle);
    assert_eq!(0xC004, cpu.state.PC);
}

#[test]
fn test_step_call_and_ret() {
    // CALL 0xC010 pushes the return address; RET comes back to it.
    let mut cpu = Cpu::new();
    let mut mmu = Mmu::new();
    mmu.write8(0xC000, 0xCD);  // CALL 0xC010
    mmu.write8(0xC001, 0x10);
    mmu.write8(0xC002, 0xC0);
    mmu.write8(0xC010, 0xC9);  // RET
    cpu.state.PC = 0xC000;
    cpu.state.SP = 0xFFFE;

    let cycle = cpu.step(&mut mmu);
    assert_eq!(24, cycle);
    assert_eq!(0xC010, cpu.state.PC);
    assert_eq!(0xFFFC, cpu.state.SP);
    assert_eq!(0xC003, mmu.read16(0xFFFC));

    let cycle = cpu.step(&mut mmu);
    assert_eq!(16, cycle);
    assert_eq!(0xC003, cpu.state.PC);
    assert_eq!(0xFFFE, cpu.state.SP);
}
