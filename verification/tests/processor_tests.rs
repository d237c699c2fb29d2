//! Unit tests for the instruction helpers, the CPU state flags and the
//! operand model.

use gameboy::bus::Bus;
use gameboy::cpu::oprand::Address;
use gameboy::cpu::oprand::Condition;
use gameboy::cpu::oprand::Dst16;
use gameboy::cpu::oprand::Dst8;
use gameboy::cpu::oprand::Immediate16;
use gameboy::cpu::oprand::Immediate8;
use gameboy::cpu::oprand::Register16;
use gameboy::cpu::oprand::Register8;
use gameboy::cpu::oprand::Src16;
use gameboy::cpu::oprand::Src8;
use gameboy::cpu::processor::Processor;
use gameboy::cpu::state::Flag;
use gameboy::cpu::state::State;
use gameboy::ram::Ram;

fn znhc(state: &State) -> (bool, bool, bool, bool) {
    (
        state.get_flag(Flag::Z),
        state.get_flag(Flag::N),
        state.get_flag(Flag::H),
        state.get_flag(Flag::C),
    )
}

#[test]
fn test_state_flag() {
    let mut state = State::new();

    state.enable_flag(Flag::Z);
    assert_eq!(0b10000000, state.F);
    state.enable_flag(Flag::N);
    assert_eq!(0b11000000, state.F);
    state.disable_flag(Flag::Z);
    assert_eq!(0b01000000, state.F);
}

#[test]
fn test_register16() {
    let mut state = State::new();

    Register16::AF.write16(&mut state, 0xFFFF);
    Register16::BC.write16(&mut state, 0xFFFF);
    assert_eq!(0xFFF0, Register16::AF.read16(&state));
    assert_eq!(0xFFFF, Register16::BC.read16(&state));
}

#[test]
fn test_address_get() {
    let mut state = State::new();
    let ram = Ram::new(vec![0x00, 0xAA]);
    state.C = 0xBB;

    assert_eq!(0xFFAA, Address::FF00.get(&state, &ram));
    assert_eq!(0xFFBB, Address::FF00C.get(&state, &ram));
}

#[test]
fn test_processor_ld8_r8_r8() {
    let mut state = State::new();
    let mut ram = Ram::new(vec![0x00]);
    state.A = 0xAA;

    let p = Processor::new();
    p.ld8(&mut state, &mut ram, Dst8::Reg(Register8::B), Src8::Reg(Register8::A));
    assert_eq!(0xAA, state.B);
}

#[test]
fn test_processor_ld8_hl() {
    let mut state = State::new();
    let mut ram = Ram::new(vec![0xAA, 0xBB]);
    state.L = 0x01;

    let p = Processor::new();
    p.ld8(&mut state, &mut ram, Dst8::Reg(Register8::B), Src8::At(Address::HL));
    assert_eq!(0xBB, state.B);

    p.ld8_hld(&mut state, &mut ram, Dst8::Reg(Register8::B), Src8::At(Address::HL));
    assert_eq!(0xBB, state.B);
    assert_eq!(0x00, state.L);
    p.ld8_hld(&mut state, &mut ram, Dst8::Reg(Register8::B), Src8::At(Address::HL));
    assert_eq!(0xAA, state.B);
    assert_eq!(0xFF, state.L);
}

#[test]
fn test_processor_ld8_r8_d8() {
    let mut state = State::new();
    let mut ram = Ram::new(vec![0x00, 0xAA]);

    let p = Processor::new();
    p.ld8(&mut state, &mut ram, Dst8::Reg(Register8::B), Src8::Imm(Immediate8));
    assert_eq!(0xAA, state.B);
}

#[test]
fn test_processor_ld8_r8_a16() {
    let mut state = State::new();
    let mut ram = Ram::new(vec![0x00, 0x03, 0x00, 0xAA]);

    let p = Processor::new();
    // The direct address will be 0x0003
    p.ld8(&mut state, &mut ram, Dst8::Reg(Register8::B), Src8::At(Address::Direct));
    assert_eq!(0xAA, state.B);
}

#[test]
fn test_processor_ld16_r16_d16() {
    let mut state = State::new();
    let mut ram = Ram::new(vec![0x00, 0xAB, 0xCD]);

    let p = Processor::new();
    p.ld16(&mut state, &mut ram, Dst16::Reg(Register16::SP), Src16::Imm(Immediate16));
    assert_eq!(0xCDAB, state.SP);
}

#[test]
fn test_processor_ld16_r16_a16() {
    {
        let mut state = State::new();
        let mut ram = Ram::new(vec![0x00, 0x03, 0x00, 0xAB, 0xCD]);

        let p = Processor::new();
        p.ld16(&mut state, &mut ram, Dst16::Reg(Register16::SP), Src16::At(Address::Direct));
        assert_eq!(0xCDAB, state.SP);
    }
    {
        let mut state = State::new();
        let mut ram = Ram::new(vec![0x00, 0x03, 0x00, 0x00, 0x00]);
        state.SP = 0xCDAB;

        let p = Processor::new();
        p.ld16(&mut state, &mut ram, Dst16::At(Address::Direct), Src16::Reg(Register16::SP));
        assert_eq!(vec![0x00, 0x03, 0x00, 0xAB, 0xCD], ram.dump());
    }
}

#[test]
fn test_processor_add8() {
    for &(a, b, c, flags) in &[
        (0x00u8, 0x01u8, 0x01u8, (false, false, false, false)),
        (0x0F, 0x01, 0x10, (false, false, true, false)),
        (0xF0, 0x10, 0x00, (true, false, false, true)),
        (0xFF, 0x01, 0x00, (true, false, true, true)),
    ] {
        let mut state = State::new();
        let mut ram = Ram::new(vec![0x00]);
        state.A = a;
        state.B = b;

        let p = Processor::new();
        p.add8(&mut state, &mut ram, Src8::Reg(Register8::B));
        assert_eq!(c, state.A);
        assert_eq!(flags, znhc(&state));
    }
}

#[test]
fn test_processor_add16() {
    for &(a, b, c, flags) in &[
        (0x00FFu16, 0x0001u16, 0x0100u16, (false, false, false, false)),
        (0x0FFF, 0x0001, 0x1000, (false, false, true, false)),
        (0xF000, 0x1000, 0x0000, (false, false, false, true)),
        (0xFFFF, 0x0001, 0x0000, (false, false, true, true)),
    ] {
        let mut state = State::new();
        let mut ram = Ram::new(vec![0x00]);
        Register16::HL.write16(&mut state, a);
        Register16::BC.write16(&mut state, b);

        let p = Processor::new();
        p.add16(&mut state, &mut ram, Src16::Reg(Register16::BC));
        assert_eq!(c, Register16::HL.read16(&state));
        assert_eq!(flags, znhc(&state));
    }
}

#[test]
fn test_processor_add_r16_e8() {
    for &(a, b, c, flags) in &[
        (0x00FFu16, 1i8, 0x0100u16, (false, false, true, true)),
        (0x0100, -1, 0x00FF, (false, false, false, false)),
        (0x0010, -1, 0x000F, (false, false, false, true)),
        (0x0000, -1, 0xFFFF, (false, false, false, false)),
    ] {
        let mut state = State::new();
        let mut ram = Ram::new(vec![0x00]);
        Register16::BC.write16(&mut state, a);
        state.D = b as u8;

        let p = Processor::new();
        let r = p.add_r16_e8(
            &mut state,
            &mut ram,
            Src16::Reg(Register16::BC),
            Src8::Reg(Register8::D),
        );
        assert_eq!(c, r);
        assert_eq!(flags, znhc(&state));
    }
}

#[test]
fn test_processor_adc8() {
    for &(a, b, c, flags) in &[
        (0x00u8, 0x01u8, 0x02u8, (false, false, false, false)),
        (0x0E, 0x01, 0x10, (false, false, true, false)),
        (0x00, 0x0F, 0x10, (false, false, true, false)),
        (0xF0, 0x10, 0x01, (false, false, false, true)),
        (0x00, 0xFF, 0x00, (true, false, true, true)),
    ] {
        let mut state = State::new();
        let mut ram = Ram::new(vec![0x00]);
        state.enable_flag(Flag::C);
        state.A = a;
        state.B = b;

        let p = Processor::new();
        p.adc8(&mut state, &mut ram, Src8::Reg(Register8::B));
        assert_eq!(c, state.A);
        assert_eq!(flags, znhc(&state));
    }
}

#[test]
fn test_processor_sub8() {
    for &(a, b, c, flags) in &[
        (0x02u8, 0x01u8, 0x01u8, (false, true, false, false)),
        (0x10, 0x01, 0x0F, (false, true, true, false)),
        (0x00, 0x10, 0xF0, (false, true, false, true)),
        (0x00, 0x01, 0xFF, (false, true, true, true)),
    ] {
        let mut state = State::new();
        let mut ram = Ram::new(vec![0x00]);
        state.A = a;
        state.B = b;

        let p = Processor::new();
        p.sub8(&mut state, &mut ram, Src8::Reg(Register8::B));
        assert_eq!(c, state.A);
        assert_eq!(flags, znhc(&state));
    }
}

#[test]
fn test_processor_sbc8() {
    for &(a, b, c, flags) in &[
        (0x03u8, 0x01u8, 0x01u8, (false, true, false, false)),
        (0x11, 0x01, 0x0F, (false, true, true, false)),
        (0x10, 0x01, 0x0E, (false, true, true, false)),
        (0x00, 0x0F, 0xF0, (false, true, true, true)),
        (0x00, 0xFF, 0x00, (true, true, true, true)),
    ] {
        let mut state = State::new();
        let mut ram = Ram::new(vec![0x00]);
        state.enable_flag(Flag::C);
        state.A = a;
        state.B = b;

        let p = Processor::new();
        p.sbc8(&mut state, &mut ram, Src8::Reg(Register8::B));
        assert_eq!(c, state.A);
        assert_eq!(flags, znhc(&state));
    }
}

#[test]
fn test_processor_inc_dec_hl() {
    let mut state = State::new();
    let mut ram = Ram::new(vec![0x00, 0x0F]);
    state.L = 0x01;

    let p = Processor::new();
    p.inc8(&mut state, &mut ram, Dst8::At(Address::HL));
    assert_eq!(0x10, ram.read8(1));
    p.dec8(&mut state, &mut ram, Dst8::At(Address::HL));
    assert_eq!(0x0F, ram.read8(1));
}

#[test]
fn test_processor_logical8() {
    for &(a, b, and, and_flags, or, or_flags, xor, xor_flags) in &[
        (
            0x01u8,
            0x01u8,
            0x01u8,
            (false, false, true, false),
            0x01u8,
            (false, false, false, false),
            0x00u8,
            (true, false, false, false),
        ),
        (
            0x01,
            0x00,
            0x00,
            (true, false, true, false),
            0x01,
            (false, false, false, false),
            0x01,
            (false, false, false, false),
        ),
        (
            0x00,
            0x00,
            0x00,
            (true, false, true, false),
            0x00,
            (true, false, false, false),
            0x00,
            (true, false, false, false),
        ),
    ] {
        {
            let mut state = State::new();
            let mut ram = Ram::new(vec![0x00]);
            state.A = a;
            state.B = b;

            let p = Processor::new();
            p.and8(&mut state, &mut ram, Src8::Reg(Register8::B));
            assert_eq!(and, state.A);
            assert_eq!(and_flags, znhc(&state));
        }
        {
            let mut state = State::new();
            let mut ram = Ram::new(vec![0x00]);
            state.A = a;
            state.B = b;

            let p = Processor::new();
            p.or8(&mut state, &mut ram, Src8::Reg(Register8::B));
            assert_eq!(or, state.A);
            assert_eq!(or_flags, znhc(&state));
        }
        {
            let mut state = State::new();
            let mut ram = Ram::new(vec![0x00]);
            state.A = a;
            state.B = b;

            let p = Processor::new();
            p.xor8(&mut state, &mut ram, Src8::Reg(Register8::B));
            assert_eq!(xor, state.A);
            assert_eq!(xor_flags, znhc(&state));
        }
    }
}

#[test]
fn test_processor_cp8() {
    let mut state = State::new();
    let mut ram = Ram::new(vec![0x00]);
    state.enable_flag(Flag::C);
    state.B = 0x01;

    let p = Processor::new();
    p.cp8(&mut state, &mut ram, Src8::Reg(Register8::B));
    assert_eq!(0x00, state.A);
    assert_eq!((false, true, true, true), znhc(&state));
}

#[test]
fn test_processor_rotate() {
    for &(a, carry, rl, rlc) in &[
        (0b1000_1000u8, true, 0b0001_0001u8, 0b0001_0001u8),
        (0b1000_1000, false, 0b0001_0000, 0b0001_0001),
    ] {
        {
            let mut state = State::new();
            let mut ram = Ram::new(vec![0x00]);
            state.A = a;
            state.set_flag(Flag::C, carry);

            let p = Processor::new();
            p.rl8(&mut state, &mut ram, Dst8::Reg(Register8::A));
            assert_eq!(rl, state.A);
        }
        {
            let mut state = State::new();
            let mut ram = Ram::new(vec![0x00]);
            state.A = a;
            state.set_flag(Flag::C, carry);

            let p = Processor::new();
            p.rlc8(&mut state, &mut ram, Dst8::Reg(Register8::A));
            assert_eq!(rlc, state.A);
        }
    }
}

#[test]
fn test_processor_shift() {
    for &(a, sra, srl, swap) in &[(0b1000_0001u8, 0b1100_0000u8, 0b0100_0000u8, 0b0001_1000u8)] {
        {
            let mut state = State::new();
            let mut ram = Ram::new(vec![0x00]);
            state.A = a;

            let p = Processor::new();
            p.sra8(&mut state, &mut ram, Dst8::Reg(Register8::A));
            assert_eq!(sra, state.A);
        }
        {
            let mut state = State::new();
            let mut ram = Ram::new(vec![0x00]);
            state.A = a;

            let p = Processor::new();
            p.srl8(&mut state, &mut ram, Dst8::Reg(Register8::A));
            assert_eq!(srl, state.A);
        }
        {
            let mut state = State::new();
            let mut ram = Ram::new(vec![0x00]);
            state.A = a;

            let p = Processor::new();
            p.swap8(&mut state, &mut ram, Dst8::Reg(Register8::A));
            assert_eq!(swap, state.A);
        }
    }
}

#[test]
fn test_processor_bit_set() {
    let mut state = State::new();
    let mut ram = Ram::new(vec![0x00, 0x00]);

    let p = Processor::new();
    p.bit8(&mut state, &mut ram, 7, Src8::Reg(Register8::A));
    assert_eq!(true, state.get_flag(Flag::Z));
    p.set8(&mut state, &mut ram, 7, Dst8::Reg(Register8::A));
    assert_eq!(true, state.get_flag(Flag::Z));
    p.bit8(&mut state, &mut ram, 7, Src8::Reg(Register8::A));
    assert_eq!(false, state.get_flag(Flag::Z));
    p.res8(&mut state, &mut ram, 7, Dst8::Reg(Register8::A));
    assert_eq!(false, state.get_flag(Flag::Z));
    p.bit8(&mut state, &mut ram, 7, Src8::Reg(Register8::A));
    assert_eq!(true, state.get_flag(Flag::Z));
}

#[test]
fn test_processor_push_pop() {
    let mut state = State::new();
    let mut ram = Ram::new(vec![0x00, 0x00]);
    Register16::SP.write16(&mut state, 0x0002);
    Register16::BC.write16(&mut state, 0xABCD);

    let p = Processor::new();
    p.push16(&mut state, &mut ram, Src16::Reg(Register16::BC));
    assert_eq!(0x0000, state.SP);
    assert_eq!(vec![0xCD, 0xAB], ram.dump());
    p.pop16(&mut state, &mut ram, Dst16::Reg(Register16::DE));
    assert_eq!(0x0002, state.SP);
    assert_eq!(0xABCD, Register16::DE.read16(&state));
}

#[test]
fn test_processor_jp() {
    let mut state = State::new();
    let mut ram = Ram::new(vec![0x00, 0xAB, 0xCD]);

    let mut p = Processor::new();
    p.jp(&mut state, &mut ram, Condition::F, Src16::Imm(Immediate16));
    assert_eq!(0x0000, state.PC);
    assert_eq!((0, 0), p.r(0, 0));
    p.jp(&mut state, &mut ram, Condition::T, Src16::Imm(Immediate16));
    assert_eq!(0xCDAB, state.PC);
    assert_eq!((0, 4), p.r(0, 0));
}

#[test]
fn test_processor_jr() {
    let mut state = State::new();
    let mut ram = Ram::new(vec![0x00, 0xFF /* -1 */]);
    state.PC = 0x0000;

    let mut p = Processor::new();
    p.jr(&mut state, &mut ram, Condition::T, Src8::Imm(Immediate8));
    assert_eq!(0xFFFF, state.PC);
    assert_eq!((0, 4), p.r(0, 0));
}

#[test]
fn test_processor_call_ret() {
    let mut state = State::new();
    let mut ram = Ram::new(vec![0x00, 0xAB, 0xCD, /* stack: */ 0x00, 0x00]);
    state.SP = 0x0005;
    state.PC = 0x0000;

    let mut p = Processor::new();
    p.call(&mut state, &mut ram, Condition::T, Src16::Imm(Immediate16));
    assert_eq!(0xCDAB, state.PC);
    assert_eq!(0x0003, state.SP);
    assert_eq!(vec![0x00, 0xAB, 0xCD, 0x03, 0x00], ram.dump());
    assert_eq!((0, 12), p.r(0, 0));
    p.ret(&mut state, &mut ram, Condition::T);
    assert_eq!(0x0003, state.PC);
    assert_eq!(0x0005, state.SP);
    assert_eq!((0, 12), p.r(0, 0));
}

#[test]
fn test_processor_daa() {
    // 0x19 + 0x28 leaves 0x41 with a half-carry; DAA corrects it to 0x47.
    let mut state = State::new();
    let mut ram = Ram::new(vec![0x00]);
    state.A = 0x19;
    state.B = 0x28;

    let p = Processor::new();
    p.add8(&mut state, &mut ram, Src8::Reg(Register8::B));
    assert_eq!(0x41, state.A);
    p.daa(&mut state);
    assert_eq!(0x47, state.A);

    // 0x99 + 0x01 wraps the BCD century: DAA yields 0x00 with carry set.
    let mut state = State::new();
    state.A = 0x99;
    state.B = 0x01;
    p.add8(&mut state, &mut ram, Src8::Reg(Register8::B));
    assert_eq!(0x9A, state.A);
    p.daa(&mut state);
    assert_eq!(0x00, state.A);
    assert_eq!(true, state.get_flag(Flag::Z));
    assert_eq!(true, state.get_flag(Flag::C));
}

#[test]
fn test_push_pop_roundtrip_af() {
    // PUSH AF then POP AF over full memory: AF and SP come back unchanged.
    let mut state = State::new();
    let mut ram = Ram::new(vec![0x00; 0x10000]);
    state.A = 0x5A;
    state.enable_flag(Flag::Z);
    state.enable_flag(Flag::C);
    state.SP = 0xFFFE;
    let af = Register16::AF.read16(&state);

    let p = Processor::new();
    p.push16(&mut state, &mut ram, Src16::Reg(Register16::AF));
    p.pop16(&mut state, &mut ram, Dst16::Reg(Register16::AF));
    assert_eq!(af, Register16::AF.read16(&state));
    assert_eq!(0xFFFE, state.SP);
}
