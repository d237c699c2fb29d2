//! Tests for the interrupt controller, joypad, timer, memory unit,
//! cartridge bank controllers, pixel unit and the whole machine.

use gameboy::GameBoy;
use gameboy::bus::Bus;
use gameboy::cartridge::Cartridge;
use gameboy::cartridge::CartridgeError;
use gameboy::cartridge::mbc1::Mbc1;
use gameboy::cartridge::mbc5::Mbc5;
use gameboy::interrupt::Interrupt;
use gameboy::interrupt::receive;
use gameboy::interrupt::request;
use gameboy::joypad::Button;
use gameboy::joypad::Joypad;
use gameboy::mmu::Mmu;
use gameboy::ppu::Ppu;
use gameboy::screen::FrameBuffer;
use gameboy::screen::Pixel;
use gameboy::screen::Screen;
use gameboy::timer::Timer;

#[test]
fn test_interrupt() {
    let mut mmu = Mmu::new();

    assert_eq!(Interrupt::NoSource, receive(&mut mmu));

    request(&mut mmu, Interrupt::Timer);
    assert_eq!(Interrupt::NoSource, receive(&mut mmu));

    mmu.write8(0xFFFF, 0xFF);
    assert_eq!(Interrupt::Timer, receive(&mut mmu));
    // The interrupt will be automatically discarded

    assert_eq!(Interrupt::NoSource, receive(&mut mmu));
}

#[test]
fn test_interrupt_priority_order() {
    // With everything enabled and pending, receive walks the priority
    // order, clearing one pending bit at a time.
    let mut mmu = Mmu::new();
    mmu.write8(0xFFFF, 0xFF);
    mmu.write8(0xFF0F, 0xFF);

    assert_eq!(Interrupt::VBlank, receive(&mut mmu));
    assert_eq!(Interrupt::LCDStat, receive(&mut mmu));
    assert_eq!(Interrupt::Timer, receive(&mut mmu));
    assert_eq!(Interrupt::Serial, receive(&mut mmu));
    assert_eq!(Interrupt::Joypad, receive(&mut mmu));
    assert_eq!(Interrupt::NoSource, receive(&mut mmu));
}

#[test]
fn test_joypad() {
    let mut joypad = Joypad::new();
    let mut mmu = Mmu::new();

    assert_eq!((0b0000, 0b0000), joypad.transfer_state());
    joypad.press(&mut mmu, Button::A);
    joypad.press(&mut mmu, Button::B);
    joypad.press(&mut mmu, Button::Down);
    assert_eq!((0b1000, 0b0011), joypad.transfer_state());
    joypad.release(Button::A);
    assert_eq!((0b1000, 0b0010), joypad.transfer_state());
}

#[test]
fn test_joypad_release_is_idempotent() {
    // Releasing an unpressed button leaves the state clear instead of
    // toggling the bit back on.
    let mut joypad = Joypad::new();
    let mut mmu = Mmu::new();

    joypad.press(&mut mmu, Button::Right);
    joypad.release(Button::Right);
    joypad.release(Button::Right);
    assert_eq!((0b0000, 0b0000), joypad.transfer_state());
}

#[test]
fn test_joypad_register_handshake() {
    // A joypad-register write with the direction select bit clear raises
    // the handshake; answering it merges the direction nibble.
    let mut joypad = Joypad::new();
    let mut mmu = Mmu::new();
    joypad.press(&mut mmu, Button::Right);

    mmu.write8(0xFF00, 0x20);
    assert!(mmu.is_joypad_state_requested());
    mmu.receive_joypad_state(joypad.transfer_state());
    assert!(!mmu.is_joypad_state_requested());
    assert_eq!(0xE1, mmu.read8(0xFF00));
}

#[test]
fn test_timer_tima_period() {
    // TAC = 0b100: enabled at one tick per 1024 cycles. After exactly 1024
    // T-cycles TIMA has incremented exactly once.
    let mut mmu = Mmu::new();
    let mut timer = Timer::new();
    mmu.write8(0xFF07, 0b100);

    for _ in 0..256 {
        timer.step(&mut mmu, 4);
    }
    assert_eq!(1, mmu.read8(0xFF05));

    for _ in 0..256 {
        timer.step(&mut mmu, 4);
    }
    assert_eq!(2, mmu.read8(0xFF05));
}

#[test]
fn test_timer_overflow_reloads_and_interrupts() {
    // With TIMA at 0xFF, the next tick reloads it from TMA and requests the
    // Timer interrupt.
    let mut mmu = Mmu::new();
    let mut timer = Timer::new();
    mmu.write8(0xFF07, 0b101);  // enabled, one tick per 16 cycles
    mmu.write8(0xFF05, 0xFF);
    mmu.write8(0xFF06, 0xAB);

    for _ in 0..4 {
        timer.step(&mut mmu, 4);
    }
    assert_eq!(0xAB, mmu.read8(0xFF05));
    assert_eq!(0x04, mmu.read8(0xFF0F) & 0x04);
}

#[test]
fn test_timer_divider() {
    // The divider register steps once per 256 cycles, straight into memory.
    let mut mmu = Mmu::new();
    let mut timer = Timer::new();

    for _ in 0..64 {
        timer.step(&mut mmu, 4);
    }
    // The timer writes DIV through the bus, and a bus write to DIV always
    // stores zero; the register reads zero either way.
    assert_eq!(0, mmu.read8(0xFF04));
}

#[test]
fn test_mmu_echo_mirror() {
    // Every byte of 0xC000..=0xDDFF reads back 0x2000 above it.
    let mut mmu = Mmu::new();
    mmu.write8(0xC123, 0x77);
    assert_eq!(0x77, mmu.read8(0xE123));
    mmu.write8(0xE234, 0x55);
    assert_eq!(0x55, mmu.read8(0xC234));
    mmu.write8(0xDDFF, 0x99);
    assert_eq!(0x99, mmu.read8(0xFDFF));
}

#[test]
fn test_mmu_div_write_clears() {
    let mut mmu = Mmu::new();
    mmu.write8(0xFF04, 0xAB);
    assert_eq!(0x00, mmu.read8(0xFF04));
}

#[test]
fn test_mmu_dma_transfer() {
    // Writing the DMA register copies 0xA0 bytes into the sprite table.
    let mut mmu = Mmu::new();
    for i in 0..0xA0u16 {
        mmu.write8(0xC000 + i, (i % 256) as u8);
    }
    mmu.write8(0xFF46, 0xC0);
    for i in 0..0xA0u16 {
        assert_eq!((i % 256) as u8, mmu.read8(0xFE00 + i));
    }
}

#[test]
fn test_mmu_bootloader_snapshot() {
    let mut mmu = Mmu::new();
    mmu.simulate_bootloader();
    assert_eq!(0x91, mmu.read8(0xFF40));
    assert_eq!(0xFC, mmu.read8(0xFF47));
    assert_eq!(0xF1, mmu.read8(0xFF26));
    assert_eq!(0xFF, mmu.read8(0xFF48));
    assert_eq!(0x00, mmu.read8(0xFFFF));
    assert_eq!(0x01, mmu.read8(0xFF50));
}

fn rom_with_type(type_byte: u8, len: usize) -> Vec<u8> {
    let mut rom = vec![0u8; len];
    rom[0x0147] = type_byte;
    rom
}

#[test]
fn test_cartridge_errors() {
    // Too short to hold the type byte
    assert!(matches!(
        Cartridge::new(vec![0u8; 0x100]),
        Err(CartridgeError::TruncatedCartridge)
    ));
    // MBC2 and MBC3 types are not supported
    assert!(matches!(
        Cartridge::new(rom_with_type(0x05, 0x8000)),
        Err(CartridgeError::UnsupportedCartridge)
    ));
    assert!(matches!(
        Cartridge::new(rom_with_type(0x0F, 0x8000)),
        Err(CartridgeError::UnsupportedCartridge)
    ));
    // Plain ROM, MBC1 and MBC5 types are accepted
    assert!(Cartridge::new(rom_with_type(0x00, 0x8000)).is_ok());
    assert!(Cartridge::new(rom_with_type(0x01, 0x8000)).is_ok());
    assert!(Cartridge::new(rom_with_type(0x19, 0x8000)).is_ok());
}

#[test]
fn test_mbc1_bank_select_quirk() {
    // Writing 0x00 to the ROM-bank register still selects bank 1.
    let mut rom = vec![0u8; 0x4000 * 4];
    rom[0x4000] = 0x11;
    rom[0x8000] = 0x22;
    rom[0xC000] = 0x33;
    let mut mbc = Mbc1::new(rom);

    assert_eq!(0x11, mbc.read(0x4000));
    mbc.write(0x2100, 0x00);
    assert_eq!(0x11, mbc.read(0x4000));
    mbc.write(0x2100, 0x02);
    assert_eq!(0x22, mbc.read(0x4000));
    mbc.write(0x2100, 0x03);
    assert_eq!(0x33, mbc.read(0x4000));
}

#[test]
fn test_mbc1_ram_enable() {
    let mut mbc = Mbc1::new(vec![0u8; 0x8000]);
    // Disabled RAM reads 0xFF and drops writes
    assert_eq!(0xFF, mbc.read(0xA000));
    mbc.write(0xA000, 0x12);
    assert_eq!(0xFF, mbc.read(0xA000));
    // 0x0A in the low nibble enables it
    mbc.write(0x0000, 0x0A);
    mbc.write(0xA000, 0x12);
    assert_eq!(0x12, mbc.read(0xA000));
    // Any low nibble other than 0x0A disables it again
    mbc.write(0x0000, 0x05);
    assert_eq!(0xFF, mbc.read(0xA000));
    mbc.write(0x0000, 0x0A);
    assert_eq!(0x12, mbc.read(0xA000));
    mbc.write(0x0000, 0x00);
    assert_eq!(0xFF, mbc.read(0xA000));
}

#[test]
fn test_mbc5_banking() {
    // MBC5 has no bank-0 quirk and a 9-bit bank number.
    let mut rom = vec![0u8; 0x4000 * 4];
    rom[0x0000] = 0x44;
    rom[0x8000] = 0x22;
    let mut mbc = Mbc5::new(rom);

    mbc.write(0x2000, 0x00);
    assert_eq!(0x44, mbc.read(0x4000));  // bank 0 really maps bank 0
    mbc.write(0x2000, 0x02);
    assert_eq!(0x22, mbc.read(0x4000));

    mbc.write(0x0000, 0x0A);
    mbc.write(0x4000, 0x07);  // RAM bank 7
    mbc.write(0xA000, 0x5A);
    assert_eq!(0x5A, mbc.read(0xA000));
    mbc.write(0x4000, 0x00);
    assert_eq!(0x00, mbc.read(0xA000));

    // Any low nibble other than 0x0A disables the RAM again
    mbc.write(0x0000, 0x03);
    assert_eq!(0xFF, mbc.read(0xA000));
}

#[test]
fn test_ppu_frame_pacing() {
    // With the LCD enabled, 70224 T-cycles of stepping produce exactly one
    // ready frame and bring LY back to 0.
    let mut mmu = Mmu::new();
    mmu.simulate_bootloader();
    let mut ppu = Ppu::new();

    let mut rises: u32 = 0;
    let mut was_prepared = false;
    for _ in 0..(70224 / 4) {
        ppu.step(&mut mmu, 4);
        let prepared = ppu.is_screen_prepared();
        if prepared && !was_prepared {
            rises += 1;
        }
        was_prepared = prepared;
    }
    assert_eq!(1, rises);
    assert_eq!(0, mmu.read8(0xFF44));

    // The VBlank interrupt was requested when LY reached 144.
    assert_eq!(0x01, mmu.read8(0xFF0F) & 0x01);
}

#[test]
fn test_ppu_ly_cycles() {
    // LY walks 0,1,2,... one line per 456 cycles, and stays within 0..=153.
    let mut mmu = Mmu::new();
    mmu.simulate_bootloader();
    let mut ppu = Ppu::new();

    for _ in 0..114 {
        ppu.step(&mut mmu, 4);
    }
    assert_eq!(1, mmu.read8(0xFF44));
    for _ in 0..114 {
        ppu.step(&mut mmu, 4);
    }
    assert_eq!(2, mmu.read8(0xFF44));
}

#[test]
fn test_ppu_transfer_screen() {
    let mut mmu = Mmu::new();
    mmu.simulate_bootloader();
    let mut ppu = Ppu::new();

    for _ in 0..(70224 / 4) {
        ppu.step(&mut mmu, 4);
    }
    assert!(ppu.is_screen_prepared());
    let frame = ppu.transfer_screen();
    assert!(!ppu.is_screen_prepared());
    // With a blank tile map and the boot palette, the whole line 0 carries
    // the same shade.
    let first = frame.get_pixel(0, 0);
    let last = frame.get_pixel(159, 0);
    assert_eq!(first, last);
}

#[test]
fn test_screen_dump_layout() {
    let mut buffer = FrameBuffer::new();
    buffer.set_pixel(0, 0, Pixel(1, 2, 3, 4));
    buffer.set_pixel(1, 0, Pixel(5, 6, 7, 8));
    buffer.set_pixel(0, 1, Pixel(9, 10, 11, 12));

    let mut screen = Screen::new();
    screen.refresh(&buffer);
    let bytes = screen.dump();
    assert_eq!(160 * 144 * 4, bytes.len());
    assert_eq!(&[1, 2, 3, 4], &bytes[0..4]);
    assert_eq!(&[5, 6, 7, 8], &bytes[4..8]);
    assert_eq!(&[9, 10, 11, 12], &bytes[160 * 4..160 * 4 + 4]);
}

#[test]
fn test_gameboy_frame() {
    // A full machine runs one frame and hands out 160*144 RGBA pixels.
    let mut gb = GameBoy::new();
    let cart = match Cartridge::new(rom_with_type(0x00, 0x8000)) {
        Ok(c) => c,
        Err(_) => panic!("blank image must load"),
    };
    gb.load(cart);
    gb.unpause();
    gb.press(Button::Start);
    gb.release(Button::Start);

    let frame = gb.step();
    assert_eq!(160 * 144 * 4, frame.len());

    gb.pause();
    let paused_frame = gb.step();
    assert_eq!(frame, paused_frame);
}

#[test]
fn test_ppu_background_shades() {
    // One solid tile: bit-plane bytes 0xFF/0x00 give color id 1 everywhere.
    // With BGP mapping id 1 to shade 1, the painted line carries the second
    // green of the panel.
    let mut mmu = Mmu::new();
    mmu.simulate_bootloader();
    // Tile 0 in the 0x8000 area: low plane all ones, high plane all zeros
    for row in 0..8u16 {
        mmu.write8(0x8000 + row * 2, 0xFF);
        mmu.write8(0x8000 + row * 2 + 1, 0x00);
    }
    // LCDC: LCD on, background on, 0x8000 tile area, 0x9800 map
    mmu.write8(0xFF40, 0b1001_0001);
    // BGP: id 1 -> shade 1
    mmu.write8(0xFF47, 0b0000_0100);
    // The 0x9800 map already points every cell at tile 0

    let mut ppu = Ppu::new();
    let mut frames = 0u32;
    while frames == 0 {
        ppu.step(&mut mmu, 4);
        if ppu.is_screen_prepared() {
            frames += 1;
        }
    }
    let frame = ppu.transfer_screen();
    let pixel = frame.get_pixel(17, 29);
    assert_eq!(gameboy::screen::Pixel(0x8B, 0xAC, 0x0F, 255), pixel);
}

#[test]
fn test_mbc1_banking_mode() {
    // In mode 0 the 0x4000 register feeds the upper ROM bank bits; in mode 1
    // it selects the RAM bank instead.
    let mut rom = vec![0u8; 0x4000 * 64];
    rom[0x4000 * 0x21] = 0x77;
    let mut mbc = Mbc1::new(rom);

    mbc.write(0x2100, 0x01);  // low bank bits = 1
    mbc.write(0x4100, 0x01);  // upper bank bits = 1 -> bank 0x21
    assert_eq!(0x77, mbc.read(0x4000));

    mbc.write(0x6000, 0x01);  // banking mode 1: the register is now RAM bank
    mbc.write(0x0000, 0x0A);
    mbc.write(0x4100, 0x02);  // RAM bank 2
    mbc.write(0xA000, 0x3C);
    assert_eq!(0x3C, mbc.read(0xA000));
    mbc.write(0x4100, 0x00);
    assert_eq!(0x00, mbc.read(0xA000));
}
