//! An instruction-accurate emulator for the classic 8-bit handheld game
//! console: a Sharp LR35902 CPU with the full opcode table, a memory bus with
//! bank-switched cartridges, a scanline pixel processing unit, a hardware
//! timer, an interrupt controller and an 8-button joypad, all verified against
//! contracts that state the documented behaviour of each part.

pub mod bus;
pub mod cartridge;
pub mod cpu;
pub mod interrupt;
pub mod joypad;
pub mod mmu;
pub mod ppu;
pub mod ram;
pub mod screen;
pub mod timer;

use vstd::prelude::*;

use crate::bus::Bus;
use crate::cartridge::Cartridge;
use crate::cpu::Cpu;
use crate::cpu::cpu_step_rel;
use crate::cpu::post_boot_state;
use crate::cpu::state::State;
use crate::interrupt::IF_REG_ADDR;
use crate::interrupt::Interrupt;
use crate::interrupt::int_mask;
use crate::joypad::Button;
use crate::joypad::Joypad;
use crate::joypad::button_bit;
use crate::joypad::is_direction;
use crate::mmu::Mmu;
use crate::mmu::MmuView;
use crate::mmu::boot_io_byte;
use crate::mmu::joypad_answer;
use crate::ppu::Ppu;
use crate::ppu::blank_frame;
use crate::ppu::ppu_step_rel;
use crate::ram::filled;
use crate::ram::ram_view8;
use crate::screen::Pixel;
use crate::screen::Screen;
use crate::timer::Timer;
use crate::timer::timer_step_rel;

verus! {

/// How many machine steps one frame may take before `step` gives up and
/// returns the frame it has: a frame is 70224 T-cycles and every step burns
/// at least one, so this is far more than two frames' worth.
pub const FRAME_STEP_BUDGET: u32 = 1000000;

/// The mathematical state of the whole machine.
pub ghost struct GbView {
    pub cpu: State,
    pub mmu: MmuView,
    /// The ((divider threshold, position), (TIMA threshold, position)) pair.
    pub timer: ((u16, u16), (u16, u16)),
    pub ppu_clock: u16,
    pub ppu_line_drawn: bool,
    /// Whether the PPU holds a finished frame not yet collected.
    pub frame_ready: bool,
    /// The frame the PPU last promoted.
    pub ppu_frame: Seq<Pixel>,
    /// The frame the PPU is painting.
    pub ppu_buffer: Seq<Pixel>,
    /// The stable screen the host reads.
    pub screen: Seq<Pixel>,
    /// The joypad's (direction, action) nibbles.
    pub joypad: (u8, u8),
    pub paused: bool,
}

/// One iteration of the frame loop: the CPU steps once for some cycle
/// count, the PPU and the timer advance by the same count, and a raised
/// joypad handshake is answered with the joypad's nibbles. The screen, the
/// joypad and the pause flag do not move. Everything the iteration may do
/// is what the component contracts allow.
pub open spec fn machine_step_rel(pre: GbView, post: GbView) -> bool {
    exists|cycle: u8, m1: MmuView, m2: MmuView, m3: MmuView|
        #![trigger cpu_step_rel::<Mmu>(pre.cpu, pre.mmu, cycle, post.cpu, m1), timer_step_rel::<
            Mmu,
        >(m2, pre.timer, cycle, m3, post.timer)]
        {
            &&& cpu_step_rel::<Mmu>(pre.cpu, pre.mmu, cycle, post.cpu, m1)
            &&& ppu_step_rel::<Mmu>(
                m1,
                pre.ppu_clock,
                pre.ppu_line_drawn,
                pre.frame_ready,
                pre.ppu_frame,
                pre.ppu_buffer,
                cycle,
                m2,
                post.ppu_clock,
                post.ppu_line_drawn,
                post.frame_ready,
                post.ppu_frame,
                post.ppu_buffer,
            )
            &&& timer_step_rel::<Mmu>(m2, pre.timer, cycle, m3, post.timer)
            &&& post.mmu == (if m3.joypad_requested {
                joypad_answer(m3, pre.joypad)
            } else {
                m3
            })
            &&& post.screen == pre.screen
            &&& post.joypad == pre.joypad
            &&& post.paused == pre.paused
        }
}

/// The machine after `n` iterations of the frame loop.
pub open spec fn machine_runs(pre: GbView, post: GbView, n: nat) -> bool
    decreases n,
{
    if n == 0 {
        post == pre
    } else {
        exists|mid: GbView|
            machine_runs(pre, mid, (n - 1) as nat) && #[trigger] machine_step_rel(mid, post)
    }
}

/// The whole machine, stepped one frame at a time.
pub struct GameBoy {
    cpu: Cpu,
    ppu: Ppu,
    mmu: Mmu,
    timer: Timer,
    screen: Screen,
    joypad: Joypad,
    paused: bool,
}

impl GameBoy {
    /// The machine's mathematical state.
    pub closed spec fn view(&self) -> GbView {
        GbView {
            cpu: self.cpu.state,
            mmu: self.mmu.model(),
            timer: self.timer@,
            ppu_clock: self.ppu.clock(),
            ppu_line_drawn: self.ppu.line_drawn(),
            frame_ready: self.ppu.screen_prepared(),
            ppu_frame: self.ppu.screen(),
            ppu_buffer: self.ppu.buffer(),
            screen: self.screen@,
            joypad: self.joypad@,
            paused: self.paused,
        }
    }

    /// What every frame keeps intact: the CPU flag nibble, the timer
    /// counters, the PPU line clock and the screen dimensions.
    pub closed spec fn wf(&self) -> bool {
        &&& self.cpu.wf()
        &&& self.timer.wf()
        &&& self.ppu.clock() < 456
        &&& self.screen@.len() == 23040
    }

    /// A fresh machine: everything cleared, a blank no-banking cartridge
    /// bound, and paused.
    pub fn new() -> (r: GameBoy)
        ensures
            r.wf(),
            r@ == (GbView {
                cpu: State::initial(),
                mmu: MmuView {
                    cart: crate::cartridge::fresh_cart(filled(0, 0x8000)),
                    mem: filled(0, 0x10000),
                    joypad_requested: false,
                },
                timer: ((256u16, 0u16), (1024u16, 0u16)),
                ppu_clock: 0,
                ppu_line_drawn: false,
                frame_ready: false,
                ppu_frame: blank_frame(),
                ppu_buffer: blank_frame(),
                screen: blank_frame(),
                joypad: (0u8, 0u8),
                paused: true,
            }),
    {
        let screen = Screen::new();
        proof {
            assert(screen@ =~= blank_frame());
        }
        GameBoy {
            cpu: Cpu::new(),
            ppu: Ppu::new(),
            mmu: Mmu::new(),
            timer: Timer::new(),
            screen,
            joypad: Joypad::new(),
            paused: true,
        }
    }

    /// Binds a cartridge and takes the machine to its post-boot state: the
    /// CPU registers as the boot ROM leaves them, the I/O registers at
    /// their boot values, a fresh PPU, timer and joypad. The screen and the
    /// pause flag stay.
    pub fn load(&mut self, cart: Cartridge)
        requires
            old(self).wf(),
        ensures
            final(self).wf(),
            ({
                let v = final(self)@;
                &&& v.cpu == post_boot_state()
                &&& v.mmu.cart == cart@
                &&& v.mmu.mem.len() == 0x10000
                &&& forall|a: u16| ram_view8(v.mmu.mem, a) == boot_io_byte(a)
                &&& v.mmu.joypad_requested == old(self)@.mmu.joypad_requested
                &&& v.timer == ((256u16, 0u16), (1024u16, 0u16))
                &&& v.ppu_clock == 0
                &&& !v.ppu_line_drawn
                &&& !v.frame_ready
                &&& v.ppu_frame == blank_frame()
                &&& v.ppu_buffer == blank_frame()
                &&& v.screen == old(self)@.screen
                &&& v.joypad == (0u8, 0u8)
                &&& v.paused == old(self)@.paused
            }),
    {
        self.cpu.simulate_bootloader();
        self.ppu = Ppu::new();
        self.mmu.simulate_bootloader();
        self.mmu.load_cartridge(cart);
        self.timer = Timer::new();
        self.joypad = Joypad::new();
    }

    /// Runs the machine until the PPU finishes the frame in flight, then
    /// returns the 160x144x4 RGBA bytes of the stable screen, row-major
    /// from the top-left corner. While paused the machine is untouched and
    /// the current screen is returned. Unpaused, the final machine is the
    /// result of one or more frame-loop iterations, each bound by the CPU,
    /// PPU, timer and joypad-handshake contracts, and the promoted frame,
    /// if one arrived, has been collected onto the screen.
    pub fn step(&mut self) -> (r: Vec<u8>)
        requires
            old(self).wf(),
        ensures
            final(self).wf(),
            r@.len() == 4 * 23040,
            final(self)@.screen.len() == 23040,
            forall|i: int|
                0 <= i < 23040 ==> {
                    &&& r@[4 * i] == final(self)@.screen[i].0
                    &&& r@[4 * i + 1] == final(self)@.screen[i].1
                    &&& r@[4 * i + 2] == final(self)@.screen[i].2
                    &&& r@[4 * i + 3] == final(self)@.screen[i].3
                },
            old(self)@.paused ==> *final(self) == *old(self),
            !old(self)@.paused ==> {
                &&& !final(self)@.frame_ready
                &&& (final(self)@.screen == old(self)@.screen || final(self)@.screen == final(self)@.ppu_frame)
                &&& final(self)@.paused == old(self)@.paused
            },
            !old(self)@.paused ==> exists|n: nat, v: GbView|
                {
                    &&& #[trigger] machine_runs(old(self)@, v, n)
                    &&& 1 <= n
                    &&& final(self)@ == (if v.frame_ready {
                        (GbView { frame_ready: false, screen: v.ppu_frame, ..v })
                    } else {
                        v
                    })
                },
    {
        if self.paused {
            return self.screen.dump();
        }

        let ghost v0 = self@;
        let ghost screen0 = self.screen@;
        let ghost mut steps: nat = 0nat;
        let mut budget: u32 = FRAME_STEP_BUDGET;
        while budget > 0
            invariant
                self.wf(),
                !self.paused,
                self.screen@ == screen0,
                machine_runs(v0, self@, steps),
                budget < FRAME_STEP_BUDGET ==> 1 <= steps,
            ensures
                self.wf(),
                !self.paused,
                self.screen@ == screen0,
                machine_runs(v0, self@, steps),
                1 <= steps,
            decreases budget,
        {
            budget = budget - 1;
            let ghost prev = self@;

            let cycle = self.cpu.step(&mut self.mmu);
            let ghost m1 = self.mmu.model();
            self.ppu.step(&mut self.mmu, cycle);
            let ghost m2 = self.mmu.model();
            self.timer.step(&mut self.mmu, cycle);
            let ghost m3 = self.mmu.model();

            if self.mmu.is_joypad_state_requested() {
                self.mmu.receive_joypad_state(self.joypad.transfer_state());
            }
            proof {
                assert(cpu_step_rel::<Mmu>(prev.cpu, prev.mmu, cycle, self@.cpu, m1));
                assert(timer_step_rel::<Mmu>(m2, prev.timer, cycle, m3, self@.timer));
                assert(machine_step_rel(prev, self@));
                assert(machine_runs(v0, self@, steps + 1));
                steps = steps + 1;
            }
            if self.ppu.is_screen_prepared() {
                break;
            }
        }

        let ghost v = self@;
        if self.ppu.is_screen_prepared() {
            let frame = self.ppu.transfer_screen();
            proof {
                use_type_invariant(&frame);
            }
            self.screen.refresh(&frame);
        }
        proof {
            assert(machine_runs(old(self)@, v, steps));
        }
        self.screen.dump()
    }

    /// Holds the machine; `step` then replays the last frame. Idempotent,
    /// and nothing else moves.
    pub fn pause(&mut self)
        requires
            old(self).wf(),
        ensures
            final(self).wf(),
            final(self)@ == (GbView { paused: true, ..old(self)@ }),
    {
        self.paused = true;
    }

    /// Lets the machine run again. Idempotent, and nothing else moves.
    pub fn unpause(&mut self)
        requires
            old(self).wf(),
        ensures
            final(self).wf(),
            final(self)@ == (GbView { paused: false, ..old(self)@ }),
    {
        self.paused = false;
    }

    /// Presses a button: its bit is set in its joypad nibble and the Joypad
    /// interrupt is requested on the bus. Nothing else moves.
    pub fn press(&mut self, button: Button)
        requires
            old(self).wf(),
        ensures
            final(self).wf(),
            final(self)@ == (GbView {
                joypad: if is_direction(button) {
                    (old(self)@.joypad.0 | button_bit(button), old(self)@.joypad.1)
                } else {
                    (old(self)@.joypad.0, old(self)@.joypad.1 | button_bit(button))
                },
                mmu: <Mmu as Bus>::upd8(
                    old(self)@.mmu,
                    IF_REG_ADDR,
                    <Mmu as Bus>::view8(old(self)@.mmu, IF_REG_ADDR) | int_mask(Interrupt::Joypad),
                ),
                ..old(self)@
            }),
    {
        self.joypad.press(&mut self.mmu, button);
    }

    /// Releases a button: its bit is cleared. Nothing else moves.
    pub fn release(&mut self, button: Button)
        requires
            old(self).wf(),
        ensures
            final(self).wf(),
            final(self)@ == (GbView {
                joypad: if is_direction(button) {
                    (old(self)@.joypad.0 & !button_bit(button), old(self)@.joypad.1)
                } else {
                    (old(self)@.joypad.0, old(self)@.joypad.1 & !button_bit(button))
                },
                ..old(self)@
            }),
    {
        self.joypad.release(button);
    }
}

} // verus!
