//! The pixel processing unit: the LCD STAT state machine, the per-line
//! compositor and the frame pacing.
//!
//! A frame is 154 lines of 456 T-cycles each. Lines 0..143 are visible;
//! within one the STAT mode runs OAMRead for the first 80 cycles, VRAMRead
//! (where the line is painted, exactly once) up to cycle 251, then HBlank.
//! Lines 144..153 are the vertical blank. When the line counter passes 153
//! the back buffer is promoted and `screen_prepared` is raised.

pub mod register;
pub mod renderer;

use vstd::prelude::*;

use crate::bus::Bus;
use crate::interrupt;
use crate::interrupt::Interrupt;
use crate::interrupt::IF_REG_ADDR;
use crate::interrupt::int_mask;
use crate::ppu::register::LCDStatus;
use crate::ppu::register::Register;
use crate::ppu::register::mode_bits;
use crate::ppu::register::mode_of_bits;
use crate::ppu::renderer::Renderer;
use crate::ppu::renderer::base_fb;
use crate::ppu::renderer::base_ids;
use crate::ppu::renderer::sprites_pass;
use crate::screen::FrameBuffer;
use crate::screen::Pixel;

verus! {

/// One line of the LCD takes 456 T-cycles.
pub const ONE_CYCLE: u16 = 456;

#[derive(Debug, Copy, Clone, PartialEq, Eq, Structural)]
pub enum Mode {
    HBlank,  // Mode 0
    VBlank,  // Mode 1
    OAMRead,  // Mode 2
    VRAMRead,  // Mode 3
}

/// The STAT mode that belongs to a line and a position within it.
pub open spec fn mode_for(line: u8, clock: u16) -> Mode {
    if line >= 144 {
        Mode::VBlank
    } else if clock < 80 {
        Mode::OAMRead
    } else if clock < 252 {
        Mode::VRAMRead
    } else {
        Mode::HBlank
    }
}

/// A bus model with one interrupt source's bit ORed into IF.
pub open spec fn request_spec<B: Bus>(m: B::Model, source: Interrupt) -> B::Model {
    B::upd8(m, IF_REG_ADDR, B::view8(m, IF_REG_ADDR) | int_mask(source))
}

/// Whether the status pass of one step requests the LCDStat interrupt for a
/// mode transition: the new mode's enable bit is set in STAT and the mode
/// actually changed.
pub open spec fn mode_int_fires(stat: u8, line: u8, clock: u16) -> bool {
    let new_mode = mode_for(line, clock);
    &&& match new_mode {
        Mode::VBlank => stat & 0x10 != 0,
        Mode::OAMRead => stat & 0x20 != 0,
        Mode::VRAMRead => false,
        Mode::HBlank => stat & 0x08 != 0,
    }
    &&& new_mode != mode_of_bits(stat)
}

/// The STAT byte the status pass writes back: the mode field replaced, the
/// coincidence bit set exactly when LY equals LYC.
pub open spec fn stat_after(stat: u8, line: u8, clock: u16, coincide: bool) -> u8 {
    let with_mode = (stat / 4 * 4 + mode_bits(mode_for(line, clock))) as u8;
    if coincide {
        (with_mode & 0xFB) | 4u8
    } else {
        with_mode & 0xFB
    }
}

/// The bus after the status pass of one step: a possible LCDStat request
/// for the mode transition, a possible LCDStat request for an LY=LYC
/// coincidence, then the STAT write. The painting itself only reads the bus.
pub open spec fn status_update_spec<B: Bus>(m: B::Model, clock: u16) -> B::Model {
    let stat = B::view8(m, 0xFF41);
    let line = B::view8(m, 0xFF44);
    let m1 = if mode_int_fires(stat, line, clock) {
        request_spec::<B>(m, Interrupt::LCDStat)
    } else {
        m
    };
    let coincide = line == B::view8(m1, 0xFF45);
    let m2 = if coincide && stat & 0x40 != 0 {
        request_spec::<B>(m1, Interrupt::LCDStat)
    } else {
        m1
    };
    B::upd8(m2, 0xFF41, stat_after(stat, line, clock, coincide))
}

/// Whether the status pass of one step paints the line: the line is visible,
/// the clock sits in the VRAM-read window and the line is not painted yet.
pub open spec fn paints_line(m_line: u8, clock: u16, line_drawn: bool) -> bool {
    m_line < 144 && 80 <= clock < 252 && !line_drawn
}

/// The back buffer after the status pass of one step: when the line is
/// painted, the background/window base of the current line composited with
/// the sprite pass (when sprites are on); otherwise untouched.
pub open spec fn painted_buffer<B: Bus>(
    m: B::Model,
    buf: Seq<Pixel>,
    clock: u16,
    line_drawn: bool,
) -> Seq<Pixel> {
    let line = B::view8(m, 0xFF44);
    if paints_line(line, clock, line_drawn) {
        if B::view8(m, 0xFF40) & 0x02 != 0 {
            sprites_pass::<B>(m, base_fb::<B>(m, buf, line), base_ids::<B>(m, line), line, 40)
        } else {
            base_fb::<B>(m, buf, line)
        }
    } else {
        buf
    }
}

/// A frame of transparent black, as a fresh buffer holds.
pub open spec fn blank_frame() -> Seq<Pixel> {
    Seq::new(23040, |i: int| Pixel(0, 0, 0, 0))
}

/// Everything one `Ppu::step` call guarantees, as a relation between the
/// bus model and the PPU's clock, painted flag, ready flag, promoted frame
/// and back buffer before and after: the STAT pass, the painting, the line
/// clock, the LY walk and the frame promotion.
pub open spec fn ppu_step_rel<B: Bus>(
    mpre: B::Model,
    clock_pre: u16,
    drawn_pre: bool,
    ready_pre: bool,
    frame_pre: Seq<Pixel>,
    buf_pre: Seq<Pixel>,
    cycle: u8,
    mpost: B::Model,
    clock_post: u16,
    drawn_post: bool,
    ready_post: bool,
    frame_post: Seq<Pixel>,
    buf_post: Seq<Pixel>,
) -> bool {
    &&& clock_post < 456
    &&& ({
        let m0 = mpre;
        let line0 = B::view8(m0, 0xFF44);
        let m1 = status_update_spec::<B>(m0, clock_pre);
        let drawn1 = drawn_pre || paints_line(
            line0,
            clock_pre,
            drawn_pre,
        );
        let t = clock_pre + cycle;
        if t < 456 {
            &&& mpost == m1
            &&& clock_post == t
            &&& drawn_post == drawn1
            &&& ready_post == ready_pre
            &&& frame_post == frame_pre
            &&& buf_post == painted_buffer::<B>(
                m0,
                buf_pre,
                clock_pre,
                drawn_pre,
            )
        } else {
            ({
                let next = ((B::view8(m1, 0xFF44) + 1) % 256) as u8;
                let m2 = if next == 144 {
                    request_spec::<B>(m1, Interrupt::VBlank)
                } else {
                    m1
                };
                let wrapped = next > 153;
                &&& mpost == B::upd8(
                    m2,
                    0xFF44,
                    if wrapped {
                        0u8
                    } else {
                        next
                    },
                )
                &&& clock_post == t - 456
                &&& !drawn_post
                &&& ready_post == (ready_pre
                    || wrapped)
                &&& buf_post == painted_buffer::<B>(
                    m0,
                    buf_pre,
                    clock_pre,
                    drawn_pre,
                )
                &&& (wrapped ==> frame_post == buf_post)
                &&& (!wrapped ==> frame_post == frame_pre)
            })
        }
    })
}

pub struct Ppu {
    state: State,
    screen: FrameBuffer,
    screen_buffer: FrameBuffer,
}

impl Ppu {
    /// The T-cycle position within the current line.
    pub closed spec fn clock(&self) -> u16 {
        self.state.clock
    }

    /// Whether the current visible line has been painted.
    pub closed spec fn line_drawn(&self) -> bool {
        self.state.line_drawn
    }

    /// Whether a finished frame waits to be collected.
    pub closed spec fn screen_prepared(&self) -> bool {
        self.state.screen_prepared
    }

    /// The promoted frame.
    pub closed spec fn screen(&self) -> Seq<Pixel> {
        self.screen@
    }

    /// The frame being painted.
    pub closed spec fn buffer(&self) -> Seq<Pixel> {
        self.screen_buffer@
    }

    pub fn new() -> (r: Ppu)
        ensures
            r.clock() == 0,
            !r.line_drawn(),
            !r.screen_prepared(),
            r.screen() == blank_frame(),
            r.buffer() == blank_frame(),
    {
        let screen = FrameBuffer::new();
        let screen_buffer = FrameBuffer::new();
        proof {
            assert(screen@ =~= blank_frame());
            assert(screen_buffer@ =~= blank_frame());
        }
        Ppu { state: State::new(), screen, screen_buffer }
    }

    /// Advances the LCD by the cycles one instruction took: the STAT mode
    /// and interrupts are brought up to date (painting the line once while
    /// crossing its VRAM-read window), the line clock advances, and on
    /// crossing 456 cycles the line counter steps, requesting VBlank at
    /// line 144 and promoting the finished frame past line 153.
    pub fn step<B: Bus>(&mut self, bus: &mut B, cycle: u8)
        requires
            old(self).clock() < 456,
        ensures
            ppu_step_rel::<B>(
                old(bus).model(),
                old(self).clock(),
                old(self).line_drawn(),
                old(self).screen_prepared(),
                old(self).screen(),
                old(self).buffer(),
                cycle,
                final(bus).model(),
                final(self).clock(),
                final(self).line_drawn(),
                final(self).screen_prepared(),
                final(self).screen(),
                final(self).buffer(),
            ),
    {
        self.update_lcd_status(bus);

        self.state.clock = self.state.clock + cycle as u16;
        if self.state.clock < ONE_CYCLE {
            return ;
        }
        self.state.clock = self.state.clock - ONE_CYCLE;

        let mut next_line = Register::LY.read(bus).wrapping_add(1);
        if next_line == 144 {
            interrupt::request(bus, Interrupt::VBlank);
        } else if next_line > 153 {
            self.screen = self.screen_buffer.duplicate();
            self.state.screen_prepared = true;

            next_line = 0;
        }
        Register::LY.write(bus, next_line);

        self.state.line_drawn = false;
    }

    /// Brings STAT up to date for the current line and clock, requests the
    /// enabled STAT interrupts, and paints the line once while its VRAM-read
    /// window is open.
    #[verifier::rlimit(100)]
    #[verifier::spinoff_prover]
    fn update_lcd_status<B: Bus>(&mut self, bus: &mut B)
        ensures
            final(self).clock() == old(self).clock(),
            final(self).screen_prepared() == old(self).screen_prepared(),
            final(self).screen() == old(self).screen(),
            final(self).line_drawn() == (old(self).line_drawn() || paints_line(
                B::view8(old(bus).model(), 0xFF44),
                old(self).clock(),
                old(self).line_drawn(),
            )),
            final(bus).model() == status_update_spec::<B>(old(bus).model(), old(self).clock()),
            final(self).buffer().len() == old(self).buffer().len(),
            forall|i: int|
                0 <= i < old(self).buffer().len() && !(B::view8(old(bus).model(), 0xFF44) * 160
                    <= i < B::view8(old(bus).model(), 0xFF44) * 160 + 160) ==> final(self).buffer()[i] == old(self).buffer()[i],
            final(self).buffer() == painted_buffer::<B>(
                old(bus).model(),
                old(self).buffer(),
                old(self).clock(),
                old(self).line_drawn(),
            ),
    {
        proof {
            crate::ppu::register::lemma_stat_bits();
        }
        let mut status = LCDStatus::new(Register::STAT.read(bus));

        let cur_line = Register::LY.read(bus);
        let cur_mode = status.mode();

        let interrupt_wanted = if cur_line >= 144 {
            status.set_mode(Mode::VBlank);
            status.vblank_interrupt_enabled()
        } else if self.state.clock < 80 {
            status.set_mode(Mode::OAMRead);
            status.oam_interrupt_enabled()
        } else if self.state.clock < 252 {
            if !self.state.line_drawn {
                let mut line_renderer = Renderer::new();
                line_renderer.render_scanline(&mut self.screen_buffer, bus);
                self.state.line_drawn = true;
            }

            status.set_mode(Mode::VRAMRead);
            false
        } else {
            status.set_mode(Mode::HBlank);
            status.hblank_interrupt_enabled()
        };

        if interrupt_wanted && !modes_equal(status.mode(), cur_mode) {
            interrupt::request(bus, Interrupt::LCDStat);
        }

        if cur_line == Register::LYC.read(bus) {
            status.set_lyc_coincidence(true);

            if status.lyc_coincidence_interrupt_enabled() {
                interrupt::request(bus, Interrupt::LCDStat);
            }
        } else {
            status.set_lyc_coincidence(false);
        }

        Register::STAT.write(bus, status.raw());
    }

    /// Whether a finished frame waits to be collected.
    pub fn is_screen_prepared(&self) -> (r: bool)
        ensures
            r == self.screen_prepared(),
    {
        self.state.screen_prepared
    }

    /// Hands out the finished frame and clears the ready flag. A frame must
    /// be ready.
    pub fn transfer_screen(&mut self) -> (r: FrameBuffer)
        requires
            old(self).screen_prepared(),
        ensures
            !final(self).screen_prepared(),
            r@ == old(self).screen(),
            final(self).screen() == old(self).screen(),
            final(self).buffer() == old(self).buffer(),
            final(self).clock() == old(self).clock(),
            final(self).line_drawn() == old(self).line_drawn(),
    {
        self.state.screen_prepared = false;
        self.screen.duplicate()
    }
}

/// Whether two STAT modes are the same.
fn modes_equal(a: Mode, b: Mode) -> (r: bool)
    ensures
        r == (a == b),
{
    match (a, b) {
        (Mode::HBlank, Mode::HBlank) => true,
        (Mode::VBlank, Mode::VBlank) => true,
        (Mode::OAMRead, Mode::OAMRead) => true,
        (Mode::VRAMRead, Mode::VRAMRead) => true,
        _ => false,
    }
}

/// One frame per 70224 T-cycles. Measure a frame's progress as
/// `LY * 456 + clock`; then by the contract of `step` the measure simply
/// accumulates the cycles fed in, the ready flag is raised exactly when it
/// crosses 70224 (and the measure wraps by exactly that much), and LY stays
/// within 0..=153.
pub proof fn lemma_frame_pacing(line: u8, clock: u16, cycle: u8)
    requires
        line <= 153,
        clock < 456,
    ensures
        ({
            let p = line * 456 + clock;
            let t = clock + cycle;
            &&& p < 70224
            &&& (t >= 456 ==> ((line == 153) <==> p + cycle >= 70224))
            &&& (t >= 456 && line < 153 ==> (line + 1) * 456 + (t - 456) == p + cycle && line + 1
                <= 153)
            &&& (t >= 456 && line == 153 ==> 0 * 456 + (t - 456) == p + cycle - 70224)
            &&& (t < 456 ==> line * 456 + t == p + cycle)
        }),
{
}

pub struct State {
    clock: u16,
    line_drawn: bool,
    screen_prepared: bool,
}

impl State {
    fn new() -> (r: State)
        ensures
            r.clock == 0,
            !r.line_drawn,
            !r.screen_prepared,
    {
        State { clock: 0, line_drawn: false, screen_prepared: false }
    }
}

} // verus!
