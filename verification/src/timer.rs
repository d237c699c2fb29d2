//! The hardware timer: a divider counter fixed at one tick per 256 T-cycles,
//! and the TIMA counter whose rate TAC selects. A TIMA overflow reloads it
//! from TMA and raises the Timer interrupt.

use vstd::prelude::*;

use crate::bus::Bus;
use crate::interrupt;
use crate::interrupt::Interrupt;
use crate::interrupt::IF_REG_ADDR;
use crate::interrupt::int_mask;

verus! {

pub const DIV_REG_ADDR: u16 = 0xFF04;

pub const TIMA_REG_ADDR: u16 = 0xFF05;

pub const TMA_REG_ADDR: u16 = 0xFF06;

pub const TAC_REG_ADDR: u16 = 0xFF07;

/// Whether TAC enables the TIMA counter.
pub open spec fn tac_enabled(tac: u8) -> bool {
    tac & 0x04 == 0x04
}

/// The cycles-per-tick threshold TAC selects.
pub open spec fn tac_freq(tac: u8) -> u16 {
    match tac % 4 {
        0u8 => 1024,
        1u8 => 16,
        2u8 => 64,
        _ => 256,
    }
}

pub struct Counter {
    freq: u16,
    cycles: u16,
}

/// A counter's (threshold, position) pair.
pub closed spec fn counter_view(c: Counter) -> (u16, u16) {
    (c.freq, c.cycles)
}

impl Counter {
    /// The position sits strictly below the threshold.
    pub open spec fn wf(&self) -> bool {
        counter_view(*self).1 < counter_view(*self).0
    }

    /// Advances the position by `n` cycles; returns whether the threshold
    /// was crossed, leaving the position reduced modulo the threshold.
    fn inc(&mut self, n: u16) -> (overflowed: bool)
        requires
            1 <= old(self).freq,
            old(self).cycles + n <= 0xFFFF,
        ensures
            final(self).wf(),
            counter_view(*final(self)) == (
                counter_view(*old(self)).0,
                ((counter_view(*old(self)).1 + n) % counter_view(*old(self)).0 as int) as u16,
            ),
            overflowed == (counter_view(*old(self)).1 + n >= counter_view(*old(self)).0),
    {
        let total = self.cycles + n;
        let overflowed = total >= self.freq;
        let mut s = total;
        let f = self.freq;
        while s >= f
            invariant
                1 <= f,
                s % f == total % f,
                s <= total,
            decreases s,
        {
            proof {
                assert((s - f) % (f as int) == (s as int) % (f as int)) by (nonlinear_arith)
                    requires
                        1 <= f,
                        f <= s,
                ;
            }
            s = s - f;
        }
        proof {
            assert((s as int) % (f as int) == s as int) by (nonlinear_arith)
                requires
                    1 <= f,
                    s < f,
            ;
        }
        self.cycles = s;
        overflowed
    }
}

/// The model after the divider tick: on an overflow the DIV register is
/// incremented in place (wrapping), else nothing.
pub open spec fn div_step<B: Bus>(m: B::Model, overflowed: bool) -> B::Model {
    if overflowed {
        B::upd8(m, DIV_REG_ADDR, B::view8(m, DIV_REG_ADDR).wrapping_add(1))
    } else {
        m
    }
}

/// The model after a TIMA tick: below 0xFF the register is incremented; at
/// 0xFF the Timer interrupt is requested and TIMA reloads from TMA.
pub open spec fn tima_step<B: Bus>(m: B::Model, overflowed: bool) -> B::Model {
    if !overflowed {
        m
    } else if B::view8(m, TIMA_REG_ADDR) == 0xFF {
        ({
            let requested = B::upd8(
                m,
                IF_REG_ADDR,
                B::view8(m, IF_REG_ADDR) | int_mask(Interrupt::Timer),
            );
            B::upd8(requested, TIMA_REG_ADDR, B::view8(requested, TMA_REG_ADDR))
        })
    } else {
        B::upd8(m, TIMA_REG_ADDR, (B::view8(m, TIMA_REG_ADDR) + 1) as u8)
    }
}

/// Everything one `Timer::step` call guarantees, as a relation between the
/// bus model and the two counters before and after: the divider tick, the
/// TAC gate and threshold, and the TIMA step, reload and interrupt.
pub open spec fn timer_step_rel<B: Bus>(
    mpre: B::Model,
    tpre: ((u16, u16), (u16, u16)),
    cycle: u8,
    mpost: B::Model,
    tpost: ((u16, u16), (u16, u16)),
) -> bool {
        let m0 = mpre;
        let div_over = tpre.0.1 + cycle >= 256;
        let m1 = div_step::<B>(m0, div_over);
        let enabled = tac_enabled(B::view8(m1, TAC_REG_ADDR));
        let f = tac_freq(B::view8(m1, TAC_REG_ADDR));
        let tima_over = tpre.1.1 + cycle >= f;
        &&& tpost.0 == (256u16, ((tpre.0.1 + cycle) % 256) as u16)
        &&& tpost.1 == if enabled {
            (f, ((tpre.1.1 + cycle) % f as int) as u16)
        } else {
            tpre.1
        }
        &&& mpost == if enabled {
            tima_step::<B>(m1, tima_over)
        } else {
            m1
        }
}

pub struct Timer {
    divider: Counter,
    timer: Counter,
}

impl Timer {
    /// The ((divider threshold, position), (TIMA threshold, position)) view.
    pub closed spec fn view(&self) -> ((u16, u16), (u16, u16)) {
        (counter_view(self.divider), counter_view(self.timer))
    }

    /// Both counters sit below their thresholds; the divider ticks every
    /// 256 cycles and the TIMA threshold is one TAC can select.
    pub open spec fn wf(&self) -> bool {
        &&& self@.0.0 == 256
        &&& self@.0.1 < 256
        &&& (self@.1.0 == 16 || self@.1.0 == 64 || self@.1.0 == 256 || self@.1.0 == 1024)
        &&& self@.1.1 < self@.1.0
    }

    pub fn new() -> (r: Timer)
        ensures
            r@ == ((256u16, 0u16), (1024u16, 0u16)),
            r.wf(),
    {
        Timer {
            divider: Counter { freq: 256, cycles: 0 },
            timer: Counter { freq: 1024, cycles: 0 },
        }
    }

    /// Advances both counters by `cycle` T-cycles. The divider register
    /// increments once per 256 cycles. When TAC enables it, the TIMA counter
    /// takes the TAC-selected threshold and on crossing it the TIMA register
    /// steps (or reloads and interrupts).
    pub fn step<B: Bus>(&mut self, bus: &mut B, cycle: u8)
        requires
            old(self).wf(),
        ensures
            final(self).wf(),
            timer_step_rel::<B>(
                old(bus).model(),
                old(self)@,
                cycle,
                final(bus).model(),
                final(self)@,
            ),
    {
        let overflowed = self.divider.inc(cycle as u16);
        if overflowed {
            self.inc_divider_reg(bus);
        }

        if self.is_timer_enabled(bus) {
            self.update_timer_freq(bus);

            let overflowed = self.timer.inc(cycle as u16);
            if overflowed {
                self.inc_timer_reg(bus);
            }
        }
    }

    fn is_timer_enabled<B: Bus>(&self, bus: &B) -> (r: bool)
        ensures
            r == tac_enabled(B::view8(bus.model(), TAC_REG_ADDR)),
    {
        bus.read8(TAC_REG_ADDR) & 0x04 == 0x04
    }

    /// Reloads the TIMA threshold from TAC's low two bits.
    fn update_timer_freq<B: Bus>(&mut self, bus: &B)
        ensures
            final(self)@.0 == old(self)@.0,
            final(self)@.1 == (
                tac_freq(B::view8(bus.model(), TAC_REG_ADDR)),
                old(self)@.1.1,
            ),
    {
        let sel = bus.read8(TAC_REG_ADDR) % 4;
        self.timer.freq = if sel == 0 {
            1024
        } else if sel == 1 {
            16
        } else if sel == 2 {
            64
        } else {
            256
        };
    }

    fn inc_divider_reg<B: Bus>(&mut self, bus: &mut B)
        ensures
            *final(self) == *old(self),
            final(bus).model() == div_step::<B>(old(bus).model(), true),
    {
        let v = bus.read8(DIV_REG_ADDR).wrapping_add(1);
        bus.write8(DIV_REG_ADDR, v);
    }

    fn inc_timer_reg<B: Bus>(&mut self, bus: &mut B)
        ensures
            *final(self) == *old(self),
            final(bus).model() == tima_step::<B>(old(bus).model(), true),
    {
        let v = bus.read8(TIMA_REG_ADDR);
        if v == 0xFF {
            interrupt::request(bus, Interrupt::Timer);
            let tma = bus.read8(TMA_REG_ADDR);
            bus.write8(TIMA_REG_ADDR, tma);
        } else {
            bus.write8(TIMA_REG_ADDR, v + 1);
        }
    }
}

/// One counter tick per threshold: feeding a fresh counter a total of `t`
/// cycles yields exactly `t / freq` crossings. Concretely, a step of `n`
/// cycles from position `t % freq` crosses the threshold exactly when the
/// running total `t + n` passes a multiple of `freq`, so over any 1024-cycle
/// span a 1024-cycle counter ticks exactly once.
pub proof fn lemma_counter_period(f: int, t: int, n: int)
    requires
        1 <= f,
        0 <= t,
        0 <= n <= f,
    ensures
        (t % f) + n >= f <==> (t + n) / f == t / f + 1,
        !((t % f) + n >= f) ==> (t + n) / f == t / f,
        ((t % f) + n) % f == (t + n) % f,
{
    assert(((t % f) + n >= f <==> (t + n) / f == t / f + 1) && (!((t % f) + n >= f) ==> (t + n)
        / f == t / f) && ((t % f) + n) % f == (t + n) % f) by (nonlinear_arith)
        requires
            1 <= f,
            0 <= t,
            0 <= n <= f,
    ;
}

} // verus!
