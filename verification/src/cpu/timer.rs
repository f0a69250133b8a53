use vstd::prelude::*;

verus! {

/// A divider that turns a stream of T-cycles into whole periods.
#[derive(Debug)]
pub struct Clock {
    pub period: u32,
    pub n: u32,
}

impl Clock {
    pub fn new(period: u32) -> (c: Clock)
        ensures
            c.period == period,
            c.n == 0,
    {
        Clock { period, n: 0 }
    }

    /// A clock is well formed when its period is positive and the cycles
    /// it holds are fewer than one period.
    pub open spec fn wf(self) -> bool {
        self.period > 0 && self.n < self.period
    }

    /// Adds `cycles` to the held cycles, returns how many whole periods
    /// they make up and keeps the remainder.
    pub fn next(&mut self, cycles: u32) -> (elapsed: u32)
        requires
            old(self).period > 0,
            old(self).n + cycles <= u32::MAX,
        ensures
            final(self).period == old(self).period,
            elapsed == (old(self).n + cycles) / (old(self).period as int),
            final(self).n == (old(self).n + cycles) % (old(self).period as int),
    {
        self.n = self.n + cycles;
        let elapsed = self.n / self.period;
        self.n = self.n % self.period;
        elapsed
    }
}

/// Number of T-cycles per TIMA increment for the clock select bits of TAC.
pub open spec fn tac_period(tac: u8) -> u32 {
    if tac & 3 == 0 {
        1024
    } else if tac & 3 == 1 {
        16
    } else if tac & 3 == 2 {
        64
    } else {
        256
    }
}

pub fn tac_period_of(tac: u8) -> (p: u32)
    ensures
        p == tac_period(tac),
{
    let sel = tac & 3;
    if sel == 0 {
        1024
    } else if sel == 1 {
        16
    } else if sel == 2 {
        64
    } else {
        256
    }
}

/// DIV, TIMA, TMA and TAC with the clocks that drive DIV and TIMA.
#[derive(Debug)]
pub struct Timer {
    pub div: u8,
    pub tima: u8,
    pub tma: u8,
    pub tac: u8,
    pub div_clock: Clock,
    pub tima_clock: Clock,
}

/// Period of the DIV register in T-cycles.
pub const DIV_PERIOD: u32 = 256;

impl Timer {
    /// The timer at power-on: all registers clear, DIV counting every 256
    /// T-cycles and TIMA (when enabled) every 1024.
    pub open spec fn new_spec() -> Timer {
        Timer {
            div: 0,
            tima: 0,
            tma: 0,
            tac: 0,
            div_clock: Clock { period: DIV_PERIOD, n: 0 },
            tima_clock: Clock { period: 1024, n: 0 },
        }
    }

    pub fn new() -> (t: Timer)
        ensures
            t == Timer::new_spec(),
            t.wf(),
    {
        assert(0u8 & 3 == 0) by (bit_vector);
        Timer {
            div: 0,
            tima: 0,
            tma: 0,
            tac: 0,
            div_clock: Clock::new(DIV_PERIOD),
            tima_clock: Clock::new(1024),
        }
    }

    /// The clocks are well formed, DIV counts every 256 T-cycles and TIMA
    /// counts at the rate that TAC selects.
    pub open spec fn wf(self) -> bool {
        &&& self.div_clock.wf()
        &&& self.div_clock.period == DIV_PERIOD
        &&& self.tima_clock.wf()
        &&& self.tima_clock.period == tac_period(self.tac)
    }

    pub fn is_well_formed(&self) -> (b: bool)
        ensures
            b == self.wf(),
    {
        self.div_clock.period > 0 && self.div_clock.n < self.div_clock.period
            && self.div_clock.period == DIV_PERIOD && self.tima_clock.period > 0
            && self.tima_clock.n < self.tima_clock.period && self.tima_clock.period
            == tac_period_of(self.tac)
    }

    /// TIMA counts only while bit 2 of TAC is set.
    pub open spec fn enabled(self) -> bool {
        self.tac & 4 != 0
    }

    pub fn div(&self) -> (v: u8)
        ensures
            v == self.div,
    {
        self.div
    }

    pub fn tima(&self) -> (v: u8)
        ensures
            v == self.tima,
    {
        self.tima
    }

    pub fn tma(&self) -> (v: u8)
        ensures
            v == self.tma,
    {
        self.tma
    }

    pub fn tac(&self) -> (v: u8)
        ensures
            v == self.tac,
    {
        self.tac
    }

    pub fn set_div(&mut self, value: u8)
        ensures
            *final(self) == (Timer { div: value, ..*old(self) }),
    {
        self.div = value;
    }

    pub fn set_tima(&mut self, value: u8)
        ensures
            *final(self) == (Timer { tima: value, ..*old(self) }),
    {
        self.tima = value;
    }

    /// The value of the timer register at `addr` (0xFF04..0xFF08).
    pub open spec fn spec_read(self, addr: u16) -> u8 {
        if addr == 0xFF04 {
            self.div
        } else if addr == 0xFF05 {
            self.tima
        } else if addr == 0xFF06 {
            self.tma
        } else {
            self.tac
        }
    }

    pub fn timer_read(&self, addr: u16) -> (v: u8)
        requires
            0xFF04 <= addr < 0xFF08,
        ensures
            v == self.spec_read(addr),
    {
        if addr == 0xFF04 {
            self.div
        } else if addr == 0xFF05 {
            self.tima
        } else if addr == 0xFF06 {
            self.tma
        } else {
            self.tac
        }
    }

    /// The timer after a write of `value` to the register at `addr`.
    /// Writing DIV clears it and restarts its clock; writing TAC with a new
    /// clock select restarts the TIMA clock at the new rate and reloads
    /// TIMA from TMA.
    pub open spec fn spec_write(self, addr: u16, value: u8) -> Timer {
        if addr == 0xFF04 {
            Timer { div: 0, div_clock: Clock { n: 0, ..self.div_clock }, ..self }
        } else if addr == 0xFF05 {
            Timer { tima: value, ..self }
        } else if addr == 0xFF06 {
            Timer { tma: value, ..self }
        } else if self.tac & 3 != value & 3 {
            Timer {
                tac: value,
                tima: self.tma,
                tima_clock: Clock { period: tac_period(value), n: 0 },
                ..self
            }
        } else {
            Timer { tac: value, ..self }
        }
    }

    pub fn timer_write(&mut self, addr: u16, value: u8)
        requires
            0xFF04 <= addr < 0xFF08,
        ensures
            *final(self) == old(self).spec_write(addr, value),
    {
        if addr == 0xFF04 {
            self.div = 0;
            self.div_clock.n = 0;
        } else if addr == 0xFF05 {
            self.tima = value;
        } else if addr == 0xFF06 {
            self.tma = value;
        } else {
            if self.tac & 3 != value & 3 {
                self.tima_clock.n = 0;
                self.tima_clock.period = tac_period_of(value);
                self.tima = self.tma;
            }
            self.tac = value;
        }
    }

    /// Every write keeps the timer well formed.
    pub proof fn lemma_write_keeps_wf(self, addr: u16, value: u8)
        requires
            self.wf(),
        ensures
            self.spec_write(addr, value).wf(),
    {
        if addr == 0xFF07 && self.tac & 3 == value & 3 {
            assert(tac_period(value) == tac_period(self.tac));
        }
    }
}

} // verus!
