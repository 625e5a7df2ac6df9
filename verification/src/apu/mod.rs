//! The audio processing unit: two pulse channels, a triangle, a noise channel, the DMC
//! registers and the frame counter.

use vstd::prelude::*;

pub mod blip_buf;
pub mod units;

use units::{Dmc, FrameCounter, LengthCounter, Noise, Pulse, Triangle};

verus! {

/// The number of CPU cycles averaged into one output sample.
pub const SAMPLE_FREQ: u32 = 40;

/// The number of entries of the mixer's pulse table (indexed by pulse 1 + pulse 2).
pub const PULSE_TABLE_SIZE: usize = 31;

/// The number of entries of the mixer's triangle/noise/DMC table.
pub const TND_TABLE_SIZE: usize = 203;

/// The quarter-frame, half-frame, frame-interrupt and sequence-end events of the frame
/// counter at APU cycle `c`, in the 5-step (`mode`) or the 4-step sequence.
pub open spec fn frame_events(mode: bool, c: u16) -> (bool, bool, bool, bool) {
    if mode {
        if c == 7457 || c == 22371 {
            (true, false, false, false)
        } else if c == 14913 || c == 37281 {
            (true, true, false, false)
        } else if c == 37282 {
            (false, false, false, true)
        } else {
            (false, false, false, false)
        }
    } else {
        if c == 7457 || c == 22371 {
            (true, false, false, false)
        } else if c == 14913 {
            (true, true, false, false)
        } else if c == 29828 {
            (false, false, true, false)
        } else if c == 29829 {
            (true, true, true, false)
        } else if c == 29830 {
            (false, false, true, true)
        } else {
            (false, false, false, false)
        }
    }
}

/// The length of a frame counter sequence, in APU cycles.
pub open spec fn sequence_length(mode: bool) -> u16 {
    if mode {
        37282
    } else {
        29830
    }
}

/// The APU's channels and frame counter. The mixer's floating-point tables and the
/// averaged samples are kept by the front end, which reads the channel levels through
/// `mix_indices` and is told by `tick` when a sample is complete.
pub struct Apu {
    pub cycles: u16,
    pub sample_counter: u32,
    pub pulse_1: Pulse<1>,
    pub pulse_2: Pulse<0>,
    pub triangle: Triangle,
    pub noise: Noise,
    pub dmc: Dmc,
    pub frame_counter: FrameCounter,
}

impl Apu {
    /// The invariant: every unit's invariant, a sample counter below `SAMPLE_FREQ` and a
    /// cycle counter inside the current sequence.
    pub open spec fn wf(&self) -> bool {
        &&& self.pulse_1.wf()
        &&& self.pulse_2.wf()
        &&& self.triangle.wf()
        &&& self.noise.wf()
        &&& self.sample_counter < SAMPLE_FREQ
        &&& self.cycles < sequence_length(self.frame_counter.mode)
    }

    /// Whether the invariant holds.
    pub fn is_valid(&self) -> (r: bool)
        ensures
            r == self.wf(),
    {
        let length: u16 = if self.frame_counter.mode { 37282 } else { 29830 };
        self.pulse_1.is_valid() && self.pulse_2.is_valid() && self.triangle.is_valid()
            && self.noise.is_valid() && self.sample_counter < SAMPLE_FREQ && self.cycles < length
    }

    pub fn new() -> (r: Apu)
        ensures
            r.wf(),
            r.cycles == 0 && r.sample_counter == 0,
            r.pulse_1 == Pulse::<1>::new_spec(),
            r.pulse_2 == Pulse::<0>::new_spec(),
            r.triangle == Triangle::new_spec(),
            r.noise == Noise::new_spec(),
            r.dmc == Dmc::new_spec(),
            r.frame_counter == FrameCounter::new_spec(),
    {
        Apu {
            cycles: 0,
            sample_counter: 0,
            pulse_1: Pulse::new(),
            pulse_2: Pulse::new(),
            triangle: Triangle::new(),
            noise: Noise::new(),
            dmc: Dmc::new(),
            frame_counter: FrameCounter::new(),
        }
    }

    /// The state after a quarter-frame clock: envelopes and the triangle's linear counter.
    pub open spec fn quarter_frame_clocked(self) -> Apu {
        Apu {
            pulse_1: Pulse::<1> { envelope: self.pulse_1.envelope.clocked(), ..self.pulse_1 },
            pulse_2: Pulse::<0> { envelope: self.pulse_2.envelope.clocked(), ..self.pulse_2 },
            triangle: self.triangle.linear_clocked(),
            noise: Noise { envelope: self.noise.envelope.clocked(), ..self.noise },
            ..self
        }
    }

    fn quarter_frame_clock(&mut self)
        requires
            old(self).wf(),
        ensures
            final(self).wf(),
            *final(self) == old(self).quarter_frame_clocked(),
    {
        self.pulse_1.envelope.clock();
        self.pulse_2.envelope.clock();
        self.triangle.clock_linear_counter();
        self.noise.envelope.clock();
    }

    /// The state after a half-frame clock: length counters and sweep units.
    pub open spec fn half_frame_clocked(self) -> Apu {
        Apu {
            pulse_1: self.pulse_1.half_frame_clocked(),
            pulse_2: self.pulse_2.half_frame_clocked(),
            triangle: Triangle { length_counter: self.triangle.length_counter.clocked(), ..self.triangle },
            noise: Noise { length_counter: self.noise.length_counter.clocked(), ..self.noise },
            ..self
        }
    }

    fn half_frame_clock(&mut self)
        requires
            old(self).wf(),
        ensures
            final(self).wf(),
            *final(self) == old(self).half_frame_clocked(),
    {
        self.pulse_1.half_frame_clock();
        self.pulse_2.half_frame_clock();
        self.triangle.length_counter.clock();
        self.noise.length_counter.clock();
    }

    /// The indices of the mixer's two lookup tables: pulse 1 + pulse 2 for the pulse table,
    /// 3 * triangle + 2 * noise (the DMC outputs nothing) for the other.
    #[inline]
    pub fn mix_indices(&self) -> (r: (usize, usize))
        requires
            self.wf(),
        ensures
            r.0 == self.pulse_1.output_spec() + self.pulse_2.output_spec(),
            r.1 == 3 * self.triangle.output_spec() + 2 * self.noise.output_spec(),
            r.0 < PULSE_TABLE_SIZE,
            r.1 < TND_TABLE_SIZE,
    {
        let pulse_1 = self.pulse_1.output() as usize;
        let pulse_2 = self.pulse_2.output() as usize;
        let triangle = self.triangle.output() as usize;
        let noise = self.noise.output() as usize;
        (pulse_1 + pulse_2, 3 * triangle + 2 * noise)
    }

    /// The state after the channel timers are clocked for one CPU cycle (the pulse timers
    /// on every other one) and the cycle counter advances.
    pub open spec fn timers_clocked(self) -> Apu {
        Apu {
            pulse_1: if self.cycles % 2 == 0 { self.pulse_1.timer_clocked() } else { self.pulse_1 },
            pulse_2: if self.cycles % 2 == 0 { self.pulse_2.timer_clocked() } else { self.pulse_2 },
            triangle: self.triangle.timer_clocked(),
            noise: self.noise.timer_clocked(),
            cycles: (self.cycles + 1) as u16,
            ..self
        }
    }

    /// The state after the frame counter acts on the current cycle count.
    pub open spec fn sequenced(self) -> Apu {
        let (q, h, _irq, reset) = frame_events(self.frame_counter.mode, self.cycles);
        let s1 = if q { self.quarter_frame_clocked() } else { self };
        let s2 = if h { s1.half_frame_clocked() } else { s1 };
        if reset { Apu { cycles: 0, ..s2 } } else { s2 }
    }

    /// The state after one CPU cycle.
    pub open spec fn ticked(self) -> Apu {
        let s = self.timers_clocked().sequenced();
        Apu { sample_counter: if self.sample_counter + 1 == SAMPLE_FREQ { 0 } else { (self.sample_counter + 1) as u32 }, ..s }
    }

    /// One CPU cycle of the APU (https://wiki.nesdev.org/w/index.php?title=APU_Frame_Counter).
    /// CPU cycles are counted so that the half-cycle timing of the frame counter is right.
    /// Returns whether `SAMPLE_FREQ` cycles have been mixed since the last sample.
    #[inline]
    pub fn tick(&mut self, irq_signal: &mut bool) -> (sample_ready: bool)
        requires
            old(self).wf(),
        ensures
            final(self).wf(),
            *final(self) == old(self).ticked(),
            sample_ready == (old(self).sample_counter + 1 == SAMPLE_FREQ),
            *final(irq_signal) == (*old(irq_signal) || (frame_events(
                old(self).frame_counter.mode,
                (old(self).cycles + 1) as u16,
            ).2 && !old(self).frame_counter.irq_inhibit)),
    {
        if self.cycles % 2 == 0 {
            self.pulse_1.clock();
            self.pulse_2.clock();
        }
        self.triangle.clock();
        self.noise.clock();
        self.cycles = self.cycles.wrapping_add(1);
        let c = self.cycles;
        if self.frame_counter.mode {
            if c == 7457 || c == 22371 {
                self.quarter_frame_clock();
            } else if c == 14913 || c == 37281 {
                self.quarter_frame_clock();
                self.half_frame_clock();
            } else if c == 37282 {
                self.cycles = 0;
            }
        } else {
            if c == 7457 || c == 22371 {
                self.quarter_frame_clock();
            } else if c == 14913 {
                self.quarter_frame_clock();
                self.half_frame_clock();
            } else if c == 29828 {
                if !self.frame_counter.irq_inhibit {
                    *irq_signal = true;
                }
            } else if c == 29829 {
                self.quarter_frame_clock();
                self.half_frame_clock();
                if !self.frame_counter.irq_inhibit {
                    *irq_signal = true;
                }
            } else if c == 29830 {
                if !self.frame_counter.irq_inhibit {
                    *irq_signal = true;
                }
                self.cycles = 0;
            }
        }
        self.sample_counter = self.sample_counter + 1;
        if self.sample_counter == SAMPLE_FREQ {
            self.sample_counter = 0;
            true
        } else {
            false
        }
    }

    /// The state after a write of `val` to the status register $4015 (---D NT21): a cleared
    /// channel bit disables that channel and zeroes its length counter; the DMC interrupt
    /// flag is cleared.
    pub open spec fn status_written(self, val: u8) -> Apu {
        let n = val & 8 != 0;
        let t = val & 4 != 0;
        let p2 = val & 2 != 0;
        let p1 = val & 1 != 0;
        let nl = self.noise.length_counter;
        let tl = self.triangle.length_counter;
        let l2 = self.pulse_2.length_counter;
        let l1 = self.pulse_1.length_counter;
        Apu {
            dmc: Dmc { irq_enable: false, ..self.dmc },
            noise: Noise { length_counter: LengthCounter { enabled: n, counter: if n { nl.counter } else { 0 }, ..nl }, ..self.noise },
            triangle: Triangle { length_counter: LengthCounter { enabled: t, counter: if t { tl.counter } else { 0 }, ..tl }, ..self.triangle },
            pulse_2: Pulse::<0> { length_counter: LengthCounter { enabled: p2, counter: if p2 { l2.counter } else { 0 }, ..l2 }, ..self.pulse_2 },
            pulse_1: Pulse::<1> { length_counter: LengthCounter { enabled: p1, counter: if p1 { l1.counter } else { 0 }, ..l1 }, ..self.pulse_1 },
            ..self
        }
    }

    /// $4015 write ---D NT21: enable DMC (D), noise (N), triangle (T) and pulse channels (2/1).
    #[inline]
    fn write_status(&mut self, val: u8)
        requires
            old(self).wf(),
        ensures
            final(self).wf(),
            *final(self) == old(self).status_written(val),
    {
        self.dmc.irq_enable = false;
        let n = val & 8 != 0;
        let t = val & 4 != 0;
        let p_2 = val & 2 != 0;
        let p_1 = val & 1 != 0;
        self.noise.length_counter = Self::enable_channel(self.noise.length_counter, n);
        self.triangle.length_counter = Self::enable_channel(self.triangle.length_counter, t);
        self.pulse_2.length_counter = Self::enable_channel(self.pulse_2.length_counter, p_2);
        self.pulse_1.length_counter = Self::enable_channel(self.pulse_1.length_counter, p_1);
    }

    /// A channel's length counter after its enable bit in $4015 is written.
    fn enable_channel(lc: LengthCounter, enabled: bool) -> (r: LengthCounter)
        ensures
            r == (LengthCounter { enabled, counter: if enabled { lc.counter } else { 0 }, ..lc }),
    {
        LengthCounter { enabled, counter: if enabled { lc.counter } else { 0 }, halt: lc.halt }
    }

    /// The state after a CPU write of `val` to APU register `addr`.
    pub open spec fn reg_written(self, addr: int, val: u8) -> Apu {
        if addr == 0x4000 {
            Apu { pulse_1: self.pulse_1.dlcv_written(val), ..self }
        } else if addr == 0x4001 {
            Apu { pulse_1: self.pulse_1.epns_written(val), ..self }
        } else if addr == 0x4002 {
            Apu { pulse_1: self.pulse_1.t_written(val), ..self }
        } else if addr == 0x4003 {
            Apu { pulse_1: self.pulse_1.lt_written(val), ..self }
        } else if addr == 0x4004 {
            Apu { pulse_2: self.pulse_2.dlcv_written(val), ..self }
        } else if addr == 0x4005 {
            Apu { pulse_2: self.pulse_2.epns_written(val), ..self }
        } else if addr == 0x4006 {
            Apu { pulse_2: self.pulse_2.t_written(val), ..self }
        } else if addr == 0x4007 {
            Apu { pulse_2: self.pulse_2.lt_written(val), ..self }
        } else if addr == 0x4008 {
            Apu { triangle: self.triangle.c_written(val), ..self }
        } else if addr == 0x400A {
            Apu { triangle: self.triangle.tl_written(val), ..self }
        } else if addr == 0x400B {
            Apu { triangle: self.triangle.l_written(val), ..self }
        } else if addr == 0x400C {
            Apu { noise: self.noise.lcn_written(val), ..self }
        } else if addr == 0x400E {
            Apu { noise: self.noise.lp_written(val), ..self }
        } else if addr == 0x400F {
            Apu { noise: self.noise.l_written(val), ..self }
        } else if addr == 0x4010 {
            Apu { dmc: self.dmc.ilf_written(val), ..self }
        } else if addr == 0x4011 {
            Apu { dmc: self.dmc.d_written(val), ..self }
        } else if addr == 0x4012 {
            Apu { dmc: self.dmc.a_written(val), ..self }
        } else if addr == 0x4013 {
            Apu { dmc: self.dmc.l_written(val), ..self }
        } else if addr == 0x4015 {
            self.status_written(val)
        } else if addr == 0x4017 {
            let s = if val & 0x80 != 0 { self.quarter_frame_clocked().half_frame_clocked() } else { self };
            Apu {
                cycles: 0,
                frame_counter: FrameCounter { mode: val & 0x80 != 0, irq_inhibit: val & 0x40 != 0, ..s.frame_counter },
                ..s
            }
        } else {
            self
        }
    }

    /// A CPU write to an APU register (https://wiki.nesdev.org/w/index.php?title=APU_registers).
    /// Writing $4017 with bit 7 set immediately clocks the quarter- and half-frame units;
    /// either way the sequence restarts.
    #[inline]
    pub fn write_reg(&mut self, addr: usize, val: u8, irq_signal: &mut bool)
        requires
            old(self).wf(),
        ensures
            final(self).wf(),
            *final(self) == old(self).reg_written(addr as int, val),
            *final(irq_signal) == (if addr == 0x4017 { *old(irq_signal) && val & 0x40 == 0 } else { *old(irq_signal) }),
    {
        if addr == 0x4000 {
            self.pulse_1.set_dlcv(val);
        } else if addr == 0x4001 {
            self.pulse_1.set_epns(val);
        } else if addr == 0x4002 {
            self.pulse_1.set_t(val);
        } else if addr == 0x4003 {
            self.pulse_1.set_lt(val);
        } else if addr == 0x4004 {
            self.pulse_2.set_dlcv(val);
        } else if addr == 0x4005 {
            self.pulse_2.set_epns(val);
        } else if addr == 0x4006 {
            self.pulse_2.set_t(val);
        } else if addr == 0x4007 {
            self.pulse_2.set_lt(val);
        } else if addr == 0x4008 {
            self.triangle.set_c(val);
        } else if addr == 0x400A {
            self.triangle.set_tl(val);
        } else if addr == 0x400B {
            self.triangle.set_l(val);
        } else if addr == 0x400C {
            self.noise.set_lcn(val);
        } else if addr == 0x400E {
            self.noise.set_lp(val);
        } else if addr == 0x400F {
            self.noise.set_l(val);
        } else if addr == 0x4010 {
            self.dmc.set_ilf(val);
        } else if addr == 0x4011 {
            self.dmc.set_d(val);
        } else if addr == 0x4012 {
            self.dmc.set_a(val);
        } else if addr == 0x4013 {
            self.dmc.set_l(val);
        } else if addr == 0x4015 {
            self.write_status(val);
        } else if addr == 0x4017 {
            if val & 0x80 != 0 {
                self.quarter_frame_clock();
                self.half_frame_clock();
            }
            self.cycles = 0;
            self.frame_counter.set_mi(val, irq_signal);
        }
    }

    /// The byte a read of $4015 gives: bits 0-3 tell which length counters are non-zero,
    /// bit 6 the frame counter's interrupt flag and bit 7 the DMC interrupt flag.
    pub open spec fn status_byte(self) -> u8 {
        ((if self.pulse_1.length_counter.counter > 0 { 1int } else { 0 })
            + (if self.pulse_2.length_counter.counter > 0 { 2int } else { 0 })
            + (if self.triangle.length_counter.counter > 0 { 4int } else { 0 })
            + (if self.noise.length_counter.counter > 0 { 8int } else { 0 })
            + (if self.frame_counter.irq_inhibit { 0x40int } else { 0 })
            + (if self.dmc.irq_enable { 0x80int } else { 0 })) as u8
    }

    /// A CPU read of $4015 (https://wiki.nesdev.org/w/index.php?title=APU#Status_.28.244015.29);
    /// the read clears the frame interrupt.
    #[inline]
    pub fn read_status(&mut self, irq_signal: &mut bool) -> (r: u8)
        requires
            old(self).wf(),
        ensures
            final(self).wf(),
            r == old(self).status_byte(),
            *final(self) == (Apu { frame_counter: FrameCounter { irq_inhibit: false, ..old(self).frame_counter }, ..*old(self) }),
            *final(irq_signal) == false,
    {
        let b0: u8 = if self.pulse_1.length_counter.counter > 0 { 1 } else { 0 };
        let b1: u8 = if self.pulse_2.length_counter.counter > 0 { 2 } else { 0 };
        let b2: u8 = if self.triangle.length_counter.counter > 0 { 4 } else { 0 };
        let b3: u8 = if self.noise.length_counter.counter > 0 { 8 } else { 0 };
        let b6: u8 = if self.frame_counter.irq_inhibit { 0x40 } else { 0 };
        let b7: u8 = if self.dmc.irq_enable { 0x80 } else { 0 };
        let result = b0 | b1 | b2 | b3 | b6 | b7;
        assert(result == b0 + b1 + b2 + b3 + b6 + b7) by (bit_vector)
            requires
                b0 == 0 || b0 == 1,
                b1 == 0 || b1 == 2,
                b2 == 0 || b2 == 4,
                b3 == 0 || b3 == 8,
                b6 == 0 || b6 == 0x40,
                b7 == 0 || b7 == 0x80,
                result == b0 | b1 | b2 | b3 | b6 | b7,
        ;
        self.frame_counter.irq_inhibit = false;
        *irq_signal = false;
        result
    }
}

} // verus!
