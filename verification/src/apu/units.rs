use vstd::prelude::*;

verus! {

/// The length counter load values, indexed by the 5 bits written to a channel's length register.
pub open spec fn length_table(i: int) -> u8 {
    let t = seq![
        10u8, 254, 20, 2, 40, 4, 80, 6, 160, 8, 60, 10, 14, 12, 26, 14, 12, 16, 24, 18, 48, 20, 96,
        22, 192, 24, 72, 26, 16, 28, 32, 30,
    ];
    t[i]
}

/// The length counter that silences a channel when it reaches zero.
#[derive(Clone, Copy)]
pub struct LengthCounter {
    /// If the channel is enabled
    pub enabled: bool,
    /// If the length counter is halted
    pub halt: bool,
    pub counter: u8,
}

impl LengthCounter {
    pub fn new() -> (r: LengthCounter)
        ensures
            r == (LengthCounter { enabled: true, halt: false, counter: 0 }),
    {
        LengthCounter { enabled: true, halt: false, counter: 0 }
    }

    /// The state that `load` leaves.
    pub open spec fn loaded(self, val: u8) -> Self {
        if self.enabled {
            LengthCounter { counter: length_table(val as int), ..self }
        } else {
            self
        }
    }

    /// Loads the counter from the table (only while the channel is enabled).
    #[inline]
    pub fn load(&mut self, val: u8)
        requires
            val < 32,
        ensures
            *final(self) == old(self).loaded(val),
    {
        let table: [u8; 32] = [
            10, 254, 20, 2, 40, 4, 80, 6, 160, 8, 60, 10, 14, 12, 26, 14, 12, 16, 24, 18, 48, 20, 96,
            22, 192, 24, 72, 26, 16, 28, 32, 30,
        ];
        if self.enabled {
            self.counter = table[val as usize];
        }
    }

    /// The state that `clock` leaves.
    pub open spec fn clocked(self) -> Self {
        if !self.enabled {
            LengthCounter { counter: 0, ..self }
        } else if self.counter > 0 && !self.halt {
            LengthCounter { counter: (self.counter - 1) as u8, ..self }
        } else {
            self
        }
    }

    /// A half-frame clock: counts down unless halted or already zero; a disabled channel's
    /// counter is held at zero.
    #[inline]
    pub fn clock(&mut self)
        ensures
            *final(self) == old(self).clocked(),
    {
        if self.enabled {
            if self.counter > 0 && !self.halt {
                self.counter = self.counter - 1;
            }
        } else {
            self.counter = 0;
        }
    }
}

/// A clocked length counter never goes up, and one that reached zero stays at zero until it
/// is loaded again.
pub proof fn lemma_length_counter_never_grows(lc: LengthCounter)
    ensures
        lc.clocked().counter <= lc.counter,
        lc.counter == 0 ==> lc.clocked().counter == 0,
{
}

/// The volume envelope of the pulse and noise channels.
#[derive(Clone, Copy)]
pub struct Envelope {
    pub start: bool,
    pub period: u8,
    pub step: u8,
    pub constant_volume: bool,
    pub decay_counter: u8,
    pub _loop: bool,
}

impl Envelope {
    /// The invariant: a 4-bit period and a decay level of at most 15.
    pub open spec fn wf(&self) -> bool {
        self.period <= 15 && self.decay_counter <= 15
    }

    /// Whether the invariant holds.
    pub fn is_valid(&self) -> (r: bool)
        ensures
            r == self.wf(),
    {
        self.period <= 15 && self.decay_counter <= 15
    }

    /// The power-up state of an envelope.
    pub open spec fn new_spec() -> Envelope {
        Envelope { start: false, period: 0, step: 0, constant_volume: false, decay_counter: 0, _loop: false }
    }

    pub fn new() -> (r: Envelope)
        ensures
            r.wf(),
            r == Envelope::new_spec(),
            r == (Envelope { start: false, period: 0, step: 0, constant_volume: false, decay_counter: 0, _loop: false }),
    {
        Envelope { start: false, period: 0, step: 0, constant_volume: false, decay_counter: 0, _loop: false }
    }

    /// The state that `clock` leaves.
    pub open spec fn clocked(self) -> Self {
        if self.start {
            Envelope { start: false, decay_counter: 15, step: self.period, ..self }
        } else if self.step == 0 {
            Envelope {
                step: self.period,
                decay_counter: if self.decay_counter != 0 {
                    (self.decay_counter - 1) as u8
                } else if self._loop {
                    15
                } else {
                    0
                },
                ..self
            }
        } else {
            Envelope { step: (self.step - 1) as u8, ..self }
        }
    }

    /// A quarter-frame clock. When the start flag is set it is cleared, the decay level is
    /// loaded with 15 and the divider reloaded; otherwise the divider is clocked, and when it
    /// is at 0 it is reloaded and clocks the decay level, which counts down to 0 and, if the
    /// loop flag is set, wraps to 15.
    #[inline]
    pub fn clock(&mut self)
        requires
            old(self).wf(),
        ensures
            final(self).wf(),
            *final(self) == old(self).clocked(),
    {
        if !self.start {
            if self.step == 0 {
                self.step = self.period;
                if self.decay_counter != 0 {
                    self.decay_counter = self.decay_counter - 1;
                } else if self._loop {
                    self.decay_counter = 15;
                }
            } else {
                self.step = self.step - 1;
            }
        } else {
            self.start = false;
            self.decay_counter = 15;
            self.step = self.period;
        }
    }

    /// The volume: the envelope parameter when the constant volume flag is set, the decay
    /// level otherwise.
    #[inline]
    pub fn get_volume(&self) -> (r: u8)
        requires
            self.wf(),
        ensures
            r == (if self.constant_volume { self.period } else { self.decay_counter }),
            r <= 15,
    {
        if self.constant_volume {
            self.period
        } else {
            self.decay_counter
        }
    }
}

/// The sweep unit of a pulse channel, which also holds the channel's timer. The two pulse
/// channels negate differently: pulse 1 adds the ones' complement (`ADDER` is 1), pulse 2
/// the two's complement (`ADDER` is 0).
#[derive(Clone, Copy)]
pub struct SweepUnit<const ADDER: u16> {
    pub enabled: bool,
    pub negate: bool,
    pub shift: u8,
    pub period: u16,
    pub counter: u16,
    pub reload: bool,
    /// The pulse channel timer and its reload value
    pub timer: u16,
    pub timer_reload: u16,
}

impl<const ADDER: u16> SweepUnit<ADDER> {
    /// The invariant: an 11-bit timer period, a shift of at most 7, a divider period of at
    /// most 7 and a divider counter of at most 8.
    pub open spec fn wf(&self) -> bool {
        &&& self.timer_reload <= 0x7FF
        &&& self.shift <= 7
        &&& self.period <= 7
        &&& self.counter <= 8
        &&& ADDER <= 1
    }

    /// Whether the invariant holds.
    pub fn is_valid(&self) -> (r: bool)
        ensures
            r == self.wf(),
    {
        self.timer_reload <= 0x7FF && self.shift <= 7 && self.period <= 7 && self.counter <= 8
            && ADDER <= 1
    }

    /// The period the sweep unit would set: the timer period plus or minus itself shifted
    /// right, modulo 2^16.
    pub open spec fn target_period(&self) -> u16 {
        let change = self.timer_reload / pow2_u16(self.shift);
        if !self.negate {
            ((self.timer_reload + change) % 65536) as u16
        } else {
            ((self.timer_reload - change - ADDER + 65536) % 65536) as u16
        }
    }

    pub fn new() -> (r: Self)
        requires
            ADDER <= 1,
        ensures
            r.wf(),
            r == (SweepUnit::<ADDER> { enabled: false, negate: false, shift: 0, period: 0, counter: 0, reload: false, timer: 0, timer_reload: 0 }),
    {
        SweepUnit { enabled: false, negate: false, shift: 0, period: 0, counter: 0, reload: false, timer: 0, timer_reload: 0 }
    }

    /// The state that `load` leaves.
    pub open spec fn loaded(self, val: u8) -> Self {
        SweepUnit::<ADDER> {
            enabled: val & 0x80 != 0,
            period: ((val & 0x70) / 16) as u16,
            negate: val & 8 != 0,
            shift: val & 7,
            reload: true,
            ..self
        }
    }

    /// $4001 / $4005: EPPP NSSS (enabled, divider period, negate, shift); sets the reload flag.
    #[inline]
    pub fn load(&mut self, val: u8)
        requires
            old(self).wf(),
        ensures
            final(self).wf(),
            *final(self) == old(self).loaded(val),
    {
        self.enabled = (val & 0x80) != 0;
        let period = (val as u16 & 0x70) >> 4u16;
        assert(period == (val & 0x70) / 16 && period <= 7) by (bit_vector)
            requires
                period == (val as u16 & 0x70) >> 4u16,
        ;
        self.period = period;
        self.negate = (val & 8) != 0;
        assert(val & 7 <= 7) by (bit_vector);
        self.shift = val & 7;
        self.reload = true;
    }

    /// The state that `clock` leaves.
    pub open spec fn clocked(self) -> Self {
        let target = self.target_period();
        let adjust = self.enabled && self.counter == 0 && self.timer_reload >= 8
            && target <= 0x7FF;
        let reload = self.counter == 0 || self.reload;
        SweepUnit::<ADDER> {
            timer_reload: if adjust { target } else { self.timer_reload },
            counter: if reload { self.period } else { (self.counter - 1) as u16 },
            reload: if reload { false } else { self.reload },
            ..self
        }
    }

    /// A half-frame clock. When the divider is at 0, the sweep is enabled and the channel is
    /// not muted (period at least 8, target at most $7FF), the timer period becomes the
    /// target. Then the divider is reloaded with its period P (at 0 or when the reload flag is set)
    /// or counts down.
    #[inline]
    pub fn clock(&mut self)
        requires
            old(self).wf(),
        ensures
            final(self).wf(),
            *final(self) == old(self).clocked(),
    {
        let timer_reload = self.timer_reload;
        let shift = self.shift;
        let change = timer_reload >> (shift as u16);
        assert(change == timer_reload / pow2_u16(shift) && change <= timer_reload) by (bit_vector)
            requires
                change == timer_reload >> (shift as u16),
                shift <= 7,
        ;
        let target_period = if !self.negate {
            timer_reload.wrapping_add(change)
        } else {
            timer_reload.wrapping_sub(change + ADDER)
        };
        if self.enabled && self.counter == 0 && self.timer_reload >= 8 && target_period <= 0x7FF {
            self.timer_reload = target_period;
        }
        if self.counter == 0 || self.reload {
            self.counter = self.period;
            self.reload = false;
        } else {
            self.counter = self.counter - 1;
        }
    }
}

/// A quarter-frame clock of an envelope: the start flag reloads the decay level with 15 and
/// the divider with the period; otherwise the divider counts down, and when it is at 0 it is
/// reloaded and the decay level counts down to 0, where a looping envelope wraps to 15 and
/// any other stays at 0.
pub proof fn lemma_envelope_clock(e: Envelope)
    requires
        e.wf(),
    ensures
        ({
            let c = e.clocked();
            &&& c.period == e.period && c.constant_volume == e.constant_volume && c._loop == e._loop
            &&& !c.start
            &&& e.start ==> c.decay_counter == 15 && c.step == e.period
            &&& !e.start && e.step > 0 ==> c.decay_counter == e.decay_counter && c.step + 1 == e.step
            &&& !e.start && e.step == 0 ==> c.step == e.period
            &&& !e.start && e.step == 0 && e.decay_counter > 0 ==> c.decay_counter + 1 == e.decay_counter
            &&& !e.start && e.step == 0 && e.decay_counter == 0 && e._loop ==> c.decay_counter == 15
            &&& !e.start && e.step == 0 && e.decay_counter == 0 && !e._loop ==> c.decay_counter == 0
        }),
{
}

/// The 8-step waveforms of the four duty cycles: `index` is duty * 8 + step.
///
/// Duty  Sequence lookup table
/// 0     0 0 0 0 0 0 0 1
/// 1     0 0 0 0 0 0 1 1
/// 2     0 0 0 0 1 1 1 1
/// 3     1 1 1 1 1 1 0 0
pub open spec fn duty_active(index: int) -> bool {
    let duty = index / 8;
    let step = index % 8;
    if duty == 0 {
        step == 7
    } else if duty == 1 {
        step >= 6
    } else if duty == 2 {
        step >= 4
    } else {
        step <= 5
    }
}

/// A pulse (square wave) channel.
#[derive(Clone, Copy)]
pub struct Pulse<const ADDER: u16> {
    pub duty_cycle: u8,
    /// The selected duty, times 8
    pub duty_seq: u8,
    pub envelope: Envelope,
    pub sweep: SweepUnit<ADDER>,
    pub length_counter: LengthCounter,
}

impl<const ADDER: u16> Pulse<ADDER> {
    /// The invariant of the channel and its units.
    pub open spec fn wf(&self) -> bool {
        &&& self.duty_cycle <= 7
        &&& self.duty_seq % 8 == 0 && self.duty_seq <= 24
        &&& self.envelope.wf()
        &&& self.sweep.wf()
    }

    /// Whether the invariant holds.
    pub fn is_valid(&self) -> (r: bool)
        ensures
            r == self.wf(),
    {
        self.duty_cycle <= 7 && self.duty_seq % 8 == 0 && self.duty_seq <= 24
            && self.envelope.is_valid() && self.sweep.is_valid()
    }

    /// The power-up state of a pulse channel.
    pub open spec fn new_spec() -> Self {
        Pulse::<ADDER> {
            duty_cycle: 0,
            duty_seq: 0,
            envelope: Envelope::new_spec(),
            sweep: SweepUnit::<ADDER> { enabled: false, negate: false, shift: 0, period: 0, counter: 0, reload: false, timer: 0, timer_reload: 0 },
            length_counter: LengthCounter { enabled: true, halt: false, counter: 0 },
        }
    }

    /// The channel's output level (see `output`).
    pub open spec fn output_spec(&self) -> u8 {
        if duty_active(self.duty_seq + self.duty_cycle) && self.length_counter.counter > 0
            && self.sweep.timer >= 8 && self.sweep.period < 0x800 {
            if self.envelope.constant_volume { self.envelope.period } else { self.envelope.decay_counter }
        } else {
            0
        }
    }

    pub fn new() -> (r: Self)
        requires
            ADDER <= 1,
        ensures
            r.wf(),
            r == Self::new_spec(),
            r.duty_cycle == 0 && r.duty_seq == 0,
            r.envelope == Envelope::new_spec(),
            r.sweep == (SweepUnit::<ADDER> { enabled: false, negate: false, shift: 0, period: 0, counter: 0, reload: false, timer: 0, timer_reload: 0 }),
            r.length_counter == (LengthCounter { enabled: true, halt: false, counter: 0 }),
    {
        Pulse {
            duty_cycle: 0,
            duty_seq: 0,
            envelope: Envelope::new(),
            sweep: SweepUnit::new(),
            length_counter: LengthCounter::new(),
        }
    }

    /// The state that `set_dlcv` leaves.
    pub open spec fn dlcv_written(self, val: u8) -> Self {
        Pulse::<ADDER> {
            duty_seq: (val / 64 * 8) as u8,
            length_counter: LengthCounter { halt: val & 0x20 != 0, ..self.length_counter },
            envelope: Envelope {
                _loop: val & 0x20 != 0,
                constant_volume: val & 0x10 != 0,
                period: val & 0xF,
                ..self.envelope
            },
            ..self
        }
    }

    /// $4000 / $4004: DDLC VVVV (duty, envelope loop / length counter halt, constant
    /// volume, volume / envelope period).
    #[inline]
    pub fn set_dlcv(&mut self, val: u8)
        requires
            old(self).wf(),
        ensures
            final(self).wf(),
            *final(self) == old(self).dlcv_written(val),
    {
        let seq = (val & 0xC0) >> 3u8;
        assert(seq == val / 64 * 8 && seq % 8 == 0 && seq <= 24 && val & 0xF <= 15) by (bit_vector)
            requires
                seq == (val & 0xC0) >> 3u8,
        ;
        self.duty_seq = seq;
        self.length_counter.halt = (val & 0x20) != 0;
        self.envelope._loop = (val & 0x20) != 0;
        self.envelope.constant_volume = (val & 0x10) != 0;
        self.envelope.period = val & 0xF;
    }

    /// The state that `set_epns` leaves.
    pub open spec fn epns_written(self, val: u8) -> Self {
        Pulse::<ADDER> {
            sweep: SweepUnit::<ADDER> {
                enabled: val & 0x80 != 0,
                period: ((val & 0x70) / 16) as u16,
                negate: val & 8 != 0,
                shift: val & 7,
                reload: true,
                ..self.sweep
            },
            ..self
        }
    }

    /// $4001 / $4005: the sweep unit.
    #[inline]
    pub fn set_epns(&mut self, val: u8)
        requires
            old(self).wf(),
        ensures
            final(self).wf(),
            *final(self) == old(self).epns_written(val),
    {
        self.sweep.load(val);
    }

    /// The state that `set_t` leaves.
    pub open spec fn t_written(self, val: u8) -> Self {
        Pulse::<ADDER> {
            sweep: SweepUnit::<ADDER> {
                timer_reload: (self.sweep.timer_reload / 256 * 256 + val) as u16,
                ..self.sweep
            },
            ..self
        }
    }

    /// $4002 / $4006: the low 8 bits of the timer period.
    #[inline]
    pub fn set_t(&mut self, val: u8)
        requires
            old(self).wf(),
        ensures
            final(self).wf(),
            *final(self) == old(self).t_written(val),
    {
        let t = self.sweep.timer_reload;
        let r = (t & !0xFFu16) | val as u16;
        assert(r == t / 256 * 256 + val && r <= 0x7FF) by (bit_vector)
            requires
                r == (t & !0xFFu16) | val as u16,
                t <= 0x7FF,
        ;
        self.sweep.timer_reload = r;
    }

    /// The state that `set_lt` leaves.
    pub open spec fn lt_written(self, val: u8) -> Self {
        let lc = self.length_counter;
        Pulse::<ADDER> {
            envelope: Envelope { start: true, ..self.envelope },
            duty_cycle: 0,
            length_counter: if lc.enabled {
                LengthCounter { counter: length_table(val as int / 8), ..lc }
            } else {
                lc
            },
            sweep: SweepUnit::<ADDER> {
                timer_reload: (self.sweep.timer_reload % 256 + (val % 8) * 256) as u16,
                ..self.sweep
            },
            ..self
        }
    }

    /// $4003 / $4007: LLLL LTTT (length counter load, high 3 bits of the timer period);
    /// restarts the envelope and the sequencer.
    #[inline]
    pub fn set_lt(&mut self, val: u8)
        requires
            old(self).wf(),
        ensures
            final(self).wf(),
            *final(self) == old(self).lt_written(val),
    {
        self.envelope.start = true;
        self.duty_cycle = 0;
        let index = (val & 0xF8) >> 3u8;
        assert(index == val / 8 && index < 32) by (bit_vector)
            requires
                index == (val & 0xF8) >> 3u8,
        ;
        self.length_counter.load(index);
        let t = self.sweep.timer_reload;
        let r = (t & !0x700u16) | ((val & 7) as u16) << 8u16;
        assert(r == t % 256 + (val % 8) * 256 && r <= 0x7FF) by (bit_vector)
            requires
                r == (t & !0x700u16) | ((val & 7) as u16) << 8u16,
                t <= 0x7FF,
        ;
        self.sweep.timer_reload = r;
    }

    /// The state that `clock` leaves.
    pub open spec fn timer_clocked(self) -> Self {
        if self.sweep.timer > 0 {
            Pulse::<ADDER> { sweep: SweepUnit::<ADDER> { timer: (self.sweep.timer - 1) as u16, ..self.sweep }, ..self }
        } else {
            Pulse::<ADDER> {
                duty_cycle: if self.duty_cycle == 0 { 7 } else { (self.duty_cycle - 1) as u8 },
                sweep: SweepUnit::<ADDER> { timer: self.sweep.timer_reload, ..self.sweep },
                ..self
            }
        }
    }

    /// A timer clock (every other CPU cycle). When the timer expires it is reloaded and the
    /// sequencer steps: it counts down, so the waveform is read in the order 0, 7, 6, ..., 1.
    #[inline]
    pub fn clock(&mut self)
        requires
            old(self).wf(),
        ensures
            final(self).wf(),
            *final(self) == old(self).timer_clocked(),
    {
        if self.sweep.timer > 0 {
            self.sweep.timer = self.sweep.timer - 1;
        } else {
            if self.duty_cycle == 0 {
                self.duty_cycle = 7;
            } else {
                self.duty_cycle = self.duty_cycle - 1;
            }
            self.sweep.timer = self.sweep.timer_reload;
        }
    }

    /// The state that `half_frame_clock` leaves.
    pub open spec fn half_frame_clocked(self) -> Self {
        Pulse::<ADDER> { length_counter: self.length_counter.clocked(), sweep: self.sweep.clocked(), ..self }
    }

    /// A half-frame clock: the length counter and the sweep unit.
    #[inline]
    pub fn half_frame_clock(&mut self)
        requires
            old(self).wf(),
        ensures
            final(self).wf(),
            *final(self) == old(self).half_frame_clocked(),
    {
        self.length_counter.clock();
        self.sweep.clock();
    }

    /// The channel's output level: the envelope volume, except when the sequencer outputs
    /// zero, the length counter is zero or the timer is below 8.
    #[inline]
    pub fn output(&self) -> (r: u8)
        requires
            self.wf(),
        ensures
            r == (if duty_active(self.duty_seq + self.duty_cycle) && self.length_counter.counter > 0
                && self.sweep.timer >= 8 && self.sweep.period < 0x800 {
            if self.envelope.constant_volume { self.envelope.period } else { self.envelope.decay_counter }
        } else {
            0
        }),
        r <= 15,
    {
        let index = self.duty_seq | self.duty_cycle;
        let ds = self.duty_seq;
        let dc = self.duty_cycle;
        assert(index == ds + dc && index / 8 == ds / 8 && index % 8 == dc) by (bit_vector)
            requires
                index == ds | dc,
                ds % 8 == 0,
                ds <= 24,
                dc <= 7,
        ;
        let duty = index >> 3u8;
        let step = index & 7;
        assert(duty == index / 8 && step == index % 8) by (bit_vector)
            requires
                duty == index >> 3u8,
                step == index & 7,
        ;
        let active = if duty == 0 {
            step == 7
        } else if duty == 1 {
            step >= 6
        } else if duty == 2 {
            step >= 4
        } else {
            step <= 5
        };
        if active && self.length_counter.counter > 0 && self.sweep.timer >= 8 && self.sweep.period < 0x800 {
            self.envelope.get_volume()
        } else {
            0
        }
    }
}

/// The triangle channel's output for each step of its 32-step sequence.
pub open spec fn triangle_level(step: int) -> u8 {
    if step < 16 {
        (15 - step) as u8
    } else {
        (step - 16) as u8
    }
}

/// The triangle channel.
#[derive(Clone, Copy)]
pub struct Triangle {
    pub linear_counter_control: bool,
    pub linear_counter_reload: u8,
    pub linear_counter_reload_flag: bool,
    pub linear_counter: u8,
    pub timer: u16,
    pub timer_reload: u16,
    pub sequence_step: u8,
    pub length_counter: LengthCounter,
}

impl Triangle {
    /// The invariant: the sequencer is inside its 32 steps and the period has 11 bits.
    pub open spec fn wf(&self) -> bool {
        self.sequence_step < 32 && self.timer_reload <= 0x7FF
    }

    /// Whether the invariant holds.
    pub fn is_valid(&self) -> (r: bool)
        ensures
            r == self.wf(),
    {
        self.sequence_step < 32 && self.timer_reload <= 0x7FF
    }

    /// The power-up state of the triangle channel.
    pub open spec fn new_spec() -> Triangle {
        Triangle {
            linear_counter_control: false,
            linear_counter_reload: 0,
            linear_counter_reload_flag: false,
            linear_counter: 0,
            timer: 0,
            timer_reload: 0,
            sequence_step: 0,
            length_counter: LengthCounter { enabled: true, halt: false, counter: 0 },
        }
    }

    /// The channel's output level (see `output`).
    pub open spec fn output_spec(&self) -> u8 {
        if self.timer_reload < 2 { 7 } else { triangle_level(self.sequence_step as int) }
    }

    pub fn new() -> (r: Triangle)
        ensures
            r.wf(),
            r == Triangle::new_spec(),
            r == (Triangle {
                linear_counter_control: false,
                linear_counter_reload: 0,
                linear_counter_reload_flag: false,
                linear_counter: 0,
                timer: 0,
                timer_reload: 0,
                sequence_step: 0,
                length_counter: LengthCounter { enabled: true, halt: false, counter: 0 },
            }),
    {
        Triangle {
            linear_counter_control: false,
            linear_counter_reload: 0,
            linear_counter_reload_flag: false,
            linear_counter: 0,
            timer: 0,
            timer_reload: 0,
            sequence_step: 0,
            length_counter: LengthCounter::new(),
        }
    }

    /// The state that `set_c` leaves.
    pub open spec fn c_written(self, val: u8) -> Self {
        Triangle {
            linear_counter_control: val & 0x80 != 0,
            length_counter: LengthCounter { halt: val & 0x80 != 0, ..self.length_counter },
            linear_counter_reload: val & 0x7F,
            ..self
        }
    }

    /// $4008: CRRR RRRR (control flag, which is also the length counter halt flag, and the
    /// linear counter reload value).
    #[inline]
    pub fn set_c(&mut self, val: u8)
        requires
            old(self).wf(),
        ensures
            final(self).wf(),
            *final(self) == old(self).c_written(val),
    {
        self.linear_counter_control = val & 0x80 != 0;
        self.length_counter.halt = val & 0x80 != 0;
        self.linear_counter_reload = val & 0x7F;
    }

    /// The state that `set_tl` leaves.
    pub open spec fn tl_written(self, val: u8) -> Self {
        Triangle { timer_reload: (self.timer_reload / 256 * 256 + val) as u16, ..self }
    }

    /// $400A: the low 8 bits of the timer period.
    #[inline]
    pub fn set_tl(&mut self, val: u8)
        requires
            old(self).wf(),
        ensures
            final(self).wf(),
            *final(self) == old(self).tl_written(val),
    {
        let t = self.timer_reload;
        let r = (t & !0xFFu16) | val as u16;
        assert(r == t / 256 * 256 + val && r <= 0x7FF) by (bit_vector)
            requires
                r == (t & !0xFFu16) | val as u16,
                t <= 0x7FF,
        ;
        self.timer_reload = r;
    }

    /// The state that `set_l` leaves.
    pub open spec fn l_written(self, val: u8) -> Self {
        let lc = self.length_counter;
        Triangle {
            length_counter: if lc.enabled {
                LengthCounter { counter: length_table(val as int / 8), ..lc }
            } else {
                lc
            },
            timer_reload: (self.timer_reload % 256 + (val % 8) * 256) as u16,
            linear_counter_reload_flag: true,
            ..self
        }
    }

    /// $400B: LLLL LHHH (length counter load, high 3 bits of the timer period); sets the
    /// linear counter reload flag.
    #[inline]
    pub fn set_l(&mut self, val: u8)
        requires
            old(self).wf(),
        ensures
            final(self).wf(),
            *final(self) == old(self).l_written(val),
    {
        let index = (val & 0xF8) >> 3u8;
        assert(index == val / 8 && index < 32) by (bit_vector)
            requires
                index == (val & 0xF8) >> 3u8,
        ;
        self.length_counter.load(index);
        let t = self.timer_reload;
        let r = (t & !0x700u16) | ((val & 7) as u16) << 8u16;
        assert(r == t % 256 + (val % 8) * 256 && r <= 0x7FF) by (bit_vector)
            requires
                r == (t & !0x700u16) | ((val & 7) as u16) << 8u16,
                t <= 0x7FF,
        ;
        self.timer_reload = r;
        self.linear_counter_reload_flag = true;
    }

    /// The state that `clock_linear_counter` leaves.
    pub open spec fn linear_clocked(self) -> Self {
        Triangle {
            linear_counter: if self.linear_counter_reload_flag {
                self.linear_counter_reload
            } else if self.linear_counter != 0 {
                (self.linear_counter - 1) as u8
            } else {
                0
            },
            linear_counter_reload_flag: self.linear_counter_reload_flag && self.linear_counter_control,
            ..self
        }
    }

    /// A quarter-frame clock of the linear counter: reloaded while the reload flag is set,
    /// otherwise counting down to zero; the flag is cleared unless the control flag is set.
    #[inline]
    pub fn clock_linear_counter(&mut self)
        requires
            old(self).wf(),
        ensures
            final(self).wf(),
            *final(self) == old(self).linear_clocked(),
    {
        if self.linear_counter_reload_flag {
            self.linear_counter = self.linear_counter_reload;
        } else if self.linear_counter != 0 {
            self.linear_counter = self.linear_counter - 1;
        }
        if !self.linear_counter_control {
            self.linear_counter_reload_flag = false;
        }
    }

    /// The state that `clock` leaves.
    pub open spec fn timer_clocked(self) -> Self {
        if self.length_counter.counter != 0 && self.linear_counter != 0 {
            if self.timer > 0 {
                Triangle { timer: (self.timer - 1) as u16, ..self }
            } else {
                Triangle {
                    sequence_step: ((self.sequence_step + 1) % 32) as u8,
                    timer: self.timer_reload,
                    ..self
                }
            }
        } else {
            self
        }
    }

    /// A timer clock (every CPU cycle): the sequencer only advances while both counters are
    /// non-zero, wrapping after its 32 steps.
    #[inline]
    pub fn clock(&mut self)
        requires
            old(self).wf(),
        ensures
            final(self).wf(),
            *final(self) == old(self).timer_clocked(),
    {
        if self.length_counter.counter != 0 && self.linear_counter != 0 {
            if self.timer > 0 {
                self.timer = self.timer - 1;
            } else {
                self.sequence_step = self.sequence_step + 1;
                if self.sequence_step == 32 {
                    self.sequence_step = 0;
                }
                self.timer = self.timer_reload;
            }
        }
    }

    /// The channel's output level. A period of 0 or 1 (an ultrasonic frequency some games
    /// use to silence the channel) averages to 7; a silenced channel holds its last level.
    #[inline]
    pub fn output(&self) -> (r: u8)
        requires
            self.wf(),
        ensures
            r == self.output_spec(),
            r <= 15,
    {
        if self.timer_reload < 2 {
            return 7;
        }
        if self.sequence_step < 16 {
            15 - self.sequence_step
        } else {
            self.sequence_step - 16
        }
    }
}

/// The noise channel's timer periods, indexed by the low 4 bits written to $400E.
pub open spec fn noise_period(i: int) -> u16 {
    let t = seq![4u16, 8, 16, 32, 64, 96, 128, 160, 202, 254, 380, 508, 762, 1016, 2034, 4068];
    t[i]
}

/// One step of the noise channel's 15-bit shift register: the register shifts right and bit 14
/// takes bit 0 XOR bit 6 (in mode 1) or bit 0 XOR bit 1 (in mode 0).
pub open spec fn lfsr_step(reg: u16, mode: bool) -> u16 {
    let tap: u16 = if mode { 64 } else { 2 };
    (reg / 2 + 0x4000 * ((reg % 2 + (reg / tap) % 2) % 2)) as u16
}

/// The noise channel.
#[derive(Clone, Copy)]
pub struct Noise {
    pub timer_period_reload: u16,
    pub timer_period: u16,
    /// Some call this the mode flag
    pub shift_feedback_mode: bool,
    pub shift_reg: u16,
    pub envelope: Envelope,
    pub length_counter: LengthCounter,
}

impl Noise {
    /// The invariant: a non-zero 15-bit shift register and a valid envelope.
    pub open spec fn wf(&self) -> bool {
        &&& self.shift_reg != 0
        &&& self.shift_reg < 0x8000
        &&& self.envelope.wf()
    }

    /// Whether the invariant holds.
    pub fn is_valid(&self) -> (r: bool)
        ensures
            r == self.wf(),
    {
        self.shift_reg != 0 && self.shift_reg < 0x8000 && self.envelope.is_valid()
    }

    /// The power-up state of the noise channel.
    pub open spec fn new_spec() -> Noise {
        Noise {
            shift_feedback_mode: false,
            timer_period_reload: 0,
            timer_period: 0,
            shift_reg: 1,
            envelope: Envelope::new_spec(),
            length_counter: LengthCounter { enabled: true, halt: false, counter: 0 },
        }
    }

    /// The channel's output level (see `output`).
    pub open spec fn output_spec(&self) -> u8 {
        if self.shift_reg % 2 == 0 && self.length_counter.counter != 0 {
            if self.envelope.constant_volume { self.envelope.period } else { self.envelope.decay_counter }
        } else {
            0
        }
    }

    pub fn new() -> (r: Noise)
        ensures
            r.wf(),
            r == Noise::new_spec(),
            r == (Noise {
                shift_feedback_mode: false,
                timer_period_reload: 0,
                timer_period: 0,
                shift_reg: 1,
                envelope: Envelope::new_spec(),
                length_counter: LengthCounter { enabled: true, halt: false, counter: 0 },
            }),
    {
        Noise {
            shift_feedback_mode: false,
            timer_period_reload: 0,
            timer_period: 0,
            shift_reg: 1,
            envelope: Envelope::new(),
            length_counter: LengthCounter::new(),
        }
    }

    /// The state that `set_lcn` leaves.
    pub open spec fn lcn_written(self, val: u8) -> Self {
        Noise {
            length_counter: LengthCounter { halt: val & 0x20 != 0, ..self.length_counter },
            envelope: Envelope { constant_volume: val & 0x10 != 0, period: val & 0xF, ..self.envelope },
            ..self
        }
    }

    /// $400C: --LC NNNN (length counter halt, constant volume, volume / envelope period).
    #[inline]
    pub fn set_lcn(&mut self, val: u8)
        requires
            old(self).wf(),
        ensures
            final(self).wf(),
            *final(self) == old(self).lcn_written(val),
    {
        self.length_counter.halt = (val & 0x20) != 0;
        self.envelope.constant_volume = (val & 0x10) != 0;
        assert(val & 0xF <= 15) by (bit_vector);
        self.envelope.period = val & 0xF;
    }

    /// The state that `set_lp` leaves.
    pub open spec fn lp_written(self, val: u8) -> Self {
        Noise {
            shift_feedback_mode: val & 0x80 != 0,
            timer_period_reload: (noise_period((val % 16) as int) - 1) as u16,
            ..self
        }
    }

    /// $400E: L--- PPPP (mode flag, timer period from the table, minus one).
    #[inline]
    pub fn set_lp(&mut self, val: u8)
        requires
            old(self).wf(),
        ensures
            final(self).wf(),
            *final(self) == old(self).lp_written(val),
    {
        let table: [u16; 16] = [4, 8, 16, 32, 64, 96, 128, 160, 202, 254, 380, 508, 762, 1016, 2034, 4068];
        self.shift_feedback_mode = (val & 0x80) != 0;
        let index = val & 0xF;
        assert(index == val % 16) by (bit_vector)
            requires
                index == val & 0xF,
        ;
        self.timer_period_reload = table[index as usize] - 1;
    }

    /// The state that `set_l` leaves.
    pub open spec fn l_written(self, val: u8) -> Self {
        let lc = self.length_counter;
        Noise {
            envelope: Envelope { start: true, ..self.envelope },
            length_counter: if lc.enabled {
                LengthCounter { counter: length_table(val as int / 8), ..lc }
            } else {
                lc
            },
            ..self
        }
    }

    /// $400F: LLLL L--- (length counter load); restarts the envelope.
    #[inline]
    pub fn set_l(&mut self, val: u8)
        requires
            old(self).wf(),
        ensures
            final(self).wf(),
            *final(self) == old(self).l_written(val),
    {
        self.envelope.start = true;
        let index = (val & 0xF8) >> 3u8;
        assert(index == val / 8 && index < 32) by (bit_vector)
            requires
                index == (val & 0xF8) >> 3u8,
        ;
        self.length_counter.load(index);
    }

    /// The state that `clock` leaves.
    pub open spec fn timer_clocked(self) -> Self {
        if self.timer_period == 0 {
            Noise {
                timer_period: self.timer_period_reload,
                shift_reg: lfsr_step(self.shift_reg, self.shift_feedback_mode),
                ..self
            }
        } else {
            Noise { timer_period: (self.timer_period - 1) as u16, ..self }
        }
    }

    /// A timer clock: when the timer expires it is reloaded and the shift register steps.
    pub fn clock(&mut self)
        requires
            old(self).wf(),
        ensures
            final(self).wf(),
            *final(self) == old(self).timer_clocked(),
    {
        if self.timer_period == 0 {
            self.timer_period = self.timer_period_reload;
            let reg = self.shift_reg;
            let mode = self.shift_feedback_mode;
            let feedback = if mode {
                (reg & 1) ^ ((reg >> 6u16) & 1)
            } else {
                (reg & 1) ^ ((reg >> 1u16) & 1)
            };
            let next = (reg >> 1u16) | (feedback << 14u16);
            proof {
                lemma_lfsr_step(reg, mode);
            }
            let tap: u16 = if mode { 64 } else { 2 };
            assert(next == (reg / 2 + 0x4000 * ((reg % 2 + (reg / tap) % 2) % 2)) as u16) by (bit_vector)
                requires
                    mode ==> tap == 64 && feedback == (reg & 1) ^ ((reg >> 6u16) & 1),
                    !mode ==> tap == 2 && feedback == (reg & 1) ^ ((reg >> 1u16) & 1),
                    next == (reg >> 1u16) | (feedback << 14u16),
                    reg < 0x8000,
            ;
            self.shift_reg = next;
        } else {
            self.timer_period = self.timer_period - 1;
        }
    }

    /// The channel's output level: the envelope volume, except when bit 0 of the shift
    /// register is set or the length counter is zero.
    pub fn output(&self) -> (r: u8)
        requires
            self.wf(),
        ensures
            r == self.output_spec(),
            r <= 15,
    {
        let reg = self.shift_reg;
        assert((reg & 1 == 0) == (reg % 2 == 0)) by (bit_vector);
        if (reg & 1) == 0 && self.length_counter.counter != 0 {
            self.envelope.get_volume()
        } else {
            0
        }
    }
}

/// The noise channel's shift register never gets stuck: a non-zero 15-bit register stays
/// non-zero and within 15 bits after a step, in either mode.
pub proof fn lemma_lfsr_step(reg: u16, mode: bool)
    requires
        reg != 0,
        reg < 0x8000,
    ensures
        lfsr_step(reg, mode) != 0,
        lfsr_step(reg, mode) < 0x8000,
{
    let tap: u16 = if mode { 64 } else { 2 };
    assert((reg / 2 + 0x4000 * ((reg % 2 + (reg / tap) % 2) % 2)) as u16 != 0 && (reg / 2 + 0x4000 * ((reg % 2
        + (reg / tap) % 2) % 2)) as u16 <= 0x7FFF) by (bit_vector)
        requires
            reg != 0,
            reg < 0x8000,
            tap == 64 || tap == 2,
    ;
}

/// The DMC channel's registers.
#[derive(Clone, Copy)]
pub struct Dmc {
    pub irq_enable: bool,
    pub loop_sample: bool,
    pub frequency_index: u8,
    pub direct_load: u8,
    pub sample_address: u16,
    pub sample_length: u16,
}

impl Dmc {
    /// The power-up state of the DMC registers.
    pub open spec fn new_spec() -> Dmc {
        Dmc { irq_enable: false, loop_sample: false, frequency_index: 0, direct_load: 0, sample_address: 0, sample_length: 0 }
    }

    pub fn new() -> (r: Dmc)
        ensures
            r == Dmc::new_spec(),
            r == (Dmc { irq_enable: false, loop_sample: false, frequency_index: 0, direct_load: 0, sample_address: 0, sample_length: 0 }),
    {
        Dmc { irq_enable: false, loop_sample: false, frequency_index: 0, direct_load: 0, sample_address: 0, sample_length: 0 }
    }

    /// The state that `set_ilf` leaves.
    pub open spec fn ilf_written(self, val: u8) -> Self {
        Dmc {
            irq_enable: val & 0x80 != 0,
            loop_sample: val & 0x40 != 0,
            frequency_index: val & 0xF,
            ..self
        }
    }

    /// $4010: IL-- FFFF (IRQ enable, loop sample, frequency index).
    #[inline]
    pub fn set_ilf(&mut self, val: u8)
        ensures
            *final(self) == old(self).ilf_written(val),
    {
        self.irq_enable = (val & 0x80) != 0;
        self.loop_sample = (val & 0x40) != 0;
        self.frequency_index = val & 0xF;
    }

    /// The state that `set_d` leaves.
    pub open spec fn d_written(self, val: u8) -> Self {
        Dmc { direct_load: val % 128, ..self }
    }

    /// $4011: -DDD DDDD (direct load).
    #[inline]
    pub fn set_d(&mut self, val: u8)
        ensures
            *final(self) == old(self).d_written(val),
    {
        let d = val & 0x7F;
        assert(d == val % 128) by (bit_vector)
            requires
                d == val & 0x7F,
        ;
        self.direct_load = d;
    }

    /// The state that `set_a` leaves.
    pub open spec fn a_written(self, val: u8) -> Self {
        Dmc { sample_address: (0xC000 + val * 64) as u16, ..self }
    }

    /// $4012: sample address %11AAAAAA.AA000000.
    #[inline]
    pub fn set_a(&mut self, val: u8)
        ensures
            *final(self) == old(self).a_written(val),
    {
        let a = 0xC000u16 | ((val as u16) << 6u16);
        assert(a == 0xC000 + val * 64) by (bit_vector)
            requires
                a == 0xC000u16 | ((val as u16) << 6u16),
        ;
        self.sample_address = a;
    }

    /// The state that `set_l` leaves.
    pub open spec fn l_written(self, val: u8) -> Self {
        Dmc { sample_length: (val * 16 + 1) as u16, ..self }
    }

    /// $4013: sample length %0000LLLL.LLLL0001.
    #[inline]
    pub fn set_l(&mut self, val: u8)
        ensures
            *final(self) == old(self).l_written(val),
    {
        let l = 1u16 | ((val as u16) << 4u16);
        assert(l == val * 16 + 1) by (bit_vector)
            requires
                l == 1u16 | ((val as u16) << 4u16),
        ;
        self.sample_length = l;
    }
}

/// The frame counter's mode and interrupt inhibit flag.
#[derive(Clone, Copy)]
pub struct FrameCounter {
    /// true: 5-step sequence, false: 4-step sequence
    pub mode: bool,
    pub odd_cycle: bool,
    pub irq_inhibit: bool,
}

impl FrameCounter {
    /// The power-up state of the frame counter.
    pub open spec fn new_spec() -> FrameCounter {
        FrameCounter { mode: false, odd_cycle: false, irq_inhibit: true }
    }

    pub fn new() -> (r: FrameCounter)
        ensures
            r == FrameCounter::new_spec(),
            r == (FrameCounter { mode: false, odd_cycle: false, irq_inhibit: true }),
    {
        FrameCounter { mode: false, odd_cycle: false, irq_inhibit: true }
    }

    /// $4017: MI-- ---- (sequencer mode, interrupt inhibit). Setting the inhibit flag clears
    /// the frame interrupt.
    #[inline]
    pub fn set_mi(&mut self, val: u8, irq_signal: &mut bool)
        ensures
            *final(self) == (FrameCounter { mode: val & 0x80 != 0, irq_inhibit: val & 0x40 != 0, ..*old(self) }),
            *final(irq_signal) == (*old(irq_signal) && val & 0x40 == 0),
    {
        self.mode = val & 0x80 != 0;
        self.irq_inhibit = val & 0x40 != 0;
        if self.irq_inhibit {
            *irq_signal = false;
        }
    }
}

/// 2 to the power of `shift` (for shifts of at most 7).
pub open spec fn pow2_u16(shift: u8) -> u16 {
    if shift == 0 {
        1
    } else if shift == 1 {
        2
    } else if shift == 2 {
        4
    } else if shift == 3 {
        8
    } else if shift == 4 {
        16
    } else if shift == 5 {
        32
    } else if shift == 6 {
        64
    } else {
        128
    }
}

} // verus!
