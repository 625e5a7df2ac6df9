use fearless_nes::apu::units::{Envelope, LengthCounter, Noise, Pulse, SweepUnit, Triangle};
use fearless_nes::apu::blip_buf::BlipBuf;
use fearless_nes::apu::Apu;

#[test]
fn length_counter_loads_and_counts_down() {
    let mut lc = LengthCounter::new();
    lc.load(1);
    assert_eq!(lc.counter, 254);
    lc.clock();
    assert_eq!(lc.counter, 253);
    lc.halt = true;
    lc.clock();
    assert_eq!(lc.counter, 253);
    lc.enabled = false;
    lc.load(3);
    assert_eq!(lc.counter, 253);
    lc.clock();
    assert_eq!(lc.counter, 0);
}

#[test]
fn length_counter_never_goes_up_when_clocked() {
    for c in 0..=255u8 {
        for (enabled, halt) in [(false, false), (true, false), (true, true)] {
            let mut lc = LengthCounter { enabled, halt, counter: c };
            lc.clock();
            assert!(lc.counter <= c);
        }
    }
}

#[test]
fn envelope_constant_volume() {
    let mut e = Envelope::new();
    e.constant_volume = true;
    e.period = 9;
    assert_eq!(e.get_volume(), 9);
}

#[test]
fn noise_shift_register() {
    let mut n = Noise::new();
    assert_eq!(n.shift_reg, 1);
    // a period of 0 clocks the shift register on every timer clock
    n.set_lp(0x00);
    n.clock();
    // feedback = bit 0 XOR bit 1 = 1, shifted into bit 14
    assert_eq!(n.shift_reg, 0x4000);
    assert!(n.shift_reg != 0);
}

#[test]
fn pulse_register_writes() {
    let mut p: Pulse<1> = Pulse::new();
    p.set_dlcv(0b1011_0101);
    assert_eq!(p.duty_seq, 16);
    assert!(p.length_counter.halt);
    assert!(p.envelope.constant_volume);
    assert_eq!(p.envelope.period, 5);
    p.set_t(0x34);
    p.set_lt(0b0000_1010);
    assert_eq!(p.sweep.timer_reload, 0x234);
    assert_eq!(p.length_counter.counter, 254);
}

#[test]
fn triangle_linear_counter() {
    let mut t = Triangle::new();
    t.set_c(0x85);
    t.set_l(0x08);
    assert!(t.linear_counter_reload_flag);
    t.clock_linear_counter();
    assert_eq!(t.linear_counter, 5);
}

#[test]
fn status_register() {
    let mut apu = Apu::new();
    let mut irq = true;
    // frame interrupts start inhibited, which bit 6 shows; the read clears the flag
    assert_eq!(apu.read_status(&mut irq), 0x40);
    assert!(!irq);
    assert_eq!(apu.read_status(&mut irq), 0);
    apu.write_reg(0x4015, 0x0F, &mut irq);
    apu.write_reg(0x4003, 0x08, &mut irq);
    apu.write_reg(0x400F, 0x08, &mut irq);
    assert_eq!(apu.read_status(&mut irq), 0x09);
    apu.write_reg(0x4015, 0x00, &mut irq);
    assert_eq!(apu.read_status(&mut irq), 0x00);
}

#[test]
fn samples_every_forty_cycles() {
    let mut apu = Apu::new();
    let mut irq = false;
    let mut ready = 0;
    for _ in 0..400 {
        if apu.tick(&mut irq) {
            ready += 1;
        }
    }
    assert_eq!(ready, 10);
}

#[test]
fn frame_interrupt_in_four_step_mode() {
    let mut apu = Apu::new();
    let mut irq = false;
    apu.write_reg(0x4017, 0x00, &mut irq);
    for _ in 0..29827 {
        apu.tick(&mut irq);
    }
    assert!(!irq);
    apu.tick(&mut irq);
    assert!(irq);
    // inhibited by bit 6 of $4017
    let mut apu = Apu::new();
    let mut irq = false;
    apu.write_reg(0x4017, 0x40, &mut irq);
    for _ in 0..29830 {
        apu.tick(&mut irq);
    }
    assert!(!irq);
}

#[test]
fn blip_buf_starts_empty() {
    let b = BlipBuf::<64>::from_factor(1 << 48);
    assert_eq!(b.factor, 1 << 48);
    assert_eq!(b.offset, 0x8000_0000);
    assert_eq!(b.available, 0);
    assert!(b.buf.iter().all(|&v| v == 0));
}

#[test]
fn blip_buf_silence_stays_silent() {
    assert_eq!(BlipBuf::<64>::from_factor(1 << 48).integrator, 0);
    let mut b = BlipBuf::<64>::from_factor(1 << 48);
    for _ in 0..32 {
        b.add_sample(0);
    }
    let mut out = Vec::new();
    b.end_frame(&mut out);
    assert_eq!(out, vec![0, 0]);
    assert_eq!(b.time, 0);
    assert_eq!(b.available, 0);
}

#[test]
fn blip_buf_step_is_band_limited() {
    let mut b = BlipBuf::<64>::from_factor(110968677908897);
    for t in 0..400 {
        b.add_sample(if t >= 100 { 1000 } else { 0 });
    }
    let mut out = Vec::new();
    b.end_frame(&mut out);
    assert_eq!(out, vec![0, 0, 0, 1, -2, 3, 2, 3, 31]);
    assert_eq!(b.offset, 3855076664707984);
    assert_eq!(b.integrator, 575332);
    assert_eq!(
        &b.buf[..10],
        &[16639702, 15330506, -885409, 1093557, -132333, 75508, 90787, -50776, 28694, 0]
    );
}

#[test]
fn blip_buf_set_factor_changes_only_the_factor() {
    let mut b = BlipBuf::<64>::from_factor(1 << 48);
    b.add_sample(5);
    let time = b.time;
    b.set_factor(1 << 47);
    assert_eq!(b.factor, 1 << 47);
    assert_eq!(b.time, time);
    assert_eq!(b.last_sample, 5);
}

#[test]
fn apu_state_is_valid_until_pushed_out_of_range() {
    let mut apu = Apu::new();
    assert!(apu.is_valid());
    let mut irq = false;
    for _ in 0..100 {
        apu.tick(&mut irq);
    }
    apu.write_reg(0x4002, 0xFF, &mut irq);
    apu.write_reg(0x4003, 0xFF, &mut irq);
    assert!(apu.is_valid());
    apu.triangle.sequence_step = 32;
    assert!(!apu.is_valid());
    apu.triangle.sequence_step = 0;
    apu.noise.shift_reg = 0;
    assert!(!apu.is_valid());
}

#[test]
fn sweep_divider_reloads_with_its_period() {
    let mut s: SweepUnit<1> = SweepUnit::new();
    // enabled, period 3, shift 1
    s.load(0b1011_0001);
    assert_eq!(s.period, 3);
    assert!(s.reload);
    s.clock();
    assert_eq!(s.counter, 3);
    assert!(!s.reload);
    s.clock();
    assert_eq!(s.counter, 2);
    s.clock();
    s.clock();
    assert_eq!(s.counter, 0);
    s.clock();
    assert_eq!(s.counter, 3);
}
