use vstd::prelude::*;

pub mod addressing;
pub mod bus;
pub mod cycle;
pub mod decode;
pub mod dma;
pub mod tick;

verus! {

/// Size of the CPU's internal RAM, in bytes.
pub const RAM_SIZE: usize = 0x800;

/// The interrupt the CPU will service next.
#[derive(Clone, Copy, Debug, PartialEq, Eq, Structural)]
pub enum InterruptType {
    Nmi,
    Irq,
    Reset,
    NoInterrupt,
}

/// The state of an OAM DMA that waits for the CPU's next read cycle.
#[derive(Clone, Copy, Debug, PartialEq, Eq, Structural)]
pub enum DmaHijack {
    Request,
    Hijacked,
    Idle,
}

/// A write that an instruction makes on the CPU bus.
#[derive(Clone, Copy, Debug, PartialEq, Eq, Structural)]
pub struct BusWrite {
    pub addr: u16,
    pub val: u8,
}

/// The low 8 bits of an integer.
pub open spec fn wrap8(v: int) -> u8 {
    (v % 256) as u8
}

/// The low 16 bits of an integer.
pub open spec fn wrap16(v: int) -> u16 {
    (v % 65536) as u16
}

/// 1 for a set flag, 0 for a clear one.
pub open spec fn bit(b: bool) -> int {
    if b {
        1
    } else {
        0
    }
}

/// The two's complement value of a byte.
pub open spec fn signed8(v: u8) -> int {
    if v < 128 {
        v as int
    } else {
        v - 256
    }
}

/// Whether bit 7 of a byte is set.
pub open spec fn negative(v: u8) -> bool {
    v >= 0x80
}

/// The 6502 core of the NES (a Ricoh 2A03 without decimal mode).
pub struct Cpu {
    // registers
    pub a: u8,
    pub x: u8,
    pub y: u8,
    pub pc: u16,
    pub sp: u8,
    // flags
    pub n: bool,
    pub v: bool,
    pub i: bool,
    pub z: bool,
    pub c: bool,
    /// BCD flag: decimal mode doesn't work on the NES CPU, but the flag is kept
    /// so that the status register reads back what was written.
    pub d: bool,
    // state needed for cycle-accuracy
    pub current_instruction: u8,
    /// The cycle of the current instruction, counted from 0; see `cycle::FETCH_CYCLE`
    pub cycle: u8,
    pub odd_cycle: bool,
    /// Address bus
    pub ab: u16,
    /// Data bus
    pub db: u8,
    pub temp: u16,
    pub open_bus: u8,
    pub irq_mapper_signal: bool,
    pub irq_apu_signal: bool,
    pub nmi_signal: bool,
    /// status of the IRQ line sampled at the end of the penultimate cycle of an instruction
    pub cached_irq: bool,
    /// status of the NMI line sampled at the end of the penultimate cycle of an instruction
    pub cached_nmi: bool,
    pub reset_signal: bool,
    pub take_interrupt: bool,
    pub interrupt_type: InterruptType,
    pub dma_addr: u16,
    pub hijack_read: DmaHijack,
    pub copy_buffer: u8,
    pub dma_cycles: u16,
    /// Set when the CPU executed one of the opcodes that jam a real 6502.
    pub halt: bool,
    pub ram: Vec<u8>,
}

/// The byte that PHP and BRK push: NV1B DIZC.
pub open spec fn status_byte(n: bool, v: bool, b: bool, d: bool, i: bool, z: bool, c: bool) -> u8 {
    (bit(n) * 128 + bit(v) * 64 + 32 + bit(b) * 16 + bit(d) * 8 + bit(i) * 4 + bit(z) * 2 + bit(c)) as u8
}

/// The low byte of a 16-bit value.
pub open spec fn low_byte(t: u16) -> u8 {
    (t % 256) as u8
}

/// The address SHX and SHY write to: the low byte of `ab`, under a high byte that is `reg`
/// AND (the high byte of `ab` plus one).
pub open spec fn sh_addr(ab: u16, reg: u8) -> u16 {
    (((wrap8(ab / 256 + 1) & reg) as int) * 256 + ab % 256) as u16
}

/// The state after the last cycle of an instruction has checked the sampled interrupts.
pub open spec fn check_interrupts_spec(c: Cpu) -> Cpu {
    let irq = !c.i && c.cached_irq;
    let c1 = if irq {
        Cpu { cached_irq: false, take_interrupt: true, interrupt_type: InterruptType::Irq, ..c }
    } else {
        c
    };
    if c1.cached_nmi {
        Cpu {
            cached_nmi: false,
            nmi_signal: false,
            take_interrupt: true,
            interrupt_type: InterruptType::Nmi,
            ..c1
        }
    } else {
        c1
    }
}

/// The two's complement value of a byte, plus 128 (so that it is never negative).
fn signed_offset(v: u8) -> (r: u16)
    ensures
        r == signed8(v) + 128,
{
    if v < 128 {
        v as u16 + 128
    } else {
        v as u16 - 128
    }
}

/// The address a branch from `pc` by the signed offset `offset` goes to, within the 64 KiB
/// address space.
fn branch_target(pc: u16, offset: u8) -> (r: u16)
    ensures
        r == wrap16(pc + signed8(offset)),
{
    if offset < 128 {
        let t = pc as u32 + offset as u32;
        if t >= 65536 {
            assert(t % 65536 == t - 65536) by (nonlinear_arith)
                requires
                    65536 <= t < 131072,
            ;
            (t - 65536) as u16
        } else {
            assert(t % 65536 == t) by (nonlinear_arith)
                requires
                    0 <= t < 65536,
            ;
            t as u16
        }
    } else {
        let back = 256 - offset as u32;
        let ghost v: int = pc - back;
        if (pc as u32) >= back {
            assert(v % 65536 == v) by (nonlinear_arith)
                requires
                    0 <= v < 65536,
            ;
            (pc as u32 - back) as u16
        } else {
            assert(v % 65536 == v + 65536) by (nonlinear_arith)
                requires
                    -256 <= v < 0,
            ;
            (pc as u32 + 65536 - back) as u16
        }
    }
}

impl Cpu {
    /// The power-up state of the CPU.
    pub fn new() -> (cpu: Cpu)
        ensures
            cpu.a == 0 && cpu.x == 0 && cpu.y == 0 && cpu.pc == 0 && cpu.sp == 0xFD,
            !cpu.n && !cpu.v && !cpu.d && cpu.i && !cpu.z && !cpu.c,
            cpu.current_instruction == 0 && cpu.cycle == 0 && !cpu.odd_cycle,
            cpu.ab == 0 && cpu.db == 0 && cpu.temp == 0 && cpu.open_bus == 0,
            !cpu.cached_irq && !cpu.irq_mapper_signal && !cpu.irq_apu_signal,
            !cpu.cached_nmi && !cpu.nmi_signal && !cpu.reset_signal && !cpu.take_interrupt,
            cpu.interrupt_type == InterruptType::NoInterrupt,
            cpu.dma_cycles == 0 && cpu.hijack_read == DmaHijack::Idle,
            cpu.copy_buffer == 0 && cpu.dma_addr == 0 && !cpu.halt,
            cpu.ram@ == Seq::new(RAM_SIZE as nat, |_i: int| 0u8),
    {
        Cpu {
            a: 0,
            x: 0,
            y: 0,
            pc: 0,
            sp: 0xFD,
            n: false,
            v: false,
            d: false,
            i: true,
            z: false,
            c: false,
            current_instruction: 0,
            cycle: 0,
            odd_cycle: false,
            ab: 0,
            db: 0,
            temp: 0,
            open_bus: 0,
            cached_irq: false,
            irq_mapper_signal: false,
            irq_apu_signal: false,
            cached_nmi: false,
            nmi_signal: false,
            reset_signal: false,
            take_interrupt: false,
            interrupt_type: InterruptType::NoInterrupt,
            dma_cycles: 0,
            hijack_read: DmaHijack::Idle,
            copy_buffer: 0,
            dma_addr: 0,
            halt: false,
            ram: vec![0u8; RAM_SIZE],
        }
    }

    /// Sets the zero and negative flags from a result.
    #[inline]
    pub fn set_z_n(&mut self, num: u8)
        ensures
            *final(self) == (Cpu { z: num == 0, n: negative(num), ..*old(self) }),
    {
        self.z = num == 0;
        self.n = num >= 0x80;
    }

    /// The state `adc` leaves.
    #[verifier::opaque]
    pub open spec fn after_adc(self, num: u8) -> Cpu {
        let sum = self.a + num + bit(self.c);
        let r = wrap8(sum);
        Cpu {
            a: r,
            c: sum >= 256,
            v: !(-128 <= signed8(self.a) + signed8(num) + bit(self.c) <= 127),
            z: r == 0,
            n: negative(r),
            ..self
        }
    }

    /// ADC: add with carry.
    #[inline]
    pub fn adc(&mut self, num: u8)
        ensures
            *final(self) == old(self).after_adc(num),
    {
        proof {
            reveal(Cpu::after_adc);
        }
        let a = self.a;
        let carry_in: u16 = if self.c { 1 } else { 0 };
        let sum: u16 = a as u16 + num as u16 + carry_in;
        let result = (sum % 256) as u8;
        // the sum of the operands as signed bytes, offset by 256 to stay unsigned
        let signed_sum: u16 = signed_offset(a) + signed_offset(num) + carry_in;
        assert(carry_in == bit(self.c));
        assert(signed_sum == signed8(a) + signed8(num) + bit(self.c) + 256);
        let overflow = signed_sum < 128 || signed_sum > 383;
        assert(overflow == !(-128 <= signed8(a) + signed8(num) + bit(self.c) <= 127));
        self.a = result;
        self.v = overflow;
        self.c = sum >= 256;
        self.set_z_n(result);
    }

    /// The state `sbc` leaves.
    #[verifier::opaque]
    pub open spec fn after_sbc(self, num: u8) -> Cpu {
        let diff = self.a - num - (1 - bit(self.c));
        let r = wrap8(diff);
        Cpu {
            a: r,
            c: diff >= 0,
            v: !(-128 <= signed8(self.a) - signed8(num) - (1 - bit(self.c)) <= 127),
            z: r == 0,
            n: negative(r),
            ..self
        }
    }

    /// SBC: subtract with borrow (the carry flag is the inverted borrow).
    #[inline]
    pub fn sbc(&mut self, num: u8)
        ensures
            *final(self) == old(self).after_sbc(num),
    {
        proof {
            reveal(Cpu::after_sbc); reveal(Cpu::after_adc);
        }
        // the complement of the operand
        let inv = 255 - num;
        self.adc(inv);
    }

    /// The state `asl` leaves.
    #[verifier::opaque]
    pub open spec fn after_asl(self, num: u8) -> Cpu {
        let r = wrap8(num * 2);
        Cpu { c: negative(num), temp: r as u16, z: r == 0, n: negative(r), ..self }
    }

    /// ASL on a byte from memory; the result goes to `temp`.
    #[inline]
    pub fn asl(&mut self, num: u8)
        ensures
            *final(self) == old(self).after_asl(num),
    {
        proof {
            reveal(Cpu::after_asl);
        }
        self.c = num >= 0x80;
        let r = ((num as u16 * 2) % 256) as u8;
        self.set_z_n(r);
        self.temp = r as u16;
    }

    /// The state `asl_a` leaves.
    #[verifier::opaque]
    pub open spec fn after_asl_a(self) -> Cpu {
        let r = wrap8(self.a * 2);
        Cpu { c: negative(self.a), a: r, z: r == 0, n: negative(r), ..self }
    }

    /// ASL on the accumulator.
    #[inline]
    pub fn asl_a(&mut self)
        ensures
            *final(self) == old(self).after_asl_a(),
    {
        proof {
            reveal(Cpu::after_asl_a);
        }
        let a = self.a;
        self.c = a >= 0x80;
        let r = ((a as u16 * 2) % 256) as u8;
        self.a = r;
        self.set_z_n(r);
    }

    /// The state `lsr` leaves.
    #[verifier::opaque]
    pub open spec fn after_lsr(self, num: u8) -> Cpu {
        let r = (num / 2) as u8;
        Cpu { c: num % 2 == 1, temp: r as u16, z: r == 0, n: false, ..self }
    }

    /// LSR on a byte from memory; the result goes to `temp`.
    #[inline]
    pub fn lsr(&mut self, num: u8)
        ensures
            *final(self) == old(self).after_lsr(num),
    {
        proof {
            reveal(Cpu::after_lsr);
        }
        self.c = num % 2 == 1;
        let r = num / 2;
        self.set_z_n(r);
        self.temp = r as u16;
    }

    /// The state `lsr_a` leaves.
    #[verifier::opaque]
    pub open spec fn after_lsr_a(self) -> Cpu {
        let r = (self.a / 2) as u8;
        Cpu { c: self.a % 2 == 1, a: r, z: r == 0, n: false, ..self }
    }

    /// LSR on the accumulator.
    #[inline]
    pub fn lsr_a(&mut self)
        ensures
            *final(self) == old(self).after_lsr_a(),
    {
        proof {
            reveal(Cpu::after_lsr_a);
        }
        let a = self.a;
        self.c = a % 2 == 1;
        let r = a / 2;
        self.a = r;
        self.set_z_n(r);
    }

    /// The state `rol` leaves.
    #[verifier::opaque]
    pub open spec fn after_rol(self, num: u8) -> Cpu {
        let r = wrap8(num * 2 + bit(self.c));
        Cpu { c: negative(num), temp: r as u16, z: r == 0, n: negative(r), ..self }
    }

    /// ROL on a byte from memory; the result goes to `temp`.
    #[inline]
    pub fn rol(&mut self, num: u8)
        ensures
            *final(self) == old(self).after_rol(num),
    {
        proof {
            reveal(Cpu::after_rol);
        }
        let c: u8 = if self.c { 1 } else { 0 };
        self.c = num >= 0x80;
        let r = ((num as u16 * 2 + c as u16) % 256) as u8;
        self.set_z_n(r);
        self.temp = r as u16;
    }

    /// The state `rol_a` leaves.
    #[verifier::opaque]
    pub open spec fn after_rol_a(self) -> Cpu {
        let r = wrap8(self.a * 2 + bit(self.c));
        Cpu { c: negative(self.a), a: r, z: r == 0, n: negative(r), ..self }
    }

    /// ROL on the accumulator.
    #[inline]
    pub fn rol_a(&mut self)
        ensures
            *final(self) == old(self).after_rol_a(),
    {
        proof {
            reveal(Cpu::after_rol_a);
        }
        let a = self.a;
        let c: u8 = if self.c { 1 } else { 0 };
        self.c = a >= 0x80;
        let r = ((a as u16 * 2 + c as u16) % 256) as u8;
        self.a = r;
        self.set_z_n(r);
    }

    /// The state `ror` leaves.
    #[verifier::opaque]
    pub open spec fn after_ror(self, num: u8) -> Cpu {
        let r = (num / 2 + 128 * bit(self.c)) as u8;
        Cpu { c: num % 2 == 1, temp: r as u16, z: r == 0, n: negative(r), ..self }
    }

    /// ROR on a byte from memory; the result goes to `temp`.
    #[inline]
    pub fn ror(&mut self, num: u8)
        ensures
            *final(self) == old(self).after_ror(num),
    {
        proof {
            reveal(Cpu::after_ror);
        }
        let c: u8 = if self.c { 1 } else { 0 };
        self.c = num % 2 == 1;
        let r = num / 2 + 128 * c;
        self.set_z_n(r);
        self.temp = r as u16;
    }

    /// The state `ror_a` leaves.
    #[verifier::opaque]
    pub open spec fn after_ror_a(self) -> Cpu {
        let r = (self.a / 2 + 128 * bit(self.c)) as u8;
        Cpu { c: self.a % 2 == 1, a: r, z: r == 0, n: negative(r), ..self }
    }

    /// ROR on the accumulator.
    #[inline]
    pub fn ror_a(&mut self)
        ensures
            *final(self) == old(self).after_ror_a(),
    {
        proof {
            reveal(Cpu::after_ror_a);
        }
        let a = self.a;
        let c: u8 = if self.c { 1 } else { 0 };
        self.c = a % 2 == 1;
        let r = a / 2 + 128 * c;
        self.a = r;
        self.set_z_n(r);
    }

    /// The state `inc` leaves.
    #[verifier::opaque]
    pub open spec fn after_inc(self, num: u8) -> Cpu {
        let r = wrap8(num + 1);
        Cpu { temp: r as u16, z: r == 0, n: negative(r), ..self }
    }

    /// INC on a byte from memory; the result goes to `temp`.
    #[inline]
    pub fn inc(&mut self, num: u8)
        ensures
            *final(self) == old(self).after_inc(num),
    {
        proof {
            reveal(Cpu::after_inc);
        }
        let r = num.wrapping_add(1);
        self.set_z_n(r);
        self.temp = r as u16;
    }

    /// The state `inx` leaves.
    #[verifier::opaque]
    pub open spec fn after_inx(self) -> Cpu {
        let r = wrap8(self.x + 1);
        Cpu { x: r, z: r == 0, n: negative(r), ..self }
    }

    /// INX
    #[inline]
    pub fn inx(&mut self)
        ensures
            *final(self) == old(self).after_inx(),
    {
        proof {
            reveal(Cpu::after_inx);
        }
        self.x = self.x.wrapping_add(1);
        self.set_z_n(self.x);
    }

    /// The state `iny` leaves.
    #[verifier::opaque]
    pub open spec fn after_iny(self) -> Cpu {
        let r = wrap8(self.y + 1);
        Cpu { y: r, z: r == 0, n: negative(r), ..self }
    }

    /// INY
    #[inline]
    pub fn iny(&mut self)
        ensures
            *final(self) == old(self).after_iny(),
    {
        proof {
            reveal(Cpu::after_iny);
        }
        self.y = self.y.wrapping_add(1);
        self.set_z_n(self.y);
    }

    /// The state `dec` leaves.
    #[verifier::opaque]
    pub open spec fn after_dec(self, num: u8) -> Cpu {
        let r = wrap8(num + 255);
        Cpu { temp: r as u16, z: r == 0, n: negative(r), ..self }
    }

    /// DEC on a byte from memory; the result goes to `temp`.
    #[inline]
    pub fn dec(&mut self, num: u8)
        ensures
            *final(self) == old(self).after_dec(num),
    {
        proof {
            reveal(Cpu::after_dec);
        }
        let r = num.wrapping_sub(1);
        self.set_z_n(r);
        self.temp = r as u16;
    }

    /// The state `dex` leaves.
    #[verifier::opaque]
    pub open spec fn after_dex(self) -> Cpu {
        let r = wrap8(self.x + 255);
        Cpu { x: r, z: r == 0, n: negative(r), ..self }
    }

    /// DEX
    #[inline]
    pub fn dex(&mut self)
        ensures
            *final(self) == old(self).after_dex(),
    {
        proof {
            reveal(Cpu::after_dex);
        }
        self.x = self.x.wrapping_sub(1);
        self.set_z_n(self.x);
    }

    /// The state `dey` leaves.
    #[verifier::opaque]
    pub open spec fn after_dey(self) -> Cpu {
        let r = wrap8(self.y + 255);
        Cpu { y: r, z: r == 0, n: negative(r), ..self }
    }

    /// DEY
    #[inline]
    pub fn dey(&mut self)
        ensures
            *final(self) == old(self).after_dey(),
    {
        proof {
            reveal(Cpu::after_dey);
        }
        self.y = self.y.wrapping_sub(1);
        self.set_z_n(self.y);
    }

    /// The state `and` leaves.
    #[verifier::opaque]
    pub open spec fn after_and(self, num: u8) -> Cpu {
        let r = self.a & num;
        Cpu { a: r, z: r == 0, n: negative(r), ..self }
    }

    /// AND
    #[inline]
    pub fn and(&mut self, num: u8)
        ensures
            *final(self) == old(self).after_and(num),
    {
        proof {
            reveal(Cpu::after_and);
        }
        self.a = self.a & num;
        self.set_z_n(self.a);
    }

    /// The state `eor` leaves.
    #[verifier::opaque]
    pub open spec fn after_eor(self, num: u8) -> Cpu {
        let r = self.a ^ num;
        Cpu { a: r, z: r == 0, n: negative(r), ..self }
    }

    /// EOR
    #[inline]
    pub fn eor(&mut self, num: u8)
        ensures
            *final(self) == old(self).after_eor(num),
    {
        proof {
            reveal(Cpu::after_eor);
        }
        self.a = self.a ^ num;
        self.set_z_n(self.a);
    }

    /// The state `ora` leaves.
    #[verifier::opaque]
    pub open spec fn after_ora(self, num: u8) -> Cpu {
        let r = self.a | num;
        Cpu { a: r, z: r == 0, n: negative(r), ..self }
    }

    /// ORA
    #[inline]
    pub fn ora(&mut self, num: u8)
        ensures
            *final(self) == old(self).after_ora(num),
    {
        proof {
            reveal(Cpu::after_ora);
        }
        self.a = self.a | num;
        self.set_z_n(self.a);
    }

    /// Compares a register with a byte the way CMP, CPX and CPY do.
    #[inline]
    pub fn compare(&mut self, num: u8, reg: u8)
        ensures
            *final(self) == (Cpu {
                c: reg >= num,
                z: reg == num,
                n: negative(wrap8(reg - num)),
                ..*old(self)
            }),
    {
        self.c = reg >= num;
        let r = reg.wrapping_sub(num);
        self.z = r == 0;
        self.n = r >= 0x80;
    }

    /// The state `cmp` leaves.
    #[verifier::opaque]
    pub open spec fn after_cmp(self, num: u8) -> Cpu {
        Cpu {
            c: self.a >= num,
            z: self.a == num,
            n: negative(wrap8(self.a - num)),
            ..self
        }
    }

    /// CMP
    #[inline]
    pub fn cmp(&mut self, num: u8)
        ensures
            *final(self) == old(self).after_cmp(num),
    {
        proof {
            reveal(Cpu::after_cmp);
        }
        let a = self.a;
        self.compare(num, a);
    }

    /// The state `cpx` leaves.
    #[verifier::opaque]
    pub open spec fn after_cpx(self, num: u8) -> Cpu {
        Cpu {
            c: self.x >= num,
            z: self.x == num,
            n: negative(wrap8(self.x - num)),
            ..self
        }
    }

    /// CPX
    #[inline]
    pub fn cpx(&mut self, num: u8)
        ensures
            *final(self) == old(self).after_cpx(num),
    {
        proof {
            reveal(Cpu::after_cpx);
        }
        let x = self.x;
        self.compare(num, x);
    }

    /// The state `cpy` leaves.
    #[verifier::opaque]
    pub open spec fn after_cpy(self, num: u8) -> Cpu {
        Cpu {
            c: self.y >= num,
            z: self.y == num,
            n: negative(wrap8(self.y - num)),
            ..self
        }
    }

    /// CPY
    #[inline]
    pub fn cpy(&mut self, num: u8)
        ensures
            *final(self) == old(self).after_cpy(num),
    {
        proof {
            reveal(Cpu::after_cpy);
        }
        let y = self.y;
        self.compare(num, y);
    }

    /// The state `bit` leaves.
    #[verifier::opaque]
    pub open spec fn after_bit(self, byte: u8) -> Cpu {
        Cpu {
            z: byte & self.a == 0,
            v: byte & 0x40 != 0,
            n: negative(byte),
            ..self
        }
    }

    /// BIT
    #[inline]
    pub fn bit(&mut self, byte: u8)
        ensures
            *final(self) == old(self).after_bit(byte),
    {
        proof {
            reveal(Cpu::after_bit);
        }
        self.z = (byte & self.a) == 0;
        self.v = byte & 0x40 != 0;
        self.n = byte >= 0x80;
    }

    /// The state `clc` leaves.
    #[verifier::opaque]
    pub open spec fn after_clc(self) -> Cpu {
        Cpu { c: false, ..self }
    }

    /// CLC
    #[inline]
    pub fn clc(&mut self)
        ensures
            *final(self) == old(self).after_clc(),
    {
        proof {
            reveal(Cpu::after_clc);
        }
        self.c = false;
    }

    /// The state `sec` leaves.
    #[verifier::opaque]
    pub open spec fn after_sec(self) -> Cpu {
        Cpu { c: true, ..self }
    }

    /// SEC
    #[inline]
    pub fn sec(&mut self)
        ensures
            *final(self) == old(self).after_sec(),
    {
        proof {
            reveal(Cpu::after_sec);
        }
        self.c = true;
    }

    /// The state `cli` leaves.
    #[verifier::opaque]
    pub open spec fn after_cli(self) -> Cpu {
        Cpu { i: false, ..self }
    }

    /// CLI
    #[inline]
    pub fn cli(&mut self)
        ensures
            *final(self) == old(self).after_cli(),
    {
        proof {
            reveal(Cpu::after_cli);
        }
        self.i = false;
    }

    /// The state `sei` leaves.
    #[verifier::opaque]
    pub open spec fn after_sei(self) -> Cpu {
        Cpu { i: true, ..self }
    }

    /// SEI
    #[inline]
    pub fn sei(&mut self)
        ensures
            *final(self) == old(self).after_sei(),
    {
        proof {
            reveal(Cpu::after_sei);
        }
        self.i = true;
    }

    /// The state `cld` leaves.
    #[verifier::opaque]
    pub open spec fn after_cld(self) -> Cpu {
        Cpu { d: false, ..self }
    }

    /// CLD
    #[inline]
    pub fn cld(&mut self)
        ensures
            *final(self) == old(self).after_cld(),
    {
        proof {
            reveal(Cpu::after_cld);
        }
        self.d = false;
    }

    /// The state `sed` leaves.
    #[verifier::opaque]
    pub open spec fn after_sed(self) -> Cpu {
        Cpu { d: true, ..self }
    }

    /// SED
    #[inline]
    pub fn sed(&mut self)
        ensures
            *final(self) == old(self).after_sed(),
    {
        proof {
            reveal(Cpu::after_sed);
        }
        self.d = true;
    }

    /// The state `clv` leaves.
    #[verifier::opaque]
    pub open spec fn after_clv(self) -> Cpu {
        Cpu { v: false, ..self }
    }

    /// CLV
    #[inline]
    pub fn clv(&mut self)
        ensures
            *final(self) == old(self).after_clv(),
    {
        proof {
            reveal(Cpu::after_clv);
        }
        self.v = false;
    }

    /// The state `lda` leaves.
    #[verifier::opaque]
    pub open spec fn after_lda(self, num: u8) -> Cpu {
        Cpu { a: num, z: num == 0, n: negative(num), ..self }
    }

    /// LDA
    #[inline]
    pub fn lda(&mut self, num: u8)
        ensures
            *final(self) == old(self).after_lda(num),
    {
        proof {
            reveal(Cpu::after_lda);
        }
        self.a = num;
        self.set_z_n(num);
    }

    /// The state `ldx` leaves.
    #[verifier::opaque]
    pub open spec fn after_ldx(self, num: u8) -> Cpu {
        Cpu { x: num, z: num == 0, n: negative(num), ..self }
    }

    /// LDX
    #[inline]
    pub fn ldx(&mut self, num: u8)
        ensures
            *final(self) == old(self).after_ldx(num),
    {
        proof {
            reveal(Cpu::after_ldx);
        }
        self.x = num;
        self.set_z_n(num);
    }

    /// The state `ldy` leaves.
    #[verifier::opaque]
    pub open spec fn after_ldy(self, num: u8) -> Cpu {
        Cpu { y: num, z: num == 0, n: negative(num), ..self }
    }

    /// LDY
    #[inline]
    pub fn ldy(&mut self, num: u8)
        ensures
            *final(self) == old(self).after_ldy(num),
    {
        proof {
            reveal(Cpu::after_ldy);
        }
        self.y = num;
        self.set_z_n(num);
    }

    /// STA: the accumulator is written to the address bus.
    #[inline]
    pub fn sta(&self) -> (w: BusWrite)
        ensures
            w == (BusWrite { addr: self.ab, val: self.a }),
    {
        BusWrite { addr: self.ab, val: self.a }
    }

    /// STX: X is written to the address bus.
    #[inline]
    pub fn stx(&self) -> (w: BusWrite)
        ensures
            w == (BusWrite { addr: self.ab, val: self.x }),
    {
        BusWrite { addr: self.ab, val: self.x }
    }

    /// STY: Y is written to the address bus.
    #[inline]
    pub fn sty(&self) -> (w: BusWrite)
        ensures
            w == (BusWrite { addr: self.ab, val: self.y }),
    {
        BusWrite { addr: self.ab, val: self.y }
    }

    /// The state `tax` leaves.
    #[verifier::opaque]
    pub open spec fn after_tax(self) -> Cpu {
        Cpu { x: self.a, z: self.a == 0, n: negative(self.a), ..self }
    }

    /// TAX
    #[inline]
    pub fn tax(&mut self)
        ensures
            *final(self) == old(self).after_tax(),
    {
        proof {
            reveal(Cpu::after_tax);
        }
        self.x = self.a;
        self.set_z_n(self.x);
    }

    /// The state `tay` leaves.
    #[verifier::opaque]
    pub open spec fn after_tay(self) -> Cpu {
        Cpu { y: self.a, z: self.a == 0, n: negative(self.a), ..self }
    }

    /// TAY
    #[inline]
    pub fn tay(&mut self)
        ensures
            *final(self) == old(self).after_tay(),
    {
        proof {
            reveal(Cpu::after_tay);
        }
        self.y = self.a;
        self.set_z_n(self.y);
    }

    /// The state `tsx` leaves.
    #[verifier::opaque]
    pub open spec fn after_tsx(self) -> Cpu {
        Cpu { x: self.sp, z: self.sp == 0, n: negative(self.sp), ..self }
    }

    /// TSX
    #[inline]
    pub fn tsx(&mut self)
        ensures
            *final(self) == old(self).after_tsx(),
    {
        proof {
            reveal(Cpu::after_tsx);
        }
        self.x = self.sp;
        self.set_z_n(self.x);
    }

    /// The state `txa` leaves.
    #[verifier::opaque]
    pub open spec fn after_txa(self) -> Cpu {
        Cpu { a: self.x, z: self.x == 0, n: negative(self.x), ..self }
    }

    /// TXA
    #[inline]
    pub fn txa(&mut self)
        ensures
            *final(self) == old(self).after_txa(),
    {
        proof {
            reveal(Cpu::after_txa);
        }
        self.a = self.x;
        self.set_z_n(self.a);
    }

    /// The state `txs` leaves.
    #[verifier::opaque]
    pub open spec fn after_txs(self) -> Cpu {
        Cpu { sp: self.x, ..self }
    }

    /// TXS (flags are untouched)
    #[inline]
    pub fn txs(&mut self)
        ensures
            *final(self) == old(self).after_txs(),
    {
        proof {
            reveal(Cpu::after_txs);
        }
        self.sp = self.x;
    }

    /// The state `tya` leaves.
    #[verifier::opaque]
    pub open spec fn after_tya(self) -> Cpu {
        Cpu { a: self.y, z: self.y == 0, n: negative(self.y), ..self }
    }

    /// TYA
    #[inline]
    pub fn tya(&mut self)
        ensures
            *final(self) == old(self).after_tya(),
    {
        proof {
            reveal(Cpu::after_tya);
        }
        self.a = self.y;
        self.set_z_n(self.a);
    }

    /// The byte held in `temp` by a read-modify-write instruction.
    #[inline]
    fn temp_byte(&self) -> (b: u8)
        ensures
            b == low_byte(self.temp),
    {
        (self.temp % 256) as u8
    }

    /// AAX (also called SAX): A AND X is written to the address bus.
    #[inline]
    pub fn aax(&self) -> (w: BusWrite)
        ensures
            w == (BusWrite { addr: self.ab, val: self.a & self.x }),
    {
        BusWrite { addr: self.ab, val: self.a & self.x }
    }

    /// The state `dcp` leaves.
    #[verifier::opaque]
    pub open spec fn after_dcp(self) -> Cpu {
        let r = wrap8(low_byte(self.temp) + 255);
        Cpu {
            temp: r as u16,
            c: self.a >= r,
            z: self.a == r,
            n: negative(wrap8(self.a - r)),
            ..self
        }
    }

    /// DCP: DEC on the byte in `temp`, then CMP with the result.
    #[inline]
    pub fn dcp(&mut self)
        ensures
            *final(self) == old(self).after_dcp(),
    {
        proof {
            reveal(Cpu::after_dcp); reveal(Cpu::after_dec);
        }
        let t = self.temp_byte();
        self.dec(t);
        let r = self.temp_byte();
        let a = self.a;
        self.compare(r, a);
    }

    /// The state `isc` leaves.
    #[verifier::opaque]
    pub open spec fn after_isc(self) -> Cpu {
        let r = wrap8(low_byte(self.temp) + 1);
        let diff = self.a - r - (1 - bit(self.c));
        let res = wrap8(diff);
        Cpu {
            temp: r as u16,
            a: res,
            c: diff >= 0,
            v: !(-128 <= signed8(self.a) - signed8(r) - (1 - bit(self.c)) <= 127),
            z: res == 0,
            n: negative(res),
            ..self
        }
    }

    /// ISC: INC on the byte in `temp`, then SBC with the result.
    #[inline]
    pub fn isc(&mut self)
        ensures
            *final(self) == old(self).after_isc(),
    {
        proof {
            reveal(Cpu::after_isc); reveal(Cpu::after_sbc);
        }
        let t = self.temp_byte();
        let r = t.wrapping_add(1);
        self.temp = r as u16;
        self.sbc(r);
    }

    /// The state `lax` leaves.
    #[verifier::opaque]
    pub open spec fn after_lax(self, num: u8) -> Cpu {
        Cpu { a: num, x: num, z: num == 0, n: negative(num), ..self }
    }

    /// LAX: loads both A and X.
    #[inline]
    pub fn lax(&mut self, num: u8)
        ensures
            *final(self) == old(self).after_lax(num),
    {
        proof {
            reveal(Cpu::after_lax);
        }
        self.a = num;
        self.x = num;
        self.set_z_n(num);
    }

    /// The state `rla` leaves.
    #[verifier::opaque]
    pub open spec fn after_rla(self) -> Cpu {
        let t = low_byte(self.temp);
        let r = wrap8(t * 2 + bit(self.c));
        let res = self.a & r;
        Cpu {
            temp: r as u16,
            c: negative(t),
            a: res,
            z: res == 0,
            n: negative(res),
            ..self
        }
    }

    /// RLA: ROL on the byte in `temp`, then AND with the result.
    #[inline]
    pub fn rla(&mut self)
        ensures
            *final(self) == old(self).after_rla(),
    {
        proof {
            reveal(Cpu::after_rla); reveal(Cpu::after_rol); reveal(Cpu::after_and);
        }
        let t = self.temp_byte();
        self.rol(t);
        let r = self.temp_byte();
        self.and(r);
    }

    /// The state `rra` leaves.
    #[verifier::opaque]
    pub open spec fn after_rra(self) -> Cpu {
        let t = low_byte(self.temp);
        let r = (t / 2 + 128 * bit(self.c)) as u8;
        let carry = t % 2 == 1;
        let sum = self.a + r + bit(carry);
        let res = wrap8(sum);
        Cpu {
            temp: r as u16,
            a: res,
            c: sum >= 256,
            v: !(-128 <= signed8(self.a) + signed8(r) + bit(carry) <= 127),
            z: res == 0,
            n: negative(res),
            ..self
        }
    }

    /// RRA: ROR on the byte in `temp`, then ADC with the result.
    #[inline]
    #[verifier::rlimit(40)]
    pub fn rra(&mut self)
        ensures
            *final(self) == old(self).after_rra(),
    {
        let ghost s0 = *self;
        let t = self.temp_byte();
        self.ror(t);
        let r = self.temp_byte();
        assert(r == (t / 2 + 128 * bit(s0.c)) as u8 && self.c == (t % 2 == 1)) by {
            reveal(Cpu::after_ror);
        }
        let ghost s1 = *self;
        self.adc(r);
        proof {
            reveal(Cpu::after_rra);
            reveal(Cpu::after_ror);
            reveal(Cpu::after_adc);
            assert(*self == s1.after_adc(r));
        }
    }

    /// The state `slo` leaves.
    #[verifier::opaque]
    pub open spec fn after_slo(self) -> Cpu {
        let t = low_byte(self.temp);
        let r = wrap8(t * 2);
        let res = self.a | r;
        Cpu {
            temp: r as u16,
            c: negative(t),
            a: res,
            z: res == 0,
            n: negative(res),
            ..self
        }
    }

    /// SLO: ASL on the byte in `temp`, then ORA with the result.
    #[inline]
    pub fn slo(&mut self)
        ensures
            *final(self) == old(self).after_slo(),
    {
        proof {
            reveal(Cpu::after_slo); reveal(Cpu::after_asl); reveal(Cpu::after_ora);
        }
        let t = self.temp_byte();
        self.asl(t);
        let r = self.temp_byte();
        self.ora(r);
    }

    /// The state `sre` leaves.
    #[verifier::opaque]
    pub open spec fn after_sre(self) -> Cpu {
        let t = low_byte(self.temp);
        let r = (t / 2) as u8;
        let res = self.a ^ r;
        Cpu {
            temp: r as u16,
            c: t % 2 == 1,
            a: res,
            z: res == 0,
            n: negative(res),
            ..self
        }
    }

    /// SRE: LSR on the byte in `temp`, then EOR with the result.
    #[inline]
    pub fn sre(&mut self)
        ensures
            *final(self) == old(self).after_sre(),
    {
        proof {
            reveal(Cpu::after_sre); reveal(Cpu::after_lsr); reveal(Cpu::after_eor);
        }
        let t = self.temp_byte();
        self.lsr(t);
        let r = self.temp_byte();
        self.eor(r);
    }

    /// The state `anc` leaves.
    #[verifier::opaque]
    pub open spec fn after_anc(self, num: u8) -> Cpu {
        let res = self.a & num;
        Cpu { a: res, z: res == 0, n: negative(res), c: negative(res), ..self }
    }

    /// ANC: AND, then the carry takes the sign of the result.
    #[inline]
    pub fn anc(&mut self, num: u8)
        ensures
            *final(self) == old(self).after_anc(num),
    {
        proof {
            reveal(Cpu::after_anc); reveal(Cpu::after_and);
        }
        self.and(num);
        self.c = self.n;
    }

    /// The state `alr` leaves.
    #[verifier::opaque]
    pub open spec fn after_alr(self, num: u8) -> Cpu {
        let m = self.a & num;
        let res = (m / 2) as u8;
        Cpu { a: res, c: m % 2 == 1, z: res == 0, n: false, ..self }
    }

    /// ALR: AND, then LSR on the accumulator.
    #[inline]
    pub fn alr(&mut self, num: u8)
        ensures
            *final(self) == old(self).after_alr(num),
    {
        proof {
            reveal(Cpu::after_alr);
        }
        let m = self.a & num;
        self.c = m % 2 == 1;
        let res = m / 2;
        self.a = res;
        self.set_z_n(res);
    }

    /// The state `axs` leaves.
    #[verifier::opaque]
    pub open spec fn after_axs(self, num: u8) -> Cpu {
        let m = self.x & self.a;
        let res = wrap8(m - num);
        Cpu { x: res, c: m >= num, z: res == 0, n: negative(res), ..self }
    }

    /// AXS: X takes A AND X minus the operand, without borrow; the carry is set as by CMP.
    #[inline]
    pub fn axs(&mut self, num: u8)
        ensures
            *final(self) == old(self).after_axs(num),
    {
        proof {
            reveal(Cpu::after_axs);
        }
        let m = self.x & self.a;
        self.c = m >= num;
        let res = m.wrapping_sub(num);
        self.x = res;
        self.set_z_n(res);
    }

    /// The state `xaa` leaves.
    #[verifier::opaque]
    pub open spec fn after_xaa(self, num: u8) -> Cpu {
        let res = (self.a | 0xEE) & self.x & num;
        Cpu { a: res, z: res == 0, n: negative(res), ..self }
    }

    /// XAA: A takes (A OR 0xEE) AND X AND the operand.
    #[inline]
    pub fn xaa(&mut self, num: u8)
        ensures
            *final(self) == old(self).after_xaa(num),
    {
        proof {
            reveal(Cpu::after_xaa);
        }
        let res = (self.a | 0xEE) & self.x & num;
        self.a = res;
        self.set_z_n(res);
    }

    /// AHX: A AND X AND (the high byte of the address plus one) is written to the address bus.
    #[inline]
    pub fn ahx(&self) -> (w: BusWrite)
        ensures
            w == (BusWrite { addr: self.ab, val: self.a & self.x & wrap8(self.ab / 256 + 1) }),
    {
        let ab = self.ab;
        let hi = ab / 256;
        let h = ((hi + 1) % 256) as u8;
        BusWrite { addr: self.ab, val: self.a & self.x & h }
    }

    /// SHX: X is written to an address whose high byte is X AND (the high byte of the
    /// address plus one).
    #[inline]
    pub fn shx(&self) -> (w: BusWrite)
        ensures
            w == (BusWrite { addr: sh_addr(self.ab, self.x), val: self.x }),
    {
        BusWrite { addr: self.sh_target(self.x), val: self.x }
    }

    /// SHY: Y is written to an address whose high byte is Y AND (the high byte of the
    /// address plus one).
    #[inline]
    pub fn shy(&self) -> (w: BusWrite)
        ensures
            w == (BusWrite { addr: sh_addr(self.ab, self.y), val: self.y }),
    {
        BusWrite { addr: self.sh_target(self.y), val: self.y }
    }

    /// The address that SHX and SHY write to.
    #[inline]
    fn sh_target(&self, reg: u8) -> (addr: u16)
        ensures
            addr == sh_addr(self.ab, reg),
    {
        let ab = self.ab;
        let h = (((ab / 256 + 1) % 256) as u8) & reg;
        (h as u16) * 256 + ab % 256
    }

    /// The state `las` leaves.
    #[verifier::opaque]
    pub open spec fn after_las(self, val: u8) -> Cpu {
        let res = self.sp & val;
        Cpu { sp: res, a: res, x: res, z: res == 0, n: negative(res), ..self }
    }

    /// LAS: SP takes SP AND the operand, and A and X take the result.
    #[inline]
    pub fn las(&mut self, val: u8)
        ensures
            *final(self) == old(self).after_las(val),
    {
        proof {
            reveal(Cpu::after_las);
        }
        let res = self.sp & val;
        self.sp = res;
        self.a = res;
        self.x = res;
        self.set_z_n(res);
    }

    /// TAS: SP takes A AND X, and SP AND (the high byte of the address plus one) is written
    /// to the address bus.
    #[inline]
    pub fn tas(&mut self) -> (w: BusWrite)
        ensures
            *final(self) == (Cpu { sp: old(self).a & old(self).x, ..*old(self) }),
            w == (BusWrite { addr: old(self).ab, val: old(self).a & old(self).x & wrap8(old(self).ab / 256 + 1) }),
    {
        let sp = self.a & self.x;
        self.sp = sp;
        let ab = self.ab;
        // the high byte plus one, kept to 8 bits: a page of 0x100 gives no bits to SP
        let result = sp & (((ab / 256 + 1) % 256) as u8);
        BusWrite { addr: ab, val: result }
    }

    /// The state `arr` leaves.
    #[verifier::opaque]
    pub open spec fn after_arr(self, num: u8) -> Cpu {
        let m = self.a & num;
        let res = (m / 2 + 128 * bit(self.c)) as u8;
        Cpu {
            a: res,
            z: res == 0,
            n: negative(res),
            c: (res / 64) % 2 == 1,
            v: ((res / 64) % 2 == 1) != ((res / 32) % 2 == 1),
            ..self
        }
    }

    /// ARR: AND, then ROR on the accumulator; C takes bit 6 of the result and V takes bit 6
    /// XOR bit 5.
    #[inline]
    pub fn arr(&mut self, num: u8)
        ensures
            *final(self) == old(self).after_arr(num),
    {
        proof {
            reveal(Cpu::after_arr); reveal(Cpu::after_and); reveal(Cpu::after_ror_a);
        }
        self.and(num);
        self.ror_a();
        let a = self.a;
        let c = (a / 64) % 2 == 1;
        let b5 = (a / 32) % 2 == 1;
        self.c = c;
        self.v = c != b5;
    }

    /// The state `halt` leaves.
    #[verifier::opaque]
    pub open spec fn after_halt(self) -> Cpu {
        Cpu { halt: true, ..self }
    }

    /// The opcodes that jam a real 6502 stop the CPU.
    #[inline]
    pub fn halt(&mut self)
        ensures
            *final(self) == old(self).after_halt(),
    {
        proof {
            reveal(Cpu::after_halt);
        }
        self.halt = true;
    }

    /// Samples the interrupt lines, as the CPU does at the end of the penultimate cycle of an
    /// instruction.
    #[inline]
    pub fn cache_interrupts(&mut self)
        ensures
            *final(self) == (Cpu {
                cached_irq: old(self).irq_mapper_signal || old(self).irq_apu_signal,
                cached_nmi: old(self).nmi_signal,
                ..*old(self)
            }),
    {
        self.cached_irq = self.irq_mapper_signal || self.irq_apu_signal;
        self.cached_nmi = self.nmi_signal;
    }

    /// Decides, on the last cycle of an instruction, whether an interrupt is taken next: a
    /// sampled IRQ when interrupts are enabled, and a sampled NMI in any case, NMI winning.
    #[inline]
    pub fn check_interrupts(&mut self)
        ensures
            *final(self) == check_interrupts_spec(*old(self)),
    {
        if !self.i && self.cached_irq {
            self.cached_irq = false;
            self.take_interrupt = true;
            self.interrupt_type = InterruptType::Irq;
        }
        if self.cached_nmi {
            self.cached_nmi = false;
            self.nmi_signal = false;
            self.take_interrupt = true;
            self.interrupt_type = InterruptType::Nmi;
        }
    }

    /// The vector that an interrupt sequence jumps through. An NMI that is asserted while a
    /// BRK or IRQ sequence runs hijacks it.
    #[inline]
    pub fn interrupt_address(&self) -> (addr: u16)
        ensures
            addr == (if self.nmi_signal {
                0xFFFAu16
            } else {
                match self.interrupt_type {
                    InterruptType::Nmi => 0xFFFAu16,
                    InterruptType::Reset => 0xFFFCu16,
                    _ => 0xFFFEu16,
                }
            }),
    {
        if self.nmi_signal {
            return 0xFFFA;
        }
        match self.interrupt_type {
            InterruptType::Irq | InterruptType::NoInterrupt => 0xFFFE,
            InterruptType::Nmi => 0xFFFA,
            InterruptType::Reset => 0xFFFC,
        }
    }

    /// Puts the stack pointer on the address bus; the stack lives in page 1.
    #[inline]
    pub fn sp_to_ab(&mut self)
        ensures
            *final(self) == (Cpu { ab: (0x100 + old(self).sp) as u16, ..*old(self) }),
    {
        let sp = self.sp;
        self.ab = 0x100 + sp as u16;
    }

    /// Adds the signed branch offset in `temp` to PC; `temp` then tells whether the branch
    /// crossed a page, which costs one more cycle.
    #[inline]
    pub fn take_branch(&mut self)
        ensures
            ({
                let pc = wrap16(old(self).pc + signed8(low_byte(old(self).temp)));
                *final(self) == (Cpu {
                    pc: pc,
                    temp: if old(self).pc / 256 != pc / 256 { 1u16 } else { 0u16 },
                    ..*old(self)
                })
            }),
    {
        let offset = self.temp_byte();
        let pc_before = self.pc;
        let pc = branch_target(pc_before, offset);
        let crosses = pc_before / 256 != pc / 256;
        self.pc = pc;
        self.temp = if crosses { 1 } else { 0 };
    }

    /// PHP and BRK push the status register with the B flag set; an interrupt pushes it with
    /// the B flag clear.
    #[inline]
    pub fn push_status(&self, brk_php: bool) -> (w: BusWrite)
        ensures
            w == (BusWrite {
                addr: self.ab,
                val: status_byte(self.n, self.v, brk_php, self.d, self.i, self.z, self.c),
            }),
    {
        let flag = |b: bool| -> (r: u8)
            ensures
                r == bit(b),
        {
            if b {
                1
            } else {
                0
            }
        };
        let status: u8 = flag(self.n) * 128 + flag(self.v) * 64 + 32 + flag(brk_php) * 16 + flag(self.d) * 8
            + flag(self.i) * 4 + flag(self.z) * 2 + flag(self.c);
        BusWrite { addr: self.ab, val: status }
    }

    /// PLP and RTI pull the status register; bits 5 and 4 are not flags.
    #[inline]
    pub fn pull_status(&mut self, status: u8)
        ensures
            *final(self) == (Cpu {
                n: status & 0x80 != 0,
                v: status & 0x40 != 0,
                d: status & 0x08 != 0,
                i: status & 0x04 != 0,
                z: status & 0x02 != 0,
                c: status & 0x01 != 0,
                ..*old(self)
            }),
    {
        self.n = status & 0x80 != 0;
        self.v = status & 0x40 != 0;
        self.d = status & 0x08 != 0;
        self.i = status & 0x04 != 0;
        self.z = status & 0x02 != 0;
        self.c = status & 0x01 != 0;
    }

    /// The opcode fetch that ends every instruction: when an interrupt is to be taken, the
    /// fetched byte is replaced by BRK (opcode 0) and PC does not move.
    #[inline]
    pub fn load_next_instruction(&mut self, opcode: u8)
        ensures
            ({
                let pc = if old(self).take_interrupt { old(self).pc } else { wrap16(old(self).pc + 1) };
                *final(self) == (Cpu {
                    current_instruction: if old(self).take_interrupt { 0u8 } else { opcode },
                    pc: pc,
                    ab: pc,
                    ..*old(self)
                })
            }),
    {
        let step: u8 = if self.take_interrupt { 0 } else { 1 };
        self.current_instruction = step * opcode;
        self.pc = self.pc.wrapping_add(step as u16);
        self.ab = self.pc;
    }
}

} // verus!

verus! {

/// Pulling the byte that PHP pushed gives back every flag: bit 7 holds N, bit 6 V,
/// bit 3 D, bit 2 I, bit 1 Z and bit 0 C; bit 5 is always set and bit 4 is the B flag.
pub proof fn lemma_status_roundtrip(n: bool, v: bool, b: bool, d: bool, i: bool, z: bool, c: bool)
    ensures
        ({
            let s = status_byte(n, v, b, d, i, z, c);
            &&& (s & 0x80 != 0) == n
            &&& (s & 0x40 != 0) == v
            &&& (s & 0x20 != 0)
            &&& (s & 0x10 != 0) == b
            &&& (s & 0x08 != 0) == d
            &&& (s & 0x04 != 0) == i
            &&& (s & 0x02 != 0) == z
            &&& (s & 0x01 != 0) == c
        }),
{
    let nb: u8 = if n { 1 } else { 0 };
    let vb: u8 = if v { 1 } else { 0 };
    let bb: u8 = if b { 1 } else { 0 };
    let db: u8 = if d { 1 } else { 0 };
    let ib: u8 = if i { 1 } else { 0 };
    let zb: u8 = if z { 1 } else { 0 };
    let cb: u8 = if c { 1 } else { 0 };
    let s: u8 = (nb * 128 + vb * 64 + 32 + bb * 16 + db * 8 + ib * 4 + zb * 2 + cb) as u8;
    assert(s == status_byte(n, v, b, d, i, z, c));
    assert({
        &&& (s & 0x80 != 0) == (nb == 1)
        &&& (s & 0x40 != 0) == (vb == 1)
        &&& (s & 0x20 != 0)
        &&& (s & 0x10 != 0) == (bb == 1)
        &&& (s & 0x08 != 0) == (db == 1)
        &&& (s & 0x04 != 0) == (ib == 1)
        &&& (s & 0x02 != 0) == (zb == 1)
        &&& (s & 0x01 != 0) == (cb == 1)
    }) by (bit_vector)
        requires
            nb <= 1 && vb <= 1 && bb <= 1 && db <= 1 && ib <= 1 && zb <= 1 && cb <= 1,
            s == (nb * 128 + vb * 64 + 32 + bb * 16 + db * 8 + ib * 4 + zb * 2 + cb) as u8,
    ;
}

/// ROR undoes ROL: rotating a byte left through the carry and then right through the
/// carry gives back both the byte and the carry.
pub proof fn lemma_ror_undoes_rol(val: u8, c: bool)
    ensures
        ({
            let r = wrap8(val * 2 + bit(c));
            let c1 = negative(val);
            &&& (r / 2 + 128 * bit(c1)) as u8 == val
            &&& (r % 2 == 1) == c
        }),
{
}

/// ROL undoes ROR: rotating a byte right through the carry and then left through the
/// carry gives back both the byte and the carry.
pub proof fn lemma_rol_undoes_ror(val: u8, c: bool)
    ensures
        ({
            let r = (val / 2 + 128 * bit(c)) as u8;
            let c1 = val % 2 == 1;
            &&& wrap8(r * 2 + bit(c1)) == val
            &&& negative(r) == c
        }),
{
}

/// ADC is exact: the new accumulator and the carry out together hold the full sum
/// of the accumulator, the operand and the carry in.
pub proof fn lemma_adc_exact(a: u8, m: u8, c: bool)
    ensures
        ({
            let sum = a + m + bit(c);
            wrap8(sum) + 256 * bit(sum >= 256) == sum
        }),
{
}

/// SBC with the carry set is exact subtraction: the new accumulator minus 256 times the
/// borrow (the cleared carry) equals the accumulator minus the operand.
pub proof fn lemma_sbc_exact(a: u8, m: u8)
    ensures
        ({
            let diff = a - m - (1 - bit(true));
            wrap8(diff) - 256 * bit(!(diff >= 0)) == a - m
        }),
{
}

} // verus!
