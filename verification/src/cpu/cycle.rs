use vstd::prelude::*;

use crate::cpu::decode::{decode, execute_spec, instruction_of, AddressingMode, Instruction, Operation};
use crate::cpu::{check_interrupts_spec, low_byte, status_byte, wrap16, Cpu, DmaHijack, InterruptType};

verus! {

/// The cycle in which the CPU fetches the next opcode; the cycles of an instruction are
/// numbered from 0 and never reach it.
pub const FETCH_CYCLE: u8 = 7;

/// What the CPU does on the bus in one cycle.
#[derive(Clone, Copy, Debug, PartialEq, Eq, Structural)]
pub enum CpuAccess {
    Read(u16),
    Write(u16, u8),
    /// No access: the writes of a BRK that a reset runs are suppressed
    Idle,
}

/// The shape of a cycle: what happens on the bus, and what the interrupt lines see before.
#[derive(Clone, Copy, Debug, PartialEq, Eq, Structural)]
pub enum CycleKind {
    /// A read of the address bus
    Read,
    /// A read, after the interrupt lines are sampled (the second-to-last cycle)
    ReadCache,
    /// A read, after the sampled interrupts are checked (the last cycle)
    ReadCheck,
    /// The first write of a read-modify-write: the unmodified byte, after the lines are sampled
    WriteTempCache,
    /// The second write of a read-modify-write: the modified byte, after the interrupt check
    WriteTempCheck,
    /// The write of a store instruction, after the interrupt check
    Store,
    /// JSR pushes the high byte of the program counter
    PushPcHigh,
    /// JSR pushes the low byte of the program counter, after the lines are sampled
    PushPcLowCache,
    /// BRK pushes the high byte of the program counter, unless a reset runs it
    BrkPushPcHigh,
    /// BRK pushes the low byte of the program counter, unless a reset runs it
    BrkPushPcLow,
    /// BRK pushes the status with the B flag, unless a reset runs it
    BrkPushStatus,
    /// PHA pushes the accumulator, after the interrupt check
    PushA,
    /// PHP pushes the status with the B flag, after the interrupt check
    PushStatus,
    /// The fetch of the next opcode, after the lines are sampled
    Fetch,
}

/// Whether a cycle of this shape reads the bus.
pub open spec fn reads(k: CycleKind) -> bool {
    k is Read || k is ReadCache || k is ReadCheck || k is Fetch
}

/// The state after the interrupt lines are sampled.
pub open spec fn cached(c: Cpu) -> Cpu {
    Cpu { cached_irq: c.irq_mapper_signal || c.irq_apu_signal, cached_nmi: c.nmi_signal, ..c }
}

/// Whether BRK skips its writes: a reset runs it.
pub open spec fn brk_silent(c: Cpu) -> bool {
    c.take_interrupt && c.reset_signal
}

impl Cpu {
    /// The low byte of an address was read: it waits in `temp` and the program counter moves on.
    pub open spec fn after_fetch_low(self) -> Cpu {
        let pc = wrap16(self.pc + 1);
        Cpu { temp: self.db as u16, pc: pc, ab: pc, ..self }
    }

    /// A zero page address was read: it goes on the address bus.
    pub open spec fn after_fetch_zp(self) -> Cpu {
        Cpu { ab: self.db as u16, pc: wrap16(self.pc + 1), ..self }
    }

    /// The high byte of an address was read: with the low byte in `temp` it goes on the bus.
    pub open spec fn after_fetch_high(self) -> Cpu {
        Cpu { ab: ((self.db as u16) << 8u16) | self.temp, pc: wrap16(self.pc + 1), ..self }
    }

    /// The high byte of a base address was read: the index is added to the low byte, without
    /// the carry into the high byte.
    pub open spec fn after_fetch_high_indexed(self, r: u8) -> Cpu {
        Cpu {
            ab: ((self.db as u16) << 8u16) | (((self.temp + r) % 256) as u16),
            pc: wrap16(self.pc + 1),
            ..self
        }
    }

    /// The index is added to a zero page address, which stays in the zero page.
    pub open spec fn after_zp_index(self, r: u8) -> Cpu {
        Cpu { ab: ((self.ab + r) % 256) as u16, ..self }
    }

    /// The carry of an indexed address goes into its high byte.
    pub open spec fn after_page_fix(self) -> Cpu {
        Cpu { ab: if self.ab >= 0xFF00 { (self.ab - 0xFF00) as u16 } else { (self.ab + 0x100) as u16 }, ..self }
    }

    /// The carry goes into the high byte where the index crossed a page.
    pub open spec fn after_page_fix_if(self, r: u8) -> Cpu {
        if self.temp + r >= 0x100 { self.after_page_fix() } else { self }
    }

    /// The byte read waits in `temp`.
    pub open spec fn after_keep_db(self) -> Cpu {
        Cpu { temp: self.db as u16, ..self }
    }

    /// The low byte of a pointer was read from the zero page; the high byte follows it there.
    pub open spec fn after_pointer_low(self) -> Cpu {
        Cpu { temp: self.db as u16, ab: ((self.ab + 1) % 256) as u16, ..self }
    }

    /// The high byte of a pointer was read: the pointer goes on the bus.
    pub open spec fn after_pointer_high(self) -> Cpu {
        Cpu { ab: ((self.db as u16) << 8u16) | self.temp, ..self }
    }

    /// The high byte of a pointer was read: the pointer plus Y goes on the bus, without the
    /// carry into the high byte.
    pub open spec fn after_pointer_high_indexed(self) -> Cpu {
        Cpu { ab: ((self.db as u16) << 8u16) | (((self.temp + self.y) % 256) as u16), ..self }
    }

    /// The low byte of an indirect jump's target was read; the high byte comes from the next
    /// address in the same page.
    pub open spec fn after_indirect_low(self) -> Cpu {
        Cpu { temp: self.db as u16, ab: ((self.ab / 256) * 256 + (self.ab % 256 + 1) % 256) as u16, ..self }
    }

    /// The high byte of a jump's target was read: the program continues there.
    pub open spec fn after_jump(self) -> Cpu {
        let pc = ((self.db as u16) << 8u16) | self.temp;
        Cpu { pc: pc, ab: pc, ..self }
    }

    /// The program counter goes back on the address bus.
    pub open spec fn after_to_pc(self) -> Cpu {
        Cpu { ab: self.pc, ..self }
    }

    /// The program counter moves on by one.
    pub open spec fn after_step_pc(self) -> Cpu {
        Cpu { pc: wrap16(self.pc + 1), ..self }
    }

    /// The stack pointer goes on the address bus.
    pub open spec fn after_sp_to_ab(self) -> Cpu {
        Cpu { ab: (0x100 + self.sp) as u16, ..self }
    }

    /// A byte is pulled from the stack.
    pub open spec fn after_sp_inc(self) -> Cpu {
        Cpu { sp: if self.sp == 255 { 0u8 } else { (self.sp + 1) as u8 }, ..self }
    }

    /// A byte is pushed on the stack.
    pub open spec fn after_sp_dec(self) -> Cpu {
        Cpu { sp: if self.sp == 0 { 255u8 } else { (self.sp - 1) as u8 }, ..self }
    }

    /// BRK skips its operand, but not when an interrupt runs it.
    pub open spec fn after_brk_step_pc(self) -> Cpu {
        if self.take_interrupt { self } else { self.after_step_pc() }
    }

    /// BRK puts the address of its vector on the bus, and the interrupt is taken.
    pub open spec fn after_brk_vector(self) -> Cpu {
        let vector: u16 = if self.nmi_signal {
            0xFFFA
        } else {
            match self.interrupt_type {
                InterruptType::Nmi => 0xFFFA,
                InterruptType::Reset => 0xFFFC,
                _ => 0xFFFE,
            }
        };
        Cpu { ab: vector, take_interrupt: false, interrupt_type: InterruptType::NoInterrupt, ..self }
    }

    /// The low byte of the vector was read; the high byte follows, and interrupts are masked.
    pub open spec fn after_brk_vector_low(self) -> Cpu {
        Cpu { temp: self.db as u16, ab: wrap16(self.ab + 1), i: true, ..self }
    }

    /// The status byte read sets the flags.
    pub open spec fn after_pull_status_db(self) -> Cpu {
        Cpu {
            n: self.db & 0x80 != 0,
            v: self.db & 0x40 != 0,
            d: self.db & 0x08 != 0,
            i: self.db & 0x04 != 0,
            z: self.db & 0x02 != 0,
            c: self.db & 0x01 != 0,
            ..self
        }
    }

    /// The operation runs on the byte read.
    #[verifier::opaque]
    pub open spec fn after_op_db(self, op: Operation) -> Cpu {
        execute_spec(self, op, self.db).0
    }

    /// The operation runs on the byte in `temp`.
    #[verifier::opaque]
    pub open spec fn after_op_temp(self, op: Operation) -> Cpu {
        execute_spec(self, op, low_byte(self.temp)).0
    }

    /// The state after a branch was taken: the offset in `temp` is added to the program
    /// counter, and `temp` tells whether that crossed a page.
    pub open spec fn after_branch(self) -> Cpu {
        let pc = wrap16(self.pc + crate::cpu::signed8(low_byte(self.temp)));
        Cpu { pc: pc, temp: if self.pc / 256 != pc / 256 { 1u16 } else { 0u16 }, ..self }
    }

    /// The state after the opcode fetch: an interrupt that is to be taken runs BRK in its
    /// place, without moving the program counter.
    pub open spec fn after_fetch(self) -> Cpu {
        let pc = if self.take_interrupt { self.pc } else { wrap16(self.pc + 1) };
        Cpu {
            current_instruction: if self.take_interrupt { 0u8 } else { self.db },
            pc: pc,
            ab: pc,
            cycle: 0,
            ..self
        }
    }
}

/// `v + 1`, wrapping at the end of the address space.
fn inc16(v: u16) -> (r: u16)
    ensures
        r == wrap16(v + 1),
{
    if v == 0xFFFF {
        0
    } else {
        v + 1
    }
}

impl Cpu {
    fn fetch_low(&mut self)
        ensures
            *final(self) == old(self).after_fetch_low(),
    {
        self.temp = self.db as u16;
        self.pc = inc16(self.pc);
        self.ab = self.pc;
    }

    fn fetch_zp(&mut self)
        ensures
            *final(self) == old(self).after_fetch_zp(),
    {
        self.ab = self.db as u16;
        self.pc = inc16(self.pc);
    }

    fn fetch_high(&mut self)
        ensures
            *final(self) == old(self).after_fetch_high(),
    {
        self.ab = ((self.db as u16) << 8u16) | self.temp;
        self.pc = inc16(self.pc);
    }

    fn fetch_high_indexed(&mut self, r: u8)
        ensures
            *final(self) == old(self).after_fetch_high_indexed(r),
    {
        let low = ((self.temp as u32 + r as u32) % 256) as u16;
        self.ab = ((self.db as u16) << 8u16) | low;
        self.pc = inc16(self.pc);
    }

    fn zp_index(&mut self, r: u8)
        ensures
            *final(self) == old(self).after_zp_index(r),
    {
        self.ab = ((self.ab as u32 + r as u32) % 256) as u16;
    }

    fn page_fix(&mut self)
        ensures
            *final(self) == old(self).after_page_fix(),
    {
        self.ab = if self.ab >= 0xFF00 { self.ab - 0xFF00 } else { self.ab + 0x100 };
    }

    fn page_fix_if(&mut self, r: u8)
        ensures
            *final(self) == old(self).after_page_fix_if(r),
    {
        if self.temp as u32 + r as u32 >= 0x100 {
            self.page_fix();
        }
    }

    fn keep_db(&mut self)
        ensures
            *final(self) == old(self).after_keep_db(),
    {
        self.temp = self.db as u16;
    }

    fn pointer_low(&mut self)
        ensures
            *final(self) == old(self).after_pointer_low(),
    {
        self.temp = self.db as u16;
        self.ab = ((self.ab as u32 + 1) % 256) as u16;
    }

    fn pointer_high(&mut self)
        ensures
            *final(self) == old(self).after_pointer_high(),
    {
        self.ab = ((self.db as u16) << 8u16) | self.temp;
    }

    fn pointer_high_indexed(&mut self)
        ensures
            *final(self) == old(self).after_pointer_high_indexed(),
    {
        let low = ((self.temp as u32 + self.y as u32) % 256) as u16;
        self.ab = ((self.db as u16) << 8u16) | low;
    }

    fn indirect_low(&mut self)
        ensures
            *final(self) == old(self).after_indirect_low(),
    {
        self.temp = self.db as u16;
        self.ab = ((self.ab as u32 / 256) * 256 + (self.ab as u32 % 256 + 1) % 256) as u16;
    }

    fn jump(&mut self)
        ensures
            *final(self) == old(self).after_jump(),
    {
        self.pc = ((self.db as u16) << 8u16) | self.temp;
        self.ab = self.pc;
    }

    fn to_pc(&mut self)
        ensures
            *final(self) == old(self).after_to_pc(),
    {
        self.ab = self.pc;
    }

    fn step_pc(&mut self)
        ensures
            *final(self) == old(self).after_step_pc(),
    {
        self.pc = inc16(self.pc);
    }

    fn sp_inc(&mut self)
        ensures
            *final(self) == old(self).after_sp_inc(),
    {
        self.sp = if self.sp == 255 { 0 } else { self.sp + 1 };
    }

    fn sp_dec(&mut self)
        ensures
            *final(self) == old(self).after_sp_dec(),
    {
        self.sp = if self.sp == 0 { 255 } else { self.sp - 1 };
    }

    fn brk_step_pc(&mut self)
        ensures
            *final(self) == old(self).after_brk_step_pc(),
    {
        if !self.take_interrupt {
            self.step_pc();
        }
    }

    fn brk_vector(&mut self)
        ensures
            *final(self) == old(self).after_brk_vector(),
    {
        self.ab = self.interrupt_address();
        self.take_interrupt = false;
        self.interrupt_type = InterruptType::NoInterrupt;
    }

    fn brk_vector_low(&mut self)
        ensures
            *final(self) == old(self).after_brk_vector_low(),
    {
        self.temp = self.db as u16;
        self.ab = inc16(self.ab);
        self.i = true;
    }

    fn op_db(&mut self, op: Operation)
        ensures
            *final(self) == old(self).after_op_db(op),
    {
        proof {
            reveal(Cpu::after_op_db);
        }
        let v = self.db;
        self.execute(op, v);
    }

    fn op_temp(&mut self, op: Operation)
        ensures
            *final(self) == old(self).after_op_temp(op),
    {
        proof {
            reveal(Cpu::after_op_temp);
        }
        let v = (self.temp % 256) as u8;
        self.execute(op, v);
    }
}
/// The shape of the cycle `cycle` of an instruction in the addressing mode `mode`; from
/// `FETCH_CYCLE` on, the fetch of the next opcode.
#[verifier::opaque]
pub open spec fn cycle_kind(mode: AddressingMode, cycle: u8) -> CycleKind {
    if cycle >= FETCH_CYCLE {
        CycleKind::Fetch
    } else {
        match mode {
            AddressingMode::Implied => {
                if cycle == 0 {
                    CycleKind::ReadCheck
                } else {
                    CycleKind::Read
                }
            },
            AddressingMode::Accumulator => {
                if cycle == 0 {
                    CycleKind::ReadCheck
                } else {
                    CycleKind::Read
                }
            },
            AddressingMode::Immediate => {
                if cycle == 0 {
                    CycleKind::ReadCheck
                } else {
                    CycleKind::Read
                }
            },
            AddressingMode::ZeroPage => {
                if cycle == 0 {
                    CycleKind::ReadCache
                } else if cycle == 1 {
                    CycleKind::ReadCheck
                } else {
                    CycleKind::Read
                }
            },
            AddressingMode::ZeroPageX => {
                if cycle == 0 {
                    CycleKind::Read
                } else if cycle == 1 {
                    CycleKind::ReadCache
                } else if cycle == 2 {
                    CycleKind::ReadCheck
                } else {
                    CycleKind::Read
                }
            },
            AddressingMode::ZeroPageY => {
                if cycle == 0 {
                    CycleKind::Read
                } else if cycle == 1 {
                    CycleKind::ReadCache
                } else if cycle == 2 {
                    CycleKind::ReadCheck
                } else {
                    CycleKind::Read
                }
            },
            AddressingMode::ZeroPageSt => {
                if cycle == 0 {
                    CycleKind::ReadCache
                } else if cycle == 1 {
                    CycleKind::Store
                } else {
                    CycleKind::Read
                }
            },
            AddressingMode::ZeroPageXSt => {
                if cycle == 0 {
                    CycleKind::Read
                } else if cycle == 1 {
                    CycleKind::ReadCache
                } else if cycle == 2 {
                    CycleKind::Store
                } else {
                    CycleKind::Read
                }
            },
            AddressingMode::ZeroPageYSt => {
                if cycle == 0 {
                    CycleKind::Read
                } else if cycle == 1 {
                    CycleKind::ReadCache
                } else if cycle == 2 {
                    CycleKind::Store
                } else {
                    CycleKind::Read
                }
            },
            AddressingMode::ZeroPageRmw => {
                if cycle == 0 {
                    CycleKind::Read
                } else if cycle == 1 {
                    CycleKind::Read
                } else if cycle == 2 {
                    CycleKind::WriteTempCache
                } else if cycle == 3 {
                    CycleKind::WriteTempCheck
                } else {
                    CycleKind::Read
                }
            },
            AddressingMode::ZeroPageXRmw => {
                if cycle == 0 {
                    CycleKind::Read
                } else if cycle == 1 {
                    CycleKind::Read
                } else if cycle == 2 {
                    CycleKind::Read
                } else if cycle == 3 {
                    CycleKind::WriteTempCache
                } else if cycle == 4 {
                    CycleKind::WriteTempCheck
                } else {
                    CycleKind::Read
                }
            },
            AddressingMode::Relative => {
                if cycle == 0 {
                    CycleKind::ReadCheck
                } else if cycle == 1 {
                    CycleKind::ReadCache
                } else if cycle == 2 {
                    CycleKind::ReadCheck
                } else {
                    CycleKind::Read
                }
            },
            AddressingMode::Absolute => {
                if cycle == 0 {
                    CycleKind::Read
                } else if cycle == 1 {
                    CycleKind::ReadCache
                } else if cycle == 2 {
                    CycleKind::ReadCheck
                } else {
                    CycleKind::Read
                }
            },
            AddressingMode::AbsoluteJmp => {
                if cycle == 0 {
                    CycleKind::ReadCache
                } else if cycle == 1 {
                    CycleKind::ReadCheck
                } else {
                    CycleKind::Read
                }
            },
            AddressingMode::AbsoluteSt => {
                if cycle == 0 {
                    CycleKind::Read
                } else if cycle == 1 {
                    CycleKind::ReadCache
                } else if cycle == 2 {
                    CycleKind::Store
                } else {
                    CycleKind::Read
                }
            },
            AddressingMode::AbsoluteRmw => {
                if cycle == 0 {
                    CycleKind::Read
                } else if cycle == 1 {
                    CycleKind::Read
                } else if cycle == 2 {
                    CycleKind::Read
                } else if cycle == 3 {
                    CycleKind::WriteTempCache
                } else if cycle == 4 {
                    CycleKind::WriteTempCheck
                } else {
                    CycleKind::Read
                }
            },
            AddressingMode::AbsoluteX => {
                if cycle == 0 {
                    CycleKind::Read
                } else if cycle == 1 {
                    CycleKind::ReadCache
                } else if cycle == 2 {
                    CycleKind::ReadCache
                } else if cycle == 3 {
                    CycleKind::ReadCheck
                } else {
                    CycleKind::Read
                }
            },
            AddressingMode::AbsoluteY => {
                if cycle == 0 {
                    CycleKind::Read
                } else if cycle == 1 {
                    CycleKind::ReadCache
                } else if cycle == 2 {
                    CycleKind::ReadCache
                } else if cycle == 3 {
                    CycleKind::ReadCheck
                } else {
                    CycleKind::Read
                }
            },
            AddressingMode::AbsoluteXSt => {
                if cycle == 0 {
                    CycleKind::Read
                } else if cycle == 1 {
                    CycleKind::Read
                } else if cycle == 2 {
                    CycleKind::ReadCache
                } else if cycle == 3 {
                    CycleKind::Store
                } else {
                    CycleKind::Read
                }
            },
            AddressingMode::AbsoluteYSt => {
                if cycle == 0 {
                    CycleKind::Read
                } else if cycle == 1 {
                    CycleKind::Read
                } else if cycle == 2 {
                    CycleKind::ReadCache
                } else if cycle == 3 {
                    CycleKind::Store
                } else {
                    CycleKind::Read
                }
            },
            AddressingMode::AbsoluteXRmw => {
                if cycle == 0 {
                    CycleKind::Read
                } else if cycle == 1 {
                    CycleKind::Read
                } else if cycle == 2 {
                    CycleKind::Read
                } else if cycle == 3 {
                    CycleKind::Read
                } else if cycle == 4 {
                    CycleKind::WriteTempCache
                } else if cycle == 5 {
                    CycleKind::WriteTempCheck
                } else {
                    CycleKind::Read
                }
            },
            AddressingMode::AbsoluteYIllegal => {
                if cycle == 0 {
                    CycleKind::Read
                } else if cycle == 1 {
                    CycleKind::Read
                } else if cycle == 2 {
                    CycleKind::Read
                } else if cycle == 3 {
                    CycleKind::Read
                } else if cycle == 4 {
                    CycleKind::WriteTempCache
                } else if cycle == 5 {
                    CycleKind::WriteTempCheck
                } else {
                    CycleKind::Read
                }
            },
            AddressingMode::Indirect => {
                if cycle == 0 {
                    CycleKind::Read
                } else if cycle == 1 {
                    CycleKind::Read
                } else if cycle == 2 {
                    CycleKind::ReadCache
                } else if cycle == 3 {
                    CycleKind::ReadCheck
                } else {
                    CycleKind::Read
                }
            },
            AddressingMode::IndirectX => {
                if cycle == 0 {
                    CycleKind::Read
                } else if cycle == 1 {
                    CycleKind::Read
                } else if cycle == 2 {
                    CycleKind::Read
                } else if cycle == 3 {
                    CycleKind::ReadCache
                } else if cycle == 4 {
                    CycleKind::ReadCheck
                } else {
                    CycleKind::Read
                }
            },
            AddressingMode::IndirectXSt => {
                if cycle == 0 {
                    CycleKind::Read
                } else if cycle == 1 {
                    CycleKind::Read
                } else if cycle == 2 {
                    CycleKind::Read
                } else if cycle == 3 {
                    CycleKind::ReadCache
                } else if cycle == 4 {
                    CycleKind::Store
                } else {
                    CycleKind::Read
                }
            },
            AddressingMode::IndirectXIllegal => {
                if cycle == 0 {
                    CycleKind::Read
                } else if cycle == 1 {
                    CycleKind::Read
                } else if cycle == 2 {
                    CycleKind::Read
                } else if cycle == 3 {
                    CycleKind::Read
                } else if cycle == 4 {
                    CycleKind::Read
                } else if cycle == 5 {
                    CycleKind::WriteTempCache
                } else if cycle == 6 {
                    CycleKind::WriteTempCheck
                } else {
                    CycleKind::Read
                }
            },
            AddressingMode::IndirectY => {
                if cycle == 0 {
                    CycleKind::Read
                } else if cycle == 1 {
                    CycleKind::Read
                } else if cycle == 2 {
                    CycleKind::ReadCache
                } else if cycle == 3 {
                    CycleKind::ReadCache
                } else if cycle == 4 {
                    CycleKind::ReadCheck
                } else {
                    CycleKind::Read
                }
            },
            AddressingMode::IndirectYSt => {
                if cycle == 0 {
                    CycleKind::Read
                } else if cycle == 1 {
                    CycleKind::Read
                } else if cycle == 2 {
                    CycleKind::Read
                } else if cycle == 3 {
                    CycleKind::ReadCache
                } else if cycle == 4 {
                    CycleKind::Store
                } else {
                    CycleKind::Read
                }
            },
            AddressingMode::IndirectYIllegal => {
                if cycle == 0 {
                    CycleKind::Read
                } else if cycle == 1 {
                    CycleKind::Read
                } else if cycle == 2 {
                    CycleKind::Read
                } else if cycle == 3 {
                    CycleKind::Read
                } else if cycle == 4 {
                    CycleKind::Read
                } else if cycle == 5 {
                    CycleKind::WriteTempCache
                } else if cycle == 6 {
                    CycleKind::WriteTempCheck
                } else {
                    CycleKind::Read
                }
            },
            AddressingMode::Jsr => {
                if cycle == 0 {
                    CycleKind::Read
                } else if cycle == 1 {
                    CycleKind::Read
                } else if cycle == 2 {
                    CycleKind::PushPcHigh
                } else if cycle == 3 {
                    CycleKind::PushPcLowCache
                } else if cycle == 4 {
                    CycleKind::ReadCheck
                } else {
                    CycleKind::Read
                }
            },
            AddressingMode::Brk => {
                if cycle == 0 {
                    CycleKind::Read
                } else if cycle == 1 {
                    CycleKind::BrkPushPcHigh
                } else if cycle == 2 {
                    CycleKind::BrkPushPcLow
                } else if cycle == 3 {
                    CycleKind::BrkPushStatus
                } else if cycle == 4 {
                    CycleKind::Read
                } else if cycle == 5 {
                    CycleKind::Read
                } else {
                    CycleKind::Read
                }
            },
            AddressingMode::Rti => {
                if cycle == 0 {
                    CycleKind::Read
                } else if cycle == 1 {
                    CycleKind::Read
                } else if cycle == 2 {
                    CycleKind::Read
                } else if cycle == 3 {
                    CycleKind::ReadCache
                } else if cycle == 4 {
                    CycleKind::ReadCheck
                } else {
                    CycleKind::Read
                }
            },
            AddressingMode::Rts => {
                if cycle == 0 {
                    CycleKind::Read
                } else if cycle == 1 {
                    CycleKind::Read
                } else if cycle == 2 {
                    CycleKind::Read
                } else if cycle == 3 {
                    CycleKind::ReadCache
                } else if cycle == 4 {
                    CycleKind::ReadCheck
                } else {
                    CycleKind::Read
                }
            },
            AddressingMode::Pha => {
                if cycle == 0 {
                    CycleKind::ReadCache
                } else if cycle == 1 {
                    CycleKind::PushA
                } else {
                    CycleKind::Read
                }
            },
            AddressingMode::Php => {
                if cycle == 0 {
                    CycleKind::ReadCache
                } else if cycle == 1 {
                    CycleKind::PushStatus
                } else {
                    CycleKind::Read
                }
            },
            AddressingMode::Pla => {
                if cycle == 0 {
                    CycleKind::Read
                } else if cycle == 1 {
                    CycleKind::ReadCache
                } else if cycle == 2 {
                    CycleKind::ReadCheck
                } else {
                    CycleKind::Read
                }
            },
            AddressingMode::Plp => {
                if cycle == 0 {
                    CycleKind::Read
                } else if cycle == 1 {
                    CycleKind::ReadCache
                } else if cycle == 2 {
                    CycleKind::ReadCheck
                } else {
                    CycleKind::Read
                }
            },
        }
    }
}

/// Whether the branch of the instruction `op` is taken in the state `c`.
pub open spec fn taken(c: Cpu, op: Operation) -> bool {
    match op {
        Operation::Branch(flag, value) => crate::cpu::decode::branch_taken_spec(c, flag, value),
        _ => false,
    }
}

/// A cycle that moves on to `next`, after which the operation runs on the byte read.
#[verifier::opaque]
pub open spec fn run_op_db(c: Cpu, inst: Instruction, next: u8) -> Cpu {
    Cpu { cycle: next, ..c }.after_op_db(inst.op)
}

/// A cycle that moves on to `next`, after which the operation runs on the byte read, then the program counter moves on, then the program counter goes on the bus.
#[verifier::opaque]
pub open spec fn run_op_db_step_pc_to_pc(c: Cpu, inst: Instruction, next: u8) -> Cpu {
    Cpu { cycle: next, ..c }.after_op_db(inst.op).after_step_pc().after_to_pc()
}

/// A cycle that moves on to `next`, after which a zero page address was read.
#[verifier::opaque]
pub open spec fn run_fetch_zp(c: Cpu, inst: Instruction, next: u8) -> Cpu {
    Cpu { cycle: next, ..c }.after_fetch_zp()
}

/// A cycle that moves on to `next`, after which the operation runs on the byte read, then the program counter goes on the bus.
#[verifier::opaque]
pub open spec fn run_op_db_to_pc(c: Cpu, inst: Instruction, next: u8) -> Cpu {
    Cpu { cycle: next, ..c }.after_op_db(inst.op).after_to_pc()
}

/// A cycle that moves on to `next`, after which X is added to the zero page address.
#[verifier::opaque]
pub open spec fn run_zp_index_x(c: Cpu, inst: Instruction, next: u8) -> Cpu {
    Cpu { cycle: next, ..c }.after_zp_index(c.x)
}

/// A cycle that moves on to `next`, after which Y is added to the zero page address.
#[verifier::opaque]
pub open spec fn run_zp_index_y(c: Cpu, inst: Instruction, next: u8) -> Cpu {
    Cpu { cycle: next, ..c }.after_zp_index(c.y)
}

/// A cycle that moves on to `next`, after which the program counter goes on the bus.
#[verifier::opaque]
pub open spec fn run_to_pc(c: Cpu, inst: Instruction, next: u8) -> Cpu {
    Cpu { cycle: next, ..c }.after_to_pc()
}

/// A cycle that moves on to `next`, after which the byte read waits in `temp`.
#[verifier::opaque]
pub open spec fn run_keep_db(c: Cpu, inst: Instruction, next: u8) -> Cpu {
    Cpu { cycle: next, ..c }.after_keep_db()
}

/// A cycle that moves on to `next`, after which the operation runs on the byte in `temp`.
#[verifier::opaque]
pub open spec fn run_op_temp(c: Cpu, inst: Instruction, next: u8) -> Cpu {
    Cpu { cycle: next, ..c }.after_op_temp(inst.op)
}

/// A cycle that moves on to `next`, after which the low byte of an address was read.
#[verifier::opaque]
pub open spec fn run_fetch_low(c: Cpu, inst: Instruction, next: u8) -> Cpu {
    Cpu { cycle: next, ..c }.after_fetch_low()
}

/// A cycle that moves on to `next`, after which the high byte of an address was read.
#[verifier::opaque]
pub open spec fn run_fetch_high(c: Cpu, inst: Instruction, next: u8) -> Cpu {
    Cpu { cycle: next, ..c }.after_fetch_high()
}

/// A cycle that moves on to `next`, after which the program jumps.
#[verifier::opaque]
pub open spec fn run_jump(c: Cpu, inst: Instruction, next: u8) -> Cpu {
    Cpu { cycle: next, ..c }.after_jump()
}

/// A cycle that moves on to `next`, after which the carry goes into the high byte.
#[verifier::opaque]
pub open spec fn run_page_fix(c: Cpu, inst: Instruction, next: u8) -> Cpu {
    Cpu { cycle: next, ..c }.after_page_fix()
}

/// A cycle that moves on to `next`, after which the high byte was read, X added to the low byte.
#[verifier::opaque]
pub open spec fn run_fetch_high_x(c: Cpu, inst: Instruction, next: u8) -> Cpu {
    Cpu { cycle: next, ..c }.after_fetch_high_indexed(c.x)
}

/// A cycle that moves on to `next`, after which the carry of X goes into the high byte.
#[verifier::opaque]
pub open spec fn run_page_fix_if_x(c: Cpu, inst: Instruction, next: u8) -> Cpu {
    Cpu { cycle: next, ..c }.after_page_fix_if(c.x)
}

/// A cycle that moves on to `next`, after which the high byte was read, Y added to the low byte.
#[verifier::opaque]
pub open spec fn run_fetch_high_y(c: Cpu, inst: Instruction, next: u8) -> Cpu {
    Cpu { cycle: next, ..c }.after_fetch_high_indexed(c.y)
}

/// A cycle that moves on to `next`, after which the carry of Y goes into the high byte.
#[verifier::opaque]
pub open spec fn run_page_fix_if_y(c: Cpu, inst: Instruction, next: u8) -> Cpu {
    Cpu { cycle: next, ..c }.after_page_fix_if(c.y)
}

/// A cycle that moves on to `next`, after which the high byte of a pointer was read.
#[verifier::opaque]
pub open spec fn run_pointer_high(c: Cpu, inst: Instruction, next: u8) -> Cpu {
    Cpu { cycle: next, ..c }.after_pointer_high()
}

/// A cycle that moves on to `next`, after which the low byte of a jump target was read.
#[verifier::opaque]
pub open spec fn run_indirect_low(c: Cpu, inst: Instruction, next: u8) -> Cpu {
    Cpu { cycle: next, ..c }.after_indirect_low()
}

/// A cycle that moves on to `next`, after which the low byte of a pointer was read.
#[verifier::opaque]
pub open spec fn run_pointer_low(c: Cpu, inst: Instruction, next: u8) -> Cpu {
    Cpu { cycle: next, ..c }.after_pointer_low()
}

/// A cycle that moves on to `next`, after which the high byte of a pointer was read, Y added to the low byte.
#[verifier::opaque]
pub open spec fn run_pointer_high_indexed(c: Cpu, inst: Instruction, next: u8) -> Cpu {
    Cpu { cycle: next, ..c }.after_pointer_high_indexed()
}

/// A cycle that moves on to `next`, after which the byte read waits in `temp`, then the program counter moves on, then the stack pointer goes on the bus.
#[verifier::opaque]
pub open spec fn run_keep_db_step_pc_sp_to_ab(c: Cpu, inst: Instruction, next: u8) -> Cpu {
    Cpu { cycle: next, ..c }.after_keep_db().after_step_pc().after_sp_to_ab()
}

/// A cycle that moves on to `next`, after which the stack pointer moves down.
#[verifier::opaque]
pub open spec fn run_sp_dec(c: Cpu, inst: Instruction, next: u8) -> Cpu {
    Cpu { cycle: next, ..c }.after_sp_dec()
}

/// A cycle that moves on to `next`, after which the stack pointer goes on the bus, then the stack pointer moves down.
#[verifier::opaque]
pub open spec fn run_sp_to_ab_sp_dec(c: Cpu, inst: Instruction, next: u8) -> Cpu {
    Cpu { cycle: next, ..c }.after_sp_to_ab().after_sp_dec()
}

/// A cycle that moves on to `next`, after which BRK skips its operand, then the stack pointer goes on the bus, then the stack pointer moves down.
#[verifier::opaque]
pub open spec fn run_brk_step_pc_sp_to_ab_sp_dec(c: Cpu, inst: Instruction, next: u8) -> Cpu {
    Cpu { cycle: next, ..c }.after_brk_step_pc().after_sp_to_ab().after_sp_dec()
}

/// A cycle that moves on to `next`, after which the vector goes on the bus.
#[verifier::opaque]
pub open spec fn run_brk_vector(c: Cpu, inst: Instruction, next: u8) -> Cpu {
    Cpu { cycle: next, ..c }.after_brk_vector()
}

/// A cycle that moves on to `next`, after which the low byte of the vector was read.
#[verifier::opaque]
pub open spec fn run_brk_vector_low(c: Cpu, inst: Instruction, next: u8) -> Cpu {
    Cpu { cycle: next, ..c }.after_brk_vector_low()
}

/// A cycle that moves on to `next`, after which the stack pointer goes on the bus.
#[verifier::opaque]
pub open spec fn run_sp_to_ab(c: Cpu, inst: Instruction, next: u8) -> Cpu {
    Cpu { cycle: next, ..c }.after_sp_to_ab()
}

/// A cycle that moves on to `next`, after which the stack pointer moves up, then the stack pointer goes on the bus.
#[verifier::opaque]
pub open spec fn run_sp_inc_sp_to_ab(c: Cpu, inst: Instruction, next: u8) -> Cpu {
    Cpu { cycle: next, ..c }.after_sp_inc().after_sp_to_ab()
}

/// A cycle that moves on to `next`, after which the byte read sets the flags, then the stack pointer moves up, then the stack pointer goes on the bus.
#[verifier::opaque]
pub open spec fn run_pull_status_db_sp_inc_sp_to_ab(c: Cpu, inst: Instruction, next: u8) -> Cpu {
    Cpu { cycle: next, ..c }.after_pull_status_db().after_sp_inc().after_sp_to_ab()
}

/// A cycle that moves on to `next`, after which the byte read waits in `temp`, then the stack pointer moves up, then the stack pointer goes on the bus.
#[verifier::opaque]
pub open spec fn run_keep_db_sp_inc_sp_to_ab(c: Cpu, inst: Instruction, next: u8) -> Cpu {
    Cpu { cycle: next, ..c }.after_keep_db().after_sp_inc().after_sp_to_ab()
}

/// A cycle that moves on to `next`, after which the program counter moves on, then the program counter goes on the bus.
#[verifier::opaque]
pub open spec fn run_step_pc_to_pc(c: Cpu, inst: Instruction, next: u8) -> Cpu {
    Cpu { cycle: next, ..c }.after_step_pc().after_to_pc()
}

/// A cycle that moves on to `next`, after which the byte read is loaded into A, then the program counter goes on the bus.
#[verifier::opaque]
pub open spec fn run_lda_db_to_pc(c: Cpu, inst: Instruction, next: u8) -> Cpu {
    Cpu { cycle: next, ..c }.after_op_db(Operation::Lda).after_to_pc()
}

/// A cycle that moves on to `next`, after which the byte read sets the flags, then the program counter goes on the bus.
#[verifier::opaque]
pub open spec fn run_pull_status_db_to_pc(c: Cpu, inst: Instruction, next: u8) -> Cpu {
    Cpu { cycle: next, ..c }.after_pull_status_db().after_to_pc()
}

/// The cycle 0 of `Relative`: the byte read waits in `temp`, then the program counter moves on, then the program counter goes on the bus; the instruction ends unless the branch is taken.
#[verifier::opaque]
pub open spec fn relative_cycle_0(c: Cpu, inst: Instruction) -> Cpu {
    let after = c.after_keep_db().after_step_pc().after_to_pc();
    Cpu { cycle: if taken(c, inst.op) { 1u8 } else { FETCH_CYCLE }, ..after }
}

/// The cycle 1 of `Relative`: the branch is taken, then the program counter goes on the bus; the instruction ends unless the branch crossed a page.
#[verifier::opaque]
pub open spec fn relative_cycle_1(c: Cpu, inst: Instruction) -> Cpu {
    let after = c.after_branch().after_to_pc();
    Cpu { cycle: if after.temp == 0 { FETCH_CYCLE } else { 2u8 }, ..after }
}

/// The cycle 1 of `AbsoluteX`: the high byte was read, X added to the low byte; the cycle after it is skipped unless X crossed a page.
#[verifier::opaque]
pub open spec fn absolute_x_cycle_1(c: Cpu, inst: Instruction) -> Cpu {
    let after = c.after_fetch_high_indexed(c.x);
    Cpu { cycle: if c.temp + c.x >= 0x100 { 2u8 } else { 3u8 }, ..after }
}

/// The cycle 1 of `AbsoluteY`: the high byte was read, Y added to the low byte; the cycle after it is skipped unless Y crossed a page.
#[verifier::opaque]
pub open spec fn absolute_y_cycle_1(c: Cpu, inst: Instruction) -> Cpu {
    let after = c.after_fetch_high_indexed(c.y);
    Cpu { cycle: if c.temp + c.y >= 0x100 { 2u8 } else { 3u8 }, ..after }
}

/// The cycle 2 of `IndirectY`: the high byte of a pointer was read, Y added to the low byte; the cycle after it is skipped unless Y crossed a page.
#[verifier::opaque]
pub open spec fn indirect_y_cycle_2(c: Cpu, inst: Instruction) -> Cpu {
    let after = c.after_pointer_high_indexed();
    Cpu { cycle: if c.temp + c.y >= 0x100 { 3u8 } else { 4u8 }, ..after }
}

/// The state after the cycle `c.cycle` of an instruction in the addressing mode `Implied` did
/// its access: the registers it sets, and the cycle that comes next.
#[verifier::opaque]
pub open spec fn end_implied(c: Cpu, inst: Instruction) -> Cpu {
    let k = c.cycle;
    if k == 0 {
        run_op_db(c, inst, FETCH_CYCLE)
    } else {
        Cpu { cycle: FETCH_CYCLE, ..c }
    }
}

/// The state after the cycle `c.cycle` of an instruction in the addressing mode `Accumulator` did
/// its access: the registers it sets, and the cycle that comes next.
#[verifier::opaque]
pub open spec fn end_accumulator(c: Cpu, inst: Instruction) -> Cpu {
    let k = c.cycle;
    if k == 0 {
        run_op_db(c, inst, FETCH_CYCLE)
    } else {
        Cpu { cycle: FETCH_CYCLE, ..c }
    }
}

/// The state after the cycle `c.cycle` of an instruction in the addressing mode `Immediate` did
/// its access: the registers it sets, and the cycle that comes next.
#[verifier::opaque]
pub open spec fn end_immediate(c: Cpu, inst: Instruction) -> Cpu {
    let k = c.cycle;
    if k == 0 {
        run_op_db_step_pc_to_pc(c, inst, FETCH_CYCLE)
    } else {
        Cpu { cycle: FETCH_CYCLE, ..c }
    }
}

/// The state after the cycle `c.cycle` of an instruction in the addressing mode `ZeroPage` did
/// its access: the registers it sets, and the cycle that comes next.
#[verifier::opaque]
pub open spec fn end_zero_page(c: Cpu, inst: Instruction) -> Cpu {
    let k = c.cycle;
    if k == 0 {
        run_fetch_zp(c, inst, 1u8)
    } else if k == 1 {
        run_op_db_to_pc(c, inst, FETCH_CYCLE)
    } else {
        Cpu { cycle: FETCH_CYCLE, ..c }
    }
}

/// The state after the cycle `c.cycle` of an instruction in the addressing mode `ZeroPageX` did
/// its access: the registers it sets, and the cycle that comes next.
#[verifier::opaque]
pub open spec fn end_zero_page_x(c: Cpu, inst: Instruction) -> Cpu {
    let k = c.cycle;
    if k == 0 {
        run_fetch_zp(c, inst, 1u8)
    } else if k == 1 {
        run_zp_index_x(c, inst, 2u8)
    } else if k == 2 {
        run_op_db_to_pc(c, inst, FETCH_CYCLE)
    } else {
        Cpu { cycle: FETCH_CYCLE, ..c }
    }
}

/// The state after the cycle `c.cycle` of an instruction in the addressing mode `ZeroPageY` did
/// its access: the registers it sets, and the cycle that comes next.
#[verifier::opaque]
pub open spec fn end_zero_page_y(c: Cpu, inst: Instruction) -> Cpu {
    let k = c.cycle;
    if k == 0 {
        run_fetch_zp(c, inst, 1u8)
    } else if k == 1 {
        run_zp_index_y(c, inst, 2u8)
    } else if k == 2 {
        run_op_db_to_pc(c, inst, FETCH_CYCLE)
    } else {
        Cpu { cycle: FETCH_CYCLE, ..c }
    }
}

/// The state after the cycle `c.cycle` of an instruction in the addressing mode `ZeroPageSt` did
/// its access: the registers it sets, and the cycle that comes next.
#[verifier::opaque]
pub open spec fn end_zero_page_st(c: Cpu, inst: Instruction) -> Cpu {
    let k = c.cycle;
    if k == 0 {
        run_fetch_zp(c, inst, 1u8)
    } else if k == 1 {
        run_to_pc(c, inst, FETCH_CYCLE)
    } else {
        Cpu { cycle: FETCH_CYCLE, ..c }
    }
}

/// The state after the cycle `c.cycle` of an instruction in the addressing mode `ZeroPageXSt` did
/// its access: the registers it sets, and the cycle that comes next.
#[verifier::opaque]
pub open spec fn end_zero_page_x_st(c: Cpu, inst: Instruction) -> Cpu {
    let k = c.cycle;
    if k == 0 {
        run_fetch_zp(c, inst, 1u8)
    } else if k == 1 {
        run_zp_index_x(c, inst, 2u8)
    } else if k == 2 {
        run_to_pc(c, inst, FETCH_CYCLE)
    } else {
        Cpu { cycle: FETCH_CYCLE, ..c }
    }
}

/// The state after the cycle `c.cycle` of an instruction in the addressing mode `ZeroPageYSt` did
/// its access: the registers it sets, and the cycle that comes next.
#[verifier::opaque]
pub open spec fn end_zero_page_y_st(c: Cpu, inst: Instruction) -> Cpu {
    let k = c.cycle;
    if k == 0 {
        run_fetch_zp(c, inst, 1u8)
    } else if k == 1 {
        run_zp_index_y(c, inst, 2u8)
    } else if k == 2 {
        run_to_pc(c, inst, FETCH_CYCLE)
    } else {
        Cpu { cycle: FETCH_CYCLE, ..c }
    }
}

/// The state after the cycle `c.cycle` of an instruction in the addressing mode `ZeroPageRmw` did
/// its access: the registers it sets, and the cycle that comes next.
#[verifier::opaque]
pub open spec fn end_zero_page_rmw(c: Cpu, inst: Instruction) -> Cpu {
    let k = c.cycle;
    if k == 0 {
        run_fetch_zp(c, inst, 1u8)
    } else if k == 1 {
        run_keep_db(c, inst, 2u8)
    } else if k == 2 {
        run_op_temp(c, inst, 3u8)
    } else if k == 3 {
        run_to_pc(c, inst, FETCH_CYCLE)
    } else {
        Cpu { cycle: FETCH_CYCLE, ..c }
    }
}

/// The state after the cycle `c.cycle` of an instruction in the addressing mode `ZeroPageXRmw` did
/// its access: the registers it sets, and the cycle that comes next.
#[verifier::opaque]
pub open spec fn end_zero_page_x_rmw(c: Cpu, inst: Instruction) -> Cpu {
    let k = c.cycle;
    if k == 0 {
        run_fetch_zp(c, inst, 1u8)
    } else if k == 1 {
        run_zp_index_x(c, inst, 2u8)
    } else if k == 2 {
        run_keep_db(c, inst, 3u8)
    } else if k == 3 {
        run_op_temp(c, inst, 4u8)
    } else if k == 4 {
        run_to_pc(c, inst, FETCH_CYCLE)
    } else {
        Cpu { cycle: FETCH_CYCLE, ..c }
    }
}

/// The state after the cycle `c.cycle` of an instruction in the addressing mode `Relative` did
/// its access: the registers it sets, and the cycle that comes next.
#[verifier::opaque]
pub open spec fn end_relative(c: Cpu, inst: Instruction) -> Cpu {
    let k = c.cycle;
    if k == 0 {
        relative_cycle_0(c, inst)
    } else if k == 1 {
        relative_cycle_1(c, inst)
    } else if k == 2 {
        run_to_pc(c, inst, FETCH_CYCLE)
    } else {
        Cpu { cycle: FETCH_CYCLE, ..c }
    }
}

/// The state after the cycle `c.cycle` of an instruction in the addressing mode `Absolute` did
/// its access: the registers it sets, and the cycle that comes next.
#[verifier::opaque]
pub open spec fn end_absolute(c: Cpu, inst: Instruction) -> Cpu {
    let k = c.cycle;
    if k == 0 {
        run_fetch_low(c, inst, 1u8)
    } else if k == 1 {
        run_fetch_high(c, inst, 2u8)
    } else if k == 2 {
        run_op_db_to_pc(c, inst, FETCH_CYCLE)
    } else {
        Cpu { cycle: FETCH_CYCLE, ..c }
    }
}

/// The state after the cycle `c.cycle` of an instruction in the addressing mode `AbsoluteJmp` did
/// its access: the registers it sets, and the cycle that comes next.
#[verifier::opaque]
pub open spec fn end_absolute_jmp(c: Cpu, inst: Instruction) -> Cpu {
    let k = c.cycle;
    if k == 0 {
        run_fetch_low(c, inst, 1u8)
    } else if k == 1 {
        run_jump(c, inst, FETCH_CYCLE)
    } else {
        Cpu { cycle: FETCH_CYCLE, ..c }
    }
}

/// The state after the cycle `c.cycle` of an instruction in the addressing mode `AbsoluteSt` did
/// its access: the registers it sets, and the cycle that comes next.
#[verifier::opaque]
pub open spec fn end_absolute_st(c: Cpu, inst: Instruction) -> Cpu {
    let k = c.cycle;
    if k == 0 {
        run_fetch_low(c, inst, 1u8)
    } else if k == 1 {
        run_fetch_high(c, inst, 2u8)
    } else if k == 2 {
        run_to_pc(c, inst, FETCH_CYCLE)
    } else {
        Cpu { cycle: FETCH_CYCLE, ..c }
    }
}

/// The state after the cycle `c.cycle` of an instruction in the addressing mode `AbsoluteRmw` did
/// its access: the registers it sets, and the cycle that comes next.
#[verifier::opaque]
pub open spec fn end_absolute_rmw(c: Cpu, inst: Instruction) -> Cpu {
    let k = c.cycle;
    if k == 0 {
        run_fetch_low(c, inst, 1u8)
    } else if k == 1 {
        run_fetch_high(c, inst, 2u8)
    } else if k == 2 {
        run_keep_db(c, inst, 3u8)
    } else if k == 3 {
        run_op_temp(c, inst, 4u8)
    } else if k == 4 {
        run_to_pc(c, inst, FETCH_CYCLE)
    } else {
        Cpu { cycle: FETCH_CYCLE, ..c }
    }
}

/// The state after the cycle `c.cycle` of an instruction in the addressing mode `AbsoluteX` did
/// its access: the registers it sets, and the cycle that comes next.
#[verifier::opaque]
pub open spec fn end_absolute_x(c: Cpu, inst: Instruction) -> Cpu {
    let k = c.cycle;
    if k == 0 {
        run_fetch_low(c, inst, 1u8)
    } else if k == 1 {
        absolute_x_cycle_1(c, inst)
    } else if k == 2 {
        run_page_fix(c, inst, 3u8)
    } else if k == 3 {
        run_op_db_to_pc(c, inst, FETCH_CYCLE)
    } else {
        Cpu { cycle: FETCH_CYCLE, ..c }
    }
}

/// The state after the cycle `c.cycle` of an instruction in the addressing mode `AbsoluteY` did
/// its access: the registers it sets, and the cycle that comes next.
#[verifier::opaque]
pub open spec fn end_absolute_y(c: Cpu, inst: Instruction) -> Cpu {
    let k = c.cycle;
    if k == 0 {
        run_fetch_low(c, inst, 1u8)
    } else if k == 1 {
        absolute_y_cycle_1(c, inst)
    } else if k == 2 {
        run_page_fix(c, inst, 3u8)
    } else if k == 3 {
        run_op_db_to_pc(c, inst, FETCH_CYCLE)
    } else {
        Cpu { cycle: FETCH_CYCLE, ..c }
    }
}

/// The state after the cycle `c.cycle` of an instruction in the addressing mode `AbsoluteXSt` did
/// its access: the registers it sets, and the cycle that comes next.
#[verifier::opaque]
pub open spec fn end_absolute_x_st(c: Cpu, inst: Instruction) -> Cpu {
    let k = c.cycle;
    if k == 0 {
        run_fetch_low(c, inst, 1u8)
    } else if k == 1 {
        run_fetch_high_x(c, inst, 2u8)
    } else if k == 2 {
        run_page_fix_if_x(c, inst, 3u8)
    } else if k == 3 {
        run_to_pc(c, inst, FETCH_CYCLE)
    } else {
        Cpu { cycle: FETCH_CYCLE, ..c }
    }
}

/// The state after the cycle `c.cycle` of an instruction in the addressing mode `AbsoluteYSt` did
/// its access: the registers it sets, and the cycle that comes next.
#[verifier::opaque]
pub open spec fn end_absolute_y_st(c: Cpu, inst: Instruction) -> Cpu {
    let k = c.cycle;
    if k == 0 {
        run_fetch_low(c, inst, 1u8)
    } else if k == 1 {
        run_fetch_high_y(c, inst, 2u8)
    } else if k == 2 {
        run_page_fix_if_y(c, inst, 3u8)
    } else if k == 3 {
        run_to_pc(c, inst, FETCH_CYCLE)
    } else {
        Cpu { cycle: FETCH_CYCLE, ..c }
    }
}

/// The state after the cycle `c.cycle` of an instruction in the addressing mode `AbsoluteXRmw` did
/// its access: the registers it sets, and the cycle that comes next.
#[verifier::opaque]
pub open spec fn end_absolute_x_rmw(c: Cpu, inst: Instruction) -> Cpu {
    let k = c.cycle;
    if k == 0 {
        run_fetch_low(c, inst, 1u8)
    } else if k == 1 {
        run_fetch_high_x(c, inst, 2u8)
    } else if k == 2 {
        run_page_fix_if_x(c, inst, 3u8)
    } else if k == 3 {
        run_keep_db(c, inst, 4u8)
    } else if k == 4 {
        run_op_temp(c, inst, 5u8)
    } else if k == 5 {
        run_to_pc(c, inst, FETCH_CYCLE)
    } else {
        Cpu { cycle: FETCH_CYCLE, ..c }
    }
}

/// The state after the cycle `c.cycle` of an instruction in the addressing mode `AbsoluteYIllegal` did
/// its access: the registers it sets, and the cycle that comes next.
#[verifier::opaque]
pub open spec fn end_absolute_y_illegal(c: Cpu, inst: Instruction) -> Cpu {
    let k = c.cycle;
    if k == 0 {
        run_fetch_low(c, inst, 1u8)
    } else if k == 1 {
        run_fetch_high_y(c, inst, 2u8)
    } else if k == 2 {
        run_page_fix_if_y(c, inst, 3u8)
    } else if k == 3 {
        run_keep_db(c, inst, 4u8)
    } else if k == 4 {
        run_op_temp(c, inst, 5u8)
    } else if k == 5 {
        run_to_pc(c, inst, FETCH_CYCLE)
    } else {
        Cpu { cycle: FETCH_CYCLE, ..c }
    }
}

/// The state after the cycle `c.cycle` of an instruction in the addressing mode `Indirect` did
/// its access: the registers it sets, and the cycle that comes next.
#[verifier::opaque]
pub open spec fn end_indirect(c: Cpu, inst: Instruction) -> Cpu {
    let k = c.cycle;
    if k == 0 {
        run_fetch_low(c, inst, 1u8)
    } else if k == 1 {
        run_pointer_high(c, inst, 2u8)
    } else if k == 2 {
        run_indirect_low(c, inst, 3u8)
    } else if k == 3 {
        run_jump(c, inst, FETCH_CYCLE)
    } else {
        Cpu { cycle: FETCH_CYCLE, ..c }
    }
}

/// The state after the cycle `c.cycle` of an instruction in the addressing mode `IndirectX` did
/// its access: the registers it sets, and the cycle that comes next.
#[verifier::opaque]
pub open spec fn end_indirect_x(c: Cpu, inst: Instruction) -> Cpu {
    let k = c.cycle;
    if k == 0 {
        run_fetch_zp(c, inst, 1u8)
    } else if k == 1 {
        run_zp_index_x(c, inst, 2u8)
    } else if k == 2 {
        run_pointer_low(c, inst, 3u8)
    } else if k == 3 {
        run_pointer_high(c, inst, 4u8)
    } else if k == 4 {
        run_op_db_to_pc(c, inst, FETCH_CYCLE)
    } else {
        Cpu { cycle: FETCH_CYCLE, ..c }
    }
}

/// The state after the cycle `c.cycle` of an instruction in the addressing mode `IndirectXSt` did
/// its access: the registers it sets, and the cycle that comes next.
#[verifier::opaque]
pub open spec fn end_indirect_x_st(c: Cpu, inst: Instruction) -> Cpu {
    let k = c.cycle;
    if k == 0 {
        run_fetch_zp(c, inst, 1u8)
    } else if k == 1 {
        run_zp_index_x(c, inst, 2u8)
    } else if k == 2 {
        run_pointer_low(c, inst, 3u8)
    } else if k == 3 {
        run_pointer_high(c, inst, 4u8)
    } else if k == 4 {
        run_to_pc(c, inst, FETCH_CYCLE)
    } else {
        Cpu { cycle: FETCH_CYCLE, ..c }
    }
}

/// The state after the cycle `c.cycle` of an instruction in the addressing mode `IndirectXIllegal` did
/// its access: the registers it sets, and the cycle that comes next.
#[verifier::opaque]
pub open spec fn end_indirect_x_illegal(c: Cpu, inst: Instruction) -> Cpu {
    let k = c.cycle;
    if k == 0 {
        run_fetch_zp(c, inst, 1u8)
    } else if k == 1 {
        run_zp_index_x(c, inst, 2u8)
    } else if k == 2 {
        run_pointer_low(c, inst, 3u8)
    } else if k == 3 {
        run_pointer_high(c, inst, 4u8)
    } else if k == 4 {
        run_keep_db(c, inst, 5u8)
    } else if k == 5 {
        run_op_temp(c, inst, 6u8)
    } else if k == 6 {
        run_to_pc(c, inst, FETCH_CYCLE)
    } else {
        Cpu { cycle: FETCH_CYCLE, ..c }
    }
}

/// The state after the cycle `c.cycle` of an instruction in the addressing mode `IndirectY` did
/// its access: the registers it sets, and the cycle that comes next.
#[verifier::opaque]
pub open spec fn end_indirect_y(c: Cpu, inst: Instruction) -> Cpu {
    let k = c.cycle;
    if k == 0 {
        run_fetch_zp(c, inst, 1u8)
    } else if k == 1 {
        run_pointer_low(c, inst, 2u8)
    } else if k == 2 {
        indirect_y_cycle_2(c, inst)
    } else if k == 3 {
        run_page_fix(c, inst, 4u8)
    } else if k == 4 {
        run_op_db_to_pc(c, inst, FETCH_CYCLE)
    } else {
        Cpu { cycle: FETCH_CYCLE, ..c }
    }
}

/// The state after the cycle `c.cycle` of an instruction in the addressing mode `IndirectYSt` did
/// its access: the registers it sets, and the cycle that comes next.
#[verifier::opaque]
pub open spec fn end_indirect_y_st(c: Cpu, inst: Instruction) -> Cpu {
    let k = c.cycle;
    if k == 0 {
        run_fetch_zp(c, inst, 1u8)
    } else if k == 1 {
        run_pointer_low(c, inst, 2u8)
    } else if k == 2 {
        run_pointer_high_indexed(c, inst, 3u8)
    } else if k == 3 {
        run_page_fix_if_y(c, inst, 4u8)
    } else if k == 4 {
        run_to_pc(c, inst, FETCH_CYCLE)
    } else {
        Cpu { cycle: FETCH_CYCLE, ..c }
    }
}

/// The state after the cycle `c.cycle` of an instruction in the addressing mode `IndirectYIllegal` did
/// its access: the registers it sets, and the cycle that comes next.
#[verifier::opaque]
pub open spec fn end_indirect_y_illegal(c: Cpu, inst: Instruction) -> Cpu {
    let k = c.cycle;
    if k == 0 {
        run_fetch_zp(c, inst, 1u8)
    } else if k == 1 {
        run_pointer_low(c, inst, 2u8)
    } else if k == 2 {
        run_pointer_high_indexed(c, inst, 3u8)
    } else if k == 3 {
        run_page_fix_if_y(c, inst, 4u8)
    } else if k == 4 {
        run_keep_db(c, inst, 5u8)
    } else if k == 5 {
        run_op_temp(c, inst, 6u8)
    } else if k == 6 {
        run_to_pc(c, inst, FETCH_CYCLE)
    } else {
        Cpu { cycle: FETCH_CYCLE, ..c }
    }
}

/// The state after the cycle `c.cycle` of an instruction in the addressing mode `Jsr` did
/// its access: the registers it sets, and the cycle that comes next.
#[verifier::opaque]
pub open spec fn end_jsr(c: Cpu, inst: Instruction) -> Cpu {
    let k = c.cycle;
    if k == 0 {
        run_keep_db_step_pc_sp_to_ab(c, inst, 1u8)
    } else if k == 1 {
        run_sp_dec(c, inst, 2u8)
    } else if k == 2 {
        run_sp_to_ab_sp_dec(c, inst, 3u8)
    } else if k == 3 {
        run_to_pc(c, inst, 4u8)
    } else if k == 4 {
        run_jump(c, inst, FETCH_CYCLE)
    } else {
        Cpu { cycle: FETCH_CYCLE, ..c }
    }
}

/// The state after the cycle `c.cycle` of an instruction in the addressing mode `Brk` did
/// its access: the registers it sets, and the cycle that comes next.
#[verifier::opaque]
pub open spec fn end_brk(c: Cpu, inst: Instruction) -> Cpu {
    let k = c.cycle;
    if k == 0 {
        run_brk_step_pc_sp_to_ab_sp_dec(c, inst, 1u8)
    } else if k == 1 {
        run_sp_to_ab_sp_dec(c, inst, 2u8)
    } else if k == 2 {
        run_sp_to_ab_sp_dec(c, inst, 3u8)
    } else if k == 3 {
        run_brk_vector(c, inst, 4u8)
    } else if k == 4 {
        run_brk_vector_low(c, inst, 5u8)
    } else if k == 5 {
        run_jump(c, inst, FETCH_CYCLE)
    } else {
        Cpu { cycle: FETCH_CYCLE, ..c }
    }
}

/// The state after the cycle `c.cycle` of an instruction in the addressing mode `Rti` did
/// its access: the registers it sets, and the cycle that comes next.
#[verifier::opaque]
pub open spec fn end_rti(c: Cpu, inst: Instruction) -> Cpu {
    let k = c.cycle;
    if k == 0 {
        run_sp_to_ab(c, inst, 1u8)
    } else if k == 1 {
        run_sp_inc_sp_to_ab(c, inst, 2u8)
    } else if k == 2 {
        run_pull_status_db_sp_inc_sp_to_ab(c, inst, 3u8)
    } else if k == 3 {
        run_keep_db_sp_inc_sp_to_ab(c, inst, 4u8)
    } else if k == 4 {
        run_jump(c, inst, FETCH_CYCLE)
    } else {
        Cpu { cycle: FETCH_CYCLE, ..c }
    }
}

/// The state after the cycle `c.cycle` of an instruction in the addressing mode `Rts` did
/// its access: the registers it sets, and the cycle that comes next.
#[verifier::opaque]
pub open spec fn end_rts(c: Cpu, inst: Instruction) -> Cpu {
    let k = c.cycle;
    if k == 0 {
        run_sp_to_ab(c, inst, 1u8)
    } else if k == 1 {
        run_sp_inc_sp_to_ab(c, inst, 2u8)
    } else if k == 2 {
        run_keep_db_sp_inc_sp_to_ab(c, inst, 3u8)
    } else if k == 3 {
        run_jump(c, inst, 4u8)
    } else if k == 4 {
        run_step_pc_to_pc(c, inst, FETCH_CYCLE)
    } else {
        Cpu { cycle: FETCH_CYCLE, ..c }
    }
}

/// The state after the cycle `c.cycle` of an instruction in the addressing mode `Pha` did
/// its access: the registers it sets, and the cycle that comes next.
#[verifier::opaque]
pub open spec fn end_pha(c: Cpu, inst: Instruction) -> Cpu {
    let k = c.cycle;
    if k == 0 {
        run_sp_to_ab_sp_dec(c, inst, 1u8)
    } else if k == 1 {
        run_to_pc(c, inst, FETCH_CYCLE)
    } else {
        Cpu { cycle: FETCH_CYCLE, ..c }
    }
}

/// The state after the cycle `c.cycle` of an instruction in the addressing mode `Php` did
/// its access: the registers it sets, and the cycle that comes next.
#[verifier::opaque]
pub open spec fn end_php(c: Cpu, inst: Instruction) -> Cpu {
    let k = c.cycle;
    if k == 0 {
        run_sp_to_ab_sp_dec(c, inst, 1u8)
    } else if k == 1 {
        run_to_pc(c, inst, FETCH_CYCLE)
    } else {
        Cpu { cycle: FETCH_CYCLE, ..c }
    }
}

/// The state after the cycle `c.cycle` of an instruction in the addressing mode `Pla` did
/// its access: the registers it sets, and the cycle that comes next.
#[verifier::opaque]
pub open spec fn end_pla(c: Cpu, inst: Instruction) -> Cpu {
    let k = c.cycle;
    if k == 0 {
        run_sp_to_ab(c, inst, 1u8)
    } else if k == 1 {
        run_sp_inc_sp_to_ab(c, inst, 2u8)
    } else if k == 2 {
        run_lda_db_to_pc(c, inst, FETCH_CYCLE)
    } else {
        Cpu { cycle: FETCH_CYCLE, ..c }
    }
}

/// The state after the cycle `c.cycle` of an instruction in the addressing mode `Plp` did
/// its access: the registers it sets, and the cycle that comes next.
#[verifier::opaque]
pub open spec fn end_plp(c: Cpu, inst: Instruction) -> Cpu {
    let k = c.cycle;
    if k == 0 {
        run_sp_to_ab(c, inst, 1u8)
    } else if k == 1 {
        run_sp_inc_sp_to_ab(c, inst, 2u8)
    } else if k == 2 {
        run_pull_status_db_to_pc(c, inst, FETCH_CYCLE)
    } else {
        Cpu { cycle: FETCH_CYCLE, ..c }
    }
}

/// The state after the cycle `c.cycle` (below `FETCH_CYCLE`) of the instruction `inst` did its
/// access: the registers it sets, and the cycle that comes next.
pub open spec fn cycle_end(c: Cpu, inst: Instruction) -> Cpu {
    match inst.mode {
        AddressingMode::Implied => end_implied(c, inst),
        AddressingMode::Accumulator => end_accumulator(c, inst),
        AddressingMode::Immediate => end_immediate(c, inst),
        AddressingMode::ZeroPage => end_zero_page(c, inst),
        AddressingMode::ZeroPageX => end_zero_page_x(c, inst),
        AddressingMode::ZeroPageY => end_zero_page_y(c, inst),
        AddressingMode::ZeroPageSt => end_zero_page_st(c, inst),
        AddressingMode::ZeroPageXSt => end_zero_page_x_st(c, inst),
        AddressingMode::ZeroPageYSt => end_zero_page_y_st(c, inst),
        AddressingMode::ZeroPageRmw => end_zero_page_rmw(c, inst),
        AddressingMode::ZeroPageXRmw => end_zero_page_x_rmw(c, inst),
        AddressingMode::Relative => end_relative(c, inst),
        AddressingMode::Absolute => end_absolute(c, inst),
        AddressingMode::AbsoluteJmp => end_absolute_jmp(c, inst),
        AddressingMode::AbsoluteSt => end_absolute_st(c, inst),
        AddressingMode::AbsoluteRmw => end_absolute_rmw(c, inst),
        AddressingMode::AbsoluteX => end_absolute_x(c, inst),
        AddressingMode::AbsoluteY => end_absolute_y(c, inst),
        AddressingMode::AbsoluteXSt => end_absolute_x_st(c, inst),
        AddressingMode::AbsoluteYSt => end_absolute_y_st(c, inst),
        AddressingMode::AbsoluteXRmw => end_absolute_x_rmw(c, inst),
        AddressingMode::AbsoluteYIllegal => end_absolute_y_illegal(c, inst),
        AddressingMode::Indirect => end_indirect(c, inst),
        AddressingMode::IndirectX => end_indirect_x(c, inst),
        AddressingMode::IndirectXSt => end_indirect_x_st(c, inst),
        AddressingMode::IndirectXIllegal => end_indirect_x_illegal(c, inst),
        AddressingMode::IndirectY => end_indirect_y(c, inst),
        AddressingMode::IndirectYSt => end_indirect_y_st(c, inst),
        AddressingMode::IndirectYIllegal => end_indirect_y_illegal(c, inst),
        AddressingMode::Jsr => end_jsr(c, inst),
        AddressingMode::Brk => end_brk(c, inst),
        AddressingMode::Rti => end_rti(c, inst),
        AddressingMode::Rts => end_rts(c, inst),
        AddressingMode::Pha => end_pha(c, inst),
        AddressingMode::Php => end_php(c, inst),
        AddressingMode::Pla => end_pla(c, inst),
        AddressingMode::Plp => end_plp(c, inst),
    }
}/// The shape of the cycle `cycle` of an instruction in the addressing mode `mode`.
pub fn kind_of(mode: AddressingMode, cycle: u8) -> (k: CycleKind)
    ensures
        k == cycle_kind(mode, cycle),
{
    proof {
        reveal(cycle_kind);
    }
    if cycle >= FETCH_CYCLE {
        return CycleKind::Fetch;
    }
    match mode {
        AddressingMode::Implied => {
            if cycle == 0 {
                CycleKind::ReadCheck
            } else {
                CycleKind::Read
            }
        },
        AddressingMode::Accumulator => {
            if cycle == 0 {
                CycleKind::ReadCheck
            } else {
                CycleKind::Read
            }
        },
        AddressingMode::Immediate => {
            if cycle == 0 {
                CycleKind::ReadCheck
            } else {
                CycleKind::Read
            }
        },
        AddressingMode::ZeroPage => {
            if cycle == 0 {
                CycleKind::ReadCache
            } else if cycle == 1 {
                CycleKind::ReadCheck
            } else {
                CycleKind::Read
            }
        },
        AddressingMode::ZeroPageX => {
            if cycle == 0 {
                CycleKind::Read
            } else if cycle == 1 {
                CycleKind::ReadCache
            } else if cycle == 2 {
                CycleKind::ReadCheck
            } else {
                CycleKind::Read
            }
        },
        AddressingMode::ZeroPageY => {
            if cycle == 0 {
                CycleKind::Read
            } else if cycle == 1 {
                CycleKind::ReadCache
            } else if cycle == 2 {
                CycleKind::ReadCheck
            } else {
                CycleKind::Read
            }
        },
        AddressingMode::ZeroPageSt => {
            if cycle == 0 {
                CycleKind::ReadCache
            } else if cycle == 1 {
                CycleKind::Store
            } else {
                CycleKind::Read
            }
        },
        AddressingMode::ZeroPageXSt => {
            if cycle == 0 {
                CycleKind::Read
            } else if cycle == 1 {
                CycleKind::ReadCache
            } else if cycle == 2 {
                CycleKind::Store
            } else {
                CycleKind::Read
            }
        },
        AddressingMode::ZeroPageYSt => {
            if cycle == 0 {
                CycleKind::Read
            } else if cycle == 1 {
                CycleKind::ReadCache
            } else if cycle == 2 {
                CycleKind::Store
            } else {
                CycleKind::Read
            }
        },
        AddressingMode::ZeroPageRmw => {
            if cycle == 0 {
                CycleKind::Read
            } else if cycle == 1 {
                CycleKind::Read
            } else if cycle == 2 {
                CycleKind::WriteTempCache
            } else if cycle == 3 {
                CycleKind::WriteTempCheck
            } else {
                CycleKind::Read
            }
        },
        AddressingMode::ZeroPageXRmw => {
            if cycle == 0 {
                CycleKind::Read
            } else if cycle == 1 {
                CycleKind::Read
            } else if cycle == 2 {
                CycleKind::Read
            } else if cycle == 3 {
                CycleKind::WriteTempCache
            } else if cycle == 4 {
                CycleKind::WriteTempCheck
            } else {
                CycleKind::Read
            }
        },
        AddressingMode::Relative => {
            if cycle == 0 {
                CycleKind::ReadCheck
            } else if cycle == 1 {
                CycleKind::ReadCache
            } else if cycle == 2 {
                CycleKind::ReadCheck
            } else {
                CycleKind::Read
            }
        },
        AddressingMode::Absolute => {
            if cycle == 0 {
                CycleKind::Read
            } else if cycle == 1 {
                CycleKind::ReadCache
            } else if cycle == 2 {
                CycleKind::ReadCheck
            } else {
                CycleKind::Read
            }
        },
        AddressingMode::AbsoluteJmp => {
            if cycle == 0 {
                CycleKind::ReadCache
            } else if cycle == 1 {
                CycleKind::ReadCheck
            } else {
                CycleKind::Read
            }
        },
        AddressingMode::AbsoluteSt => {
            if cycle == 0 {
                CycleKind::Read
            } else if cycle == 1 {
                CycleKind::ReadCache
            } else if cycle == 2 {
                CycleKind::Store
            } else {
                CycleKind::Read
            }
        },
        AddressingMode::AbsoluteRmw => {
            if cycle == 0 {
                CycleKind::Read
            } else if cycle == 1 {
                CycleKind::Read
            } else if cycle == 2 {
                CycleKind::Read
            } else if cycle == 3 {
                CycleKind::WriteTempCache
            } else if cycle == 4 {
                CycleKind::WriteTempCheck
            } else {
                CycleKind::Read
            }
        },
        AddressingMode::AbsoluteX => {
            if cycle == 0 {
                CycleKind::Read
            } else if cycle == 1 {
                CycleKind::ReadCache
            } else if cycle == 2 {
                CycleKind::ReadCache
            } else if cycle == 3 {
                CycleKind::ReadCheck
            } else {
                CycleKind::Read
            }
        },
        AddressingMode::AbsoluteY => {
            if cycle == 0 {
                CycleKind::Read
            } else if cycle == 1 {
                CycleKind::ReadCache
            } else if cycle == 2 {
                CycleKind::ReadCache
            } else if cycle == 3 {
                CycleKind::ReadCheck
            } else {
                CycleKind::Read
            }
        },
        AddressingMode::AbsoluteXSt => {
            if cycle == 0 {
                CycleKind::Read
            } else if cycle == 1 {
                CycleKind::Read
            } else if cycle == 2 {
                CycleKind::ReadCache
            } else if cycle == 3 {
                CycleKind::Store
            } else {
                CycleKind::Read
            }
        },
        AddressingMode::AbsoluteYSt => {
            if cycle == 0 {
                CycleKind::Read
            } else if cycle == 1 {
                CycleKind::Read
            } else if cycle == 2 {
                CycleKind::ReadCache
            } else if cycle == 3 {
                CycleKind::Store
            } else {
                CycleKind::Read
            }
        },
        AddressingMode::AbsoluteXRmw => {
            if cycle == 0 {
                CycleKind::Read
            } else if cycle == 1 {
                CycleKind::Read
            } else if cycle == 2 {
                CycleKind::Read
            } else if cycle == 3 {
                CycleKind::Read
            } else if cycle == 4 {
                CycleKind::WriteTempCache
            } else if cycle == 5 {
                CycleKind::WriteTempCheck
            } else {
                CycleKind::Read
            }
        },
        AddressingMode::AbsoluteYIllegal => {
            if cycle == 0 {
                CycleKind::Read
            } else if cycle == 1 {
                CycleKind::Read
            } else if cycle == 2 {
                CycleKind::Read
            } else if cycle == 3 {
                CycleKind::Read
            } else if cycle == 4 {
                CycleKind::WriteTempCache
            } else if cycle == 5 {
                CycleKind::WriteTempCheck
            } else {
                CycleKind::Read
            }
        },
        AddressingMode::Indirect => {
            if cycle == 0 {
                CycleKind::Read
            } else if cycle == 1 {
                CycleKind::Read
            } else if cycle == 2 {
                CycleKind::ReadCache
            } else if cycle == 3 {
                CycleKind::ReadCheck
            } else {
                CycleKind::Read
            }
        },
        AddressingMode::IndirectX => {
            if cycle == 0 {
                CycleKind::Read
            } else if cycle == 1 {
                CycleKind::Read
            } else if cycle == 2 {
                CycleKind::Read
            } else if cycle == 3 {
                CycleKind::ReadCache
            } else if cycle == 4 {
                CycleKind::ReadCheck
            } else {
                CycleKind::Read
            }
        },
        AddressingMode::IndirectXSt => {
            if cycle == 0 {
                CycleKind::Read
            } else if cycle == 1 {
                CycleKind::Read
            } else if cycle == 2 {
                CycleKind::Read
            } else if cycle == 3 {
                CycleKind::ReadCache
            } else if cycle == 4 {
                CycleKind::Store
            } else {
                CycleKind::Read
            }
        },
        AddressingMode::IndirectXIllegal => {
            if cycle == 0 {
                CycleKind::Read
            } else if cycle == 1 {
                CycleKind::Read
            } else if cycle == 2 {
                CycleKind::Read
            } else if cycle == 3 {
                CycleKind::Read
            } else if cycle == 4 {
                CycleKind::Read
            } else if cycle == 5 {
                CycleKind::WriteTempCache
            } else if cycle == 6 {
                CycleKind::WriteTempCheck
            } else {
                CycleKind::Read
            }
        },
        AddressingMode::IndirectY => {
            if cycle == 0 {
                CycleKind::Read
            } else if cycle == 1 {
                CycleKind::Read
            } else if cycle == 2 {
                CycleKind::ReadCache
            } else if cycle == 3 {
                CycleKind::ReadCache
            } else if cycle == 4 {
                CycleKind::ReadCheck
            } else {
                CycleKind::Read
            }
        },
        AddressingMode::IndirectYSt => {
            if cycle == 0 {
                CycleKind::Read
            } else if cycle == 1 {
                CycleKind::Read
            } else if cycle == 2 {
                CycleKind::Read
            } else if cycle == 3 {
                CycleKind::ReadCache
            } else if cycle == 4 {
                CycleKind::Store
            } else {
                CycleKind::Read
            }
        },
        AddressingMode::IndirectYIllegal => {
            if cycle == 0 {
                CycleKind::Read
            } else if cycle == 1 {
                CycleKind::Read
            } else if cycle == 2 {
                CycleKind::Read
            } else if cycle == 3 {
                CycleKind::Read
            } else if cycle == 4 {
                CycleKind::Read
            } else if cycle == 5 {
                CycleKind::WriteTempCache
            } else if cycle == 6 {
                CycleKind::WriteTempCheck
            } else {
                CycleKind::Read
            }
        },
        AddressingMode::Jsr => {
            if cycle == 0 {
                CycleKind::Read
            } else if cycle == 1 {
                CycleKind::Read
            } else if cycle == 2 {
                CycleKind::PushPcHigh
            } else if cycle == 3 {
                CycleKind::PushPcLowCache
            } else if cycle == 4 {
                CycleKind::ReadCheck
            } else {
                CycleKind::Read
            }
        },
        AddressingMode::Brk => {
            if cycle == 0 {
                CycleKind::Read
            } else if cycle == 1 {
                CycleKind::BrkPushPcHigh
            } else if cycle == 2 {
                CycleKind::BrkPushPcLow
            } else if cycle == 3 {
                CycleKind::BrkPushStatus
            } else if cycle == 4 {
                CycleKind::Read
            } else if cycle == 5 {
                CycleKind::Read
            } else {
                CycleKind::Read
            }
        },
        AddressingMode::Rti => {
            if cycle == 0 {
                CycleKind::Read
            } else if cycle == 1 {
                CycleKind::Read
            } else if cycle == 2 {
                CycleKind::Read
            } else if cycle == 3 {
                CycleKind::ReadCache
            } else if cycle == 4 {
                CycleKind::ReadCheck
            } else {
                CycleKind::Read
            }
        },
        AddressingMode::Rts => {
            if cycle == 0 {
                CycleKind::Read
            } else if cycle == 1 {
                CycleKind::Read
            } else if cycle == 2 {
                CycleKind::Read
            } else if cycle == 3 {
                CycleKind::ReadCache
            } else if cycle == 4 {
                CycleKind::ReadCheck
            } else {
                CycleKind::Read
            }
        },
        AddressingMode::Pha => {
            if cycle == 0 {
                CycleKind::ReadCache
            } else if cycle == 1 {
                CycleKind::PushA
            } else {
                CycleKind::Read
            }
        },
        AddressingMode::Php => {
            if cycle == 0 {
                CycleKind::ReadCache
            } else if cycle == 1 {
                CycleKind::PushStatus
            } else {
                CycleKind::Read
            }
        },
        AddressingMode::Pla => {
            if cycle == 0 {
                CycleKind::Read
            } else if cycle == 1 {
                CycleKind::ReadCache
            } else if cycle == 2 {
                CycleKind::ReadCheck
            } else {
                CycleKind::Read
            }
        },
        AddressingMode::Plp => {
            if cycle == 0 {
                CycleKind::Read
            } else if cycle == 1 {
                CycleKind::ReadCache
            } else if cycle == 2 {
                CycleKind::ReadCheck
            } else {
                CycleKind::Read
            }
        },
    }
}

impl Cpu {
    /// Whether the branch of the instruction `op` is taken.
    fn taken_now(&self, op: Operation) -> (r: bool)
        ensures
            r == taken(*self, op),
    {
        match op {
            Operation::Branch(flag, value) => self.branch_taken(flag, value),
            _ => false,
        }
    }

    fn pull_status_db(&mut self)
        ensures
            *final(self) == old(self).after_pull_status_db(),
    {
        let v = self.db;
        self.pull_status(v);
    }

    fn run_op_db(&mut self, inst: Instruction, next: u8)
        ensures
            *final(self) == run_op_db(*old(self), inst, next),
    {
        proof {
            reveal(run_op_db);
        }
        self.cycle = next;
        self.op_db(inst.op);
    }

    fn run_op_db_step_pc_to_pc(&mut self, inst: Instruction, next: u8)
        ensures
            *final(self) == run_op_db_step_pc_to_pc(*old(self), inst, next),
    {
        proof {
            reveal(run_op_db_step_pc_to_pc);
        }
        self.cycle = next;
        self.op_db(inst.op);
        self.step_pc();
        self.to_pc();
    }

    fn run_fetch_zp(&mut self, inst: Instruction, next: u8)
        ensures
            *final(self) == run_fetch_zp(*old(self), inst, next),
    {
        proof {
            reveal(run_fetch_zp);
        }
        self.cycle = next;
        self.fetch_zp();
    }

    fn run_op_db_to_pc(&mut self, inst: Instruction, next: u8)
        ensures
            *final(self) == run_op_db_to_pc(*old(self), inst, next),
    {
        proof {
            reveal(run_op_db_to_pc);
        }
        self.cycle = next;
        self.op_db(inst.op);
        self.to_pc();
    }

    fn run_zp_index_x(&mut self, inst: Instruction, next: u8)
        ensures
            *final(self) == run_zp_index_x(*old(self), inst, next),
    {
        proof {
            reveal(run_zp_index_x);
        }
        self.cycle = next;
        self.zp_index(self.x);
    }

    fn run_zp_index_y(&mut self, inst: Instruction, next: u8)
        ensures
            *final(self) == run_zp_index_y(*old(self), inst, next),
    {
        proof {
            reveal(run_zp_index_y);
        }
        self.cycle = next;
        self.zp_index(self.y);
    }

    fn run_to_pc(&mut self, inst: Instruction, next: u8)
        ensures
            *final(self) == run_to_pc(*old(self), inst, next),
    {
        proof {
            reveal(run_to_pc);
        }
        self.cycle = next;
        self.to_pc();
    }

    fn run_keep_db(&mut self, inst: Instruction, next: u8)
        ensures
            *final(self) == run_keep_db(*old(self), inst, next),
    {
        proof {
            reveal(run_keep_db);
        }
        self.cycle = next;
        self.keep_db();
    }

    fn run_op_temp(&mut self, inst: Instruction, next: u8)
        ensures
            *final(self) == run_op_temp(*old(self), inst, next),
    {
        proof {
            reveal(run_op_temp);
        }
        self.cycle = next;
        self.op_temp(inst.op);
    }

    fn run_fetch_low(&mut self, inst: Instruction, next: u8)
        ensures
            *final(self) == run_fetch_low(*old(self), inst, next),
    {
        proof {
            reveal(run_fetch_low);
        }
        self.cycle = next;
        self.fetch_low();
    }

    fn run_fetch_high(&mut self, inst: Instruction, next: u8)
        ensures
            *final(self) == run_fetch_high(*old(self), inst, next),
    {
        proof {
            reveal(run_fetch_high);
        }
        self.cycle = next;
        self.fetch_high();
    }

    fn run_jump(&mut self, inst: Instruction, next: u8)
        ensures
            *final(self) == run_jump(*old(self), inst, next),
    {
        proof {
            reveal(run_jump);
        }
        self.cycle = next;
        self.jump();
    }

    fn run_page_fix(&mut self, inst: Instruction, next: u8)
        ensures
            *final(self) == run_page_fix(*old(self), inst, next),
    {
        proof {
            reveal(run_page_fix);
        }
        self.cycle = next;
        self.page_fix();
    }

    fn run_fetch_high_x(&mut self, inst: Instruction, next: u8)
        ensures
            *final(self) == run_fetch_high_x(*old(self), inst, next),
    {
        proof {
            reveal(run_fetch_high_x);
        }
        self.cycle = next;
        self.fetch_high_indexed(self.x);
    }

    fn run_page_fix_if_x(&mut self, inst: Instruction, next: u8)
        ensures
            *final(self) == run_page_fix_if_x(*old(self), inst, next),
    {
        proof {
            reveal(run_page_fix_if_x);
        }
        self.cycle = next;
        self.page_fix_if(self.x);
    }

    fn run_fetch_high_y(&mut self, inst: Instruction, next: u8)
        ensures
            *final(self) == run_fetch_high_y(*old(self), inst, next),
    {
        proof {
            reveal(run_fetch_high_y);
        }
        self.cycle = next;
        self.fetch_high_indexed(self.y);
    }

    fn run_page_fix_if_y(&mut self, inst: Instruction, next: u8)
        ensures
            *final(self) == run_page_fix_if_y(*old(self), inst, next),
    {
        proof {
            reveal(run_page_fix_if_y);
        }
        self.cycle = next;
        self.page_fix_if(self.y);
    }

    fn run_pointer_high(&mut self, inst: Instruction, next: u8)
        ensures
            *final(self) == run_pointer_high(*old(self), inst, next),
    {
        proof {
            reveal(run_pointer_high);
        }
        self.cycle = next;
        self.pointer_high();
    }

    fn run_indirect_low(&mut self, inst: Instruction, next: u8)
        ensures
            *final(self) == run_indirect_low(*old(self), inst, next),
    {
        proof {
            reveal(run_indirect_low);
        }
        self.cycle = next;
        self.indirect_low();
    }

    fn run_pointer_low(&mut self, inst: Instruction, next: u8)
        ensures
            *final(self) == run_pointer_low(*old(self), inst, next),
    {
        proof {
            reveal(run_pointer_low);
        }
        self.cycle = next;
        self.pointer_low();
    }

    fn run_pointer_high_indexed(&mut self, inst: Instruction, next: u8)
        ensures
            *final(self) == run_pointer_high_indexed(*old(self), inst, next),
    {
        proof {
            reveal(run_pointer_high_indexed);
        }
        self.cycle = next;
        self.pointer_high_indexed();
    }

    fn run_keep_db_step_pc_sp_to_ab(&mut self, inst: Instruction, next: u8)
        ensures
            *final(self) == run_keep_db_step_pc_sp_to_ab(*old(self), inst, next),
    {
        proof {
            reveal(run_keep_db_step_pc_sp_to_ab);
        }
        self.cycle = next;
        self.keep_db();
        self.step_pc();
        self.sp_to_ab();
    }

    fn run_sp_dec(&mut self, inst: Instruction, next: u8)
        ensures
            *final(self) == run_sp_dec(*old(self), inst, next),
    {
        proof {
            reveal(run_sp_dec);
        }
        self.cycle = next;
        self.sp_dec();
    }

    fn run_sp_to_ab_sp_dec(&mut self, inst: Instruction, next: u8)
        ensures
            *final(self) == run_sp_to_ab_sp_dec(*old(self), inst, next),
    {
        proof {
            reveal(run_sp_to_ab_sp_dec);
        }
        self.cycle = next;
        self.sp_to_ab();
        self.sp_dec();
    }

    fn run_brk_step_pc_sp_to_ab_sp_dec(&mut self, inst: Instruction, next: u8)
        ensures
            *final(self) == run_brk_step_pc_sp_to_ab_sp_dec(*old(self), inst, next),
    {
        proof {
            reveal(run_brk_step_pc_sp_to_ab_sp_dec);
        }
        self.cycle = next;
        self.brk_step_pc();
        self.sp_to_ab();
        self.sp_dec();
    }

    fn run_brk_vector(&mut self, inst: Instruction, next: u8)
        ensures
            *final(self) == run_brk_vector(*old(self), inst, next),
    {
        proof {
            reveal(run_brk_vector);
        }
        self.cycle = next;
        self.brk_vector();
    }

    fn run_brk_vector_low(&mut self, inst: Instruction, next: u8)
        ensures
            *final(self) == run_brk_vector_low(*old(self), inst, next),
    {
        proof {
            reveal(run_brk_vector_low);
        }
        self.cycle = next;
        self.brk_vector_low();
    }

    fn run_sp_to_ab(&mut self, inst: Instruction, next: u8)
        ensures
            *final(self) == run_sp_to_ab(*old(self), inst, next),
    {
        proof {
            reveal(run_sp_to_ab);
        }
        self.cycle = next;
        self.sp_to_ab();
    }

    fn run_sp_inc_sp_to_ab(&mut self, inst: Instruction, next: u8)
        ensures
            *final(self) == run_sp_inc_sp_to_ab(*old(self), inst, next),
    {
        proof {
            reveal(run_sp_inc_sp_to_ab);
        }
        self.cycle = next;
        self.sp_inc();
        self.sp_to_ab();
    }

    fn run_pull_status_db_sp_inc_sp_to_ab(&mut self, inst: Instruction, next: u8)
        ensures
            *final(self) == run_pull_status_db_sp_inc_sp_to_ab(*old(self), inst, next),
    {
        proof {
            reveal(run_pull_status_db_sp_inc_sp_to_ab);
        }
        self.cycle = next;
        self.pull_status_db();
        self.sp_inc();
        self.sp_to_ab();
    }

    fn run_keep_db_sp_inc_sp_to_ab(&mut self, inst: Instruction, next: u8)
        ensures
            *final(self) == run_keep_db_sp_inc_sp_to_ab(*old(self), inst, next),
    {
        proof {
            reveal(run_keep_db_sp_inc_sp_to_ab);
        }
        self.cycle = next;
        self.keep_db();
        self.sp_inc();
        self.sp_to_ab();
    }

    fn run_step_pc_to_pc(&mut self, inst: Instruction, next: u8)
        ensures
            *final(self) == run_step_pc_to_pc(*old(self), inst, next),
    {
        proof {
            reveal(run_step_pc_to_pc);
        }
        self.cycle = next;
        self.step_pc();
        self.to_pc();
    }

    fn run_lda_db_to_pc(&mut self, inst: Instruction, next: u8)
        ensures
            *final(self) == run_lda_db_to_pc(*old(self), inst, next),
    {
        proof {
            reveal(run_lda_db_to_pc);
        }
        self.cycle = next;
        self.op_db(Operation::Lda);
        self.to_pc();
    }

    fn run_pull_status_db_to_pc(&mut self, inst: Instruction, next: u8)
        ensures
            *final(self) == run_pull_status_db_to_pc(*old(self), inst, next),
    {
        proof {
            reveal(run_pull_status_db_to_pc);
        }
        self.cycle = next;
        self.pull_status_db();
        self.to_pc();
    }

    fn relative_cycle_0(&mut self, inst: Instruction)
        ensures
            *final(self) == relative_cycle_0(*old(self), inst),
    {
        proof {
            reveal(relative_cycle_0);
        }
        let go = self.taken_now(inst.op);
        self.keep_db();
        self.step_pc();
        self.to_pc();
        self.cycle = if go { 1 } else { FETCH_CYCLE };
    }

    fn relative_cycle_1(&mut self, inst: Instruction)
        ensures
            *final(self) == relative_cycle_1(*old(self), inst),
    {
        proof {
            reveal(relative_cycle_1);
        }
        self.take_branch();
        self.to_pc();
        self.cycle = if self.temp == 0 { FETCH_CYCLE } else { 2 };
    }

    fn absolute_x_cycle_1(&mut self, inst: Instruction)
        ensures
            *final(self) == absolute_x_cycle_1(*old(self), inst),
    {
        proof {
            reveal(absolute_x_cycle_1);
        }
        let cross = self.temp as u32 + self.x as u32 >= 0x100;
        self.fetch_high_indexed(self.x);
        self.cycle = if cross { 2 } else { 3 };
    }

    fn absolute_y_cycle_1(&mut self, inst: Instruction)
        ensures
            *final(self) == absolute_y_cycle_1(*old(self), inst),
    {
        proof {
            reveal(absolute_y_cycle_1);
        }
        let cross = self.temp as u32 + self.y as u32 >= 0x100;
        self.fetch_high_indexed(self.y);
        self.cycle = if cross { 2 } else { 3 };
    }

    fn indirect_y_cycle_2(&mut self, inst: Instruction)
        ensures
            *final(self) == indirect_y_cycle_2(*old(self), inst),
    {
        proof {
            reveal(indirect_y_cycle_2);
        }
        let cross = self.temp as u32 + self.y as u32 >= 0x100;
        self.pointer_high_indexed();
        self.cycle = if cross { 3 } else { 4 };
    }

    fn finish_implied(&mut self, inst: Instruction)
        ensures
            *final(self) == end_implied(*old(self), inst),
    {
        proof {
            reveal(end_implied);
        }
        let k = self.cycle;
        if k == 0 {
            self.run_op_db(inst, FETCH_CYCLE);
        } else {
            self.cycle = FETCH_CYCLE;
        }
    }

    fn finish_accumulator(&mut self, inst: Instruction)
        ensures
            *final(self) == end_accumulator(*old(self), inst),
    {
        proof {
            reveal(end_accumulator);
        }
        let k = self.cycle;
        if k == 0 {
            self.run_op_db(inst, FETCH_CYCLE);
        } else {
            self.cycle = FETCH_CYCLE;
        }
    }

    fn finish_immediate(&mut self, inst: Instruction)
        ensures
            *final(self) == end_immediate(*old(self), inst),
    {
        proof {
            reveal(end_immediate);
        }
        let k = self.cycle;
        if k == 0 {
            self.run_op_db_step_pc_to_pc(inst, FETCH_CYCLE);
        } else {
            self.cycle = FETCH_CYCLE;
        }
    }

    fn finish_zero_page(&mut self, inst: Instruction)
        ensures
            *final(self) == end_zero_page(*old(self), inst),
    {
        proof {
            reveal(end_zero_page);
        }
        let k = self.cycle;
        if k == 0 {
            self.run_fetch_zp(inst, 1);
        } else if k == 1 {
            self.run_op_db_to_pc(inst, FETCH_CYCLE);
        } else {
            self.cycle = FETCH_CYCLE;
        }
    }

    fn finish_zero_page_x(&mut self, inst: Instruction)
        ensures
            *final(self) == end_zero_page_x(*old(self), inst),
    {
        proof {
            reveal(end_zero_page_x);
        }
        let k = self.cycle;
        if k == 0 {
            self.run_fetch_zp(inst, 1);
        } else if k == 1 {
            self.run_zp_index_x(inst, 2);
        } else if k == 2 {
            self.run_op_db_to_pc(inst, FETCH_CYCLE);
        } else {
            self.cycle = FETCH_CYCLE;
        }
    }

    fn finish_zero_page_y(&mut self, inst: Instruction)
        ensures
            *final(self) == end_zero_page_y(*old(self), inst),
    {
        proof {
            reveal(end_zero_page_y);
        }
        let k = self.cycle;
        if k == 0 {
            self.run_fetch_zp(inst, 1);
        } else if k == 1 {
            self.run_zp_index_y(inst, 2);
        } else if k == 2 {
            self.run_op_db_to_pc(inst, FETCH_CYCLE);
        } else {
            self.cycle = FETCH_CYCLE;
        }
    }

    fn finish_zero_page_st(&mut self, inst: Instruction)
        ensures
            *final(self) == end_zero_page_st(*old(self), inst),
    {
        proof {
            reveal(end_zero_page_st);
        }
        let k = self.cycle;
        if k == 0 {
            self.run_fetch_zp(inst, 1);
        } else if k == 1 {
            self.run_to_pc(inst, FETCH_CYCLE);
        } else {
            self.cycle = FETCH_CYCLE;
        }
    }

    fn finish_zero_page_x_st(&mut self, inst: Instruction)
        ensures
            *final(self) == end_zero_page_x_st(*old(self), inst),
    {
        proof {
            reveal(end_zero_page_x_st);
        }
        let k = self.cycle;
        if k == 0 {
            self.run_fetch_zp(inst, 1);
        } else if k == 1 {
            self.run_zp_index_x(inst, 2);
        } else if k == 2 {
            self.run_to_pc(inst, FETCH_CYCLE);
        } else {
            self.cycle = FETCH_CYCLE;
        }
    }

    fn finish_zero_page_y_st(&mut self, inst: Instruction)
        ensures
            *final(self) == end_zero_page_y_st(*old(self), inst),
    {
        proof {
            reveal(end_zero_page_y_st);
        }
        let k = self.cycle;
        if k == 0 {
            self.run_fetch_zp(inst, 1);
        } else if k == 1 {
            self.run_zp_index_y(inst, 2);
        } else if k == 2 {
            self.run_to_pc(inst, FETCH_CYCLE);
        } else {
            self.cycle = FETCH_CYCLE;
        }
    }

    fn finish_zero_page_rmw(&mut self, inst: Instruction)
        ensures
            *final(self) == end_zero_page_rmw(*old(self), inst),
    {
        proof {
            reveal(end_zero_page_rmw);
        }
        let k = self.cycle;
        if k == 0 {
            self.run_fetch_zp(inst, 1);
        } else if k == 1 {
            self.run_keep_db(inst, 2);
        } else if k == 2 {
            self.run_op_temp(inst, 3);
        } else if k == 3 {
            self.run_to_pc(inst, FETCH_CYCLE);
        } else {
            self.cycle = FETCH_CYCLE;
        }
    }

    fn finish_zero_page_x_rmw(&mut self, inst: Instruction)
        ensures
            *final(self) == end_zero_page_x_rmw(*old(self), inst),
    {
        proof {
            reveal(end_zero_page_x_rmw);
        }
        let k = self.cycle;
        if k == 0 {
            self.run_fetch_zp(inst, 1);
        } else if k == 1 {
            self.run_zp_index_x(inst, 2);
        } else if k == 2 {
            self.run_keep_db(inst, 3);
        } else if k == 3 {
            self.run_op_temp(inst, 4);
        } else if k == 4 {
            self.run_to_pc(inst, FETCH_CYCLE);
        } else {
            self.cycle = FETCH_CYCLE;
        }
    }

    fn finish_relative(&mut self, inst: Instruction)
        ensures
            *final(self) == end_relative(*old(self), inst),
    {
        proof {
            reveal(end_relative);
        }
        let k = self.cycle;
        if k == 0 {
            self.relative_cycle_0(inst);
        } else if k == 1 {
            self.relative_cycle_1(inst);
        } else if k == 2 {
            self.run_to_pc(inst, FETCH_CYCLE);
        } else {
            self.cycle = FETCH_CYCLE;
        }
    }

    fn finish_absolute(&mut self, inst: Instruction)
        ensures
            *final(self) == end_absolute(*old(self), inst),
    {
        proof {
            reveal(end_absolute);
        }
        let k = self.cycle;
        if k == 0 {
            self.run_fetch_low(inst, 1);
        } else if k == 1 {
            self.run_fetch_high(inst, 2);
        } else if k == 2 {
            self.run_op_db_to_pc(inst, FETCH_CYCLE);
        } else {
            self.cycle = FETCH_CYCLE;
        }
    }

    fn finish_absolute_jmp(&mut self, inst: Instruction)
        ensures
            *final(self) == end_absolute_jmp(*old(self), inst),
    {
        proof {
            reveal(end_absolute_jmp);
        }
        let k = self.cycle;
        if k == 0 {
            self.run_fetch_low(inst, 1);
        } else if k == 1 {
            self.run_jump(inst, FETCH_CYCLE);
        } else {
            self.cycle = FETCH_CYCLE;
        }
    }

    fn finish_absolute_st(&mut self, inst: Instruction)
        ensures
            *final(self) == end_absolute_st(*old(self), inst),
    {
        proof {
            reveal(end_absolute_st);
        }
        let k = self.cycle;
        if k == 0 {
            self.run_fetch_low(inst, 1);
        } else if k == 1 {
            self.run_fetch_high(inst, 2);
        } else if k == 2 {
            self.run_to_pc(inst, FETCH_CYCLE);
        } else {
            self.cycle = FETCH_CYCLE;
        }
    }

    fn finish_absolute_rmw(&mut self, inst: Instruction)
        ensures
            *final(self) == end_absolute_rmw(*old(self), inst),
    {
        proof {
            reveal(end_absolute_rmw);
        }
        let k = self.cycle;
        if k == 0 {
            self.run_fetch_low(inst, 1);
        } else if k == 1 {
            self.run_fetch_high(inst, 2);
        } else if k == 2 {
            self.run_keep_db(inst, 3);
        } else if k == 3 {
            self.run_op_temp(inst, 4);
        } else if k == 4 {
            self.run_to_pc(inst, FETCH_CYCLE);
        } else {
            self.cycle = FETCH_CYCLE;
        }
    }

    fn finish_absolute_x(&mut self, inst: Instruction)
        ensures
            *final(self) == end_absolute_x(*old(self), inst),
    {
        proof {
            reveal(end_absolute_x);
        }
        let k = self.cycle;
        if k == 0 {
            self.run_fetch_low(inst, 1);
        } else if k == 1 {
            self.absolute_x_cycle_1(inst);
        } else if k == 2 {
            self.run_page_fix(inst, 3);
        } else if k == 3 {
            self.run_op_db_to_pc(inst, FETCH_CYCLE);
        } else {
            self.cycle = FETCH_CYCLE;
        }
    }

    fn finish_absolute_y(&mut self, inst: Instruction)
        ensures
            *final(self) == end_absolute_y(*old(self), inst),
    {
        proof {
            reveal(end_absolute_y);
        }
        let k = self.cycle;
        if k == 0 {
            self.run_fetch_low(inst, 1);
        } else if k == 1 {
            self.absolute_y_cycle_1(inst);
        } else if k == 2 {
            self.run_page_fix(inst, 3);
        } else if k == 3 {
            self.run_op_db_to_pc(inst, FETCH_CYCLE);
        } else {
            self.cycle = FETCH_CYCLE;
        }
    }

    fn finish_absolute_x_st(&mut self, inst: Instruction)
        ensures
            *final(self) == end_absolute_x_st(*old(self), inst),
    {
        proof {
            reveal(end_absolute_x_st);
        }
        let k = self.cycle;
        if k == 0 {
            self.run_fetch_low(inst, 1);
        } else if k == 1 {
            self.run_fetch_high_x(inst, 2);
        } else if k == 2 {
            self.run_page_fix_if_x(inst, 3);
        } else if k == 3 {
            self.run_to_pc(inst, FETCH_CYCLE);
        } else {
            self.cycle = FETCH_CYCLE;
        }
    }

    fn finish_absolute_y_st(&mut self, inst: Instruction)
        ensures
            *final(self) == end_absolute_y_st(*old(self), inst),
    {
        proof {
            reveal(end_absolute_y_st);
        }
        let k = self.cycle;
        if k == 0 {
            self.run_fetch_low(inst, 1);
        } else if k == 1 {
            self.run_fetch_high_y(inst, 2);
        } else if k == 2 {
            self.run_page_fix_if_y(inst, 3);
        } else if k == 3 {
            self.run_to_pc(inst, FETCH_CYCLE);
        } else {
            self.cycle = FETCH_CYCLE;
        }
    }

    fn finish_absolute_x_rmw(&mut self, inst: Instruction)
        ensures
            *final(self) == end_absolute_x_rmw(*old(self), inst),
    {
        proof {
            reveal(end_absolute_x_rmw);
        }
        let k = self.cycle;
        if k == 0 {
            self.run_fetch_low(inst, 1);
        } else if k == 1 {
            self.run_fetch_high_x(inst, 2);
        } else if k == 2 {
            self.run_page_fix_if_x(inst, 3);
        } else if k == 3 {
            self.run_keep_db(inst, 4);
        } else if k == 4 {
            self.run_op_temp(inst, 5);
        } else if k == 5 {
            self.run_to_pc(inst, FETCH_CYCLE);
        } else {
            self.cycle = FETCH_CYCLE;
        }
    }

    fn finish_absolute_y_illegal(&mut self, inst: Instruction)
        ensures
            *final(self) == end_absolute_y_illegal(*old(self), inst),
    {
        proof {
            reveal(end_absolute_y_illegal);
        }
        let k = self.cycle;
        if k == 0 {
            self.run_fetch_low(inst, 1);
        } else if k == 1 {
            self.run_fetch_high_y(inst, 2);
        } else if k == 2 {
            self.run_page_fix_if_y(inst, 3);
        } else if k == 3 {
            self.run_keep_db(inst, 4);
        } else if k == 4 {
            self.run_op_temp(inst, 5);
        } else if k == 5 {
            self.run_to_pc(inst, FETCH_CYCLE);
        } else {
            self.cycle = FETCH_CYCLE;
        }
    }

    fn finish_indirect(&mut self, inst: Instruction)
        ensures
            *final(self) == end_indirect(*old(self), inst),
    {
        proof {
            reveal(end_indirect);
        }
        let k = self.cycle;
        if k == 0 {
            self.run_fetch_low(inst, 1);
        } else if k == 1 {
            self.run_pointer_high(inst, 2);
        } else if k == 2 {
            self.run_indirect_low(inst, 3);
        } else if k == 3 {
            self.run_jump(inst, FETCH_CYCLE);
        } else {
            self.cycle = FETCH_CYCLE;
        }
    }

    fn finish_indirect_x(&mut self, inst: Instruction)
        ensures
            *final(self) == end_indirect_x(*old(self), inst),
    {
        proof {
            reveal(end_indirect_x);
        }
        let k = self.cycle;
        if k == 0 {
            self.run_fetch_zp(inst, 1);
        } else if k == 1 {
            self.run_zp_index_x(inst, 2);
        } else if k == 2 {
            self.run_pointer_low(inst, 3);
        } else if k == 3 {
            self.run_pointer_high(inst, 4);
        } else if k == 4 {
            self.run_op_db_to_pc(inst, FETCH_CYCLE);
        } else {
            self.cycle = FETCH_CYCLE;
        }
    }

    fn finish_indirect_x_st(&mut self, inst: Instruction)
        ensures
            *final(self) == end_indirect_x_st(*old(self), inst),
    {
        proof {
            reveal(end_indirect_x_st);
        }
        let k = self.cycle;
        if k == 0 {
            self.run_fetch_zp(inst, 1);
        } else if k == 1 {
            self.run_zp_index_x(inst, 2);
        } else if k == 2 {
            self.run_pointer_low(inst, 3);
        } else if k == 3 {
            self.run_pointer_high(inst, 4);
        } else if k == 4 {
            self.run_to_pc(inst, FETCH_CYCLE);
        } else {
            self.cycle = FETCH_CYCLE;
        }
    }

    fn finish_indirect_x_illegal(&mut self, inst: Instruction)
        ensures
            *final(self) == end_indirect_x_illegal(*old(self), inst),
    {
        proof {
            reveal(end_indirect_x_illegal);
        }
        let k = self.cycle;
        if k == 0 {
            self.run_fetch_zp(inst, 1);
        } else if k == 1 {
            self.run_zp_index_x(inst, 2);
        } else if k == 2 {
            self.run_pointer_low(inst, 3);
        } else if k == 3 {
            self.run_pointer_high(inst, 4);
        } else if k == 4 {
            self.run_keep_db(inst, 5);
        } else if k == 5 {
            self.run_op_temp(inst, 6);
        } else if k == 6 {
            self.run_to_pc(inst, FETCH_CYCLE);
        } else {
            self.cycle = FETCH_CYCLE;
        }
    }

    fn finish_indirect_y(&mut self, inst: Instruction)
        ensures
            *final(self) == end_indirect_y(*old(self), inst),
    {
        proof {
            reveal(end_indirect_y);
        }
        let k = self.cycle;
        if k == 0 {
            self.run_fetch_zp(inst, 1);
        } else if k == 1 {
            self.run_pointer_low(inst, 2);
        } else if k == 2 {
            self.indirect_y_cycle_2(inst);
        } else if k == 3 {
            self.run_page_fix(inst, 4);
        } else if k == 4 {
            self.run_op_db_to_pc(inst, FETCH_CYCLE);
        } else {
            self.cycle = FETCH_CYCLE;
        }
    }

    fn finish_indirect_y_st(&mut self, inst: Instruction)
        ensures
            *final(self) == end_indirect_y_st(*old(self), inst),
    {
        proof {
            reveal(end_indirect_y_st);
        }
        let k = self.cycle;
        if k == 0 {
            self.run_fetch_zp(inst, 1);
        } else if k == 1 {
            self.run_pointer_low(inst, 2);
        } else if k == 2 {
            self.run_pointer_high_indexed(inst, 3);
        } else if k == 3 {
            self.run_page_fix_if_y(inst, 4);
        } else if k == 4 {
            self.run_to_pc(inst, FETCH_CYCLE);
        } else {
            self.cycle = FETCH_CYCLE;
        }
    }

    fn finish_indirect_y_illegal(&mut self, inst: Instruction)
        ensures
            *final(self) == end_indirect_y_illegal(*old(self), inst),
    {
        proof {
            reveal(end_indirect_y_illegal);
        }
        let k = self.cycle;
        if k == 0 {
            self.run_fetch_zp(inst, 1);
        } else if k == 1 {
            self.run_pointer_low(inst, 2);
        } else if k == 2 {
            self.run_pointer_high_indexed(inst, 3);
        } else if k == 3 {
            self.run_page_fix_if_y(inst, 4);
        } else if k == 4 {
            self.run_keep_db(inst, 5);
        } else if k == 5 {
            self.run_op_temp(inst, 6);
        } else if k == 6 {
            self.run_to_pc(inst, FETCH_CYCLE);
        } else {
            self.cycle = FETCH_CYCLE;
        }
    }

    fn finish_jsr(&mut self, inst: Instruction)
        ensures
            *final(self) == end_jsr(*old(self), inst),
    {
        proof {
            reveal(end_jsr);
        }
        let k = self.cycle;
        if k == 0 {
            self.run_keep_db_step_pc_sp_to_ab(inst, 1);
        } else if k == 1 {
            self.run_sp_dec(inst, 2);
        } else if k == 2 {
            self.run_sp_to_ab_sp_dec(inst, 3);
        } else if k == 3 {
            self.run_to_pc(inst, 4);
        } else if k == 4 {
            self.run_jump(inst, FETCH_CYCLE);
        } else {
            self.cycle = FETCH_CYCLE;
        }
    }

    fn finish_brk(&mut self, inst: Instruction)
        ensures
            *final(self) == end_brk(*old(self), inst),
    {
        proof {
            reveal(end_brk);
        }
        let k = self.cycle;
        if k == 0 {
            self.run_brk_step_pc_sp_to_ab_sp_dec(inst, 1);
        } else if k == 1 {
            self.run_sp_to_ab_sp_dec(inst, 2);
        } else if k == 2 {
            self.run_sp_to_ab_sp_dec(inst, 3);
        } else if k == 3 {
            self.run_brk_vector(inst, 4);
        } else if k == 4 {
            self.run_brk_vector_low(inst, 5);
        } else if k == 5 {
            self.run_jump(inst, FETCH_CYCLE);
        } else {
            self.cycle = FETCH_CYCLE;
        }
    }

    fn finish_rti(&mut self, inst: Instruction)
        ensures
            *final(self) == end_rti(*old(self), inst),
    {
        proof {
            reveal(end_rti);
        }
        let k = self.cycle;
        if k == 0 {
            self.run_sp_to_ab(inst, 1);
        } else if k == 1 {
            self.run_sp_inc_sp_to_ab(inst, 2);
        } else if k == 2 {
            self.run_pull_status_db_sp_inc_sp_to_ab(inst, 3);
        } else if k == 3 {
            self.run_keep_db_sp_inc_sp_to_ab(inst, 4);
        } else if k == 4 {
            self.run_jump(inst, FETCH_CYCLE);
        } else {
            self.cycle = FETCH_CYCLE;
        }
    }

    fn finish_rts(&mut self, inst: Instruction)
        ensures
            *final(self) == end_rts(*old(self), inst),
    {
        proof {
            reveal(end_rts);
        }
        let k = self.cycle;
        if k == 0 {
            self.run_sp_to_ab(inst, 1);
        } else if k == 1 {
            self.run_sp_inc_sp_to_ab(inst, 2);
        } else if k == 2 {
            self.run_keep_db_sp_inc_sp_to_ab(inst, 3);
        } else if k == 3 {
            self.run_jump(inst, 4);
        } else if k == 4 {
            self.run_step_pc_to_pc(inst, FETCH_CYCLE);
        } else {
            self.cycle = FETCH_CYCLE;
        }
    }

    fn finish_pha(&mut self, inst: Instruction)
        ensures
            *final(self) == end_pha(*old(self), inst),
    {
        proof {
            reveal(end_pha);
        }
        let k = self.cycle;
        if k == 0 {
            self.run_sp_to_ab_sp_dec(inst, 1);
        } else if k == 1 {
            self.run_to_pc(inst, FETCH_CYCLE);
        } else {
            self.cycle = FETCH_CYCLE;
        }
    }

    fn finish_php(&mut self, inst: Instruction)
        ensures
            *final(self) == end_php(*old(self), inst),
    {
        proof {
            reveal(end_php);
        }
        let k = self.cycle;
        if k == 0 {
            self.run_sp_to_ab_sp_dec(inst, 1);
        } else if k == 1 {
            self.run_to_pc(inst, FETCH_CYCLE);
        } else {
            self.cycle = FETCH_CYCLE;
        }
    }

    fn finish_pla(&mut self, inst: Instruction)
        ensures
            *final(self) == end_pla(*old(self), inst),
    {
        proof {
            reveal(end_pla);
        }
        let k = self.cycle;
        if k == 0 {
            self.run_sp_to_ab(inst, 1);
        } else if k == 1 {
            self.run_sp_inc_sp_to_ab(inst, 2);
        } else if k == 2 {
            self.run_lda_db_to_pc(inst, FETCH_CYCLE);
        } else {
            self.cycle = FETCH_CYCLE;
        }
    }

    fn finish_plp(&mut self, inst: Instruction)
        ensures
            *final(self) == end_plp(*old(self), inst),
    {
        proof {
            reveal(end_plp);
        }
        let k = self.cycle;
        if k == 0 {
            self.run_sp_to_ab(inst, 1);
        } else if k == 1 {
            self.run_sp_inc_sp_to_ab(inst, 2);
        } else if k == 2 {
            self.run_pull_status_db_to_pc(inst, FETCH_CYCLE);
        } else {
            self.cycle = FETCH_CYCLE;
        }
    }

    /// Sets the registers that the current cycle of `inst` sets after its access, and moves
    /// to the next cycle.
    fn finish_cycle(&mut self, inst: Instruction)
        ensures
            *final(self) == cycle_end(*old(self), inst),
    {
        match inst.mode {
            AddressingMode::Implied => self.finish_implied(inst),
            AddressingMode::Accumulator => self.finish_accumulator(inst),
            AddressingMode::Immediate => self.finish_immediate(inst),
            AddressingMode::ZeroPage => self.finish_zero_page(inst),
            AddressingMode::ZeroPageX => self.finish_zero_page_x(inst),
            AddressingMode::ZeroPageY => self.finish_zero_page_y(inst),
            AddressingMode::ZeroPageSt => self.finish_zero_page_st(inst),
            AddressingMode::ZeroPageXSt => self.finish_zero_page_x_st(inst),
            AddressingMode::ZeroPageYSt => self.finish_zero_page_y_st(inst),
            AddressingMode::ZeroPageRmw => self.finish_zero_page_rmw(inst),
            AddressingMode::ZeroPageXRmw => self.finish_zero_page_x_rmw(inst),
            AddressingMode::Relative => self.finish_relative(inst),
            AddressingMode::Absolute => self.finish_absolute(inst),
            AddressingMode::AbsoluteJmp => self.finish_absolute_jmp(inst),
            AddressingMode::AbsoluteSt => self.finish_absolute_st(inst),
            AddressingMode::AbsoluteRmw => self.finish_absolute_rmw(inst),
            AddressingMode::AbsoluteX => self.finish_absolute_x(inst),
            AddressingMode::AbsoluteY => self.finish_absolute_y(inst),
            AddressingMode::AbsoluteXSt => self.finish_absolute_x_st(inst),
            AddressingMode::AbsoluteYSt => self.finish_absolute_y_st(inst),
            AddressingMode::AbsoluteXRmw => self.finish_absolute_x_rmw(inst),
            AddressingMode::AbsoluteYIllegal => self.finish_absolute_y_illegal(inst),
            AddressingMode::Indirect => self.finish_indirect(inst),
            AddressingMode::IndirectX => self.finish_indirect_x(inst),
            AddressingMode::IndirectXSt => self.finish_indirect_x_st(inst),
            AddressingMode::IndirectXIllegal => self.finish_indirect_x_illegal(inst),
            AddressingMode::IndirectY => self.finish_indirect_y(inst),
            AddressingMode::IndirectYSt => self.finish_indirect_y_st(inst),
            AddressingMode::IndirectYIllegal => self.finish_indirect_y_illegal(inst),
            AddressingMode::Jsr => self.finish_jsr(inst),
            AddressingMode::Brk => self.finish_brk(inst),
            AddressingMode::Rti => self.finish_rti(inst),
            AddressingMode::Rts => self.finish_rts(inst),
            AddressingMode::Pha => self.finish_pha(inst),
            AddressingMode::Php => self.finish_php(inst),
            AddressingMode::Pla => self.finish_pla(inst),
            AddressingMode::Plp => self.finish_plp(inst),
        }
    }
}
/// A store instruction's operation runs, and gives the write it makes.
#[verifier::opaque]
pub open spec fn store_begin(c: Cpu, op: Operation) -> (Cpu, CpuAccess) {
    let (after, w) = execute_spec(c, op, 0);
    (
        after,
        match w {
            Some(w) => CpuAccess::Write(w.addr, w.val),
            None => CpuAccess::Idle,
        },
    )
}

/// A read after the interrupt lines are sampled.
#[verifier::opaque]
pub open spec fn begin_read_cache(c: Cpu) -> (Cpu, CpuAccess) {
    (cached(c), CpuAccess::Read(c.ab))
}

/// A read after the sampled interrupts are checked.
#[verifier::opaque]
pub open spec fn begin_read_check(c: Cpu) -> (Cpu, CpuAccess) {
    (check_interrupts_spec(c), CpuAccess::Read(c.ab))
}

/// The unmodified byte is written back, after the lines are sampled.
#[verifier::opaque]
pub open spec fn begin_write_temp_cache(c: Cpu) -> (Cpu, CpuAccess) {
    (cached(c), CpuAccess::Write(c.ab, low_byte(c.temp)))
}

/// The modified byte is written, after the interrupt check.
#[verifier::opaque]
pub open spec fn begin_write_temp_check(c: Cpu) -> (Cpu, CpuAccess) {
    (check_interrupts_spec(c), CpuAccess::Write(c.ab, low_byte(c.temp)))
}

/// The high byte of the program counter is pushed.
#[verifier::opaque]
pub open spec fn begin_push_pc_high(c: Cpu) -> (Cpu, CpuAccess) {
    (c, CpuAccess::Write(c.ab, (c.pc / 256) as u8))
}

/// The low byte of the program counter is pushed, after the lines are sampled.
#[verifier::opaque]
pub open spec fn begin_push_pc_low_cache(c: Cpu) -> (Cpu, CpuAccess) {
    (cached(c), CpuAccess::Write(c.ab, (c.pc % 256) as u8))
}

/// BRK pushes the high byte of the program counter, unless a reset runs it.
#[verifier::opaque]
pub open spec fn begin_brk_push_pc_high(c: Cpu) -> (Cpu, CpuAccess) {
    (c, if brk_silent(c) { CpuAccess::Idle } else { CpuAccess::Write(c.ab, (c.pc / 256) as u8) })
}

/// BRK pushes the low byte of the program counter, unless a reset runs it.
#[verifier::opaque]
pub open spec fn begin_brk_push_pc_low(c: Cpu) -> (Cpu, CpuAccess) {
    (c, if brk_silent(c) { CpuAccess::Idle } else { CpuAccess::Write(c.ab, (c.pc % 256) as u8) })
}

/// BRK pushes the status with the B flag, unless a reset runs it.
#[verifier::opaque]
pub open spec fn begin_brk_push_status(c: Cpu) -> (Cpu, CpuAccess) {
    (c, if brk_silent(c) { CpuAccess::Idle } else { CpuAccess::Write(c.ab, status_byte(c.n, c.v, true, c.d, c.i, c.z, c.c)) })
}

/// A is pushed, after the interrupt check.
#[verifier::opaque]
pub open spec fn begin_push_a(c: Cpu) -> (Cpu, CpuAccess) {
    (check_interrupts_spec(c), CpuAccess::Write(c.ab, c.a))
}

/// The status with the B flag is pushed, after the interrupt check.
#[verifier::opaque]
pub open spec fn begin_push_status_flags(c: Cpu) -> (Cpu, CpuAccess) {
    (check_interrupts_spec(c), CpuAccess::Write(c.ab, status_byte(c.n, c.v, true, c.d, c.i, c.z, c.c)))
}

/// The state that a cycle of shape `k` leaves before its access, and the access; `op` is the
/// operation of the instruction.
pub open spec fn cycle_begin(c: Cpu, k: CycleKind, op: Operation) -> (Cpu, CpuAccess) {
    match k {
        CycleKind::Read => (c, CpuAccess::Read(c.ab)),
        CycleKind::Fetch => begin_read_cache(c),
        CycleKind::Store => store_begin(check_interrupts_spec(c), op),
        CycleKind::ReadCache => begin_read_cache(c),
        CycleKind::ReadCheck => begin_read_check(c),
        CycleKind::WriteTempCache => begin_write_temp_cache(c),
        CycleKind::WriteTempCheck => begin_write_temp_check(c),
        CycleKind::PushPcHigh => begin_push_pc_high(c),
        CycleKind::PushPcLowCache => begin_push_pc_low_cache(c),
        CycleKind::BrkPushPcHigh => begin_brk_push_pc_high(c),
        CycleKind::BrkPushPcLow => begin_brk_push_pc_low(c),
        CycleKind::BrkPushStatus => begin_brk_push_status(c),
        CycleKind::PushA => begin_push_a(c),
        CycleKind::PushStatus => begin_push_status_flags(c),
    }
}

/// The state after the current cycle did its access: a read that an OAM DMA took over ends
/// the instruction (the CPU fetches an opcode once the transfer is over); the fetch loads the
/// next opcode; any other cycle sets what it sets and moves on.
pub open spec fn cycle_finished(c: Cpu) -> Cpu {
    let inst = instruction_of(c.current_instruction);
    if reads(cycle_kind(inst.mode, c.cycle)) && c.hijack_read == DmaHijack::Hijacked {
        Cpu { cycle: FETCH_CYCLE, ..c }
    } else if c.cycle >= FETCH_CYCLE {
        c.after_fetch()
    } else {
        cycle_end(c, inst)
    }
}

impl Cpu {
    /// Runs a store instruction's operation, and gives the write it makes.
    fn store(&mut self, op: Operation) -> (a: CpuAccess)
        ensures
            (*final(self), a) == store_begin(*old(self), op),
    {
        proof {
            reveal(store_begin);
        }
        match self.execute(op, 0) {
            Some(w) => CpuAccess::Write(w.addr, w.val),
            None => CpuAccess::Idle,
        }
    }

    /// The shape of the current cycle.
    pub open spec fn current_kind(self) -> CycleKind {
        cycle_kind(instruction_of(self.current_instruction).mode, self.cycle)
    }

    /// Starts the current cycle: samples or checks the interrupt lines where the cycle does,
    /// runs a store's operation, and gives the cycle's access, which the caller makes (a read
    /// through `bus_read`, which leaves the byte in `db`).
    pub fn begin_cycle(&mut self) -> (a: CpuAccess)
        ensures
            (*final(self), a) == cycle_begin(
                *old(self),
                old(self).current_kind(),
                instruction_of(old(self).current_instruction).op,
            ),
    {
        let inst = decode(self.current_instruction);
        let k = kind_of(inst.mode, self.cycle);
        self.begin_kind(k, inst.op)
    }

    fn begin_read_cache(&mut self) -> (a: CpuAccess)
        ensures
            (*final(self), a) == begin_read_cache(*old(self)),
    {
        proof {
            reveal(begin_read_cache);
        }
        self.cache_interrupts();
        CpuAccess::Read(self.ab)
    }

    fn begin_read_check(&mut self) -> (a: CpuAccess)
        ensures
            (*final(self), a) == begin_read_check(*old(self)),
    {
        proof {
            reveal(begin_read_check);
        }
        self.check_interrupts();
        CpuAccess::Read(self.ab)
    }

    fn begin_write_temp_cache(&mut self) -> (a: CpuAccess)
        ensures
            (*final(self), a) == begin_write_temp_cache(*old(self)),
    {
        proof {
            reveal(begin_write_temp_cache);
        }
        self.cache_interrupts();
        CpuAccess::Write(self.ab, (self.temp % 256) as u8)
    }

    fn begin_write_temp_check(&mut self) -> (a: CpuAccess)
        ensures
            (*final(self), a) == begin_write_temp_check(*old(self)),
    {
        proof {
            reveal(begin_write_temp_check);
        }
        self.check_interrupts();
        CpuAccess::Write(self.ab, (self.temp % 256) as u8)
    }

    fn begin_push_pc_high(&mut self) -> (a: CpuAccess)
        ensures
            (*final(self), a) == begin_push_pc_high(*old(self)),
    {
        proof {
            reveal(begin_push_pc_high);
        }
        CpuAccess::Write(self.ab, (self.pc / 256) as u8)
    }

    fn begin_push_pc_low_cache(&mut self) -> (a: CpuAccess)
        ensures
            (*final(self), a) == begin_push_pc_low_cache(*old(self)),
    {
        proof {
            reveal(begin_push_pc_low_cache);
        }
        self.cache_interrupts();
        CpuAccess::Write(self.ab, (self.pc % 256) as u8)
    }

    fn begin_brk_push_pc_high(&mut self) -> (a: CpuAccess)
        ensures
            (*final(self), a) == begin_brk_push_pc_high(*old(self)),
    {
        proof {
            reveal(begin_brk_push_pc_high);
        }
        if self.take_interrupt && self.reset_signal { CpuAccess::Idle } else { CpuAccess::Write(self.ab, (self.pc / 256) as u8) }
    }

    fn begin_brk_push_pc_low(&mut self) -> (a: CpuAccess)
        ensures
            (*final(self), a) == begin_brk_push_pc_low(*old(self)),
    {
        proof {
            reveal(begin_brk_push_pc_low);
        }
        if self.take_interrupt && self.reset_signal { CpuAccess::Idle } else { CpuAccess::Write(self.ab, (self.pc % 256) as u8) }
    }

    fn begin_brk_push_status(&mut self) -> (a: CpuAccess)
        ensures
            (*final(self), a) == begin_brk_push_status(*old(self)),
    {
        proof {
            reveal(begin_brk_push_status);
        }
        if self.take_interrupt && self.reset_signal { CpuAccess::Idle } else { let w = self.push_status(true); CpuAccess::Write(w.addr, w.val) }
    }

    fn begin_push_a(&mut self) -> (a: CpuAccess)
        ensures
            (*final(self), a) == begin_push_a(*old(self)),
    {
        proof {
            reveal(begin_push_a);
        }
        self.check_interrupts();
        CpuAccess::Write(self.ab, self.a)
    }

    fn begin_push_status_flags(&mut self) -> (a: CpuAccess)
        ensures
            (*final(self), a) == begin_push_status_flags(*old(self)),
    {
        proof {
            reveal(begin_push_status_flags);
        }
        self.check_interrupts();
        { let w = self.push_status(true); CpuAccess::Write(w.addr, w.val) }
    }

    /// Starts a cycle of shape `k` of an instruction with the operation `op`.
    fn begin_kind(&mut self, k: CycleKind, op: Operation) -> (a: CpuAccess)
        ensures
            (*final(self), a) == cycle_begin(*old(self), k, op),
    {
        match k {
            CycleKind::Read => CpuAccess::Read(self.ab),
            CycleKind::Fetch => self.begin_read_cache(),
            CycleKind::Store => {
                self.check_interrupts();
                self.store(op)
            },
            CycleKind::ReadCache => self.begin_read_cache(),
            CycleKind::ReadCheck => self.begin_read_check(),
            CycleKind::WriteTempCache => self.begin_write_temp_cache(),
            CycleKind::WriteTempCheck => self.begin_write_temp_check(),
            CycleKind::PushPcHigh => self.begin_push_pc_high(),
            CycleKind::PushPcLowCache => self.begin_push_pc_low_cache(),
            CycleKind::BrkPushPcHigh => self.begin_brk_push_pc_high(),
            CycleKind::BrkPushPcLow => self.begin_brk_push_pc_low(),
            CycleKind::BrkPushStatus => self.begin_brk_push_status(),
            CycleKind::PushA => self.begin_push_a(),
            CycleKind::PushStatus => self.begin_push_status_flags(),
        }
    }

    /// Ends the current cycle after its access was made.
    pub fn end_cycle(&mut self)
        ensures
            *final(self) == cycle_finished(*old(self)),
    {
        let inst = decode(self.current_instruction);
        let k = kind_of(inst.mode, self.cycle);
        self.end_kind(k, inst);
    }

    /// Ends a cycle of shape `k` of the instruction `inst`.
    #[verifier::spinoff_prover]
    fn end_kind(&mut self, k: CycleKind, inst: Instruction)
        requires
            k == cycle_kind(inst.mode, old(self).cycle),
        ensures
            *final(self) == (if reads(k) && old(self).hijack_read == DmaHijack::Hijacked {
                Cpu { cycle: FETCH_CYCLE, ..*old(self) }
            } else if old(self).cycle >= FETCH_CYCLE {
                old(self).after_fetch()
            } else {
                cycle_end(*old(self), inst)
            }),
    {
        let read = match k {
            CycleKind::Read | CycleKind::ReadCache | CycleKind::ReadCheck | CycleKind::Fetch => true,
            _ => false,
        };
        if read && self.hijack_read == DmaHijack::Hijacked {
            self.cycle = FETCH_CYCLE;
        } else if self.cycle >= FETCH_CYCLE {
            let opcode = self.db;
            self.load_next_instruction(opcode);
            self.cycle = 0;
        } else {
            self.finish_cycle(inst);
        }
    }
}


impl Cpu {
    /// A reset: the CPU runs BRK from its start as a reset interrupt (its pushes skipped while
    /// the reset line is high), and the APU is silenced by the write of 0 to $4015 that is
    /// given, which the caller makes.
    pub fn gen_reset(&mut self) -> (w: crate::cpu::BusWrite)
        ensures
            *final(self) == (Cpu {
                current_instruction: 0,
                cycle: 0,
                take_interrupt: true,
                reset_signal: false,
                interrupt_type: InterruptType::Reset,
                ..*old(self)
            }),
            w == (crate::cpu::BusWrite { addr: 0x4015, val: 0 }),
    {
        self.current_instruction = 0;
        self.cycle = 0;
        self.take_interrupt = true;
        self.reset_signal = true;
        self.interrupt_type = InterruptType::Reset;
        let w = crate::cpu::BusWrite { addr: 0x4015, val: 0 };
        self.reset_signal = false;
        w
    }
}

/// An operation never changes where the CPU is in its instruction.
pub proof fn lemma_execute_keeps_cycle(c: Cpu, op: Operation, val: u8)
    ensures
        execute_spec(c, op, val).0.cycle == c.cycle,
{
    reveal(Cpu::after_adc);
    reveal(Cpu::after_alr);
    reveal(Cpu::after_anc);
    reveal(Cpu::after_and);
    reveal(Cpu::after_arr);
    reveal(Cpu::after_asl);
    reveal(Cpu::after_asl_a);
    reveal(Cpu::after_axs);
    reveal(Cpu::after_bit);
    reveal(Cpu::after_clc);
    reveal(Cpu::after_cld);
    reveal(Cpu::after_cli);
    reveal(Cpu::after_clv);
    reveal(Cpu::after_cmp);
    reveal(Cpu::after_cpx);
    reveal(Cpu::after_cpy);
    reveal(Cpu::after_dcp);
    reveal(Cpu::after_dec);
    reveal(Cpu::after_dex);
    reveal(Cpu::after_dey);
    reveal(Cpu::after_eor);
    reveal(Cpu::after_halt);
    reveal(Cpu::after_inc);
    reveal(Cpu::after_inx);
    reveal(Cpu::after_iny);
    reveal(Cpu::after_isc);
    reveal(Cpu::after_las);
    reveal(Cpu::after_lax);
    reveal(Cpu::after_lda);
    reveal(Cpu::after_ldx);
    reveal(Cpu::after_ldy);
    reveal(Cpu::after_lsr);
    reveal(Cpu::after_lsr_a);
    reveal(Cpu::after_ora);
    reveal(Cpu::after_rla);
    reveal(Cpu::after_rol);
    reveal(Cpu::after_rol_a);
    reveal(Cpu::after_ror);
    reveal(Cpu::after_ror_a);
    reveal(Cpu::after_rra);
    reveal(Cpu::after_sbc);
    reveal(Cpu::after_sec);
    reveal(Cpu::after_sed);
    reveal(Cpu::after_sei);
    reveal(Cpu::after_slo);
    reveal(Cpu::after_sre);
    reveal(Cpu::after_tax);
    reveal(Cpu::after_tay);
    reveal(Cpu::after_tsx);
    reveal(Cpu::after_txa);
    reveal(Cpu::after_txs);
    reveal(Cpu::after_tya);
    reveal(Cpu::after_xaa);
}

/// The operations of the cycles keep the cycle count that the cycle set.
pub proof fn lemma_ops_keep_cycle(c: Cpu, op: Operation)
    ensures
        c.after_op_db(op).cycle == c.cycle,
        c.after_op_temp(op).cycle == c.cycle,
{
    reveal(Cpu::after_op_db);
    reveal(Cpu::after_op_temp);
    lemma_execute_keeps_cycle(c, op, c.db);
    lemma_execute_keeps_cycle(c, op, low_byte(c.temp));
}

/// Every cycle of an instruction moves it on: the cycle count grows with each cycle until the
/// opcode fetch, so no instruction runs more than seven cycles before the next opcode is
/// fetched.
pub proof fn lemma_cycle_advances(c: Cpu, inst: Instruction)
    requires
        c.cycle < FETCH_CYCLE,
    ensures
        c.cycle < cycle_end(c, inst).cycle <= FETCH_CYCLE,
{
    lemma_ops_keep_cycle(Cpu { cycle: 1u8, ..c }, inst.op);
    lemma_ops_keep_cycle(Cpu { cycle: 1u8, ..c }, Operation::Lda);
    lemma_ops_keep_cycle(Cpu { cycle: 2u8, ..c }, inst.op);
    lemma_ops_keep_cycle(Cpu { cycle: 2u8, ..c }, Operation::Lda);
    lemma_ops_keep_cycle(Cpu { cycle: 3u8, ..c }, inst.op);
    lemma_ops_keep_cycle(Cpu { cycle: 3u8, ..c }, Operation::Lda);
    lemma_ops_keep_cycle(Cpu { cycle: 4u8, ..c }, inst.op);
    lemma_ops_keep_cycle(Cpu { cycle: 4u8, ..c }, Operation::Lda);
    lemma_ops_keep_cycle(Cpu { cycle: 5u8, ..c }, inst.op);
    lemma_ops_keep_cycle(Cpu { cycle: 5u8, ..c }, Operation::Lda);
    lemma_ops_keep_cycle(Cpu { cycle: 6u8, ..c }, inst.op);
    lemma_ops_keep_cycle(Cpu { cycle: 6u8, ..c }, Operation::Lda);
    lemma_ops_keep_cycle(Cpu { cycle: 7u8, ..c }, inst.op);
    lemma_ops_keep_cycle(Cpu { cycle: 7u8, ..c }, Operation::Lda);
    match inst.mode {
        AddressingMode::Implied => {
            reveal(end_implied);
            reveal(run_op_db);
        },
        AddressingMode::Accumulator => {
            reveal(end_accumulator);
            reveal(run_op_db);
        },
        AddressingMode::Immediate => {
            reveal(end_immediate);
            reveal(run_op_db_step_pc_to_pc);
        },
        AddressingMode::ZeroPage => {
            reveal(end_zero_page);
            reveal(run_fetch_zp);
            reveal(run_op_db_to_pc);
        },
        AddressingMode::ZeroPageX => {
            reveal(end_zero_page_x);
            reveal(run_fetch_zp);
            reveal(run_op_db_to_pc);
            reveal(run_zp_index_x);
        },
        AddressingMode::ZeroPageY => {
            reveal(end_zero_page_y);
            reveal(run_fetch_zp);
            reveal(run_op_db_to_pc);
            reveal(run_zp_index_y);
        },
        AddressingMode::ZeroPageSt => {
            reveal(end_zero_page_st);
            reveal(run_fetch_zp);
            reveal(run_to_pc);
        },
        AddressingMode::ZeroPageXSt => {
            reveal(end_zero_page_x_st);
            reveal(run_fetch_zp);
            reveal(run_to_pc);
            reveal(run_zp_index_x);
        },
        AddressingMode::ZeroPageYSt => {
            reveal(end_zero_page_y_st);
            reveal(run_fetch_zp);
            reveal(run_to_pc);
            reveal(run_zp_index_y);
        },
        AddressingMode::ZeroPageRmw => {
            reveal(end_zero_page_rmw);
            reveal(run_fetch_zp);
            reveal(run_keep_db);
            reveal(run_op_temp);
            reveal(run_to_pc);
        },
        AddressingMode::ZeroPageXRmw => {
            reveal(end_zero_page_x_rmw);
            reveal(run_fetch_zp);
            reveal(run_keep_db);
            reveal(run_op_temp);
            reveal(run_to_pc);
            reveal(run_zp_index_x);
        },
        AddressingMode::Relative => {
            reveal(end_relative);
            reveal(relative_cycle_0);
            reveal(relative_cycle_1);
            reveal(run_to_pc);
        },
        AddressingMode::Absolute => {
            reveal(end_absolute);
            reveal(run_fetch_high);
            reveal(run_fetch_low);
            reveal(run_op_db_to_pc);
        },
        AddressingMode::AbsoluteJmp => {
            reveal(end_absolute_jmp);
            reveal(run_fetch_low);
            reveal(run_jump);
        },
        AddressingMode::AbsoluteSt => {
            reveal(end_absolute_st);
            reveal(run_fetch_high);
            reveal(run_fetch_low);
            reveal(run_to_pc);
        },
        AddressingMode::AbsoluteRmw => {
            reveal(end_absolute_rmw);
            reveal(run_fetch_high);
            reveal(run_fetch_low);
            reveal(run_keep_db);
            reveal(run_op_temp);
            reveal(run_to_pc);
        },
        AddressingMode::AbsoluteX => {
            reveal(end_absolute_x);
            reveal(absolute_x_cycle_1);
            reveal(run_fetch_low);
            reveal(run_op_db_to_pc);
            reveal(run_page_fix);
        },
        AddressingMode::AbsoluteY => {
            reveal(end_absolute_y);
            reveal(absolute_y_cycle_1);
            reveal(run_fetch_low);
            reveal(run_op_db_to_pc);
            reveal(run_page_fix);
        },
        AddressingMode::AbsoluteXSt => {
            reveal(end_absolute_x_st);
            reveal(run_fetch_high_x);
            reveal(run_fetch_low);
            reveal(run_page_fix_if_x);
            reveal(run_to_pc);
        },
        AddressingMode::AbsoluteYSt => {
            reveal(end_absolute_y_st);
            reveal(run_fetch_high_y);
            reveal(run_fetch_low);
            reveal(run_page_fix_if_y);
            reveal(run_to_pc);
        },
        AddressingMode::AbsoluteXRmw => {
            reveal(end_absolute_x_rmw);
            reveal(run_fetch_high_x);
            reveal(run_fetch_low);
            reveal(run_keep_db);
            reveal(run_op_temp);
            reveal(run_page_fix_if_x);
            reveal(run_to_pc);
        },
        AddressingMode::AbsoluteYIllegal => {
            reveal(end_absolute_y_illegal);
            reveal(run_fetch_high_y);
            reveal(run_fetch_low);
            reveal(run_keep_db);
            reveal(run_op_temp);
            reveal(run_page_fix_if_y);
            reveal(run_to_pc);
        },
        AddressingMode::Indirect => {
            reveal(end_indirect);
            reveal(run_fetch_low);
            reveal(run_indirect_low);
            reveal(run_jump);
            reveal(run_pointer_high);
        },
        AddressingMode::IndirectX => {
            reveal(end_indirect_x);
            reveal(run_fetch_zp);
            reveal(run_op_db_to_pc);
            reveal(run_pointer_high);
            reveal(run_pointer_low);
            reveal(run_zp_index_x);
        },
        AddressingMode::IndirectXSt => {
            reveal(end_indirect_x_st);
            reveal(run_fetch_zp);
            reveal(run_pointer_high);
            reveal(run_pointer_low);
            reveal(run_to_pc);
            reveal(run_zp_index_x);
        },
        AddressingMode::IndirectXIllegal => {
            reveal(end_indirect_x_illegal);
            reveal(run_fetch_zp);
            reveal(run_keep_db);
            reveal(run_op_temp);
            reveal(run_pointer_high);
            reveal(run_pointer_low);
            reveal(run_to_pc);
            reveal(run_zp_index_x);
        },
        AddressingMode::IndirectY => {
            reveal(end_indirect_y);
            reveal(indirect_y_cycle_2);
            reveal(run_fetch_zp);
            reveal(run_op_db_to_pc);
            reveal(run_page_fix);
            reveal(run_pointer_low);
        },
        AddressingMode::IndirectYSt => {
            reveal(end_indirect_y_st);
            reveal(run_fetch_zp);
            reveal(run_page_fix_if_y);
            reveal(run_pointer_high_indexed);
            reveal(run_pointer_low);
            reveal(run_to_pc);
        },
        AddressingMode::IndirectYIllegal => {
            reveal(end_indirect_y_illegal);
            reveal(run_fetch_zp);
            reveal(run_keep_db);
            reveal(run_op_temp);
            reveal(run_page_fix_if_y);
            reveal(run_pointer_high_indexed);
            reveal(run_pointer_low);
            reveal(run_to_pc);
        },
        AddressingMode::Jsr => {
            reveal(end_jsr);
            reveal(run_jump);
            reveal(run_keep_db_step_pc_sp_to_ab);
            reveal(run_sp_dec);
            reveal(run_sp_to_ab_sp_dec);
            reveal(run_to_pc);
        },
        AddressingMode::Brk => {
            reveal(end_brk);
            reveal(run_brk_step_pc_sp_to_ab_sp_dec);
            reveal(run_brk_vector);
            reveal(run_brk_vector_low);
            reveal(run_jump);
            reveal(run_sp_to_ab_sp_dec);
        },
        AddressingMode::Rti => {
            reveal(end_rti);
            reveal(run_jump);
            reveal(run_keep_db_sp_inc_sp_to_ab);
            reveal(run_pull_status_db_sp_inc_sp_to_ab);
            reveal(run_sp_inc_sp_to_ab);
            reveal(run_sp_to_ab);
        },
        AddressingMode::Rts => {
            reveal(end_rts);
            reveal(run_jump);
            reveal(run_keep_db_sp_inc_sp_to_ab);
            reveal(run_sp_inc_sp_to_ab);
            reveal(run_sp_to_ab);
            reveal(run_step_pc_to_pc);
        },
        AddressingMode::Pha => {
            reveal(end_pha);
            reveal(run_sp_to_ab_sp_dec);
            reveal(run_to_pc);
        },
        AddressingMode::Php => {
            reveal(end_php);
            reveal(run_sp_to_ab_sp_dec);
            reveal(run_to_pc);
        },
        AddressingMode::Pla => {
            reveal(end_pla);
            reveal(run_lda_db_to_pc);
            reveal(run_sp_inc_sp_to_ab);
            reveal(run_sp_to_ab);
        },
        AddressingMode::Plp => {
            reveal(end_plp);
            reveal(run_pull_status_db_to_pc);
            reveal(run_sp_inc_sp_to_ab);
            reveal(run_sp_to_ab);
        },
    }
}

/// The opcode fetch starts the next instruction at its first cycle; an interrupt that is to be
/// taken runs BRK in place of the opcode read, without moving the program counter.
pub proof fn lemma_fetch_starts_instruction(c: Cpu)
    requires
        c.cycle >= FETCH_CYCLE,
        c.hijack_read != DmaHijack::Hijacked,
    ensures
        cycle_finished(c).cycle == 0,
        cycle_finished(c).current_instruction == (if c.take_interrupt { 0u8 } else { c.db }),
        cycle_finished(c).pc == (if c.take_interrupt { c.pc } else { wrap16(c.pc + 1) }),
        cycle_finished(c).ab == cycle_finished(c).pc,
{
    reveal(cycle_kind);
}

/// A read that an OAM DMA took over ends the instruction, and changes nothing else: once the
/// transfer is over, the CPU fetches an opcode.
pub proof fn lemma_dma_takes_read(c: Cpu)
    requires
        reads(c.current_kind()),
        c.hijack_read == DmaHijack::Hijacked,
    ensures
        cycle_finished(c) == (Cpu { cycle: FETCH_CYCLE, ..c }),
{
}

} // verus!
