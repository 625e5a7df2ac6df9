//! The order of the work in one tick of the CPU: an OAM DMA cycle, or one instruction and
//! the fetch of the next opcode, with the rest of the console clocked after each cycle. The
//! front end makes the bus accesses and clocks the other chips; these functions decide what
//! comes next.

use vstd::prelude::*;

use crate::cpu::bus::DmaAccess;
use crate::cpu::cycle::FETCH_CYCLE;
use crate::cpu::dma::next_address_spec;
use crate::cpu::{Cpu, DmaHijack};

verus! {

/// Where a tick stands.
#[derive(Clone, Copy, Debug, PartialEq, Eq, Structural)]
pub enum TickPhase {
    /// The tick has not started.
    Start,
    /// An OAM DMA may need its bus access.
    Dma,
    /// The DMA's access of this cycle was made.
    AfterDmaAccess,
    /// The CPU cycle that follows the end of a transfer ran.
    AfterDmaCycle,
    /// Whether the DMA still runs decides the rest.
    DmaEnd,
    /// The CPU runs the next cycle of its instruction.
    Instruction,
    /// A cycle of the instruction ran; the console is clocked next.
    InstructionClock,
    /// The cycle that fetches the next opcode ran; the console is clocked next.
    LastClock,
    /// The tick is over.
    Finished,
}

/// What the front end does next, and the phase it hands back afterwards.
#[derive(Clone, Copy, Debug, PartialEq, Eq, Structural)]
pub enum TickStep {
    /// The tick is over.
    Done,
    /// Clock the PPU, the APU and the mapper for one CPU cycle (the CPU's cycle parity has
    /// already flipped).
    Clock(TickPhase),
    /// Make this DMA access on the bus: a read through `bus_read`, a write through
    /// `bus_write`.
    DmaBus(DmaAccess, TickPhase),
    /// Run one CPU cycle: `begin_cycle`, its access, `end_cycle`.
    CpuCycle(TickPhase),
}

/// The CPU with its cycle parity flipped, as at the end of each CPU cycle.
pub open spec fn parity_flipped(c: Cpu) -> Cpu {
    Cpu { odd_cycle: !c.odd_cycle, ..c }
}

/// The bus access of the current cycle of a running OAM DMA (see `dma_access`).
pub open spec fn dma_access_of(c: Cpu) -> DmaAccess {
    if c.dma_cycles == 1 && c.odd_cycle {
        DmaAccess::Align(c.ab)
    } else if c.dma_cycles % 2 == 1 {
        DmaAccess::Read(c.dma_addr)
    } else {
        DmaAccess::Write(0x2004, c.copy_buffer)
    }
}

/// Whether the current DMA cycle is the last one of the transfer (see `dma_advance`).
pub open spec fn dma_finishes(c: Cpu) -> bool {
    !(c.dma_cycles == 1 && c.odd_cycle) && c.dma_cycles == 0x200
}

/// The CPU after the current DMA cycle (see `dma_advance`).
pub open spec fn dma_advanced(c: Cpu) -> Cpu {
    let align = c.dma_cycles == 1 && c.odd_cycle;
    let read = !align && c.dma_cycles & 1 == 1;
    Cpu {
        dma_addr: if read { next_address_spec(c.dma_addr) } else { c.dma_addr },
        copy_buffer: if read { c.db } else { c.copy_buffer },
        dma_cycles: if align {
            c.dma_cycles
        } else if c.dma_cycles == 0x200 {
            0u16
        } else {
            (c.dma_cycles + 1) as u16
        },
        ..c
    }
}

/// The next cycle of the instruction, or the fetch of the next opcode.
pub open spec fn instruction_step(c: Cpu) -> (Cpu, TickStep) {
    if c.cycle < FETCH_CYCLE {
        (c, TickStep::CpuCycle(TickPhase::InstructionClock))
    } else {
        (c, TickStep::CpuCycle(TickPhase::LastClock))
    }
}

/// While a DMA runs, the tick ends with a clock; otherwise the instruction runs.
pub open spec fn dma_end_step(c: Cpu) -> (Cpu, TickStep) {
    if c.dma_cycles != 0 {
        (parity_flipped(c), TickStep::Clock(TickPhase::Finished))
    } else {
        instruction_step(c)
    }
}

/// A running DMA makes its access; otherwise the tick goes on as after it.
pub open spec fn dma_step(c: Cpu) -> (Cpu, TickStep) {
    if 1 <= c.dma_cycles <= 0x200 {
        (c, TickStep::DmaBus(dma_access_of(c), TickPhase::AfterDmaAccess))
    } else {
        dma_end_step(c)
    }
}

/// The state and the next step of a tick at `phase`.
pub open spec fn tick_step_spec(c: Cpu, phase: TickPhase) -> (Cpu, TickStep) {
    match phase {
        TickPhase::Start => if c.halt {
            (c, TickStep::Done)
        } else if c.hijack_read == DmaHijack::Hijacked {
            (
                parity_flipped(Cpu { hijack_read: DmaHijack::Idle, dma_cycles: 1, ..c }),
                TickStep::Clock(TickPhase::Dma),
            )
        } else {
            dma_step(c)
        },
        TickPhase::Dma => dma_step(c),
        TickPhase::AfterDmaAccess => if 1 <= c.dma_cycles <= 0x200 {
            if dma_finishes(c) {
                (dma_advanced(c), TickStep::CpuCycle(TickPhase::AfterDmaCycle))
            } else {
                dma_end_step(dma_advanced(c))
            }
        } else {
            dma_end_step(c)
        },
        TickPhase::AfterDmaCycle => (parity_flipped(c), TickStep::Clock(TickPhase::DmaEnd)),
        TickPhase::DmaEnd => dma_end_step(c),
        TickPhase::Instruction => instruction_step(c),
        TickPhase::InstructionClock => (parity_flipped(c), TickStep::Clock(TickPhase::Instruction)),
        TickPhase::LastClock => (parity_flipped(c), TickStep::Clock(TickPhase::Finished)),
        TickPhase::Finished => (c, TickStep::Done),
    }
}

impl Cpu {
    fn flip_parity(&mut self)
        ensures
            *final(self) == parity_flipped(*old(self)),
    {
        self.odd_cycle = !self.odd_cycle;
    }

    fn instruction_step(&mut self) -> (r: TickStep)
        ensures
            (*final(self), r) == instruction_step(*old(self)),
    {
        if self.cycle < FETCH_CYCLE {
            TickStep::CpuCycle(TickPhase::InstructionClock)
        } else {
            TickStep::CpuCycle(TickPhase::LastClock)
        }
    }

    fn dma_end_step(&mut self) -> (r: TickStep)
        ensures
            (*final(self), r) == dma_end_step(*old(self)),
    {
        if self.dma_cycles != 0 {
            self.flip_parity();
            TickStep::Clock(TickPhase::Finished)
        } else {
            self.instruction_step()
        }
    }

    fn dma_step(&mut self) -> (r: TickStep)
        ensures
            (*final(self), r) == dma_step(*old(self)),
    {
        if 1 <= self.dma_cycles && self.dma_cycles <= 0x200 {
            match self.dma_access() {
                Some(a) => TickStep::DmaBus(a, TickPhase::AfterDmaAccess),
                None => TickStep::Done,
            }
        } else {
            self.dma_end_step()
        }
    }

    /// Decides the next step of a tick at `phase` and makes the CPU's own part of it: starting
    /// a DMA that hijacked a read, ending a DMA cycle whose access was made, flipping the
    /// cycle parity before each clock. The front end starts at `TickPhase::Start`, performs
    /// each step and hands back its phase, until `TickStep::Done`.
    pub fn tick_step(&mut self, phase: TickPhase) -> (r: TickStep)
        ensures
            (*final(self), r) == tick_step_spec(*old(self), phase),
    {
        match phase {
            TickPhase::Start => {
                if self.halt {
                    TickStep::Done
                } else if self.begin_dma() {
                    self.flip_parity();
                    TickStep::Clock(TickPhase::Dma)
                } else {
                    self.dma_step()
                }
            },
            TickPhase::Dma => self.dma_step(),
            TickPhase::AfterDmaAccess => {
                if 1 <= self.dma_cycles && self.dma_cycles <= 0x200 {
                    if self.dma_advance() {
                        TickStep::CpuCycle(TickPhase::AfterDmaCycle)
                    } else {
                        self.dma_end_step()
                    }
                } else {
                    self.dma_end_step()
                }
            },
            TickPhase::AfterDmaCycle => {
                self.flip_parity();
                TickStep::Clock(TickPhase::DmaEnd)
            },
            TickPhase::DmaEnd => self.dma_end_step(),
            TickPhase::Instruction => self.instruction_step(),
            TickPhase::InstructionClock => {
                self.flip_parity();
                TickStep::Clock(TickPhase::Instruction)
            },
            TickPhase::LastClock => {
                self.flip_parity();
                TickStep::Clock(TickPhase::Finished)
            },
            TickPhase::Finished => TickStep::Done,
        }
    }
}

} // verus!
