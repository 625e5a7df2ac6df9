use vstd::prelude::*;

use crate::cpu::{wrap16, Cpu, DmaHijack, RAM_SIZE};

verus! {

/// Where a read of the CPU bus goes.
#[derive(Clone, Copy, Debug, PartialEq, Eq, Structural)]
pub enum ReadTarget {
    /// The internal RAM, at this index (the 2 KiB repeat four times below 0x2000)
    Ram(u16),
    /// A PPU register (0x2000 to 0x3FFF)
    Ppu,
    /// The APU status register (0x4015)
    ApuStatus,
    /// The first controller port (0x4016)
    Controller,
    /// Nothing drives the bus: the last value read stays on it
    OpenBus,
    /// The cartridge (0x4020 and up)
    Cartridge,
}

/// Where a write on the CPU bus goes.
#[derive(Clone, Copy, Debug, PartialEq, Eq, Structural)]
pub enum WriteTarget {
    /// The internal RAM, at this index
    Ram(u16),
    /// A PPU register (0x2000 to 0x3FFF)
    Ppu,
    /// An APU register (0x4000 to 0x4013, 0x4015 and 0x4017)
    Apu,
    /// The OAM DMA register (0x4014)
    OamDma,
    /// The controller strobe (0x4016)
    Controller,
    /// The unused test registers (0x4018 to 0x401F)
    Nowhere,
    /// The cartridge (0x4020 and up)
    Cartridge,
}

/// The CPU memory map, for reads.
pub open spec fn read_target_of(addr: u16) -> ReadTarget {
    if addr < 0x2000 {
        ReadTarget::Ram((addr % 0x800) as u16)
    } else if addr < 0x4000 {
        ReadTarget::Ppu
    } else if addr == 0x4015 {
        ReadTarget::ApuStatus
    } else if addr == 0x4016 {
        ReadTarget::Controller
    } else if addr < 0x4020 {
        ReadTarget::OpenBus
    } else {
        ReadTarget::Cartridge
    }
}

/// The CPU memory map, for writes.
pub open spec fn write_target_of(addr: u16) -> WriteTarget {
    if addr < 0x2000 {
        WriteTarget::Ram((addr % 0x800) as u16)
    } else if addr < 0x4000 {
        WriteTarget::Ppu
    } else if addr == 0x4014 {
        WriteTarget::OamDma
    } else if addr == 0x4016 {
        WriteTarget::Controller
    } else if addr < 0x4018 {
        WriteTarget::Apu
    } else if addr < 0x4020 {
        WriteTarget::Nowhere
    } else {
        WriteTarget::Cartridge
    }
}

/// Decodes the target of a read.
pub fn read_target(addr: u16) -> (r: ReadTarget)
    ensures
        r == read_target_of(addr),
{
    if addr < 0x2000 {
        ReadTarget::Ram(addr % 0x800)
    } else if addr < 0x4000 {
        ReadTarget::Ppu
    } else if addr == 0x4015 {
        ReadTarget::ApuStatus
    } else if addr == 0x4016 {
        ReadTarget::Controller
    } else if addr < 0x4020 {
        ReadTarget::OpenBus
    } else {
        ReadTarget::Cartridge
    }
}

/// Decodes the target of a write.
pub fn write_target(addr: u16) -> (r: WriteTarget)
    ensures
        r == write_target_of(addr),
{
    if addr < 0x2000 {
        WriteTarget::Ram(addr % 0x800)
    } else if addr < 0x4000 {
        WriteTarget::Ppu
    } else if addr == 0x4014 {
        WriteTarget::OamDma
    } else if addr == 0x4016 {
        WriteTarget::Controller
    } else if addr < 0x4018 {
        WriteTarget::Apu
    } else if addr < 0x4020 {
        WriteTarget::Nowhere
    } else {
        WriteTarget::Cartridge
    }
}

/// The byte a read at `addr` puts on the bus, given what the addressed device outside the
/// CPU drives (`None` when it drives nothing, as a mapper without memory there).
pub open spec fn read_value(c: Cpu, addr: u16, device: Option<u8>) -> u8 {
    match read_target_of(addr) {
        ReadTarget::Ram(i) => c.ram@[i as int],
        ReadTarget::OpenBus => c.open_bus,
        ReadTarget::Controller => (c.open_bus & 0xE0) | match device {
            Some(bits) => bits,
            None => 0,
        },
        _ => match device {
            Some(v) => v,
            None => c.open_bus,
        },
    }
}

/// The next state of an OAM DMA: `None` when none waits, the state after it starts otherwise.
pub open spec fn hijack_after_read(h: DmaHijack) -> DmaHijack {
    match h {
        DmaHijack::Request => DmaHijack::Hijacked,
        _ => h,
    }
}

/// What an OAM DMA cycle does on the bus.
#[derive(Clone, Copy, Debug, PartialEq, Eq, Structural)]
pub enum DmaAccess {
    /// A read whose value is dropped, to align the transfer with the even cycles
    Align(u16),
    /// A read of the next byte of the page being copied
    Read(u16),
    /// A write of the byte read before to the PPU's OAM data register
    Write(u16, u8),
}

impl Cpu {
    /// Whether the internal RAM has its 2 KiB.
    pub open spec fn ram_ok(&self) -> bool {
        self.ram@.len() == RAM_SIZE
    }

    /// A read of the CPU bus at `addr`; `device` is what the addressed device outside the CPU
    /// drives. The byte read stays on the bus, and a pending OAM DMA takes over this read.
    pub fn bus_read(&mut self, addr: u16, device: Option<u8>) -> (v: u8)
        requires
            old(self).ram_ok(),
        ensures
            v == read_value(*old(self), addr, device),
            *final(self) == (Cpu {
                open_bus: v,
                db: v,
                hijack_read: hijack_after_read(old(self).hijack_read),
                ..*old(self)
            }),
    {
        let v = match read_target(addr) {
            ReadTarget::Ram(i) => self.ram[i as usize],
            ReadTarget::OpenBus => self.open_bus,
            ReadTarget::Controller => (self.open_bus & 0xE0) | match device {
                Some(bits) => bits,
                None => 0,
            },
            _ => match device {
                Some(v) => v,
                None => self.open_bus,
            },
        };
        self.open_bus = v;
        self.db = v;
        if self.hijack_read == DmaHijack::Request {
            self.hijack_read = DmaHijack::Hijacked;
        }
        v
    }

    /// A write on the CPU bus: the internal RAM and the OAM DMA register are served here,
    /// and the target tells where else the write goes.
    pub fn bus_write(&mut self, addr: u16, val: u8) -> (t: WriteTarget)
        requires
            old(self).ram_ok(),
        ensures
            t == write_target_of(addr),
            match t {
                WriteTarget::Ram(i) => *final(self) == (Cpu { ram: final(self).ram, ..*old(self) })
                    && final(self).ram@ == old(self).ram@.update(i as int, val),
                WriteTarget::OamDma => *final(self) == (Cpu {
                    hijack_read: DmaHijack::Request,
                    dma_addr: (val * 256) as u16,
                    ..*old(self)
                }),
                _ => *final(self) == *old(self),
            },
    {
        let t = write_target(addr);
        match t {
            WriteTarget::Ram(i) => {
                self.ram.set(i as usize, val);
            },
            WriteTarget::OamDma => {
                self.hijack_read = DmaHijack::Request;
                self.dma_addr = (val as u16) * 256;
            },
            _ => {},
        }
        t
    }

    /// Starts an OAM DMA that hijacked a read: the CPU halts for the transfer.
    pub fn begin_dma(&mut self) -> (started: bool)
        ensures
            started == (old(self).hijack_read == DmaHijack::Hijacked),
            *final(self) == if started {
                Cpu { hijack_read: DmaHijack::Idle, dma_cycles: 1, ..*old(self) }
            } else {
                *old(self)
            },
    {
        if self.hijack_read == DmaHijack::Hijacked {
            self.hijack_read = DmaHijack::Idle;
            self.dma_cycles = 1;
            true
        } else {
            false
        }
    }

    /// What the current cycle of an OAM DMA does on the bus; nothing when no transfer runs.
    /// The transfer reads a byte on odd counts and writes it to 0x2004 on even ones; on an
    /// odd CPU cycle it first spends one cycle to align.
    pub fn dma_access(&self) -> (a: Option<DmaAccess>)
        ensures
            a == if self.dma_cycles == 0 {
                None
            } else if self.dma_cycles == 1 && self.odd_cycle {
                Some(DmaAccess::Align(self.ab))
            } else if self.dma_cycles % 2 == 1 {
                Some(DmaAccess::Read(self.dma_addr))
            } else {
                Some(DmaAccess::Write(0x2004, self.copy_buffer))
            },
    {
        if self.dma_cycles == 0 {
            None
        } else if self.dma_cycles == 1 && self.odd_cycle {
            Some(DmaAccess::Align(self.ab))
        } else if self.dma_cycles % 2 == 1 {
            Some(DmaAccess::Read(self.dma_addr))
        } else {
            Some(DmaAccess::Write(0x2004, self.copy_buffer))
        }
    }
}

/// A write to the internal RAM is read back at every address that mirrors it.
pub proof fn lemma_ram_mirrors(addr: u16, other: u16)
    requires
        addr < 0x2000,
        other < 0x2000,
        addr % 0x800 == other % 0x800,
    ensures
        read_target_of(addr) == read_target_of(other),
        write_target_of(addr) == WriteTarget::Ram((other % 0x800) as u16),
{
}

} // verus!
