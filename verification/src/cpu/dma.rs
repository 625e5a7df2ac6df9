use vstd::prelude::*;

use crate::cpu::Cpu;

verus! {

/// The address after `addr`, wrapping at the end of the address space.
pub open spec fn next_address_spec(addr: u16) -> u16 {
    if addr == 0xFFFF {
        0
    } else {
        (addr + 1) as u16
    }
}

/// The address after `addr`, wrapping at the end of the address space.
fn next_address(addr: u16) -> (r: u16)
    ensures
        r == next_address_spec(addr),
{
    if addr == 0xFFFF {
        0
    } else {
        addr + 1
    }
}

impl Cpu {
    /// Ends a cycle of an OAM DMA whose access the caller made (a read leaves its byte in
    /// `db`). Gives whether the 256-byte transfer is over, after which the CPU fetches its
    /// next opcode.
    #[verifier::rlimit(100)]
    pub fn dma_advance(&mut self) -> (done: bool)
        requires
            1 <= old(self).dma_cycles <= 0x200,
        ensures
            ({
                let align = old(self).dma_cycles == 1 && old(self).odd_cycle;
                let read = !align && old(self).dma_cycles & 1 == 1;
                &&& done == (!align && old(self).dma_cycles == 0x200)
                &&& *final(self) == (Cpu {
                    dma_addr: if read { next_address_spec(old(self).dma_addr) } else { old(self).dma_addr },
                    copy_buffer: if read { old(self).db } else { old(self).copy_buffer },
                    dma_cycles: if align {
                        old(self).dma_cycles
                    } else if old(self).dma_cycles == 0x200 {
                        0u16
                    } else {
                        (old(self).dma_cycles + 1) as u16
                    },
                    ..*old(self)
                })
            }),
    {
        let cycles = self.dma_cycles;
        let align = cycles == 1 && self.odd_cycle;
        let read = !align && cycles & 1 == 1;
        let addr = if read { next_address(self.dma_addr) } else { self.dma_addr };
        let buffer = if read { self.db } else { self.copy_buffer };
        let next: u16 = if align {
            cycles
        } else if cycles == 0x200 {
            0
        } else {
            cycles + 1
        };
        self.dma_addr = addr;
        self.copy_buffer = buffer;
        self.dma_cycles = next;
        !align && cycles == 0x200
    }
}

} // verus!
