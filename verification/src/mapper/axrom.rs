use vstd::prelude::*;

use crate::cartridge::{BankSize, Cartridge, Mirroring};
use crate::mapper::{prg_access_ok, prg_read, chr_write_result};

verus! {

/// Mapper 7: a switchable 32 KB PRG ROM bank and one-screen mirroring.
pub struct _7Axrom {
    pub mirroring: Mirroring,
    pub prg_0: usize,
}

impl _7Axrom {
    /// The PRG ROM offset a CPU address maps to, if any.
    pub open spec fn rom_offset(&self, addr: int) -> Option<int> {
        if 0x8000 <= addr <= 0xFFFF {
            Some(self.prg_0 + addr - 0x8000)
        } else {
            None
        }
    }

    pub fn new(_cartridge: &Cartridge) -> (r: Self)
        ensures
            r == (_7Axrom { mirroring: Mirroring::SingleScreenLow, prg_0: 0 }),
    {
        Self { mirroring: Mirroring::SingleScreenLow, prg_0: 0 }
    }

    pub fn cpu_read(&self, cartridge: &Cartridge, addr: usize) -> (r: Option<u8>)
        requires
            prg_access_ok(cartridge, self.rom_offset(addr as int), None),
        ensures
            r == prg_read(cartridge, self.rom_offset(addr as int), None),
    {
        proof {
            cartridge.lemma_sizes_fit();
        }
        if 0x8000 <= addr && addr <= 0xFFFF {
            Some(cartridge.read_prg_rom(self.prg_0 + (addr - 0x8000)))
        } else {
            None
        }
    }

    /// A write to $8000-$FFFF selects the 32 KB bank (bits 0-2) and the nametable (bit 4).
    pub fn cpu_write(&mut self, addr: usize, val: u8)
        ensures
            *final(self) == (if 0x8000 <= addr <= 0xFFFF {
                _7Axrom {
                    prg_0: ((val & 7) * 0x8000) as usize,
                    mirroring: if val & 0x10 != 0 {
                        Mirroring::SingleScreenHigh
                    } else {
                        Mirroring::SingleScreenLow
                    },
                }
            } else {
                *old(self)
            }),
    {
        if 0x8000 <= addr && addr <= 0xFFFF {
            self.prg_0 = Cartridge::map_bank(val & 7, BankSize::Kb32);
            self.mirroring = if val & 0x10 != 0 {
                Mirroring::SingleScreenHigh
            } else {
                Mirroring::SingleScreenLow
            }
        }
    }

    pub fn read_chr(&self, cartridge: &Cartridge, addr: usize) -> (r: u8)
        requires
            addr < cartridge.chr_mem().len(),
        ensures
            r == cartridge.chr_mem()[addr as int],
    {
        cartridge.read_chr(addr)
    }

    pub fn write_chr(&mut self, cartridge: &mut Cartridge, addr: usize, val: u8)
        requires
            old(cartridge).has_chr_ram_spec() ==> addr < old(cartridge).chr_mem().len(),
        ensures
            *final(self) == *old(self),
            chr_write_result(old(cartridge), final(cartridge), old(cartridge).has_chr_ram_spec(), addr as int, val),
    {
        if cartridge.has_chr_ram() {
            cartridge.write_chr(addr, val);
        }
    }

    pub fn mirroring(&self) -> (r: Mirroring)
        ensures
            r == self.mirroring,
    {
        self.mirroring
    }
}

} // verus!
