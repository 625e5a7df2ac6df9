use vstd::prelude::*;

use crate::cartridge::{BankSize, Cartridge};
use crate::mapper::{prg_access_ok, prg_read, chr_write_result};

verus! {

/// Mapper 3: fixed PRG ROM and a switchable 8 KB CHR bank.
pub struct _3Cnrom {
    pub prg_1: usize,
    pub chr_0: usize,
}

impl _3Cnrom {
    /// The PRG ROM offset a CPU address maps to, if any.
    pub open spec fn rom_offset(&self, addr: int) -> Option<int> {
        if 0x8000 <= addr <= 0xBFFF {
            Some(addr - 0x8000)
        } else if 0xC000 <= addr <= 0xFFFF {
            Some(self.prg_1 + addr - 0xC000)
        } else {
            None
        }
    }

    /// A cartridge with a single 16 KB bank mirrors it at $C000; with more, the second bank
    /// appears there and the others are ignored.
    pub fn new(cartridge: &Cartridge) -> (r: Self)
        ensures
            r.prg_1 == (if cartridge.header.prg_rom_size as nat / 0x4000 == 1 { 0usize } else { 0x4000usize }),
            r.chr_0 == 0,
    {
        let prg_count = cartridge.prg_rom_count(BankSize::Kb16);
        let prg_1 = if prg_count == 1 {
            Cartridge::map_bank(0, BankSize::Kb16)
        } else {
            Cartridge::map_bank(1, BankSize::Kb16)
        };
        Self { prg_1, chr_0: 0 }
    }

    pub fn cpu_read(&self, cartridge: &Cartridge, addr: usize) -> (r: Option<u8>)
        requires
            prg_access_ok(cartridge, self.rom_offset(addr as int), None),
        ensures
            r == prg_read(cartridge, self.rom_offset(addr as int), None),
    {
        proof {
            cartridge.lemma_sizes_fit();
        }
        if 0x8000 <= addr && addr <= 0xBFFF {
            Some(cartridge.read_prg_rom(addr - 0x8000))
        } else if 0xC000 <= addr && addr <= 0xFFFF {
            Some(cartridge.read_prg_rom(self.prg_1 + (addr - 0xC000)))
        } else {
            None
        }
    }

    /// Any write to $8000-$FFFF selects the 8 KB CHR bank (two bits).
    pub fn cpu_write(&mut self, addr: usize, val: u8)
        ensures
            *final(self) == (if 0x8000 <= addr <= 0xFFFF {
                _3Cnrom { chr_0: ((val & 3) * 0x2000) as usize, ..*old(self) }
            } else {
                *old(self)
            }),
    {
        if 0x8000 <= addr && addr <= 0xFFFF {
            self.chr_0 = Cartridge::map_bank(val & 3, BankSize::Kb8);
        }
    }

    pub fn read_chr(&self, cartridge: &Cartridge, addr: usize) -> (r: u8)
        requires
            self.chr_0 + addr < cartridge.chr_mem().len(),
        ensures
            r == cartridge.chr_mem()[self.chr_0 + addr],
    {
        proof {
            cartridge.lemma_sizes_fit();
        }
        cartridge.read_chr(self.chr_0 + addr)
    }

    pub fn write_chr(&mut self, cartridge: &mut Cartridge, addr: usize, val: u8)
        requires
            old(cartridge).has_chr_ram_spec() ==> old(self).chr_0 + addr < old(cartridge).chr_mem().len(),
        ensures
            *final(self) == *old(self),
            chr_write_result(
                old(cartridge),
                final(cartridge),
                old(cartridge).has_chr_ram_spec(),
                old(self).chr_0 + addr,
                val,
            ),
    {
        proof {
            cartridge.lemma_sizes_fit();
        }
        if cartridge.has_chr_ram() {
            cartridge.write_chr(self.chr_0 + addr, val);
        }
    }
}

} // verus!
