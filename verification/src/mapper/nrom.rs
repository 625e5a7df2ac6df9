use vstd::prelude::*;

use crate::cartridge::{BankSize, Cartridge};
use crate::mapper::{prg_access_ok, prg_read, wram_after_write};

verus! {

/// Mapper 0: 16 or 32 KB of fixed PRG ROM, optional PRG RAM.
pub struct _0Nrom {
    /// Offset of the bank that appears at $C000
    pub prg_1: usize,
}

impl _0Nrom {
    /// The PRG ROM offset a CPU address maps to, if any.
    pub open spec fn rom_offset(&self, addr: int) -> Option<int> {
        if 0x8000 <= addr <= 0xBFFF {
            Some(addr - 0x8000)
        } else if 0xC000 <= addr <= 0xFFFF {
            Some(self.prg_1 + addr - 0xC000)
        } else {
            None
        }
    }

    /// The PRG RAM offset a CPU address maps to, if any.
    pub open spec fn ram_offset(&self, addr: int) -> Option<int> {
        if 0x6000 <= addr <= 0x7FFF {
            Some(addr - 0x6000)
        } else {
            None
        }
    }

    pub fn new(cartridge: &Cartridge) -> (r: Self)
        requires
            (cartridge.header.prg_rom_size as nat / 0x4000) as u8 >= 1,
        ensures
            r.prg_1 == ((cartridge.header.prg_rom_size as nat / 0x4000) as u8 - 1) * 0x4000,
    {
        let banks = cartridge.prg_rom_count(BankSize::Kb16) as u8;
        Self { prg_1: Cartridge::map_bank(banks - 1, BankSize::Kb16) }
    }

    pub fn cpu_read(&self, cartridge: &Cartridge, addr: usize) -> (r: Option<u8>)
        requires
            prg_access_ok(cartridge, self.rom_offset(addr as int), self.ram_offset(addr as int)),
        ensures
            r == prg_read(cartridge, self.rom_offset(addr as int), self.ram_offset(addr as int)),
    {
        proof {
            cartridge.lemma_sizes_fit();
        }
        if 0x6000 <= addr && addr <= 0x7FFF {
            cartridge.read_prg_ram(addr - 0x6000)
        } else if 0x8000 <= addr && addr <= 0xBFFF {
            Some(cartridge.read_prg_rom(addr - 0x8000))
        } else if 0xC000 <= addr && addr <= 0xFFFF {
            Some(cartridge.read_prg_rom(self.prg_1 + (addr - 0xC000)))
        } else {
            None
        }
    }

    pub fn cpu_write(&mut self, cartridge: &mut Cartridge, addr: usize, val: u8)
        requires
            prg_access_ok(old(cartridge), None, old(self).ram_offset(addr as int)),
        ensures
            *final(self) == *old(self),
            final(cartridge).header == old(cartridge).header,
            final(cartridge).prg() == old(cartridge).prg(),
            final(cartridge).chr_mem() == old(cartridge).chr_mem(),
            final(cartridge).wram() == wram_after_write(
                old(cartridge).wram(),
                old(self).ram_offset(addr as int),
                val,
            ),
    {
        if 0x6000 <= addr && addr <= 0x7FFF {
            cartridge.write_prg_ram(addr - 0x6000, val);
        }
    }

    pub fn write_chr(&mut self, cartridge: &mut Cartridge, addr: usize, val: u8)
        requires
            old(cartridge).has_chr_ram_spec() ==> addr < old(cartridge).chr_mem().len(),
        ensures
            *final(self) == *old(self),
            final(cartridge).header == old(cartridge).header,
            final(cartridge).prg() == old(cartridge).prg(),
            final(cartridge).wram() == old(cartridge).wram(),
            final(cartridge).chr_mem() == (if old(cartridge).has_chr_ram_spec() {
                old(cartridge).chr_mem().update(addr as int, val)
            } else {
                old(cartridge).chr_mem()
            }),
    {
        if cartridge.has_chr_ram() {
            cartridge.write_chr(addr, val);
        }
    }

    pub fn read_chr(&self, cartridge: &Cartridge, addr: usize) -> (r: u8)
        requires
            addr < cartridge.chr_mem().len(),
        ensures
            r == cartridge.chr_mem()[addr as int],
    {
        cartridge.read_chr(addr)
    }
}

} // verus!
