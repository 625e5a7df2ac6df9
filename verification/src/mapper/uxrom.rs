use vstd::prelude::*;

use crate::cartridge::{BankSize, Cartridge};
use crate::mapper::{prg_access_ok, prg_read, chr_write_result};

verus! {

/// Mapper 2: a switchable 16 KB PRG ROM bank at $8000 and the last bank fixed at $C000.
pub struct _2Uxrom {
    pub prg_0: usize,
    pub prg_1: usize,
}

impl _2Uxrom {
    /// The PRG ROM offset a CPU address maps to, if any.
    pub open spec fn rom_offset(&self, addr: int) -> Option<int> {
        if 0x8000 <= addr <= 0xBFFF {
            Some(self.prg_0 + addr - 0x8000)
        } else if 0xC000 <= addr <= 0xFFFF {
            Some(self.prg_1 + addr - 0xC000)
        } else {
            None
        }
    }

    pub fn new(cartridge: &Cartridge) -> (r: Self)
        requires
            (cartridge.header.prg_rom_size as nat / 0x4000) as u8 >= 1,
        ensures
            r.prg_0 == 0,
            r.prg_1 == ((cartridge.header.prg_rom_size as nat / 0x4000) as u8 - 1) * 0x4000,
    {
        let banks = cartridge.prg_rom_count(BankSize::Kb16) as u8;
        Self { prg_0: 0, prg_1: Cartridge::map_bank(banks - 1, BankSize::Kb16) }
    }

    pub fn cpu_read(&self, cartridge: &Cartridge, addr: usize) -> (r: Option<u8>)
        requires
            prg_access_ok(cartridge, self.rom_offset(addr as int), None),
        ensures
            r == prg_read(cartridge, self.rom_offset(addr as int), None),
    {
        proof {
            cartridge.lemma_sizes_fit();
        }
        if 0x8000 <= addr && addr <= 0xBFFF {
            Some(cartridge.read_prg_rom(self.prg_0 + (addr - 0x8000)))
        } else if 0xC000 <= addr && addr <= 0xFFFF {
            Some(cartridge.read_prg_rom(self.prg_1 + (addr - 0xC000)))
        } else {
            None
        }
    }

    /// Any write to $8000-$FFFF selects the 16 KB bank at $8000.
    pub fn cpu_write(&mut self, addr: usize, val: u8)
        ensures
            *final(self) == (if 0x8000 <= addr <= 0xFFFF {
                _2Uxrom { prg_0: (val * 0x4000) as usize, ..*old(self) }
            } else {
                *old(self)
            }),
    {
        if 0x8000 <= addr && addr <= 0xFFFF {
            self.prg_0 = Cartridge::map_bank(val, BankSize::Kb16);
        }
    }

    pub fn read_chr(&self, cartridge: &Cartridge, addr: usize) -> (r: u8)
        requires
            addr < cartridge.chr_mem().len(),
        ensures
            r == cartridge.chr_mem()[addr as int],
    {
        cartridge.read_chr(addr)
    }

    /// CHR writes only land when the cartridge has no CHR ROM.
    pub fn write_chr(&mut self, cartridge: &mut Cartridge, addr: usize, val: u8)
        requires
            old(cartridge).header.chr_rom_size is None ==> addr < old(cartridge).chr_mem().len(),
        ensures
            *final(self) == *old(self),
            chr_write_result(
                old(cartridge),
                final(cartridge),
                old(cartridge).header.chr_rom_size is None,
                addr as int,
                val,
            ),
    {
        if cartridge.header.chr_rom_size.is_none() {
            cartridge.write_chr(addr, val);
        }
    }
}

} // verus!
