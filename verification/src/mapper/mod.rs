use vstd::prelude::*;

use crate::cartridge::{Cartridge, Mirroring};
use crate::error::NesError;

pub mod axrom;
pub mod fme7;
pub mod mmc1;
pub mod mmc3;
pub mod cnrom;
pub mod nrom;
pub mod uxrom;

use axrom::_7Axrom;
use cnrom::_3Cnrom;
use fme7::{_69Fme7, prg_banks_8k};
use mmc1::_1Mmc1;
use mmc3::_4Mmc3;
use nrom::_0Nrom;
use uxrom::_2Uxrom;

verus! {

/// Whether an access at PRG ROM offset `rom` and PRG RAM offset `ram` (each if the
/// address maps there) stays inside the cartridge's memory.
pub open spec fn prg_access_ok(cart: &Cartridge, rom: Option<int>, ram: Option<int>) -> bool {
    &&& (rom matches Some(o) ==> 0 <= o < cart.prg().len())
    &&& (ram matches Some(o) ==> cart.wram_addr_ok(o))
}

/// What a CPU read gives: the PRG ROM byte, the PRG RAM byte if there is PRG RAM,
/// or nothing (open bus).
pub open spec fn prg_read(cart: &Cartridge, rom: Option<int>, ram: Option<int>) -> Option<u8> {
    match rom {
        Some(o) => Some(cart.prg()[o]),
        None => match ram {
            Some(o) => cart.wram_read(o),
            None => None,
        },
    }
}

/// The PRG RAM after a CPU write that maps to offset `ram`, if it maps there.
pub open spec fn wram_after_write(w: Option<Seq<u8>>, ram: Option<int>, val: u8) -> Option<Seq<u8>> {
    match (w, ram) {
        (Some(w), Some(o)) => Some(w.update(o, val)),
        _ => w,
    }
}

/// The cartridge after a CHR write at `offset` that lands only when `writable`:
/// nothing but that byte of CHR memory changes.
pub open spec fn chr_write_result(old_cart: &Cartridge, new_cart: &Cartridge, writable: bool, offset: int, val: u8) -> bool {
    &&& new_cart.header == old_cart.header
    &&& new_cart.prg() == old_cart.prg()
    &&& new_cart.wram() == old_cart.wram()
    &&& new_cart.chr_mem() == (if writable {
        old_cart.chr_mem().update(offset, val)
    } else {
        old_cart.chr_mem()
    })
}

/// What a CPU write of `val` to `addr` at the CPU cycle `cpu_cycle` does to the mapper: only
/// the PRG RAM byte that the address maps to and the chip's registers change.
pub open spec fn cpu_write_post(before: BaseMapper, after: BaseMapper, addr: int, val: u8, cpu_cycle: u64) -> bool {
    &&& after.nt_ram == before.nt_ram
    &&& after.cartridge.header == before.cartridge.header
    &&& after.cartridge.prg() == before.cartridge.prg()
    &&& after.cartridge.chr_mem() == before.cartridge.chr_mem()
    &&& after.cartridge.wram() == wram_after_write(
        before.cartridge.wram(),
        before.ram_offset(addr),
        val,
    )
    &&& match (before.chip, after.chip) {
        (MapperChip::_0Nrom(a), MapperChip::_0Nrom(b)) => b == a,
        (MapperChip::_1Mmc1(a), MapperChip::_1Mmc1(b)) => b == (if 0x8000 <= addr <= 0xFFFF {
            a.serial_write(addr, val, cpu_cycle)
        } else {
            a
        }),
        (MapperChip::_2Uxrom(a), MapperChip::_2Uxrom(b)) => b == (if 0x8000 <= addr <= 0xFFFF {
            _2Uxrom { prg_0: (val * 0x4000) as usize, ..a }
        } else {
            a
        }),
        (MapperChip::_3Cnrom(a), MapperChip::_3Cnrom(b)) => b == (if 0x8000 <= addr <= 0xFFFF {
            _3Cnrom { chr_0: ((val & 3) * 0x2000) as usize, ..a }
        } else {
            a
        }),
        (MapperChip::_4Mmc3(a), MapperChip::_4Mmc3(b)) => b == (if addr >= 0x8000 {
            a.register_write_spec(addr, val)
        } else {
            a
        }),
        (MapperChip::_7Axrom(a), MapperChip::_7Axrom(b)) => b == (if 0x8000 <= addr <= 0xFFFF {
            _7Axrom {
                prg_0: ((val & 7) * 0x8000) as usize,
                mirroring: if val & 0x10 != 0 {
                    Mirroring::SingleScreenHigh
                } else {
                    Mirroring::SingleScreenLow
                },
            }
        } else {
            a
        }),
        (MapperChip::_69Fme7(a), MapperChip::_69Fme7(b)) => b == (if 0x8000 <= addr <= 0x9FFF {
            _69Fme7 { cmd: val & 0xF, ..a }
        } else if 0xA000 <= addr <= 0xBFFF {
            a.parameter_spec(val, prg_banks_8k(&before.cartridge))
        } else {
            a
        }),
        _ => false,
    }
}

/// The mapper chip of a cartridge, with its bank registers.
pub enum MapperChip {
    _0Nrom(_0Nrom),
    _1Mmc1(_1Mmc1),
    _2Uxrom(_2Uxrom),
    _3Cnrom(_3Cnrom),
    _4Mmc3(_4Mmc3),
    _7Axrom(_7Axrom),
    _69Fme7(_69Fme7),
}

/// Whether the mapper number of a header is one of the supported ones.
pub open spec fn supported_mapper(id: u32) -> bool {
    id == 0 || id == 1 || id == 2 || id == 3 || id == 4 || id == 7 || id == 69
}

/// What the chip of mapper `id` needs from the cartridge's header to be set up.
pub open spec fn chip_new_ok(cart: &Cartridge) -> bool {
    let id = cart.header.mapper;
    let size = cart.header.prg_rom_size as nat;
    &&& (id == 0 || id == 1 || id == 2) ==> (size / 0x4000) as u8 >= 1
    &&& id == 4 ==> {
        &&& (cart.header.chr_rom_size is Some) != (cart.header.chr_ram_size is Some)
        &&& (size / 0x2000) as u8 >= 2
    }
    &&& id == 69 ==> (size / 0x2000) as u8 >= 1
}

/// The cartridge, its mapper chip and the 4 KB of nametable RAM.
pub struct BaseMapper {
    pub nt_ram: Vec<u8>,
    pub cartridge: Cartridge,
    pub chip: MapperChip,
}

impl BaseMapper {
    /// The invariant: 4 KB of nametable RAM, and each chip's own invariant.
    pub open spec fn wf(&self) -> bool {
        &&& self.nt_ram@.len() == 0x1000
        &&& match self.chip {
            MapperChip::_1Mmc1(c) => c.wf(),
            MapperChip::_4Mmc3(c) => c.wf(),
            MapperChip::_69Fme7(c) => c.wf() && prg_banks_8k(&self.cartridge) > 0,
            _ => true,
        }
    }

    /// The PRG ROM offset a CPU address maps to, if any.
    pub open spec fn rom_offset(&self, addr: int) -> Option<int> {
        match self.chip {
            MapperChip::_0Nrom(c) => c.rom_offset(addr),
            MapperChip::_1Mmc1(c) => c.rom_offset(addr),
            MapperChip::_2Uxrom(c) => c.rom_offset(addr),
            MapperChip::_3Cnrom(c) => c.rom_offset(addr),
            MapperChip::_4Mmc3(c) => c.rom_offset(addr),
            MapperChip::_7Axrom(c) => c.rom_offset(addr),
            MapperChip::_69Fme7(c) => c.rom_offset(addr),
        }
    }

    /// The PRG RAM offset a CPU address maps to, if any.
    pub open spec fn ram_offset(&self, addr: int) -> Option<int> {
        match self.chip {
            MapperChip::_0Nrom(c) => c.ram_offset(addr),
            MapperChip::_1Mmc1(c) => c.ram_offset(addr),
            MapperChip::_4Mmc3(c) => c.ram_offset(addr),
            MapperChip::_69Fme7(c) => c.ram_offset(addr),
            _ => None,
        }
    }

    /// Whether a CPU read of `addr` stays inside the cartridge's memory.
    pub open spec fn cpu_read_ok(&self, addr: int) -> bool {
        &&& prg_access_ok(&self.cartridge, self.rom_offset(addr), self.ram_offset(addr))
        &&& self.chip is _69Fme7 ==> 0x6000 <= addr <= 0xFFFF
    }

    /// Whether a CPU write of `addr` stays inside the cartridge's memory.
    pub open spec fn cpu_write_ok(&self, addr: int) -> bool {
        &&& prg_access_ok(&self.cartridge, None, self.ram_offset(addr))
        &&& self.chip is _4Mmc3 ==> 0x6000 <= addr <= 0xFFFF
        &&& self.chip matches MapperChip::_4Mmc3(c) ==> c.bank_write_ok(addr)
    }

    /// The CHR offset a PPU address maps to.
    pub open spec fn chr_offset(&self, addr: int) -> int {
        match self.chip {
            MapperChip::_1Mmc1(c) => c.chr_offset(addr),
            MapperChip::_3Cnrom(c) => c.chr_0 + addr,
            MapperChip::_4Mmc3(c) => c.chr_offset(addr),
            MapperChip::_69Fme7(c) => c.chr_offset(addr),
            _ => addr,
        }
    }

    /// Whether a CPU read of `addr` can be made (see `cpu_read_ok`).
    pub fn cpu_read_allowed(&self, addr: usize) -> (r: bool)
        ensures
            r == self.cpu_read_ok(addr as int),
    {
        let rom = self.prg_window_ok(addr);
        let ram = self.wram_window_ok(addr);
        let fme7_range = match &self.chip {
            MapperChip::_69Fme7(_) => 0x6000 <= addr && addr <= 0xFFFF,
            _ => true,
        };
        rom && ram && fme7_range
    }

    /// Whether a CPU write of `addr` can be made (see `cpu_write_ok`).
    pub fn cpu_write_allowed(&self, addr: usize) -> (r: bool)
        ensures
            r == self.cpu_write_ok(addr as int),
    {
        let ram = self.wram_window_ok(addr);
        let mmc3 = match &self.chip {
            MapperChip::_4Mmc3(c) => 0x6000 <= addr && addr <= 0xFFFF && (!(0x8000 <= addr && addr
                <= 0x9FFF && addr % 2 == 1 && c.bank_update <= 5) || c.chr_count > 0),
            _ => true,
        };
        ram && mmc3
    }

    /// Whether the PRG ROM offset that `addr` maps to, if any, lies inside the PRG ROM.
    fn prg_window_ok(&self, addr: usize) -> (r: bool)
        ensures
            r == (self.rom_offset(addr as int) matches Some(o) ==> 0 <= o < self.cartridge.prg().len()),
    {
        let len = self.cartridge.prg_rom.len();
        let within = |base: usize, lo: usize| -> (f: bool)
            requires
                lo <= addr,
            ensures
                f == (base + (addr - lo) < len),
        {
            base < len && addr - lo < len - base
        };
        match &self.chip {
            MapperChip::_0Nrom(c) => if 0x8000 <= addr && addr <= 0xBFFF {
                within(0, 0x8000)
            } else if 0xC000 <= addr && addr <= 0xFFFF {
                within(c.prg_1, 0xC000)
            } else {
                true
            },
            MapperChip::_1Mmc1(c) => if 0x8000 <= addr && addr <= 0xBFFF {
                within(c.prg_0, 0x8000)
            } else if 0xC000 <= addr && addr <= 0xFFFF {
                within(c.prg_1, 0xC000)
            } else {
                true
            },
            MapperChip::_2Uxrom(c) => if 0x8000 <= addr && addr <= 0xBFFF {
                within(c.prg_0, 0x8000)
            } else if 0xC000 <= addr && addr <= 0xFFFF {
                within(c.prg_1, 0xC000)
            } else {
                true
            },
            MapperChip::_3Cnrom(c) => if 0x8000 <= addr && addr <= 0xBFFF {
                within(0, 0x8000)
            } else if 0xC000 <= addr && addr <= 0xFFFF {
                within(c.prg_1, 0xC000)
            } else {
                true
            },
            MapperChip::_4Mmc3(c) => if 0xA000 <= addr && addr <= 0xBFFF {
                within(c.prg_1, 0xA000)
            } else if 0xE000 <= addr && addr <= 0xFFFF {
                within(c.prg_end_1, 0xE000)
            } else if 0x8000 <= addr && addr <= 0x9FFF {
                within(if c.prg_bank_mode == 0 { c.prg_0 } else { c.prg_end_2 }, 0x8000)
            } else if 0xC000 <= addr && addr <= 0xDFFF {
                within(if c.prg_bank_mode == 0 { c.prg_end_2 } else { c.prg_0 }, 0xC000)
            } else {
                true
            },
            MapperChip::_7Axrom(c) => if 0x8000 <= addr && addr <= 0xFFFF {
                within(c.prg_0, 0x8000)
            } else {
                true
            },
            MapperChip::_69Fme7(c) => if 0x6000 <= addr && addr <= 0x7FFF {
                c.prg_ram_selected || within(c.prg_0, 0x6000)
            } else if 0x8000 <= addr && addr <= 0x9FFF {
                within(c.prg_1, 0x8000)
            } else if 0xA000 <= addr && addr <= 0xBFFF {
                within(c.prg_2, 0xA000)
            } else if 0xC000 <= addr && addr <= 0xDFFF {
                within(c.prg_3, 0xC000)
            } else if 0xE000 <= addr {
                within(c.prg_4, 0xE000)
            } else {
                c.prg_4 >= 0xE000 - addr && c.prg_4 - (0xE000 - addr) < len
            },
        }
    }

    /// Whether the PRG RAM offset that `addr` maps to, if any, lies inside the PRG RAM.
    fn wram_window_ok(&self, addr: usize) -> (r: bool)
        ensures
            r == (self.ram_offset(addr as int) matches Some(o) ==> self.cartridge.wram_addr_ok(o)),
    {
        let maps = match &self.chip {
            MapperChip::_0Nrom(_) => 0x6000 <= addr && addr <= 0x7FFF,
            MapperChip::_1Mmc1(c) => 0x6000 <= addr && addr <= 0x7FFF && c.enable_ram,
            MapperChip::_4Mmc3(_) => 0x6000 <= addr && addr <= 0x7FFF,
            MapperChip::_69Fme7(c) => 0x6000 <= addr && addr <= 0x7FFF && c.prg_ram_selected && c.enable_prg_ram,
            _ => false,
        };
        if !maps {
            return true;
        }
        match &self.cartridge.prg_wram {
            Some(w) => addr - 0x6000 < w.len(),
            None => true,
        }
    }

    /// Whether every PPU pattern table address ($0000-$1FFF) maps inside the CHR memory.
    pub open spec fn chr_mapped_spec(&self) -> bool {
        forall|a: int| 0 <= a <= 0x1FFF ==> 0 <= #[trigger] self.chr_offset(a) < self.cartridge.chr_mem().len()
    }

    /// Whether every PPU pattern table address maps inside the CHR memory: each CHR bank
    /// window of the chip ends inside it.
    pub fn chr_mapped(&self) -> (r: bool)
        ensures
            r == self.chr_mapped_spec(),
    {
        let len = self.cartridge.chr.len();
        let fits = |start: usize, size: usize| -> (f: bool)
            ensures
                f == (start + size <= len),
        {
            start <= len && len - start >= size
        };
        let r = match &self.chip {
            MapperChip::_1Mmc1(c) => fits(c.chr_0, 0x1000) && fits(c.chr_1, 0x1000),
            MapperChip::_3Cnrom(c) => fits(c.chr_0, 0x2000),
            MapperChip::_4Mmc3(c) => fits(c.chr_0, 0x800) && fits(c.chr_1, 0x800) && fits(c.chr_2, 0x400)
                && fits(c.chr_3, 0x400) && fits(c.chr_4, 0x400) && fits(c.chr_5, 0x400),
            MapperChip::_69Fme7(c) => fits(c.chr_0, 0x400) && fits(c.chr_1, 0x400) && fits(c.chr_2, 0x400)
                && fits(c.chr_3, 0x400) && fits(c.chr_4, 0x400) && fits(c.chr_5, 0x400)
                && fits(c.chr_6, 0x400) && fits(c.chr_7, 0x400),
            _ => fits(0, 0x2000),
        };
        proof {
            let n = self.cartridge.chr_mem().len();
            if !r {
                match &self.chip {
                    MapperChip::_1Mmc1(c) => {
                        assert(self.chr_offset(0xFFF) == c.chr_0 + 0xFFF);
                        assert(self.chr_offset(0x1FFF) == c.chr_1 + 0xFFF);
                    },
                    MapperChip::_3Cnrom(c) => {
                        assert(self.chr_offset(0x1FFF) == c.chr_0 + 0x1FFF);
                    },
                    MapperChip::_4Mmc3(c) => {
                        if c.chr_bank_mode == 0 {
                            assert(self.chr_offset(0x7FF) == c.chr_0 + 0x7FF);
                            assert(self.chr_offset(0xFFF) == c.chr_1 + 0x7FF);
                            assert(self.chr_offset(0x13FF) == c.chr_2 + 0x3FF);
                            assert(self.chr_offset(0x17FF) == c.chr_3 + 0x3FF);
                            assert(self.chr_offset(0x1BFF) == c.chr_4 + 0x3FF);
                            assert(self.chr_offset(0x1FFF) == c.chr_5 + 0x3FF);
                        } else {
                            assert(self.chr_offset(0x17FF) == c.chr_0 + 0x7FF);
                            assert(self.chr_offset(0x1FFF) == c.chr_1 + 0x7FF);
                            assert(self.chr_offset(0x3FF) == c.chr_2 + 0x3FF);
                            assert(self.chr_offset(0x7FF) == c.chr_3 + 0x3FF);
                            assert(self.chr_offset(0xBFF) == c.chr_4 + 0x3FF);
                            assert(self.chr_offset(0xFFF) == c.chr_5 + 0x3FF);
                        }
                    },
                    MapperChip::_69Fme7(c) => {
                        assert(self.chr_offset(0x3FF) == c.chr_0 + 0x3FF);
                        assert(self.chr_offset(0x7FF) == c.chr_1 + 0x3FF);
                        assert(self.chr_offset(0xBFF) == c.chr_2 + 0x3FF);
                        assert(self.chr_offset(0xFFF) == c.chr_3 + 0x3FF);
                        assert(self.chr_offset(0x13FF) == c.chr_4 + 0x3FF);
                        assert(self.chr_offset(0x17FF) == c.chr_5 + 0x3FF);
                        assert(self.chr_offset(0x1BFF) == c.chr_6 + 0x3FF);
                        assert(self.chr_offset(0x1FFF) == c.chr_7 + 0x3FF);
                    },
                    _ => {
                        assert(self.chr_offset(0x1FFF) == 0x1FFF);
                    },
                }
            }
        }
        r
    }

    /// Whether CHR writes land in the CHR memory.
    pub open spec fn chr_writable(&self) -> bool {
        match self.chip {
            MapperChip::_0Nrom(_) | MapperChip::_3Cnrom(_) | MapperChip::_7Axrom(_) => self.cartridge.has_chr_ram_spec(),
            MapperChip::_2Uxrom(_) => self.cartridge.header.chr_rom_size is None,
            _ => true,
        }
    }

    /// The mirroring currently in effect.
    pub open spec fn mirroring_spec(&self) -> Mirroring {
        match self.chip {
            MapperChip::_1Mmc1(c) => c.mirroring,
            MapperChip::_4Mmc3(c) => c.mirroring,
            MapperChip::_7Axrom(c) => c.mirroring,
            MapperChip::_69Fme7(c) => c.mirroring,
            _ => self.cartridge.header.mirroring,
        }
    }

    /// Sets up the chip that the cartridge's mapper number selects.
    pub fn new(cartridge: Cartridge) -> (r: Result<Self, NesError>)
        requires
            chip_new_ok(&cartridge),
        ensures
            match r {
                Ok(m) => {
                    &&& supported_mapper(cartridge.header.mapper)
                    &&& m.wf()
                    &&& m.cartridge == cartridge
                    &&& m.nt_ram@ == Seq::new(0x1000, |_i: int| 0u8)
                    &&& match m.chip {
                        MapperChip::_0Nrom(_) => cartridge.header.mapper == 0,
                        MapperChip::_1Mmc1(_) => cartridge.header.mapper == 1,
                        MapperChip::_2Uxrom(_) => cartridge.header.mapper == 2,
                        MapperChip::_3Cnrom(_) => cartridge.header.mapper == 3,
                        MapperChip::_4Mmc3(_) => cartridge.header.mapper == 4,
                        MapperChip::_7Axrom(_) => cartridge.header.mapper == 7,
                        MapperChip::_69Fme7(_) => cartridge.header.mapper == 69,
                    }
                },
                Err(e) => !supported_mapper(cartridge.header.mapper) && e == NesError::UnSupportedMapper(
                    cartridge.header.mapper,
                ),
            },
    {
        let chip = match cartridge.header.mapper {
            0 => MapperChip::_0Nrom(_0Nrom::new(&cartridge)),
            1 => MapperChip::_1Mmc1(_1Mmc1::new(&cartridge)),
            2 => MapperChip::_2Uxrom(_2Uxrom::new(&cartridge)),
            3 => MapperChip::_3Cnrom(_3Cnrom::new(&cartridge)),
            4 => MapperChip::_4Mmc3(_4Mmc3::new(&cartridge)),
            7 => MapperChip::_7Axrom(_7Axrom::new(&cartridge)),
            69 => MapperChip::_69Fme7(_69Fme7::new(&cartridge)),
            mapper_id => return Err(NesError::UnSupportedMapper(mapper_id)),
        };
        Ok(BaseMapper { nt_ram: vec![0u8; 0x1000], cartridge, chip })
    }

    /// A CPU read of $4020-$FFFF; unmapped addresses give the open bus value.
    #[inline]
    pub fn cpu_read(&self, addr: usize, open_bus: u8) -> (r: u8)
        requires
            self.cpu_read_ok(addr as int),
        ensures
            r == match prg_read(&self.cartridge, self.rom_offset(addr as int), self.ram_offset(addr as int)) {
                Some(v) => v,
                None => open_bus,
            },
    {
        let val = match &self.chip {
            MapperChip::_0Nrom(nrom) => nrom.cpu_read(&self.cartridge, addr),
            MapperChip::_1Mmc1(mmc1) => mmc1.cpu_read(&self.cartridge, addr),
            MapperChip::_2Uxrom(uxrom) => uxrom.cpu_read(&self.cartridge, addr),
            MapperChip::_3Cnrom(cnrom) => cnrom.cpu_read(&self.cartridge, addr),
            MapperChip::_4Mmc3(mmc3) => mmc3.cpu_read(&self.cartridge, addr),
            MapperChip::_7Axrom(axrom) => axrom.cpu_read(&self.cartridge, addr),
            MapperChip::_69Fme7(fme7) => fme7.cpu_read(&self.cartridge, addr),
        };
        match val {
            Some(v) => v,
            None => open_bus,
        }
    }

    /// A CPU write of $4020-$FFFF; MMC1 needs the CPU cycle, MMC3 may acknowledge its IRQ.
    #[inline]
    pub fn cpu_write(&mut self, addr: usize, val: u8, cpu_cycle: u64, cpu_irq: &mut bool)
        requires
            old(self).wf(),
            old(self).cpu_write_ok(addr as int),
            cpu_cycle < u64::MAX,
        ensures
            final(self).wf(),
            cpu_write_post(*old(self), *final(self), addr as int, val, cpu_cycle),
            *final(cpu_irq) == (if old(self).chip is _4Mmc3 && addr >= 0xE000 && addr % 2 == 0 {
                false
            } else {
                *old(cpu_irq)
            }),
    {
        match &mut self.chip {
            MapperChip::_0Nrom(nrom) => nrom.cpu_write(&mut self.cartridge, addr, val),
            MapperChip::_1Mmc1(mmc1) => mmc1.cpu_write(&mut self.cartridge, addr, val, cpu_cycle),
            MapperChip::_2Uxrom(uxrom) => uxrom.cpu_write(addr, val),
            MapperChip::_3Cnrom(cnrom) => cnrom.cpu_write(addr, val),
            MapperChip::_4Mmc3(mmc3) => mmc3.cpu_write(&mut self.cartridge, addr, val, cpu_irq),
            MapperChip::_7Axrom(axrom) => axrom.cpu_write(addr, val),
            MapperChip::_69Fme7(fme7) => fme7.cpu_write(&mut self.cartridge, addr, val),
        }
    }

    /// A PPU read of the pattern tables ($0000-$1FFF).
    #[inline]
    pub fn read_chr(&self, addr: usize) -> (r: u8)
        requires
            addr <= 0x1FFF,
            0 <= self.chr_offset(addr as int) < self.cartridge.chr_mem().len(),
        ensures
            r == self.cartridge.chr_mem()[self.chr_offset(addr as int)],
    {
        match &self.chip {
            MapperChip::_0Nrom(nrom) => nrom.read_chr(&self.cartridge, addr),
            MapperChip::_1Mmc1(mmc1) => mmc1.read_chr(&self.cartridge, addr),
            MapperChip::_2Uxrom(uxrom) => uxrom.read_chr(&self.cartridge, addr),
            MapperChip::_3Cnrom(cnrom) => cnrom.read_chr(&self.cartridge, addr),
            MapperChip::_4Mmc3(mmc3) => mmc3.read_chr(&self.cartridge, addr),
            MapperChip::_7Axrom(axrom) => axrom.read_chr(&self.cartridge, addr),
            MapperChip::_69Fme7(fme7) => fme7.read_chr(&self.cartridge, addr),
        }
    }

    /// A PPU write of the pattern tables ($0000-$1FFF); it lands only in CHR RAM.
    #[inline]
    pub fn write_chr(&mut self, addr: usize, val: u8)
        requires
            addr <= 0x1FFF,
            old(self).chr_writable() ==> 0 <= old(self).chr_offset(addr as int) < old(self).cartridge.chr_mem().len(),
        ensures
            final(self).nt_ram == old(self).nt_ram,
            final(self).chip == old(self).chip,
            chr_write_result(
                &old(self).cartridge,
                &final(self).cartridge,
                old(self).chr_writable(),
                old(self).chr_offset(addr as int),
                val,
            ),
    {
        match &mut self.chip {
            MapperChip::_0Nrom(nrom) => nrom.write_chr(&mut self.cartridge, addr, val),
            MapperChip::_1Mmc1(mmc1) => mmc1.write_chr(&mut self.cartridge, addr, val),
            MapperChip::_2Uxrom(uxrom) => uxrom.write_chr(&mut self.cartridge, addr, val),
            MapperChip::_3Cnrom(cnrom) => cnrom.write_chr(&mut self.cartridge, addr, val),
            MapperChip::_4Mmc3(mmc3) => mmc3.write_chr(&mut self.cartridge, addr, val),
            MapperChip::_7Axrom(axrom) => axrom.write_chr(&mut self.cartridge, addr, val),
            MapperChip::_69Fme7(fme7) => fme7.write_chr(&mut self.cartridge, addr, val),
        }
    }

    #[inline]
    pub fn read_nametable(&self, addr: usize) -> (r: u8)
        requires
            addr < self.nt_ram@.len(),
        ensures
            r == self.nt_ram@[addr as int],
    {
        self.nt_ram[addr]
    }

    #[inline]
    pub fn write_nametable(&mut self, addr: usize, val: u8)
        requires
            addr < old(self).nt_ram@.len(),
        ensures
            final(self).nt_ram@ == old(self).nt_ram@.update(addr as int, val),
            final(self).cartridge == old(self).cartridge,
            final(self).chip == old(self).chip,
    {
        self.nt_ram.set(addr, val);
    }

    /// The mirroring in effect: the header's for mappers 0, 2 and 3, the chip's otherwise.
    #[inline]
    pub fn mirroring(&self) -> (r: Mirroring)
        ensures
            r == self.mirroring_spec(),
    {
        match &self.chip {
            MapperChip::_1Mmc1(mmc1) => mmc1.mirroring(),
            MapperChip::_4Mmc3(mmc3) => mmc3.mirroring(),
            MapperChip::_7Axrom(axrom) => axrom.mirroring(),
            MapperChip::_69Fme7(fme7) => fme7.mirroring(),
            _ => self.cartridge.header.mirroring,
        }
    }

    /// The PPU put `addr` on its address bus; only MMC3 watches line A12.
    #[inline]
    pub fn notify_a12(&mut self, addr: usize, ppu_cycle: u32, cpu_irq: &mut bool)
        ensures
            final(self).nt_ram == old(self).nt_ram,
            final(self).cartridge == old(self).cartridge,
            match (old(self).chip, final(self).chip) {
                (MapperChip::_4Mmc3(a), MapperChip::_4Mmc3(b)) => b == a.a12_notified(
                    addr & 0x1000 != 0,
                    ppu_cycle,
                ) && *final(cpu_irq) == (*old(cpu_irq) || a.a12_fires_irq(addr & 0x1000 != 0, ppu_cycle)),
                (MapperChip::_4Mmc3(_), _) => false,
                (a, b) => a == b && *final(cpu_irq) == *old(cpu_irq),
            },
    {
        let a12 = (addr & 0x1000) != 0;
        match &mut self.chip {
            MapperChip::_4Mmc3(mmc3) => mmc3.notify_a12(a12, ppu_cycle, cpu_irq),
            _ => (),
        }
    }

    /// One CPU cycle; only FME-7 counts cycles.
    #[inline]
    pub fn cpu_clock(&mut self, irq_signal: &mut bool)
        ensures
            final(self).nt_ram == old(self).nt_ram,
            final(self).cartridge == old(self).cartridge,
            match (old(self).chip, final(self).chip) {
                (MapperChip::_69Fme7(a), MapperChip::_69Fme7(b)) => b == a.clocked()
                    && *final(irq_signal) == (*old(irq_signal) || (b.irq_enable && b.fire_irq)),
                (MapperChip::_69Fme7(_), _) => false,
                (a, b) => a == b && *final(irq_signal) == *old(irq_signal),
            },
    {
        match &mut self.chip {
            MapperChip::_69Fme7(fme7) => fme7.clock(irq_signal),
            _ => (),
        }
    }
}


/// A CPU read of PRG RAM gives back what the last CPU write to the same address wrote: a write
/// to $6000-$7FFF leaves the chip's registers alone, so the address still maps to the same byte.
pub proof fn lemma_prg_ram_read_after_write(
    before: BaseMapper,
    after: BaseMapper,
    addr: int,
    val: u8,
    cpu_cycle: u64,
)
    requires
        before.wf(),
        before.cpu_write_ok(addr),
        cpu_write_post(before, after, addr, val, cpu_cycle),
        0x6000 <= addr <= 0x7FFF,
        before.ram_offset(addr) is Some,
        before.cartridge.wram() is Some,
    ensures
        after.chip == before.chip,
        after.ram_offset(addr) == before.ram_offset(addr),
        after.rom_offset(addr) is None,
        prg_read(&after.cartridge, after.rom_offset(addr), after.ram_offset(addr)) == Some(val),
{
}

/// A PPU read of CHR RAM gives back what the last PPU write to the same address wrote.
pub proof fn lemma_chr_read_after_write(before: BaseMapper, after: BaseMapper, addr: int, val: u8)
    requires
        0 <= addr <= 0x1FFF,
        before.chr_writable(),
        0 <= before.chr_offset(addr) < before.cartridge.chr_mem().len(),
        after.chip == before.chip,
        chr_write_result(&before.cartridge, &after.cartridge, before.chr_writable(), before.chr_offset(addr), val),
    ensures
        after.chr_offset(addr) == before.chr_offset(addr),
        after.chr_writable(),
        after.cartridge.chr_mem()[after.chr_offset(addr)] == val,
{
}

/// A write to CHR ROM changes nothing that a read can see.
pub proof fn lemma_chr_rom_unchanged(before: BaseMapper, after: BaseMapper, addr: int, val: u8)
    requires
        !before.chr_writable(),
        after.chip == before.chip,
        chr_write_result(&before.cartridge, &after.cartridge, before.chr_writable(), before.chr_offset(addr), val),
    ensures
        after.cartridge.chr_mem() == before.cartridge.chr_mem(),
{
}

/// A read of nametable RAM gives back what the last write to the same address wrote, and a
/// write leaves every other address alone.
pub proof fn lemma_nametable_read_after_write(before: BaseMapper, after: BaseMapper, addr: int, other: int, val: u8)
    requires
        0 <= addr < before.nt_ram@.len(),
        0 <= other < before.nt_ram@.len(),
        other != addr,
        after.nt_ram@ == before.nt_ram@.update(addr, val),
    ensures
        after.nt_ram@[addr] == val,
        after.nt_ram@[other] == before.nt_ram@[other],
{
}

} // verus!
