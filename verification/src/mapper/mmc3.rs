use vstd::prelude::*;

use crate::cartridge::{BankSize, Cartridge, Mirroring};
use crate::mapper::{prg_access_ok, prg_read, wram_after_write, chr_write_result};

verus! {

/// Mapper 4 (MMC3): 8 KB PRG banks, 1 and 2 KB CHR banks and a scanline IRQ counter
/// clocked by rising edges of PPU address line A12.
pub struct _4Mmc3 {
    pub prg_bank_mode: u8,
    pub chr_bank_mode: u8,
    pub bank_update: u8,
    pub irq_latch: u8,
    pub irq_counter: u8,
    pub irq_should_reload: bool,
    pub irqs_enabled: bool,
    pub a12_state: bool,
    /// PPU cycle of the last falling edge of A12 before filtering
    pub a12_falling_cycle: u32,
    pub mirroring: Mirroring,
    /// 8KB units
    pub prg_rom_count: u8,
    pub prg_0: usize,
    pub prg_1: usize,
    pub prg_end_1: usize,
    pub prg_end_2: usize,
    /// 1KB units
    pub chr_count: u16,
    pub chr_0: usize,
    pub chr_1: usize,
    pub chr_2: usize,
    pub chr_3: usize,
    pub chr_4: usize,
    pub chr_5: usize,
}

/// Bank `bank` (wrapped around `count` banks) of 1 KB.
pub open spec fn chr_bank_1k(bank: int, count: u16) -> usize {
    ((((bank % (count as int)) as u16) as u8) * 0x400) as usize
}

impl _4Mmc3 {
    /// The invariant of the chip.
    pub open spec fn wf(&self) -> bool {
        &&& self.prg_bank_mode <= 1
        &&& self.chr_bank_mode <= 1
        &&& self.prg_rom_count > 0
    }

    /// The PRG ROM offset a CPU address maps to, if any.
    pub open spec fn rom_offset(&self, addr: int) -> Option<int> {
        if 0xA000 <= addr <= 0xBFFF {
            Some(self.prg_1 + addr - 0xA000)
        } else if 0xE000 <= addr <= 0xFFFF {
            Some(self.prg_end_1 + addr - 0xE000)
        } else if 0x8000 <= addr <= 0x9FFF {
            Some((if self.prg_bank_mode == 0 { self.prg_0 } else { self.prg_end_2 }) + addr - 0x8000)
        } else if 0xC000 <= addr <= 0xDFFF {
            Some((if self.prg_bank_mode == 0 { self.prg_end_2 } else { self.prg_0 }) + addr - 0xC000)
        } else {
            None
        }
    }

    /// The PRG RAM offset a CPU address maps to, if any.
    pub open spec fn ram_offset(&self, addr: int) -> Option<int> {
        if 0x6000 <= addr <= 0x7FFF {
            Some(addr - 0x6000)
        } else {
            None
        }
    }

    /// The CHR offset a PPU address ($0000-$1FFF) maps to.
    pub open spec fn chr_offset(&self, addr: int) -> int {
        if self.chr_bank_mode == 0 {
            if addr <= 0x7FF {
                self.chr_0 + addr
            } else if addr <= 0xFFF {
                self.chr_1 + addr - 0x800
            } else if addr <= 0x13FF {
                self.chr_2 + addr - 0x1000
            } else if addr <= 0x17FF {
                self.chr_3 + addr - 0x1400
            } else if addr <= 0x1BFF {
                self.chr_4 + addr - 0x1800
            } else {
                self.chr_5 + addr - 0x1C00
            }
        } else {
            if addr <= 0x3FF {
                self.chr_2 + addr
            } else if addr <= 0x7FF {
                self.chr_3 + addr - 0x400
            } else if addr <= 0xBFF {
                self.chr_4 + addr - 0x800
            } else if addr <= 0xFFF {
                self.chr_5 + addr - 0xC00
            } else if addr <= 0x17FF {
                self.chr_0 + addr - 0x1000
            } else {
                self.chr_1 + addr - 0x1800
            }
        }
    }

    /// Whether a CPU write of `addr` can be carried out: a bank data write (odd,
    /// $8001-$9FFF) to a CHR bank register (R0-R5) needs at least one 1 KB CHR bank to
    /// wrap the bank number around.
    pub open spec fn bank_write_ok(&self, addr: int) -> bool {
        0x8000 <= addr <= 0x9FFF && addr % 2 == 1 && self.bank_update <= 5 ==> self.chr_count > 0
    }

    /// The state after a bank data write ($8001-$9FFF, odd) of `val`.
    pub open spec fn bank_data_spec(self, val: u8) -> Self {
        let u = self.bank_update;
        if u == 0 {
            _4Mmc3 { chr_0: chr_bank_1k((val & 0xFE) as int, self.chr_count), ..self }
        } else if u == 1 {
            _4Mmc3 { chr_1: chr_bank_1k((val & 0xFE) as int, self.chr_count), ..self }
        } else if u == 2 {
            _4Mmc3 { chr_2: chr_bank_1k(val as int, self.chr_count), ..self }
        } else if u == 3 {
            _4Mmc3 { chr_3: chr_bank_1k(val as int, self.chr_count), ..self }
        } else if u == 4 {
            _4Mmc3 { chr_4: chr_bank_1k(val as int, self.chr_count), ..self }
        } else if u == 5 {
            _4Mmc3 { chr_5: chr_bank_1k(val as int, self.chr_count), ..self }
        } else if u == 6 {
            _4Mmc3 { prg_0: (((val & 0x3F) % self.prg_rom_count) * 0x2000) as usize, ..self }
        } else {
            _4Mmc3 { prg_1: (((val & 0x3F) % self.prg_rom_count) * 0x2000) as usize, ..self }
        }
    }

    /// The state after a CPU write of `val` to `addr` in $8000-$FFFF.
    pub open spec fn register_write_spec(self, addr: int, val: u8) -> Self {
        let even = addr % 2 == 0;
        if addr <= 0x9FFF {
            if even {
                _4Mmc3 {
                    bank_update: val & 7,
                    prg_bank_mode: (val & 0x40) / 64,
                    chr_bank_mode: (val & 0x80) / 128,
                    ..self
                }
            } else {
                self.bank_data_spec(val)
            }
        } else if addr <= 0xBFFF {
            if even {
                _4Mmc3 {
                    mirroring: if val & 1 == 1 {
                        Mirroring::Horizontal
                    } else {
                        Mirroring::Vertical
                    },
                    ..self
                }
            } else {
                self
            }
        } else if addr <= 0xDFFF {
            if even {
                _4Mmc3 { irq_latch: val, ..self }
            } else {
                _4Mmc3 { irq_should_reload: true, ..self }
            }
        } else {
            _4Mmc3 { irqs_enabled: !even, ..self }
        }
    }

    pub fn new(cartridge: &Cartridge) -> (r: Self)
        requires
            (cartridge.header.chr_rom_size is Some) != (cartridge.header.chr_ram_size is Some),
            (cartridge.header.prg_rom_size as nat / 0x2000) as u8 >= 2,
        ensures
            r.wf(),
            r == (_4Mmc3 {
                prg_bank_mode: 0,
                chr_bank_mode: 0,
                bank_update: 0,
                irq_latch: 0,
                irq_counter: 0,
                irq_should_reload: false,
                irqs_enabled: false,
                a12_state: false,
                a12_falling_cycle: 0,
                mirroring: cartridge.header.mirroring,
                prg_rom_count: (cartridge.header.prg_rom_size as nat / 0x2000) as u8,
                prg_0: 0,
                prg_1: 0,
                prg_end_1: (((cartridge.header.prg_rom_size as nat / 0x2000) as u8 - 1) * 0x2000) as usize,
                prg_end_2: (((cartridge.header.prg_rom_size as nat / 0x2000) as u8 - 2) * 0x2000) as usize,
                chr_count: match cartridge.header.chr_rom_size {
                    Some(s) => (s as nat / 0x400) as u16,
                    None => (cartridge.header.chr_ram_size.unwrap() as nat / 0x400) as u16,
                },
                chr_0: 0,
                chr_1: 0,
                chr_2: 0,
                chr_3: 0,
                chr_4: 0,
                chr_5: 0,
            }),
    {
        // Games that use both CHR ROM and CHR RAM are not supported.
        let chr_count = match (cartridge.chr_rom_count(BankSize::Kb1), cartridge.chr_ram_count(BankSize::Kb1)) {
            (Some(count), None) => count as u16,
            (None, Some(count)) => count as u16,
            _ => 0,
        };
        let prg_rom_count = cartridge.prg_rom_count(BankSize::Kb8) as u8;
        Self {
            // MMC3 initial state is unspecified
            prg_bank_mode: 0,
            chr_bank_mode: 0,
            bank_update: 0,
            irq_latch: 0,
            irq_counter: 0,
            irq_should_reload: false,
            irqs_enabled: false,
            a12_state: false,
            a12_falling_cycle: 0,
            mirroring: cartridge.header.mirroring,
            prg_rom_count,
            prg_0: 0,
            prg_1: 0,
            prg_end_1: Cartridge::map_bank(prg_rom_count - 1, BankSize::Kb8),
            prg_end_2: Cartridge::map_bank(prg_rom_count - 2, BankSize::Kb8),
            chr_count,
            chr_0: 0,
            chr_1: 0,
            chr_2: 0,
            chr_3: 0,
            chr_4: 0,
            chr_5: 0,
        }
    }

    pub fn cpu_read(&self, cartridge: &Cartridge, addr: usize) -> (r: Option<u8>)
        requires
            prg_access_ok(cartridge, self.rom_offset(addr as int), self.ram_offset(addr as int)),
        ensures
            r == prg_read(cartridge, self.rom_offset(addr as int), self.ram_offset(addr as int)),
    {
        proof {
            cartridge.lemma_sizes_fit();
        }
        if 0x6000 <= addr && addr <= 0x7FFF {
            cartridge.read_prg_ram(addr - 0x6000)
        } else if 0xA000 <= addr && addr <= 0xBFFF {
            Some(cartridge.read_prg_rom(self.prg_1 + (addr - 0xA000)))
        } else if 0xE000 <= addr && addr <= 0xFFFF {
            Some(cartridge.read_prg_rom(self.prg_end_1 + (addr - 0xE000)))
        } else if 0x8000 <= addr && addr <= 0x9FFF {
            let bank = if self.prg_bank_mode == 0 { self.prg_0 } else { self.prg_end_2 };
            Some(cartridge.read_prg_rom(bank + (addr - 0x8000)))
        } else if 0xC000 <= addr && addr <= 0xDFFF {
            let bank = if self.prg_bank_mode == 0 { self.prg_end_2 } else { self.prg_0 };
            Some(cartridge.read_prg_rom(bank + (addr - 0xC000)))
        } else {
            None
        }
    }

    /// CPU writes: PRG RAM at $6000-$7FFF and the even/odd register pairs at $8000-$FFFF.
    /// A write to $E000 (even) also acknowledges a pending IRQ.
    pub fn cpu_write(&mut self, cartridge: &mut Cartridge, addr: usize, val: u8, cpu_irq: &mut bool)
        requires
            old(self).wf(),
            0x6000 <= addr <= 0xFFFF,
            old(self).bank_write_ok(addr as int),
            prg_access_ok(old(cartridge), None, old(self).ram_offset(addr as int)),
        ensures
            final(self).wf(),
            *final(self) == (if addr >= 0x8000 {
                old(self).register_write_spec(addr as int, val)
            } else {
                *old(self)
            }),
            *final(cpu_irq) == (if addr >= 0xE000 && addr % 2 == 0 { false } else { *old(cpu_irq) }),
            final(cartridge).header == old(cartridge).header,
            final(cartridge).prg() == old(cartridge).prg(),
            final(cartridge).chr_mem() == old(cartridge).chr_mem(),
            final(cartridge).wram() == wram_after_write(
                old(cartridge).wram(),
                old(self).ram_offset(addr as int),
                val,
            ),
    {
        let even = addr % 2 == 0;
        if addr <= 0x7FFF {
            cartridge.write_prg_ram(addr - 0x6000, val);
        } else if addr <= 0x9FFF {
            if even {
                self.bank_update = val & 0x7;
                let prg_mode = (val & 0x40) >> 6u8;
                let chr_mode = (val & 0x80) >> 7u8;
                assert(prg_mode == (val & 0x40) / 64 && prg_mode <= 1 && chr_mode == (val & 0x80) / 128
                    && chr_mode <= 1) by (bit_vector)
                    requires
                        prg_mode == (val & 0x40) >> 6u8,
                        chr_mode == (val & 0x80) >> 7u8,
                ;
                self.prg_bank_mode = prg_mode;
                self.chr_bank_mode = chr_mode;
            } else {
                self.write_bank_data(val);
            }
        } else if addr <= 0xBFFF {
            if even {
                self.mirroring = if val & 1 == 1 {
                    Mirroring::Horizontal
                } else {
                    Mirroring::Vertical
                };
            }
            // RAM protect is not emulated, for better compatibility with MMC6.
        } else if addr <= 0xDFFF {
            if even {
                self.irq_latch = val;
            } else {
                self.irq_should_reload = true;
            }
        } else {
            if even {
                self.irqs_enabled = false;
                *cpu_irq = false;
            } else {
                self.irqs_enabled = true;
            }
        }
    }

    /// Bank data: R0 and R1 ignore the bottom bit; games also use banks beyond the
    /// number of banks and expect them to wrap around.
    fn write_bank_data(&mut self, val: u8)
        requires
            old(self).wf(),
            old(self).bank_update <= 5 ==> old(self).chr_count > 0,
        ensures
            final(self).wf(),
            *final(self) == old(self).bank_data_spec(val),
    {
        let u = self.bank_update;
        let count = self.chr_count;
        if u == 0 {
            self.chr_0 = Cartridge::map_bank(((val & 0xFE) as u16 % count) as u8, BankSize::Kb1);
        } else if u == 1 {
            self.chr_1 = Cartridge::map_bank(((val & 0xFE) as u16 % count) as u8, BankSize::Kb1);
        } else if u == 2 {
            self.chr_2 = Cartridge::map_bank((val as u16 % count) as u8, BankSize::Kb1);
        } else if u == 3 {
            self.chr_3 = Cartridge::map_bank((val as u16 % count) as u8, BankSize::Kb1);
        } else if u == 4 {
            self.chr_4 = Cartridge::map_bank((val as u16 % count) as u8, BankSize::Kb1);
        } else if u == 5 {
            self.chr_5 = Cartridge::map_bank((val as u16 % count) as u8, BankSize::Kb1);
        } else if u == 6 {
            self.prg_0 = Cartridge::map_bank((val & 0x3F) % self.prg_rom_count, BankSize::Kb8);
        } else {
            self.prg_1 = Cartridge::map_bank((val & 0x3F) % self.prg_rom_count, BankSize::Kb8);
        }
    }

    pub fn read_chr(&self, cartridge: &Cartridge, addr: usize) -> (r: u8)
        requires
            addr <= 0x1FFF,
            0 <= self.chr_offset(addr as int) < cartridge.chr_mem().len(),
        ensures
            r == cartridge.chr_mem()[self.chr_offset(addr as int)],
    {
        let off = self.chr_offset_exec(cartridge, addr);
        cartridge.read_chr(off)
    }

    pub fn write_chr(&mut self, cartridge: &mut Cartridge, addr: usize, val: u8)
        requires
            addr <= 0x1FFF,
            0 <= old(self).chr_offset(addr as int) < old(cartridge).chr_mem().len(),
        ensures
            *final(self) == *old(self),
            chr_write_result(old(cartridge), final(cartridge), true, old(self).chr_offset(addr as int), val),
    {
        let off = self.chr_offset_exec(cartridge, addr);
        cartridge.write_chr(off, val);
    }

    /// Computes `chr_offset` for an address whose offset lies inside the CHR memory.
    fn chr_offset_exec(&self, cartridge: &Cartridge, addr: usize) -> (r: usize)
        requires
            addr <= 0x1FFF,
            0 <= self.chr_offset(addr as int) < cartridge.chr_mem().len(),
        ensures
            r == self.chr_offset(addr as int),
    {
        proof {
            cartridge.lemma_sizes_fit();
        }
        if self.chr_bank_mode == 0 {
            if addr <= 0x7FF {
                self.chr_0 + addr
            } else if addr <= 0xFFF {
                self.chr_1 + (addr - 0x800)
            } else if addr <= 0x13FF {
                self.chr_2 + (addr - 0x1000)
            } else if addr <= 0x17FF {
                self.chr_3 + (addr - 0x1400)
            } else if addr <= 0x1BFF {
                self.chr_4 + (addr - 0x1800)
            } else {
                self.chr_5 + (addr - 0x1C00)
            }
        } else {
            if addr <= 0x3FF {
                self.chr_2 + addr
            } else if addr <= 0x7FF {
                self.chr_3 + (addr - 0x400)
            } else if addr <= 0xBFF {
                self.chr_4 + (addr - 0x800)
            } else if addr <= 0xFFF {
                self.chr_5 + (addr - 0xC00)
            } else if addr <= 0x17FF {
                self.chr_0 + (addr - 0x1000)
            } else {
                self.chr_1 + (addr - 0x1800)
            }
        }
    }

    pub fn mirroring(&self) -> (r: Mirroring)
        ensures
            r == self.mirroring,
    {
        self.mirroring
    }

    /// The number of PPU cycles since the last unfiltered falling edge of A12 (0 when none is recorded).
    pub open spec fn cycles_elapsed(&self, ppu_cycle: u32) -> int {
        if self.a12_falling_cycle > 0 {
            (ppu_cycle - self.a12_falling_cycle + 0x1_0000_0000) % 0x1_0000_0000
        } else {
            0
        }
    }

    /// The IRQ counter after it is clocked: reloaded when it is zero or a reload is
    /// pending, decremented otherwise.
    pub open spec fn clocked_counter(&self) -> u8 {
        if self.irq_counter == 0 || self.irq_should_reload {
            self.irq_latch
        } else {
            (self.irq_counter - 1) as u8
        }
    }

    /// The state after the PPU drove A12 to `a12` at PPU cycle `ppu_cycle`.
    pub open spec fn a12_notified(self, a12: bool, ppu_cycle: u32) -> Self {
        let prev = self.a12_state;
        let s = _4Mmc3 { a12_state: a12, ..self };
        if prev && !a12 {
            _4Mmc3 { a12_falling_cycle: ppu_cycle, ..s }
        } else if !prev && a12 {
            if self.cycles_elapsed(ppu_cycle) <= 8 {
                _4Mmc3 { a12_falling_cycle: 0, ..s }
            } else {
                _4Mmc3 {
                    irq_counter: self.clocked_counter(),
                    irq_should_reload: if self.irq_counter == 0 || self.irq_should_reload {
                        false
                    } else {
                        self.irq_should_reload
                    },
                    ..s
                }
            }
        } else {
            s
        }
    }

    /// Whether A12 going to `a12` at PPU cycle `ppu_cycle` raises the IRQ line: a filtered
    /// rising edge clocks the counter to zero while IRQs are enabled.
    pub open spec fn a12_fires_irq(self, a12: bool, ppu_cycle: u32) -> bool {
        !self.a12_state && a12 && self.cycles_elapsed(ppu_cycle) > 8 && self.clocked_counter() == 0
            && self.irqs_enabled
    }

    /// Follows PPU address line A12. A rising edge that comes more than 8 PPU cycles after
    /// the last falling edge clocks the IRQ counter; when the counter is then zero and IRQs
    /// are enabled, the IRQ line is raised. Shorter low periods (as during sprite fetches)
    /// are filtered out.
    pub fn notify_a12(&mut self, a12: bool, ppu_cycle: u32, cpu_irq: &mut bool)
        ensures
            *final(self) == old(self).a12_notified(a12, ppu_cycle),
            *final(cpu_irq) == (*old(cpu_irq) || old(self).a12_fires_irq(a12, ppu_cycle)),
    {
        let prev_a12 = self.a12_state;
        self.a12_state = a12;
        let cycles_elapsed = if self.a12_falling_cycle > 0 {
            ppu_cycle.wrapping_sub(self.a12_falling_cycle)
        } else {
            0
        };
        if prev_a12 && !a12 {
            self.a12_falling_cycle = ppu_cycle;
        } else if !prev_a12 && a12 {
            if cycles_elapsed <= 8 {
                self.a12_falling_cycle = 0;
            } else {
                // IRQ counter clock
                if self.irq_counter == 0 || self.irq_should_reload {
                    self.irq_counter = self.irq_latch;
                    self.irq_should_reload = false;
                } else {
                    self.irq_counter = self.irq_counter - 1;
                }
                // "Normal" MMC3 IRQ behavior
                if self.irq_counter == 0 && self.irqs_enabled {
                    *cpu_irq = true;
                }
            }
        }
    }
}

impl _4Mmc3 {
    /// The chip's state after the CPU writes `ws` (address, value), in order, as `cpu_write`
    /// leaves it: writes to $8000-$FFFF go to the registers, others leave the chip as it is.
    pub open spec fn after_writes(self, ws: Seq<(int, u8)>) -> Self
        decreases ws.len(),
    {
        if ws.len() == 0 {
            self
        } else {
            let prev = self.after_writes(ws.drop_last());
            let (addr, val) = ws.last();
            if addr >= 0x8000 {
                prev.register_write_spec(addr, val)
            } else {
                prev
            }
        }
    }

    /// The value of the last write of `ws` to the mirroring register (even, $A000-$BFFE).
    pub open spec fn last_mirroring_write(self, ws: Seq<(int, u8)>) -> Option<u8>
        decreases ws.len(),
    {
        if ws.len() == 0 {
            None
        } else {
            let (addr, val) = ws.last();
            if 0xA000 <= addr <= 0xBFFF && addr % 2 == 0 {
                Some(val)
            } else {
                self.last_mirroring_write(ws.drop_last())
            }
        }
    }

    /// The value of the last write of `ws` to the bank select register (even, $8000-$9FFE).
    pub open spec fn last_bank_select(self, ws: Seq<(int, u8)>) -> Option<u8>
        decreases ws.len(),
    {
        if ws.len() == 0 {
            None
        } else {
            let (addr, val) = ws.last();
            if 0x8000 <= addr <= 0x9FFF && addr % 2 == 0 {
                Some(val)
            } else {
                self.last_bank_select(ws.drop_last())
            }
        }
    }

    /// The value of the last write of `ws` to bank register R`reg`: a bank data write (odd,
    /// $8001-$9FFF) while the bank select register named `reg`.
    pub open spec fn last_bank_data(self, ws: Seq<(int, u8)>, reg: u8) -> Option<u8>
        decreases ws.len(),
    {
        if ws.len() == 0 {
            None
        } else {
            let (addr, val) = ws.last();
            if 0x8000 <= addr <= 0x9FFF && addr % 2 == 1 && self.after_writes(ws.drop_last()).bank_update
                == reg {
                Some(val)
            } else {
                self.last_bank_data(ws.drop_last(), reg)
            }
        }
    }

    /// The PRG ROM offset of the 8 KB bank that R6 or R7 (`reg`) selects after `ws`: the last
    /// value written to it, wrapped around the bank count, or the bank it started with.
    pub open spec fn prg_bank_after(self, ws: Seq<(int, u8)>, reg: u8) -> int {
        match self.last_bank_data(ws, reg) {
            Some(v) => ((v & 0x3F) % self.prg_rom_count) * 0x2000,
            None => if reg == 6 { self.prg_0 as int } else { self.prg_1 as int },
        }
    }

    /// The PRG bank mode after `ws`: bit 6 of the last bank select write, or the mode it
    /// started with.
    pub open spec fn prg_mode_after(self, ws: Seq<(int, u8)>) -> u8 {
        match self.last_bank_select(ws) {
            Some(v) => (v & 0x40) / 64,
            None => self.prg_bank_mode,
        }
    }
}

proof fn lemma_mmc3_bits()
    by (bit_vector)
    ensures
        forall|x: u8| #[trigger] (x & 7) <= 7,
{
}

/// The nametable mirroring is set by the last write to the mirroring register (bit 0:
/// 1 horizontal, 0 vertical); with no such write it is what it started as (the header's,
/// after `new`). Writes to other addresses never change it.
pub proof fn lemma_mirroring_follows_last_write(s: _4Mmc3, ws: Seq<(int, u8)>)
    ensures
        s.after_writes(ws).mirroring == (match s.last_mirroring_write(ws) {
            Some(v) => if v & 1 == 1 {
                Mirroring::Horizontal
            } else {
                Mirroring::Vertical
            },
            None => s.mirroring,
        }),
    decreases ws.len(),
{
    if ws.len() > 0 {
        lemma_mirroring_follows_last_write(s, ws.drop_last());
    }
}

/// The PRG ROM layout follows the last values written to R6 and R7 and the last PRG bank
/// mode: $8000-$9FFF holds R6's bank in mode 0 and the second-to-last bank in mode 1,
/// $A000-$BFFF holds R7's bank, $C000-$DFFF the other of R6's bank and the second-to-last
/// bank, and $E000-$FFFF the last bank.
pub proof fn lemma_prg_banks_follow_r6_r7(s: _4Mmc3, ws: Seq<(int, u8)>, addr: int)
    requires
        s.bank_update <= 7,
        s.prg_rom_count > 0,
    ensures
        s.after_writes(ws).bank_update <= 7,
        s.after_writes(ws).prg_rom_count == s.prg_rom_count,
        s.after_writes(ws).prg_end_1 == s.prg_end_1,
        s.after_writes(ws).prg_end_2 == s.prg_end_2,
        s.after_writes(ws).prg_bank_mode == s.prg_mode_after(ws),
        s.after_writes(ws).prg_0 == s.prg_bank_after(ws, 6),
        s.after_writes(ws).prg_1 == s.prg_bank_after(ws, 7),
        s.after_writes(ws).rom_offset(addr) == (if 0x8000 <= addr <= 0x9FFF {
            Some(
                (if s.prg_mode_after(ws) == 0 {
                    s.prg_bank_after(ws, 6)
                } else {
                    s.prg_end_2 as int
                }) + addr - 0x8000,
            )
        } else if 0xA000 <= addr <= 0xBFFF {
            Some(s.prg_bank_after(ws, 7) + addr - 0xA000)
        } else if 0xC000 <= addr <= 0xDFFF {
            Some(
                (if s.prg_mode_after(ws) == 0 {
                    s.prg_end_2 as int
                } else {
                    s.prg_bank_after(ws, 6)
                }) + addr - 0xC000,
            )
        } else if 0xE000 <= addr <= 0xFFFF {
            Some(s.prg_end_1 + addr - 0xE000)
        } else {
            None
        }),
    decreases ws.len(),
{
    if ws.len() > 0 {
        lemma_prg_banks_follow_r6_r7(s, ws.drop_last(), addr);
        lemma_mmc3_bits();
        let (a, v) = ws.last();
        assert((v & 7) <= 7);
    }
}

/// CHR bank mode 1 swaps the two 4 KB halves of the pattern tables: the 2 KB banks R0 and R1
/// move to $1000-$1FFF and the 1 KB banks R2-R5 to $0000-$0FFF.
pub proof fn lemma_chr_mode_swaps_halves(m: _4Mmc3, a: int)
    requires
        0 <= a < 0x2000,
    ensures
        (_4Mmc3 { chr_bank_mode: 1, ..m }).chr_offset(a) == (_4Mmc3 { chr_bank_mode: 0, ..m }).chr_offset(
            if a < 0x1000 { a + 0x1000 } else { a - 0x1000 },
        ),
{
}

/// A bank data write of `v` (odd address in $8001-$9FFF) to the 1 KB CHR registers R2-R5
/// maps the 1 KB bank `v mod chr_count`, odd banks included; R0 and R1, the 2 KB registers,
/// ignore bit 0 of `v`. Which register is written is the bank select's choice, and nothing
/// else of the chip changes.
pub proof fn lemma_chr_bank_registers(m: _4Mmc3, addr: int, v: u8)
    requires
        m.wf(),
        m.chr_count > 0,
        0x8001 <= addr <= 0x9FFF,
        addr % 2 == 1,
    ensures
        ({
            let r = m.register_write_spec(addr, v);
            let bank = (v as int) % (m.chr_count as int);
            let even_bank = ((v as int) - (v as int) % 2) % (m.chr_count as int);
            &&& m.bank_update == 0 ==> r == _4Mmc3 { chr_0: (even_bank * 0x400) as usize, ..m }
            &&& m.bank_update == 1 ==> r == _4Mmc3 { chr_1: (even_bank * 0x400) as usize, ..m }
            &&& m.bank_update == 2 ==> r == _4Mmc3 { chr_2: (bank * 0x400) as usize, ..m }
            &&& m.bank_update == 3 ==> r == _4Mmc3 { chr_3: (bank * 0x400) as usize, ..m }
            &&& m.bank_update == 4 ==> r == _4Mmc3 { chr_4: (bank * 0x400) as usize, ..m }
            &&& m.bank_update == 5 ==> r == _4Mmc3 { chr_5: (bank * 0x400) as usize, ..m }
            &&& 2 <= m.bank_update <= 5 && m.chr_bank_mode == 0 ==> r.chr_offset(
                0x1000 + 0x400 * (m.bank_update - 2),
            ) == bank * 0x400
        }),
{
    let c = m.chr_count as int;
    let vi = v as int;
    assert(0 <= vi % c <= vi) by (nonlinear_arith)
        requires
            c > 0,
            vi >= 0,
    ;
    assert((v & 0xFE) == v - v % 2) by (bit_vector);
    let e = (vi - vi % 2) % c;
    assert(0 <= e <= vi - vi % 2) by (nonlinear_arith)
        requires
            c > 0,
            e == (vi - vi % 2) % c,
            0 <= vi - vi % 2,
    ;
}

} // verus!
