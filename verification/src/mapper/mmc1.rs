use vstd::prelude::*;

use crate::cartridge::{BankSize, Cartridge, Mirroring};
use crate::mapper::{prg_access_ok, prg_read, wram_after_write, chr_write_result};

verus! {

/// Mapper 1 (MMC1): registers loaded through a five-write serial port.
pub struct _1Mmc1 {
    pub shift: u8,
    pub prg_mode: u8,
    pub chr_mask: u8,
    pub chr_mode: u8,
    pub enable_ram: bool,
    pub ignore_write_cycle: u64,
    pub mirroring: Mirroring,
    pub prg_banks: u8,
    pub prg_0: usize,
    pub prg_1: usize,
    pub chr_0: usize,
    pub chr_1: usize,
}

/// The value that five serial writes load: bit 0 of the first write becomes bit 0.
pub open spec fn serial_value(v1: u8, v2: u8, v3: u8, v4: u8, v5: u8) -> u8 {
    (v1 % 2 + 2 * (v2 % 2) + 4 * (v3 % 2) + 8 * (v4 % 2) + 16 * (v5 % 2)) as u8
}

impl _1Mmc1 {
    /// The invariant of the chip: at least one PRG bank and a valid PRG mode.
    pub open spec fn wf(&self) -> bool {
        self.prg_banks >= 1 && self.prg_mode <= 3 && self.shift <= 0x1F
    }

    /// The PRG ROM offset a CPU address maps to, if any.
    pub open spec fn rom_offset(&self, addr: int) -> Option<int> {
        if 0x8000 <= addr <= 0xBFFF {
            Some(self.prg_0 + addr - 0x8000)
        } else if 0xC000 <= addr <= 0xFFFF {
            Some(self.prg_1 + addr - 0xC000)
        } else {
            None
        }
    }

    /// The PRG RAM offset a CPU address maps to, if any (only while the RAM is enabled).
    pub open spec fn ram_offset(&self, addr: int) -> Option<int> {
        if 0x6000 <= addr <= 0x7FFF && self.enable_ram {
            Some(addr - 0x6000)
        } else {
            None
        }
    }

    /// The CHR offset a PPU address ($0000-$1FFF) maps to.
    pub open spec fn chr_offset(&self, addr: int) -> int {
        if addr <= 0xFFF {
            self.chr_0 + addr
        } else {
            self.chr_1 + (addr - 0x1000)
        }
    }

    /// The state after the control register is loaded with `val`.
    pub open spec fn control_spec(self, val: u8) -> Self {
        let prg_mode = (val & 0xC) / 4;
        let s = _1Mmc1 {
            mirroring: if val & 3 == 0 {
                Mirroring::SingleScreenLow
            } else if val & 3 == 1 {
                Mirroring::SingleScreenHigh
            } else if val & 3 == 2 {
                Mirroring::Vertical
            } else {
                Mirroring::Horizontal
            },
            prg_mode,
            chr_mode: (val & 0x10) / 16,
            ..self
        };
        if prg_mode == 2 {
            _1Mmc1 { prg_0: 0, ..s }
        } else if prg_mode == 3 {
            _1Mmc1 { prg_1: ((self.prg_banks - 1) * 0x4000) as usize, ..s }
        } else {
            s
        }
    }

    /// The state after the PRG bank register is loaded with `val`.
    pub open spec fn prg_spec(self, val: u8) -> Self {
        let s = _1Mmc1 { enable_ram: val & 0x10 == 0, ..self };
        if self.prg_mode <= 1 {
            _1Mmc1 {
                prg_0: ((val & 0xE) * 0x4000) as usize,
                prg_1: (((val & 0xE) + 1) * 0x4000) as usize,
                ..s
            }
        } else if self.prg_mode == 2 {
            _1Mmc1 { prg_1: ((val & 0xF) * 0x4000) as usize, ..s }
        } else {
            _1Mmc1 { prg_0: ((val & 0xF) * 0x4000) as usize, ..s }
        }
    }

    /// The state after the first CHR bank register is loaded with `val`.
    pub open spec fn chr0_spec(self, val: u8) -> Self {
        if self.chr_mode == 1 {
            _1Mmc1 { chr_0: ((val & self.chr_mask) * 0x1000) as usize, ..self }
        } else {
            _1Mmc1 {
                chr_0: ((val & 0xFE) * 0x1000) as usize,
                chr_1: (((val & 0xFE) + 1) * 0x1000) as usize,
                ..self
            }
        }
    }

    /// The state after the second CHR bank register is loaded with `val`.
    pub open spec fn chr1_spec(self, val: u8) -> Self {
        if self.chr_mode == 1 {
            _1Mmc1 { chr_1: ((val & self.chr_mask) * 0x1000) as usize, ..self }
        } else {
            self
        }
    }

    /// The state after the internal register selected by bits 13-14 of `addr` is loaded
    /// with `val` (the shift register is then cleared).
    pub open spec fn load_register(self, addr: int, val: u8) -> Self {
        let region = (addr as usize) & 0x6000;
        let s = if region == 0 {
            self.control_spec(val)
        } else if region == 0x2000 {
            self.chr0_spec(val)
        } else if region == 0x4000 {
            self.chr1_spec(val)
        } else {
            self.prg_spec(val)
        };
        _1Mmc1 { shift: 0x10, ..s }
    }

    /// The state after a CPU write of `val` to `addr` in $8000-$FFFF on cycle `cycle`.
    pub open spec fn serial_write(self, addr: int, val: u8, cycle: u64) -> Self {
        if cycle == self.ignore_write_cycle {
            _1Mmc1 { ignore_write_cycle: 0, ..self }
        } else {
            let s = _1Mmc1 { ignore_write_cycle: (cycle + 1) as u64, ..self };
            if val & 0x80 != 0 {
                _1Mmc1 { shift: 0x10, prg_mode: 3, ..s }
            } else if self.shift & 1 != 0 {
                s.load_register(addr, ((val & 1) * 16 + self.shift / 2) as u8)
            } else {
                _1Mmc1 { shift: ((val & 1) * 16 + self.shift / 2) as u8, ..s }
            }
        }
    }

    pub fn new(cartridge: &Cartridge) -> (r: Self)
        requires
            (cartridge.header.prg_rom_size as nat / 0x4000) as u8 >= 1,
        ensures
            r.wf(),
            r == (_1Mmc1 {
                shift: 0x10,
                prg_mode: 3,
                chr_mode: 0,
                chr_mask: if cartridge.header.chr_ram_size == Some(0x2000u32) { 1 } else { 0xFF },
                enable_ram: false,
                ignore_write_cycle: 0,
                mirroring: Mirroring::Horizontal,
                prg_banks: (cartridge.header.prg_rom_size as nat / 0x4000) as u8,
                prg_0: 0,
                prg_1: (((cartridge.header.prg_rom_size as nat / 0x4000) as u8 - 1) * 0x4000) as usize,
                chr_0: 0,
                chr_1: 0,
            }),
    {
        // Only 8 KB of CHR RAM is supported; submappers are not emulated.
        let chr_mask = if cartridge.has_chr_ram() && cartridge.header.chr_ram_size == Some(
            BankSize::Kb8.bytes(),
        ) {
            1
        } else {
            0xFF
        };
        let prg_banks = cartridge.prg_rom_count(BankSize::Kb16) as u8;
        Self {
            shift: 0x10,
            prg_mode: 3,
            chr_mode: 0,
            chr_mask,
            enable_ram: false,
            ignore_write_cycle: 0,
            mirroring: Mirroring::Horizontal,
            prg_banks,
            prg_0: 0,
            prg_1: Cartridge::map_bank(prg_banks - 1, BankSize::Kb16),
            chr_0: 0,
            chr_1: 0,
        }
    }

    pub fn cpu_read(&self, cartridge: &Cartridge, addr: usize) -> (r: Option<u8>)
        requires
            prg_access_ok(cartridge, self.rom_offset(addr as int), self.ram_offset(addr as int)),
        ensures
            r == prg_read(cartridge, self.rom_offset(addr as int), self.ram_offset(addr as int)),
    {
        proof {
            cartridge.lemma_sizes_fit();
        }
        if 0x6000 <= addr && addr <= 0x7FFF && self.enable_ram {
            cartridge.read_prg_ram(addr - 0x6000)
        } else if 0x8000 <= addr && addr <= 0xBFFF {
            Some(cartridge.read_prg_rom(self.prg_0 + (addr - 0x8000)))
        } else if 0xC000 <= addr && addr <= 0xFFFF {
            Some(cartridge.read_prg_rom(self.prg_1 + (addr - 0xC000)))
        } else {
            None
        }
    }

    /// CPU writes: PRG RAM while it is enabled, and the serial port at $8000-$FFFF.
    /// Consecutive-cycle writes (as read-modify-write instructions make) are ignored
    /// but for the first one.
    pub fn cpu_write(&mut self, cartridge: &mut Cartridge, addr: usize, val: u8, cpu_cycle: u64)
        requires
            old(self).wf(),
            cpu_cycle < u64::MAX,
            prg_access_ok(old(cartridge), None, old(self).ram_offset(addr as int)),
        ensures
            final(self).wf(),
            *final(self) == (if 0x8000 <= addr <= 0xFFFF {
                old(self).serial_write(addr as int, val, cpu_cycle)
            } else {
                *old(self)
            }),
            final(cartridge).header == old(cartridge).header,
            final(cartridge).prg() == old(cartridge).prg(),
            final(cartridge).chr_mem() == old(cartridge).chr_mem(),
            final(cartridge).wram() == wram_after_write(
                old(cartridge).wram(),
                old(self).ram_offset(addr as int),
                val,
            ),
    {
        if 0x6000 <= addr && addr <= 0x7FFF && self.enable_ram {
            cartridge.write_prg_ram(addr - 0x6000, val);
        } else if 0x8000 <= addr && addr <= 0xFFFF {
            if cpu_cycle == self.ignore_write_cycle {
                self.ignore_write_cycle = 0;
                return;
            } else {
                self.ignore_write_cycle = cpu_cycle + 1;
            }
            if val & 0x80 != 0 {
                // Writing a value with bit 7 set clears the shift register.
                self.shift = 0x10;
                self.prg_mode = 3;
            } else {
                let shift = ((val & 1) << 4u8) | self.shift >> 1u8;
                let old_shift = self.shift;
                assert(shift == ((val & 1) * 16 + old_shift / 2) as u8 && shift <= 0x1F) by (bit_vector)
                    requires
                        shift == ((val & 1) << 4u8) | old_shift >> 1u8,
                        old_shift <= 0x1F,
                ;
                if self.shift & 1 != 0 {
                    let region = addr & 0x6000;
                    if region == 0 {
                        self.write_control(shift);
                    } else if region == 0x2000 {
                        self.select_chr_0(shift);
                    } else if region == 0x4000 {
                        self.select_chr_1(shift);
                    } else {
                        self.select_prg(shift);
                    }
                    // After the fifth write the shift register is cleared automatically.
                    self.shift = 0x10;
                } else {
                    self.shift = shift;
                }
            }
        }
    }

    /// Control register: CPPMM (mirroring, PRG ROM bank mode, CHR ROM bank mode).
    #[inline]
    fn write_control(&mut self, val: u8)
        requires
            old(self).wf(),
        ensures
            final(self).wf(),
            *final(self) == old(self).control_spec(val),
    {
        self.mirroring = if val & 3 == 0 {
            Mirroring::SingleScreenLow
        } else if val & 3 == 1 {
            Mirroring::SingleScreenHigh
        } else if val & 3 == 2 {
            Mirroring::Vertical
        } else {
            Mirroring::Horizontal
        };
        let mode = (val & 0xC) >> 2u8;
        assert(mode == (val & 0xC) / 4 && mode <= 3) by (bit_vector)
            requires
                mode == (val & 0xC) >> 2u8,
        ;
        self.prg_mode = mode;
        if mode == 2 {
            self.prg_0 = 0;
        } else if mode == 3 {
            self.prg_1 = Cartridge::map_bank(self.prg_banks - 1, BankSize::Kb16);
        }
        let chr_mode = (val & 0x10) >> 4u8;
        assert(chr_mode == (val & 0x10) / 16) by (bit_vector)
            requires
                chr_mode == (val & 0x10) >> 4u8,
        ;
        self.chr_mode = chr_mode;
    }

    /// PRG bank register: RPPPP (PRG RAM disable, 16 KB bank; low bit ignored in 32 KB mode).
    #[inline]
    fn select_prg(&mut self, val: u8)
        requires
            old(self).wf(),
        ensures
            final(self).wf(),
            *final(self) == old(self).prg_spec(val),
    {
        self.enable_ram = val & 0x10 == 0;
        if self.prg_mode <= 1 {
            assert(val & 0xE <= 14) by (bit_vector);
            self.prg_0 = Cartridge::map_bank(val & 0xE, BankSize::Kb16);
            self.prg_1 = Cartridge::map_bank((val & 0xE) + 1, BankSize::Kb16);
        } else if self.prg_mode == 2 {
            self.prg_1 = Cartridge::map_bank(val & 0xF, BankSize::Kb16);
        } else {
            self.prg_0 = Cartridge::map_bank(val & 0xF, BankSize::Kb16);
        }
    }

    /// First CHR bank register (4 KB or 8 KB; the low bit is ignored in 8 KB mode).
    #[inline]
    fn select_chr_0(&mut self, val: u8)
        requires
            old(self).wf(),
        ensures
            final(self).wf(),
            *final(self) == old(self).chr0_spec(val),
    {
        if self.chr_mode == 1 {
            self.chr_0 = Cartridge::map_bank(val & self.chr_mask, BankSize::Kb4);
        } else {
            assert(val & 0xFE <= 254) by (bit_vector);
            self.chr_0 = Cartridge::map_bank(val & 0xFE, BankSize::Kb4);
            self.chr_1 = Cartridge::map_bank((val & 0xFE) + 1, BankSize::Kb4);
        }
    }

    /// Second CHR bank register (ignored in 8 KB mode).
    #[inline]
    fn select_chr_1(&mut self, val: u8)
        requires
            old(self).wf(),
        ensures
            final(self).wf(),
            *final(self) == old(self).chr1_spec(val),
    {
        if self.chr_mode == 1 {
            self.chr_1 = Cartridge::map_bank(val & self.chr_mask, BankSize::Kb4);
        }
    }

    pub fn read_chr(&self, cartridge: &Cartridge, addr: usize) -> (r: u8)
        requires
            addr <= 0x1FFF,
            0 <= self.chr_offset(addr as int) < cartridge.chr_mem().len(),
        ensures
            r == cartridge.chr_mem()[self.chr_offset(addr as int)],
    {
        proof {
            cartridge.lemma_sizes_fit();
        }
        if addr <= 0xFFF {
            cartridge.read_chr(self.chr_0 + addr)
        } else {
            assert(addr & 0xFFF == addr - 0x1000) by (bit_vector)
                requires
                    0x1000 <= addr <= 0x1FFF,
            ;
            cartridge.read_chr(self.chr_1 + (addr & 0xFFF))
        }
    }

    pub fn write_chr(&mut self, cartridge: &mut Cartridge, addr: usize, val: u8)
        requires
            addr <= 0x1FFF,
            0 <= old(self).chr_offset(addr as int) < old(cartridge).chr_mem().len(),
        ensures
            *final(self) == *old(self),
            chr_write_result(old(cartridge), final(cartridge), true, old(self).chr_offset(addr as int), val),
    {
        proof {
            cartridge.lemma_sizes_fit();
        }
        if addr <= 0xFFF {
            cartridge.write_chr(self.chr_0 + addr, val);
        } else {
            assert(addr & 0xFFF == addr - 0x1000) by (bit_vector)
                requires
                    0x1000 <= addr <= 0x1FFF,
            ;
            cartridge.write_chr(self.chr_1 + (addr & 0xFFF), val);
        }
    }

    pub fn mirroring(&self) -> (r: Mirroring)
        ensures
            r == self.mirroring,
    {
        self.mirroring
    }
}

impl _1Mmc1 {
    /// The chip's state after the CPU writes `ws` (address, value, CPU cycle), in order, as
    /// `cpu_write` leaves it: writes to $8000-$FFFF go to the serial port, others leave the
    /// chip as it is.
    pub open spec fn after_writes(self, ws: Seq<(int, u8, u64)>) -> Self
        decreases ws.len(),
    {
        if ws.len() == 0 {
            self
        } else {
            let prev = self.after_writes(ws.drop_last());
            let (addr, val, cycle) = ws.last();
            if 0x8000 <= addr <= 0xFFFF {
                prev.serial_write(addr, val, cycle)
            } else {
                prev
            }
        }
    }

    /// The five-bit value that the CPU write of `val` to `addr` on `cycle` loads into an
    /// internal register, if that write completes a serial load.
    pub open spec fn loaded_value(self, addr: int, val: u8, cycle: u64) -> Option<u8> {
        if 0x8000 <= addr <= 0xFFFF && cycle != self.ignore_write_cycle && val & 0x80 == 0
            && self.shift & 1 != 0 {
            Some(((val & 1) * 16 + self.shift / 2) as u8)
        } else {
            None
        }
    }

    /// The value that the writes `ws` last loaded into the internal register `reg` (0:
    /// control, 0x2000: CHR bank 0, 0x4000: CHR bank 1, 0x6000: PRG bank), if any.
    pub open spec fn last_load(self, ws: Seq<(int, u8, u64)>, reg: usize) -> Option<u8>
        decreases ws.len(),
    {
        if ws.len() == 0 {
            None
        } else {
            let prev = self.after_writes(ws.drop_last());
            let (addr, val, cycle) = ws.last();
            if prev.loaded_value(addr, val, cycle) is Some && (addr as usize) & 0x6000 == reg {
                prev.loaded_value(addr, val, cycle)
            } else {
                self.last_load(ws.drop_last(), reg)
            }
        }
    }

    /// The value that the writes `ws` last loaded into CHR bank 0 while the CHR mode was
    /// 8 KB, provided the mode has been 8 KB after every write since.
    pub open spec fn last_8k_chr_load(self, ws: Seq<(int, u8, u64)>) -> Option<u8>
        decreases ws.len(),
    {
        if ws.len() == 0 {
            None
        } else if self.after_writes(ws).chr_mode != 0 {
            None
        } else {
            let prev = self.after_writes(ws.drop_last());
            let (addr, val, cycle) = ws.last();
            if prev.loaded_value(addr, val, cycle) is Some && (addr as usize) & 0x6000 == 0x2000 {
                prev.loaded_value(addr, val, cycle)
            } else {
                self.last_8k_chr_load(ws.drop_last())
            }
        }
    }
}

proof fn lemma_mmc1_bits()
    by (bit_vector)
    ensures
        forall|x: u8| #[trigger] (x & 1) <= 1,
        forall|x: u8| #[trigger] (x & 0xC) <= 0xC,
        forall|x: u8| x <= 0x1F ==> #[trigger] (x & 0xFE) == x & 0x1E,
        forall|x: usize|
            #![trigger x & 0x6000]
            (x & 0x6000) == 0 || (x & 0x6000) == 0x2000 || (x & 0x6000) == 0x4000 || (x & 0x6000)
                == 0x6000,
{
}

/// One write keeps the chip's invariant, and a value it loads has five bits.
proof fn lemma_serial_write_wf(s: _1Mmc1, addr: int, val: u8, cycle: u64)
    requires
        s.wf(),
    ensures
        s.serial_write(addr, val, cycle).wf(),
        s.loaded_value(addr, val, cycle) matches Some(v) ==> v <= 0x1F,
{
    lemma_mmc1_bits();
    assert((val & 1) <= 1);
    let v = ((val & 1) * 16 + s.shift / 2) as u8;
    assert((v & 0xC) <= 0xC);
}

/// Writes keep the chip's invariant.
proof fn lemma_after_writes_wf(s: _1Mmc1, ws: Seq<(int, u8, u64)>)
    requires
        s.wf(),
    ensures
        s.after_writes(ws).wf(),
    decreases ws.len(),
{
    if ws.len() > 0 {
        lemma_after_writes_wf(s, ws.drop_last());
        let (addr, val, cycle) = ws.last();
        lemma_serial_write_wf(s.after_writes(ws.drop_last()), addr, val, cycle);
    }
}

/// PRG RAM at $6000-$7FFF is enabled exactly when the last value loaded into the PRG bank
/// register ($E000-$FFFF) had bit 4 clear; with no such load it keeps the state it started
/// with (disabled, after `new`).
pub proof fn lemma_prg_ram_enable(s: _1Mmc1, ws: Seq<(int, u8, u64)>)
    ensures
        s.after_writes(ws).enable_ram == (match s.last_load(ws, 0x6000) {
            Some(v) => v & 0x10 == 0,
            None => s.enable_ram,
        }),
        forall|addr: int|
            0x6000 <= addr <= 0x7FFF ==> #[trigger] s.after_writes(ws).ram_offset(addr) == (if s.after_writes(
                ws,
            ).enable_ram {
                Some(addr - 0x6000)
            } else {
                None
            }),
    decreases ws.len(),
{
    if ws.len() > 0 {
        lemma_prg_ram_enable(s, ws.drop_last());
        lemma_mmc1_bits();
        let (addr, val, cycle) = ws.last();
        let r = (addr as usize) & 0x6000;
        assert(r == 0 || r == 0x2000 || r == 0x4000 || r == 0x6000);
    }
}

/// While the CHR mode stays 8 KB after the last load of CHR bank 0 with `v`, PPU
/// $0000-$1FFF is one contiguous 8 KB bank starting at bank `v` with its low bit ignored.
pub proof fn lemma_8k_chr_bank(s: _1Mmc1, ws: Seq<(int, u8, u64)>, a: int)
    requires
        s.wf(),
        0 <= a < 0x2000,
    ensures
        s.last_8k_chr_load(ws) matches Some(v) ==> s.after_writes(ws).chr_offset(a) == (v & 0x1E)
            * 0x1000 + a,
    decreases ws.len(),
{
    if ws.len() > 0 {
        lemma_8k_chr_bank(s, ws.drop_last(), a);
        lemma_mmc1_bits();
        lemma_after_writes_wf(s, ws.drop_last());
        let prev = s.after_writes(ws.drop_last());
        let (addr, val, cycle) = ws.last();
        lemma_serial_write_wf(prev, addr, val, cycle);
        let r = (addr as usize) & 0x6000;
        assert(r == 0 || r == 0x2000 || r == 0x4000 || r == 0x6000);
        if let Some(v) = prev.loaded_value(addr, val, cycle) {
            assert((v & 0xFE) == v & 0x1E);
        }
        if ws.drop_last().len() > 0 && s.last_8k_chr_load(ws.drop_last()) is Some {
            assert(prev.chr_mode == 0);
        }
    }
}

/// A write to $8000-$FFFF on the cycle right after one that was taken (the second write of a
/// read-modify-write instruction) is ignored: only the mark of the ignored cycle clears, so the
/// write after it is taken again.
pub proof fn lemma_consecutive_write_ignored(s: _1Mmc1, a1: int, v1: u8, c: u64, a2: int, v2: u8)
    requires
        c != s.ignore_write_cycle,
        c < u64::MAX,
    ensures
        s.serial_write(a1, v1, c).ignore_write_cycle == c + 1,
        s.serial_write(a1, v1, c).serial_write(a2, v2, (c + 1) as u64) == (_1Mmc1 {
            ignore_write_cycle: 0,
            ..s.serial_write(a1, v1, c)
        }),
{
}

/// Five serial writes with bit 7 clear, on cycles that are not consecutive, load the
/// register that the fifth write's address selects with the five collected bits (the
/// first write giving bit 0), and leave the shift register cleared.
pub proof fn lemma_five_serial_writes(
    s: _1Mmc1,
    a1: int, a2: int, a3: int, a4: int, a5: int,
    v1: u8, v2: u8, v3: u8, v4: u8, v5: u8,
    c1: u64, c2: u64, c3: u64, c4: u64, c5: u64,
)
    requires
        s.shift == 0x10,
        v1 < 0x80 && v2 < 0x80 && v3 < 0x80 && v4 < 0x80 && v5 < 0x80,
        c1 != s.ignore_write_cycle,
        c1 < u64::MAX && c2 < u64::MAX && c3 < u64::MAX && c4 < u64::MAX && c5 < u64::MAX,
        c2 != c1 + 1 && c3 != c2 + 1 && c4 != c3 + 1 && c5 != c4 + 1,
    ensures
        s.serial_write(a1, v1, c1).serial_write(a2, v2, c2).serial_write(a3, v3, c3).serial_write(
            a4,
            v4,
            c4,
        ).serial_write(a5, v5, c5) == (_1Mmc1 { ignore_write_cycle: (c5 + 1) as u64, ..s }).load_register(
            a5,
            serial_value(v1, v2, v3, v4, v5),
        ),
{
    assert(v1 & 0x80 == 0 && v2 & 0x80 == 0 && v3 & 0x80 == 0 && v4 & 0x80 == 0 && v5 & 0x80 == 0)
        by (bit_vector)
        requires
            v1 < 0x80 && v2 < 0x80 && v3 < 0x80 && v4 < 0x80 && v5 < 0x80,
    ;
    let b1 = v1 & 1;
    let b2 = v2 & 1;
    let b3 = v3 & 1;
    let b4 = v4 & 1;
    let b5 = v5 & 1;
    assert(b1 == v1 % 2 && b2 == v2 % 2 && b3 == v3 % 2 && b4 == v4 % 2 && b5 == v5 % 2) by (bit_vector)
        requires
            b1 == v1 & 1 && b2 == v2 & 1 && b3 == v3 & 1 && b4 == v4 & 1 && b5 == v5 & 1,
    ;
    let sh1 = (b1 * 16 + 0x10u8 / 2) as u8;
    let sh2 = (b2 * 16 + sh1 / 2) as u8;
    let sh3 = (b3 * 16 + sh2 / 2) as u8;
    let sh4 = (b4 * 16 + sh3 / 2) as u8;
    assert(sh1 & 1 == 0 && sh2 & 1 == 0 && sh3 & 1 == 0 && sh4 & 1 != 0 && 0x10u8 & 1 == 0
        && (b5 * 16 + sh4 / 2) as u8 == b1 + 2 * b2 + 4 * b3 + 8 * b4 + 16 * b5) by (bit_vector)
        requires
            b1 <= 1 && b2 <= 1 && b3 <= 1 && b4 <= 1 && b5 <= 1,
            sh1 == (b1 * 16 + 0x10u8 / 2) as u8,
            sh2 == (b2 * 16 + sh1 / 2) as u8,
            sh3 == (b3 * 16 + sh2 / 2) as u8,
            sh4 == (b4 * 16 + sh3 / 2) as u8,
    ;
}

} // verus!
