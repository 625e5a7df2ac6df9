use vstd::prelude::*;

use crate::cartridge::{BankSize, Cartridge, Mirroring};
use crate::mapper::{prg_access_ok, prg_read, wram_after_write, chr_write_result};

verus! {

/// Mapper 69 (Sunsoft FME-7): 8 KB PRG banks (the one at $6000 may be RAM), eight 1 KB
/// CHR banks and a CPU-cycle IRQ counter, all set through a command/parameter register pair.
pub struct _69Fme7 {
    pub prg_0: usize,
    pub prg_1: usize,
    pub prg_2: usize,
    pub prg_3: usize,
    pub prg_4: usize,
    pub enable_prg_ram: bool,
    pub prg_ram_selected: bool,
    pub chr_0: usize,
    pub chr_1: usize,
    pub chr_2: usize,
    pub chr_3: usize,
    pub chr_4: usize,
    pub chr_5: usize,
    pub chr_6: usize,
    pub chr_7: usize,
    pub mirroring: Mirroring,
    pub irq_enable: bool,
    pub irq_counter_enable: bool,
    pub irq_counter: u16,
    pub fire_irq: bool,
    pub cmd: u8,
}

/// The number of 8 KB PRG ROM banks the header declares.
pub open spec fn prg_banks_8k(cart: &Cartridge) -> nat {
    cart.header.prg_rom_size as nat / 0x2000
}

/// Bank `bank` of 8 KB, wrapped around `count` banks.
pub open spec fn prg_bank_wrapped(bank: u8, count: nat) -> usize {
    ((bank as nat % count) * 0x2000) as usize
}

impl _69Fme7 {
    /// The invariant of the chip: the command register holds four bits.
    pub open spec fn wf(&self) -> bool {
        self.cmd <= 0xF
    }

    /// The PRG ROM offset a CPU address maps to, if any.
    pub open spec fn rom_offset(&self, addr: int) -> Option<int> {
        if 0x6000 <= addr <= 0x7FFF {
            if self.prg_ram_selected {
                None
            } else {
                Some(self.prg_0 + addr - 0x6000)
            }
        } else if 0x8000 <= addr <= 0x9FFF {
            Some(self.prg_1 + addr - 0x8000)
        } else if 0xA000 <= addr <= 0xBFFF {
            Some(self.prg_2 + addr - 0xA000)
        } else if 0xC000 <= addr <= 0xDFFF {
            Some(self.prg_3 + addr - 0xC000)
        } else {
            Some(self.prg_4 + addr - 0xE000)
        }
    }

    /// The PRG RAM offset a CPU address maps to, if any: only when the RAM is both
    /// selected and enabled (selected but disabled RAM is open bus).
    pub open spec fn ram_offset(&self, addr: int) -> Option<int> {
        if 0x6000 <= addr <= 0x7FFF && self.prg_ram_selected && self.enable_prg_ram {
            Some(addr - 0x6000)
        } else {
            None
        }
    }

    /// The CHR offset a PPU address ($0000-$1FFF) maps to.
    pub open spec fn chr_offset(&self, addr: int) -> int {
        if addr <= 0x3FF {
            self.chr_0 + addr
        } else if addr <= 0x7FF {
            self.chr_1 + addr - 0x400
        } else if addr <= 0xBFF {
            self.chr_2 + addr - 0x800
        } else if addr <= 0xFFF {
            self.chr_3 + addr - 0xC00
        } else if addr <= 0x13FF {
            self.chr_4 + addr - 0x1000
        } else if addr <= 0x17FF {
            self.chr_5 + addr - 0x1400
        } else if addr <= 0x1BFF {
            self.chr_6 + addr - 0x1800
        } else {
            self.chr_7 + addr - 0x1C00
        }
    }

    /// The state after the parameter register is written with `p` (the command register
    /// selects the effect); `count` is the number of 8 KB PRG banks.
    pub open spec fn parameter_spec(self, p: u8, count: nat) -> Self {
        let cmd = self.cmd;
        let chr = (p * 0x400) as usize;
        if cmd == 0 {
            _69Fme7 { chr_0: chr, ..self }
        } else if cmd == 1 {
            _69Fme7 { chr_1: chr, ..self }
        } else if cmd == 2 {
            _69Fme7 { chr_2: chr, ..self }
        } else if cmd == 3 {
            _69Fme7 { chr_3: chr, ..self }
        } else if cmd == 4 {
            _69Fme7 { chr_4: chr, ..self }
        } else if cmd == 5 {
            _69Fme7 { chr_5: chr, ..self }
        } else if cmd == 6 {
            _69Fme7 { chr_6: chr, ..self }
        } else if cmd == 7 {
            _69Fme7 { chr_7: chr, ..self }
        } else if cmd == 8 {
            _69Fme7 {
                enable_prg_ram: p & 0x80 != 0,
                prg_ram_selected: p & 0x40 != 0,
                prg_0: prg_bank_wrapped(p & 0x3F, count),
                ..self
            }
        } else if cmd == 9 {
            _69Fme7 { prg_1: prg_bank_wrapped(p & 0x3F, count), ..self }
        } else if cmd == 0xA {
            _69Fme7 { prg_2: prg_bank_wrapped(p & 0x3F, count), ..self }
        } else if cmd == 0xB {
            _69Fme7 { prg_3: prg_bank_wrapped(p & 0x3F, count), ..self }
        } else if cmd == 0xC {
            _69Fme7 {
                mirroring: if p & 3 == 0 {
                    Mirroring::Vertical
                } else if p & 3 == 1 {
                    Mirroring::Horizontal
                } else if p & 3 == 2 {
                    Mirroring::SingleScreenLow
                } else {
                    Mirroring::SingleScreenHigh
                },
                ..self
            }
        } else if cmd == 0xD {
            _69Fme7 { irq_enable: p & 1 != 0, irq_counter_enable: p & 0x80 != 0, fire_irq: false, ..self }
        } else if cmd == 0xE {
            _69Fme7 { irq_counter: ((self.irq_counter / 256) * 256 + p) as u16, ..self }
        } else {
            _69Fme7 { irq_counter: ((self.irq_counter % 256) + p * 256) as u16, ..self }
        }
    }

    pub fn new(cartridge: &Cartridge) -> (r: Self)
        requires
            (prg_banks_8k(cartridge) as u8) >= 1,
        ensures
            r.wf(),
            r.cmd == 0,
            r.prg_0 == 0 && r.prg_1 == 0 && r.prg_2 == 0 && r.prg_3 == 0,
            r.prg_4 == prg_bank_wrapped((prg_banks_8k(cartridge) as u8 - 1) as u8, prg_banks_8k(cartridge)),
            !r.enable_prg_ram && !r.prg_ram_selected,
            r.chr_0 == 0 && r.chr_1 == 0 && r.chr_2 == 0 && r.chr_3 == 0,
            r.chr_4 == 0 && r.chr_5 == 0 && r.chr_6 == 0 && r.chr_7 == 0,
            r.mirroring == Mirroring::Vertical,
            !r.irq_enable && !r.irq_counter_enable && r.irq_counter == 0 && !r.fire_irq,
    {
        let prg_banks = cartridge.prg_rom_count(BankSize::Kb8) as u8;
        Self {
            prg_0: 0,
            prg_1: 0,
            prg_2: 0,
            prg_3: 0,
            prg_4: cartridge.map_bank_prg_wrap(prg_banks - 1, BankSize::Kb8),
            enable_prg_ram: false,
            prg_ram_selected: false,
            chr_0: 0,
            chr_1: 0,
            chr_2: 0,
            chr_3: 0,
            chr_4: 0,
            chr_5: 0,
            chr_6: 0,
            chr_7: 0,
            mirroring: Mirroring::Vertical,
            irq_enable: false,
            irq_counter_enable: false,
            irq_counter: 0,
            fire_irq: false,
            cmd: 0,
        }
    }

    /// CPU $6000-$7FFF: 8 KB bankable PRG ROM or RAM; $8000-$DFFF: three 8 KB bankable
    /// PRG ROM banks; $E000-$FFFF: the last 8 KB bank.
    pub fn cpu_read(&self, cartridge: &Cartridge, addr: usize) -> (r: Option<u8>)
        requires
            0x6000 <= addr <= 0xFFFF,
            prg_access_ok(cartridge, self.rom_offset(addr as int), self.ram_offset(addr as int)),
        ensures
            r == prg_read(cartridge, self.rom_offset(addr as int), self.ram_offset(addr as int)),
    {
        proof {
            cartridge.lemma_sizes_fit();
        }
        if addr <= 0x7FFF {
            if self.prg_ram_selected {
                if self.enable_prg_ram {
                    cartridge.read_prg_ram(addr - 0x6000)
                } else {
                    None
                }
            } else {
                Some(cartridge.read_prg_rom(self.prg_0 + (addr - 0x6000)))
            }
        } else if addr <= 0x9FFF {
            Some(cartridge.read_prg_rom(self.prg_1 + (addr - 0x8000)))
        } else if addr <= 0xBFFF {
            Some(cartridge.read_prg_rom(self.prg_2 + (addr - 0xA000)))
        } else if addr <= 0xDFFF {
            Some(cartridge.read_prg_rom(self.prg_3 + (addr - 0xC000)))
        } else {
            Some(cartridge.read_prg_rom(self.prg_4 + (addr - 0xE000)))
        }
    }

    /// CPU writes: PRG RAM when selected and enabled, the command register at $8000-$9FFF
    /// and the parameter register at $A000-$BFFF.
    pub fn cpu_write(&mut self, cartridge: &mut Cartridge, addr: usize, val: u8)
        requires
            old(self).wf(),
            prg_banks_8k(old(cartridge)) > 0,
            prg_access_ok(old(cartridge), None, old(self).ram_offset(addr as int)),
        ensures
            final(self).wf(),
            *final(self) == (if 0x8000 <= addr <= 0x9FFF {
                _69Fme7 { cmd: val & 0xF, ..*old(self) }
            } else if 0xA000 <= addr <= 0xBFFF {
                old(self).parameter_spec(val, prg_banks_8k(old(cartridge)))
            } else {
                *old(self)
            }),
            final(cartridge).header == old(cartridge).header,
            final(cartridge).prg() == old(cartridge).prg(),
            final(cartridge).chr_mem() == old(cartridge).chr_mem(),
            final(cartridge).wram() == wram_after_write(
                old(cartridge).wram(),
                old(self).ram_offset(addr as int),
                val,
            ),
    {
        if 0x6000 <= addr && addr <= 0x7FFF {
            if self.prg_ram_selected && self.enable_prg_ram {
                cartridge.write_prg_ram(addr - 0x6000, val);
            }
        } else if 0x8000 <= addr && addr <= 0x9FFF {
            assert(val & 0xF <= 0xF) by (bit_vector);
            self.cmd = val & 0xF;
        } else if 0xA000 <= addr && addr <= 0xBFFF {
            let cmd = self.cmd;
            if cmd <= 7 {
                self.select_chr(val);
            } else if cmd <= 0xB {
                self.select_prg(val, cartridge);
            } else if cmd == 0xC {
                self.select_mirroring(val);
            } else {
                self.set_irq(val);
            }
        }
    }

    fn select_chr(&mut self, cmd_param: u8)
        requires
            old(self).cmd <= 7,
        ensures
            *final(self) == old(self).parameter_spec(cmd_param, 0),
    {
        let bank = Cartridge::map_bank(cmd_param, BankSize::Kb1);
        let cmd = self.cmd;
        if cmd == 0 {
            self.chr_0 = bank;
        } else if cmd == 1 {
            self.chr_1 = bank;
        } else if cmd == 2 {
            self.chr_2 = bank;
        } else if cmd == 3 {
            self.chr_3 = bank;
        } else if cmd == 4 {
            self.chr_4 = bank;
        } else if cmd == 5 {
            self.chr_5 = bank;
        } else if cmd == 6 {
            self.chr_6 = bank;
        } else {
            self.chr_7 = bank;
        }
    }

    /// Command 8 sets the bank at $6000 and the RAM enable / RAM select bits; commands 9-B
    /// set the banks at $8000, $A000 and $C000. Games expect bank numbers to wrap around.
    fn select_prg(&mut self, cmd_param: u8, cartridge: &Cartridge)
        requires
            8 <= old(self).cmd <= 0xB,
            prg_banks_8k(cartridge) > 0,
        ensures
            *final(self) == old(self).parameter_spec(cmd_param, prg_banks_8k(cartridge)),
    {
        let bank = cartridge.map_bank_prg_wrap(cmd_param & 0x3F, BankSize::Kb8);
        let cmd = self.cmd;
        if cmd == 8 {
            self.enable_prg_ram = (cmd_param & 0x80) != 0;
            self.prg_ram_selected = (cmd_param & 0x40) != 0;
            self.prg_0 = bank;
        } else if cmd == 9 {
            self.prg_1 = bank;
        } else if cmd == 0xA {
            self.prg_2 = bank;
        } else {
            self.prg_3 = bank;
        }
    }

    /// Command C: 0 vertical, 1 horizontal, 2 and 3 one-screen mirroring.
    fn select_mirroring(&mut self, cmd_param: u8)
        requires
            old(self).cmd == 0xC,
        ensures
            *final(self) == old(self).parameter_spec(cmd_param, 0),
    {
        self.mirroring = if cmd_param & 3 == 0 {
            Mirroring::Vertical
        } else if cmd_param & 3 == 1 {
            Mirroring::Horizontal
        } else if cmd_param & 3 == 2 {
            Mirroring::SingleScreenLow
        } else {
            Mirroring::SingleScreenHigh
        };
    }

    /// Command D: IRQ control (acknowledges a pending IRQ); E and F: low and high byte of
    /// the IRQ counter.
    fn set_irq(&mut self, cmd_param: u8)
        requires
            0xD <= old(self).cmd <= 0xF,
        ensures
            *final(self) == old(self).parameter_spec(cmd_param, 0),
    {
        let cmd = self.cmd;
        let counter = self.irq_counter;
        if cmd == 0xD {
            self.irq_enable = (cmd_param & 1) != 0;
            self.irq_counter_enable = (cmd_param & 0x80) != 0;
            self.fire_irq = false;
        } else if cmd == 0xE {
            let c = (counter & 0xFF00) | cmd_param as u16;
            assert(c == (counter / 256) * 256 + cmd_param) by (bit_vector)
                requires
                    c == (counter & 0xFF00) | cmd_param as u16,
            ;
            self.irq_counter = c;
        } else {
            let c = (counter & 0x00FF) | ((cmd_param as u16) << 8u16);
            assert(c == counter % 256 + cmd_param * 256) by (bit_vector)
                requires
                    c == (counter & 0x00FF) | ((cmd_param as u16) << 8u16),
            ;
            self.irq_counter = c;
        }
    }

    pub fn read_chr(&self, cartridge: &Cartridge, addr: usize) -> (r: u8)
        requires
            addr <= 0x1FFF,
            0 <= self.chr_offset(addr as int) < cartridge.chr_mem().len(),
        ensures
            r == cartridge.chr_mem()[self.chr_offset(addr as int)],
    {
        let off = self.chr_offset_exec(cartridge, addr);
        cartridge.read_chr(off)
    }

    pub fn write_chr(&mut self, cartridge: &mut Cartridge, addr: usize, val: u8)
        requires
            addr <= 0x1FFF,
            0 <= old(self).chr_offset(addr as int) < old(cartridge).chr_mem().len(),
        ensures
            *final(self) == *old(self),
            chr_write_result(old(cartridge), final(cartridge), true, old(self).chr_offset(addr as int), val),
    {
        let off = self.chr_offset_exec(cartridge, addr);
        cartridge.write_chr(off, val);
    }

    /// Computes `chr_offset` for an address whose offset lies inside the CHR memory.
    fn chr_offset_exec(&self, cartridge: &Cartridge, addr: usize) -> (r: usize)
        requires
            addr <= 0x1FFF,
            0 <= self.chr_offset(addr as int) < cartridge.chr_mem().len(),
        ensures
            r == self.chr_offset(addr as int),
    {
        proof {
            cartridge.lemma_sizes_fit();
        }
        if addr <= 0x3FF {
            self.chr_0 + addr
        } else if addr <= 0x7FF {
            self.chr_1 + (addr - 0x400)
        } else if addr <= 0xBFF {
            self.chr_2 + (addr - 0x800)
        } else if addr <= 0xFFF {
            self.chr_3 + (addr - 0xC00)
        } else if addr <= 0x13FF {
            self.chr_4 + (addr - 0x1000)
        } else if addr <= 0x17FF {
            self.chr_5 + (addr - 0x1400)
        } else if addr <= 0x1BFF {
            self.chr_6 + (addr - 0x1800)
        } else {
            self.chr_7 + (addr - 0x1C00)
        }
    }

    pub fn mirroring(&self) -> (r: Mirroring)
        ensures
            r == self.mirroring,
    {
        self.mirroring
    }

    /// The state after one CPU cycle of the IRQ counter.
    pub open spec fn clocked(self) -> Self {
        if !self.irq_counter_enable {
            self
        } else if self.irq_counter == 0 {
            _69Fme7 { fire_irq: true, irq_counter: 0xFFFF, ..self }
        } else {
            _69Fme7 { irq_counter: (self.irq_counter - 1) as u16, ..self }
        }
    }

    /// One CPU cycle of the IRQ counter: when enabled it counts down, and going from
    /// $0000 to $FFFF fires the IRQ, which holds the line until acknowledged.
    pub fn clock(&mut self, irq_signal: &mut bool)
        ensures
            *final(self) == old(self).clocked(),
            *final(irq_signal) == (*old(irq_signal) || (old(self).clocked().irq_enable && old(self).clocked().fire_irq)),
    {
        if self.irq_counter_enable {
            if self.irq_counter == 0 {
                self.fire_irq = true;
                self.irq_counter = 0xFFFF;
            } else {
                self.irq_counter = self.irq_counter - 1;
            }
        }
        if self.irq_enable && self.fire_irq {
            *irq_signal = true;
        }
    }
}

/// Writing the low byte (command E) and then the high byte (command F) of the IRQ
/// counter loads it with high * 256 + low.
pub proof fn lemma_irq_counter_load(s: _69Fme7, low: u8, high: u8, count: nat)
    ensures
        (_69Fme7 { cmd: 0xF, ..(_69Fme7 { cmd: 0xE, ..s }).parameter_spec(low, count) }).parameter_spec(
            high,
            count,
        ).irq_counter == high * 256 + low,
{
}

impl _69Fme7 {
    /// The chip's state after the CPU writes `ws` (address, value), in order, as `cpu_write`
    /// leaves it on a cartridge of `count` 8 KB PRG banks: $8000-$9FFF sets the command,
    /// $A000-$BFFF writes its parameter, other addresses leave the chip as it is.
    pub open spec fn after_writes(self, ws: Seq<(int, u8)>, count: nat) -> Self
        decreases ws.len(),
    {
        if ws.len() == 0 {
            self
        } else {
            let prev = self.after_writes(ws.drop_last(), count);
            let (addr, val) = ws.last();
            if 0x8000 <= addr <= 0x9FFF {
                _69Fme7 { cmd: val & 0xF, ..prev }
            } else if 0xA000 <= addr <= 0xBFFF {
                prev.parameter_spec(val, count)
            } else {
                prev
            }
        }
    }

    /// The last parameter that `ws` wrote for command `c`: a write to $A000-$BFFF while the
    /// command register held `c`.
    pub open spec fn last_parameter(self, ws: Seq<(int, u8)>, count: nat, c: u8) -> Option<u8>
        decreases ws.len(),
    {
        if ws.len() == 0 {
            None
        } else {
            let (addr, val) = ws.last();
            if 0xA000 <= addr <= 0xBFFF && self.after_writes(ws.drop_last(), count).cmd == c {
                Some(val)
            } else {
                self.last_parameter(ws.drop_last(), count, c)
            }
        }
    }
}

/// The last command 8 parameter `p` decides what $6000-$7FFF holds: with bit 6 clear, PRG
/// ROM bank `p & 0x3F` (wrapped around the bank count); with bit 6 set, PRG RAM if bit 7
/// enables it, and open bus if not. With no such parameter the area keeps its starting
/// setting (ROM bank 0, after `new`).
pub proof fn lemma_command_8(s: _69Fme7, ws: Seq<(int, u8)>, count: nat, addr: int)
    requires
        0x6000 <= addr <= 0x7FFF,
    ensures
        s.after_writes(ws, count).rom_offset(addr) == (match s.last_parameter(ws, count, 8) {
            Some(p) => if p & 0x40 == 0 {
                Some(prg_bank_wrapped(p & 0x3F, count) + addr - 0x6000)
            } else {
                None
            },
            None => s.rom_offset(addr),
        }),
        s.after_writes(ws, count).ram_offset(addr) == (match s.last_parameter(ws, count, 8) {
            Some(p) => if p & 0x40 != 0 && p & 0x80 != 0 {
                Some(addr - 0x6000)
            } else {
                None
            },
            None => s.ram_offset(addr),
        }),
    decreases ws.len(),
{
    if ws.len() > 0 {
        lemma_command_8(s, ws.drop_last(), count, addr);
    }
}

/// The last command $C parameter `p` sets the mirroring: 0 vertical, 1 horizontal, 2
/// one screen from $2000, 3 one screen from $2400. With no such parameter the mirroring
/// is what it started as (vertical, after `new`).
pub proof fn lemma_command_c(s: _69Fme7, ws: Seq<(int, u8)>, count: nat)
    ensures
        s.after_writes(ws, count).mirroring == (match s.last_parameter(ws, count, 0xC) {
            Some(p) => if p & 3 == 0 {
                Mirroring::Vertical
            } else if p & 3 == 1 {
                Mirroring::Horizontal
            } else if p & 3 == 2 {
                Mirroring::SingleScreenLow
            } else {
                Mirroring::SingleScreenHigh
            },
            None => s.mirroring,
        }),
    decreases ws.len(),
{
    if ws.len() > 0 {
        lemma_command_c(s, ws.drop_last(), count);
    }
}

} // verus!
