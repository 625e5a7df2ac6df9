use vstd::prelude::*;

verus! {

/// The generator as a value: the counter of states given out so far, and the code of each state
/// keyed by the state and the states that may follow it.
pub struct GeneratorModel {
    pub state: int,
    pub machine: Map<(usize, Seq<usize>), Seq<char>>,
}

/// The first cycle of an instruction: entered from the opcode `op`, it goes on to a new state.
pub open spec fn entry_cycle(g: GeneratorModel, op: usize, code: Seq<char>) -> GeneratorModel {
    GeneratorModel {
        state: g.state + 1,
        machine: g.machine.insert((op, seq![(g.state + 1) as usize]), code),
    }
}

/// A cycle in the middle of an instruction: it runs in the last state given out and goes on to
/// a new state.
pub open spec fn middle_cycle(g: GeneratorModel, code: Seq<char>) -> GeneratorModel {
    GeneratorModel {
        state: g.state + 1,
        machine: g.machine.insert((g.state as usize, seq![(g.state + 1) as usize]), code),
    }
}

/// The last cycle of an instruction: it runs in the last state given out and goes back to the
/// fetch of the next opcode.
pub open spec fn exit_cycle(g: GeneratorModel, code: Seq<char>) -> GeneratorModel {
    GeneratorModel {
        state: g.state,
        machine: g.machine.insert((g.state as usize, seq![0x100usize]), code),
    }
}

/// The only cycle of an instruction: entered from the opcode `op`, it goes back to the fetch of
/// the next opcode.
pub open spec fn single_cycle(g: GeneratorModel, op: usize, code: Seq<char>) -> GeneratorModel {
    GeneratorModel { state: g.state, machine: g.machine.insert((op, seq![0x100usize]), code) }
}

// The code of the cycles of each instruction shape. In the code, `<>` stands for the next state
// and `?<>` for the second of two next states; `HEAD`, `MID` and `TAIL` are the pieces around
// the instruction's own code or the name of its index register.


pub const PLP_0: &'static str = "read_ab!(self); sp_to_ab!(self); self.state = <>;";
pub const PLP_1: &'static str = "cache_irq!(self); self.pop(self.ab); self.sp = (self.sp as u8).wrapping_add(1) as usize; sp_to_ab!(self); self.state = <>;";
pub const PLP_2: &'static str = "self.check_interrupts(); self.pull_status(); self.ab = self.pc; self.state = 0x100;";

pub const PLA_0: &'static str = "read_ab!(self); sp_to_ab!(self); self.state = <>;";
pub const PLA_1: &'static str = "cache_irq!(self); self.pop(self.ab); self.sp = (self.sp as u8).wrapping_add(1) as usize; sp_to_ab!(self); self.state = <>;";
pub const PLA_2: &'static str = "self.check_interrupts(); let a = self.pop(self.ab); self.lda(a); self.ab = self.pc; self.state = 0x100";

pub const PHP_0: &'static str = "cache_irq!(self); read_ab!(self); sp_to_ab!(self); self.sp = (self.sp as u8).wrapping_sub(1) as usize; self.state = <>;";
pub const PHP_1: &'static str = "self.check_interrupts(); self.push_status(true); self.ab = self.pc; self.state = 0x100;";

pub const PHA_0: &'static str = "cache_irq!(self); read_ab!(self); sp_to_ab!(self); self.sp = (self.sp as u8).wrapping_sub(1) as usize; self.state = <>;";
pub const PHA_1: &'static str = "self.check_interrupts(); self.push(self.ab, self.a); self.ab = self.pc; self.state = 0x100;";

pub const JSR_0: &'static str = "self.temp = read_ab!(self) as usize; self.pc += 1; sp_to_ab!(self); self.state = <>;";
pub const JSR_1: &'static str = "self.pop(self.ab); self.sp = (self.sp as u8).wrapping_sub(1) as usize; self.state = <>;";
pub const JSR_2: &'static str = "self.push(self.ab, (self.pc >> 8) as u8); sp_to_ab!(self); self.sp = (self.sp as u8).wrapping_sub(1) as usize; self.state = <>;";
pub const JSR_3: &'static str = "cache_irq!(self); self.push(self.ab, (self.pc & 0xFF) as u8); self.ab = self.pc; self.state = <>;";
pub const JSR_4: &'static str = "self.check_interrupts(); self.pc = ((read_ab!(self) as usize) << 8) | self.temp; self.ab = self.pc; self.state = 0x100;";

pub const BRK_0: &'static str = "read_ab!(self); let int = if self.take_interrupt {0} else {1}; self.pc += int; sp_to_ab!(self); self.sp = (self.sp as u8).wrapping_sub(1) as usize; self.state = <>;";
pub const BRK_1: &'static str = "if !(self.take_interrupt && self.pending_reset) {self.push(self.ab, (self.pc >> 8) as u8);} sp_to_ab!(self); self.sp = (self.sp as u8).wrapping_sub(1) as usize; self.state = <>;";
pub const BRK_2: &'static str = "if !(self.take_interrupt && self.pending_reset) {self.push(self.ab, (self.pc & 0xFF) as u8); sp_to_ab!(self); self.sp = (self.sp as u8).wrapping_sub(1) as usize; self.state = <>;}";
pub const BRK_3: &'static str = "if !(self.take_interrupt && self.pending_reset) {self.push_status(true);} self.ab = self.interrupt_address(); self.take_interrupt = false; self.interrupt_type = super::InterruptType::None; self.state = <>;";
pub const BRK_4: &'static str = "self.temp = read_ab!(self) as usize; self.ab += 1; self.i = true; self.state = <>;";
pub const BRK_5: &'static str = "self.pc = ((read_ab!(self) as usize) << 8) | self.temp; self.ab = self.pc; self.state = 0x100;";

pub const RTI_0: &'static str = "read_ab!(self); sp_to_ab!(self); self.state = <>;";
pub const RTI_1: &'static str = "self.pop(self.ab); self.sp = (self.sp as u8).wrapping_add(1) as usize; sp_to_ab!(self); self.state = <>;";
pub const RTI_2: &'static str = "self.pull_status(); self.sp = (self.sp as u8).wrapping_add(1) as usize; sp_to_ab!(self); self.state = <>;";
pub const RTI_3: &'static str = "cache_irq!(self); self.temp = self.pop(self.ab) as usize; self.sp = (self.sp as u8).wrapping_add(1) as usize; sp_to_ab!(self); self.state = <>;";
pub const RTI_4: &'static str = "self.check_interrupts(); self.pc = ((read_ab!(self) as usize) << 8) | self.temp; self.ab = self.pc; self.state = 0x100;";

pub const RTS_0: &'static str = "read_ab!(self); sp_to_ab!(self); self.state = <>;";
pub const RTS_1: &'static str = "self.pop(self.ab); self.sp = (self.sp as u8).wrapping_add(1) as usize; sp_to_ab!(self); self.state = <>";
pub const RTS_2: &'static str = "self.temp = self.pop(self.ab) as usize; self.sp = (self.sp as u8).wrapping_add(1) as usize; sp_to_ab!(self); self.state = <>;";
pub const RTS_3: &'static str = "cache_irq!(self); self.pc = ((self.pop(self.ab) as usize) << 8) | self.temp; self.ab = self.pc; self.state = <>;";
pub const RTS_4: &'static str = "self.check_interrupts(); read_ab!(self); self.pc += 1; self.ab = self.pc; self.state = 0x100;";

pub const IMPLIED_0_HEAD: &'static str = "self.check_interrupts(); read_ab!(self); ";
pub const IMPLIED_0_TAIL: &'static str = " self.state = 0x100;";

pub const IMMEDIATE_0_HEAD: &'static str = "self.check_interrupts(); let val = read_ab!(self); ";
pub const IMMEDIATE_0_TAIL: &'static str = " self.pc += 1; self.ab = self.pc; self.state = 0x100;";

pub const ACCUMULATOR_0_HEAD: &'static str = "self.check_interrupts(); read_ab!(self); ";
pub const ACCUMULATOR_0_TAIL: &'static str = " self.state = 0x100;";

pub const ZERO_PAGE_0: &'static str = "cache_irq!(self); self.ab = read_ab!(self) as usize; self.pc += 1; self.state = <>;";
pub const ZERO_PAGE_1_HEAD: &'static str = "self.check_interrupts(); let val = read_ab!(self); ";
pub const ZERO_PAGE_1_TAIL: &'static str = " self.ab = self.pc; self.state = 0x100;";

pub const ZERO_PAGE_X_0: &'static str = "self.ab = read_ab!(self) as usize; self.pc += 1; self.state = <>;";
pub const ZERO_PAGE_X_1: &'static str = "cache_irq!(self); read_ab!(self); self.ab = (self.ab + self.x as usize) & 0xFF; self.state = <>;";
pub const ZERO_PAGE_X_2_HEAD: &'static str = "self.check_interrupts(); let val = read_ab!(self); ";
pub const ZERO_PAGE_X_2_TAIL: &'static str = " self.ab = self.pc; self.state = 0x100;";

pub const ZERO_PAGE_Y_0: &'static str = "self.ab = read_ab!(self) as usize; self.pc += 1; self.state = <>;";
pub const ZERO_PAGE_Y_1: &'static str = "cache_irq!(self); read_ab!(self); self.ab = (self.ab + self.y as usize) & 0xFF; self.state = <>;";
pub const ZERO_PAGE_Y_2_HEAD: &'static str = "self.check_interrupts(); let val = read_ab!(self); ";
pub const ZERO_PAGE_Y_2_TAIL: &'static str = " self.ab = self.pc; self.state = 0x100;";

pub const RELATIVE_0_HEAD: &'static str = "self.check_interrupts(); self.temp = read_ab!(self) as usize; self.pc += 1; self.ab = self.pc; self.state = if ";
pub const RELATIVE_0_TAIL: &'static str = " {<>} else {0x100}";
pub const RELATIVE_1: &'static str = "cache_irq!(self); read_ab!(self); self.take_branch(); self.ab = self.pc; self.state = if self.temp > 0 {<>} else {0x100};";
pub const RELATIVE_2: &'static str = "self.check_interrupts(); read_ab!(self); self.pc += ((self.temp << 8) as u8) as usize; self.ab = self.pc; self.state = 0x100";

pub const ABSOLUTE_0: &'static str = "self.temp = read_ab!(self) as usize; self.pc += 1; self.ab = self.pc; self.state = <>;";
pub const ABSOLUTE_1: &'static str = "cache_irq!(self); self.ab = ((read_ab!(self) as usize) << 8) | self.temp; self.pc += 1; self.state = <>";
pub const ABSOLUTE_2_HEAD: &'static str = "self.check_interrupts(); let val = read_ab!(self); ";
pub const ABSOLUTE_2_TAIL: &'static str = " self.ab = self.pc; self.state = 0x100";

pub const INDIRECT_0: &'static str = "self.temp = read_ab!(self) as usize; self.pc += 1; self.ab = self.pc; self.state = <>";
pub const INDIRECT_1: &'static str = "self.ab = ((read_ab!(self) as usize) << 8) | self.temp; self.state = <>";
pub const INDIRECT_2: &'static str = "cache_irq!(self); self.temp = read_ab!(self) as usize; self.ab = (self.ab & 0xFF00) | ((self.ab + 1) & 0xFF); self.state = <>";
pub const INDIRECT_3: &'static str = "self.check_interrupts(); self.pc = ((read_ab!(self) as usize) << 8) | self.temp; self.ab = self.pc; self.state = 0x100";

pub const ABSOLUTE_JMP_0: &'static str = "cache_irq!(self); self.temp = read_ab!(self) as usize; self.pc += 1; self.ab = self.pc; self.state = <>";
pub const ABSOLUTE_JMP_1: &'static str = "self.check_interrupts(); self.pc = ((read_ab!(self) as usize) << 8) | self.temp; self.ab = self.pc; self.state = 0x100";

pub const INDIRECT_X_0: &'static str = "self.ab = read_ab!(self) as usize; self.pc += 1; self.state = <>";
pub const INDIRECT_X_1: &'static str = "self.mem.read_zp(self.ab); self.ab = (self.ab + self.x as usize) & 0xFF; self.state = <>";
pub const INDIRECT_X_2: &'static str = "self.temp = self.mem.read_zp(self.ab) as usize; self.ab = (self.ab + 1) & 0xFF; self.state = <>";
pub const INDIRECT_X_3: &'static str = "cache_irq!(self); self.ab = ((self.mem.read_zp(self.ab) as usize) << 8) | self.temp; self.state = <>;";
pub const INDIRECT_X_4_HEAD: &'static str = "self.check_interrupts(); let val = read_ab!(self); ";
pub const INDIRECT_X_4_TAIL: &'static str = " self.ab = self.pc; self.state = 0x100";

pub const ZERO_PAGE_RMW_0: &'static str = "self.ab = read_ab!(self) as usize; self.pc += 1; self.state = <>;";
pub const ZERO_PAGE_RMW_1: &'static str = "self.temp = self.mem.read_zp(self.ab) as usize; self.state = <>;";
pub const ZERO_PAGE_RMW_2_HEAD: &'static str = "cache_irq!(self); self.mem.write(self.ab, self.temp as u8); let val = self.temp as u8; ";
pub const ZERO_PAGE_RMW_2_TAIL: &'static str = " self.state = <>;";
pub const ZERO_PAGE_RMW_3: &'static str = "self.check_interrupts(); self.mem.write(self.ab, self.temp as u8); self.ab = self.pc; self.state = 0x100;";

pub const ZERO_PAGE_X_RMW_0: &'static str = "self.ab = read_ab!(self) as usize; self.pc += 1; self.state = <>;";
pub const ZERO_PAGE_X_RMW_1: &'static str = "self.mem.read_zp(self.ab); self.ab = (self.ab + self.x as usize) & 0xFF; self.state = <>;";
pub const ZERO_PAGE_X_RMW_2: &'static str = "self.temp = self.mem.read_zp(self.ab) as usize; self.state = <>;";
pub const ZERO_PAGE_X_RMW_3_HEAD: &'static str = "cache_irq!(self); self.mem.write(self.ab, self.temp as u8); let val = self.temp as u8; ";
pub const ZERO_PAGE_X_RMW_3_TAIL: &'static str = " self.state = <>;";
pub const ZERO_PAGE_X_RMW_4: &'static str = "self.check_interrupts(); self.mem.write(self.ab, self.temp as u8); self.ab = self.pc; self.state = 0x100;";

pub const ABSOLUTE_RMW_0: &'static str = "self.temp = read_ab!(self) as usize; self.pc += 1; self.ab = self.pc; self.state = <>;";
pub const ABSOLUTE_RMW_1: &'static str = "self.ab = ((read_ab!(self) as usize) << 8) | self.temp; self.pc += 1; self.state = <>;";
pub const ABSOLUTE_RMW_2: &'static str = "self.temp = read_ab!(self) as usize; self.state = <>;";
pub const ABSOLUTE_RMW_3_HEAD: &'static str = "cache_irq!(self); self.mem.write(self.ab, self.temp as u8); let val = self.temp as u8; ";
pub const ABSOLUTE_RMW_3_TAIL: &'static str = " self.state = <>;";
pub const ABSOLUTE_RMW_4: &'static str = "self.check_interrupts(); self.mem.write(self.ab, self.temp as u8); self.ab = self.pc; self.state = 0x100;";

pub const ABSOLUTE_X_RMW_0: &'static str = "self.temp = read_ab!(self) as usize; self.pc += 1; self.ab = self.pc; self.state = <>;";
pub const ABSOLUTE_X_RMW_1: &'static str = "self.ab = ((read_ab!(self) as usize) << 8) | ((self.temp + self.x as usize) & 0xFF); self.pc += 1; self.state = <>;";
pub const ABSOLUTE_X_RMW_2: &'static str = "read_ab!(self); if (self.temp + self.x as usize) >= 0x100 {self.ab = (self.ab as u16).wrapping_add(0x100) as usize}; self.state = <>;";
pub const ABSOLUTE_X_RMW_3: &'static str = "self.temp = read_ab!(self) as usize; self.state = <>;";
pub const ABSOLUTE_X_RMW_4_HEAD: &'static str = "cache_irq!(self); self.mem.write(self.ab, self.temp as u8); let val = self.temp as u8; ";
pub const ABSOLUTE_X_RMW_4_TAIL: &'static str = " self.state = <>;";
pub const ABSOLUTE_X_RMW_5: &'static str = "self.check_interrupts(); self.mem.write(self.ab, self.temp as u8); self.ab = self.pc; self.state = 0x100;";

pub const ZERO_PAGE_ST_0: &'static str = "cache_irq!(self); self.ab = read_ab!(self) as usize; self.pc += 1; self.state = <>;";
pub const ZERO_PAGE_ST_1_HEAD: &'static str = "self.check_interrupts(); ";
pub const ZERO_PAGE_ST_1_TAIL: &'static str = " self.ab = self.pc; self.state = 0x100;";

pub const ZERO_PAGE_INDEXED_ST_0: &'static str = "self.ab = read_ab!(self) as usize; self.pc += 1; self.state = <>;";
pub const ZERO_PAGE_INDEXED_ST_1_HEAD: &'static str = "cache_irq!(self); self.mem.read_zp(self.ab); self.ab = (self.ab + self.";
pub const ZERO_PAGE_INDEXED_ST_1_TAIL: &'static str = " as usize) & 0xFF; self.state = <>;";
pub const ZERO_PAGE_INDEXED_ST_2_HEAD: &'static str = "self.check_interrupts(); ";
pub const ZERO_PAGE_INDEXED_ST_2_TAIL: &'static str = " self.ab = self.pc; self.state = 0x100;";

pub const ABSOLUTE_ST_0: &'static str = "self.temp = read_ab!(self) as usize; self.pc += 1; self.ab = self.pc; self.state = <>;";
pub const ABSOLUTE_ST_1: &'static str = "cache_irq!(self); self.ab = ((read_ab!(self) as usize) << 8) | self.temp; self.pc += 1; self.state = <>";
pub const ABSOLUTE_ST_2_HEAD: &'static str = "self.check_interrupts(); ";
pub const ABSOLUTE_ST_2_TAIL: &'static str = " self.ab = self.pc; self.state = <>;";

pub const ABSOLUTE_INDEXED_ST_0: &'static str = "self.temp = read_ab!(self) as usize; self.pc += 1; self.ab = self.pc; self.state = <>;";
pub const ABSOLUTE_INDEXED_ST_1_HEAD: &'static str = "self.ab = ((read_ab!(self) as usize) << 8) | ((self.temp + self.";
pub const ABSOLUTE_INDEXED_ST_1_TAIL: &'static str = " as usize) & 0xFF); self.pc += 1; self.state = <>;";
pub const ABSOLUTE_INDEXED_ST_2_HEAD: &'static str = "cache_irq!(self); read_ab!(self); if (self.temp + self.";
pub const ABSOLUTE_INDEXED_ST_2_TAIL: &'static str = " as usize) >= 0x100 {self.ab = (self.ab as u16).wrapping_add(0x100) as usize}; self.state = <>;";
pub const ABSOLUTE_INDEXED_ST_3_HEAD: &'static str = "self.check_interrupts(); ";
pub const ABSOLUTE_INDEXED_ST_3_TAIL: &'static str = " self.ab = self.pc; self.state = 0x100;";

pub const INDIRECT_X_ST_0: &'static str = "self.ab = read_ab!(self) as usize; self.pc += 1; self.state = <>;";
pub const INDIRECT_X_ST_1: &'static str = "self.mem.read_zp(self.ab); self.ab = (self.ab + self.x as usize) & 0xFF; self.state = <>;";
pub const INDIRECT_X_ST_2: &'static str = "self.temp = self.mem.read_zp(self.ab) as usize; self.ab = (self.ab + 1) & 0xFF; self.state = <>;";
pub const INDIRECT_X_ST_3: &'static str = "cache_irq!(self); self.ab = ((self.mem.read_zp(self.ab) as usize) << 8) | self.temp; self.state = <>;";
pub const INDIRECT_X_ST_4_HEAD: &'static str = "self.check_interrupts(); ";
pub const INDIRECT_X_ST_4_TAIL: &'static str = " self.ab = self.pc; self.state = 0x100;";

pub const INDIRECT_Y_ST_0: &'static str = "self.ab = read_ab!(self) as usize; self.pc += 1; self.state = <>;";
pub const INDIRECT_Y_ST_1: &'static str = "self.temp = self.mem.read_zp(self.ab) as usize; self.ab = (self.ab + 1) & 0xFF; self.state = <>;";
pub const INDIRECT_Y_ST_2: &'static str = "self.ab = ((self.mem.read_zp(self.ab) as usize) << 8) | ((self.temp + self.y as usize) & 0xFF); self.state = <>;";
pub const INDIRECT_Y_ST_3: &'static str = "cache_irq!(self); read_ab!(self); if self.temp + self.y as usize >= 0x100 {self.ab = (self.ab as u16).wrapping_add(0x100) as usize;} self.state = <>;";
pub const INDIRECT_Y_ST_4_HEAD: &'static str = "self.check_interrupts(); ";
pub const INDIRECT_Y_ST_4_TAIL: &'static str = " self.ab = self.pc; self.state = 0x100;";

pub const INDIRECT_X_ILLEGAL_0: &'static str = "self.ab = read_ab!(self) as usize; self.pc += 1; self.state = <>;";
pub const INDIRECT_X_ILLEGAL_1: &'static str = "self.mem.read_zp(self.ab); self.ab = (self.ab + self.x as usize) & 0xFF; self.state = <>;";
pub const INDIRECT_X_ILLEGAL_2: &'static str = "self.temp = self.mem.read_zp(self.ab) as usize; self.ab = (self.ab + 1) & 0xFF; self.state = <>;";
pub const INDIRECT_X_ILLEGAL_3: &'static str = "self.ab = ((self.mem.read_zp(self.ab) as usize) << 8) | self.temp; self.state = <>;";
pub const INDIRECT_X_ILLEGAL_4: &'static str = "self.temp = read_ab!(self) as usize; self.state = <>;";
pub const INDIRECT_X_ILLEGAL_5_HEAD: &'static str = "cache_irq!(self); self.mem.write(self.ab, self.temp as u8); let val = self.temp as u8; ";
pub const INDIRECT_X_ILLEGAL_5_TAIL: &'static str = " self.state = <>;";
pub const INDIRECT_X_ILLEGAL_6: &'static str = "self.check_interrupts(); self.mem.write(self.ab, self.temp as u8); self.ab = self.pc; self.state = 0x100;";

pub const INDIRECT_Y_ILLEGAL_0: &'static str = "self.ab = read_ab!(self) as usize; self.pc += 1; self.state = <>;";
pub const INDIRECT_Y_ILLEGAL_1: &'static str = "self.temp = self.mem.read_zp(self.ab) as usize; self.ab = (self.ab + 1) & 0xFF; self.state = <>;";
pub const INDIRECT_Y_ILLEGAL_2: &'static str = "self.ab = ((self.mem.read_zp(self.ab) as usize) << 8) | ((self.temp + self.y as usize) & 0xFF); self.state = <>;";
pub const INDIRECT_Y_ILLEGAL_3: &'static str = "read_ab!(self); if (self.temp + self.y as usize) >= 0x100 {self.ab = (self.ab as u16).wrapping_add(0x100) as usize}; self.state = <>;";
pub const INDIRECT_Y_ILLEGAL_4: &'static str = "self.temp = read_ab!(self) as usize; self.state = <>;";
pub const INDIRECT_Y_ILLEGAL_5_HEAD: &'static str = "cache_irq!(self); self.mem.write(self.ab, self.temp as u8); ";
pub const INDIRECT_Y_ILLEGAL_5_TAIL: &'static str = " self.state = <>;";
pub const INDIRECT_Y_ILLEGAL_6: &'static str = "self.check_interrupts(); self.mem.write(self.ab, self.temp as u8); self.ab = self.pc; self.state = 0x100;";

pub const ABSOLUTE_Y_ILLEGAL_0: &'static str = "self.temp = read_ab!(self) as usize; self.pc += 1; self.ab = self.pc; self.state = <>;";
pub const ABSOLUTE_Y_ILLEGAL_1: &'static str = "self.ab = ((read_ab!(self) as usize) << 8) | ((self.temp + self.y as usize) & 0xFF); self.pc += 1; self.state = <>;";
pub const ABSOLUTE_Y_ILLEGAL_2: &'static str = "read_ab!(self); if (self.temp + self.y as usize) >= 0x100 {self.ab = (self.ab as u16).wrapping_add(0x100) as usize;}; self.state = <>;";
pub const ABSOLUTE_Y_ILLEGAL_3: &'static str = "self.temp = read_ab!(self) as usize; self.state = <>;";
pub const ABSOLUTE_Y_ILLEGAL_4_HEAD: &'static str = "cache_irq!(self); self.mem.write(self.ab, self.temp as u8); ";
pub const ABSOLUTE_Y_ILLEGAL_4_TAIL: &'static str = " self.state = <>;";
pub const ABSOLUTE_Y_ILLEGAL_5: &'static str = "self.check_interrupts(); self.mem.write(self.ab, self.temp as u8); self.ab = self.pc; self.state = 0x100;";

pub const ABSOLUTE_INDEXED_0: &'static str = "self.temp = read_ab!(self) as usize; self.pc += 1; self.ab = self.pc; self.state = <>;";
pub const ABSOLUTE_INDEXED_1_HEAD: &'static str = "cache_irq!(self); self.ab = ((read_ab!(self) as usize) << 8) | ((self.temp + self.";
pub const ABSOLUTE_INDEXED_1_MID: &'static str = " as usize) & 0xFF); self.pc += 1; self.state = if (self.temp + self.";
pub const ABSOLUTE_INDEXED_1_TAIL: &'static str = " as usize) < 0x100 {?<>} else {<>};";
pub const ABSOLUTE_INDEXED_2: &'static str = "cache_irq!(self); read_ab!(self); self.ab = (self.ab as u16).wrapping_add(0x100) as usize; self.state = <>";
pub const ABSOLUTE_INDEXED_3_HEAD: &'static str = "self.check_interrupts(); let val = read_ab!(self); ";
pub const ABSOLUTE_INDEXED_3_TAIL: &'static str = " self.ab = self.pc; self.state = 0x100;";

pub const INDIRECT_Y_0: &'static str = "self.ab = read_ab!(self) as usize; self.pc += 1; self.state = <>;";
pub const INDIRECT_Y_1: &'static str = "self.temp = self.mem.read_zp(self.ab) as usize; self.ab = (self.ab + 1usize) & 0xFF; self.state = <>;";
pub const INDIRECT_Y_2: &'static str = "cache_irq!(self); self.ab = (((self.mem.read_zp(self.ab) as usize) << 8) | ((self.temp + self.y as usize) & 0xFF)) as usize; self.state = if (self.temp + self.y as usize) < 0x100 {?<>} else {<>};";
pub const INDIRECT_Y_3: &'static str = "cache_irq!(self); read_ab!(self); self.ab = (self.ab as u16).wrapping_add(0x100) as usize; self.state = <>;";
pub const INDIRECT_Y_4_HEAD: &'static str = "self.check_interrupts(); let val = read_ab!(self); ";
pub const INDIRECT_Y_4_TAIL: &'static str = " self.ab = self.pc; self.state = 0x100;";


/// The machine after the cycles of `plp` for the opcode `op`.
pub open spec fn plp_machine(g: GeneratorModel, op: usize) -> GeneratorModel {
    let g1 = entry_cycle(g, op, PLP_0@);
    let g2 = middle_cycle(g1, PLP_1@);
    exit_cycle(g2, PLP_2@)
}

/// The machine after the cycles of `pla` for the opcode `op`.
pub open spec fn pla_machine(g: GeneratorModel, op: usize) -> GeneratorModel {
    let g1 = entry_cycle(g, op, PLA_0@);
    let g2 = middle_cycle(g1, PLA_1@);
    exit_cycle(g2, PLA_2@)
}

/// The machine after the cycles of `php` for the opcode `op`.
pub open spec fn php_machine(g: GeneratorModel, op: usize) -> GeneratorModel {
    let g1 = entry_cycle(g, op, PHP_0@);
    exit_cycle(g1, PHP_1@)
}

/// The machine after the cycles of `pha` for the opcode `op`.
pub open spec fn pha_machine(g: GeneratorModel, op: usize) -> GeneratorModel {
    let g1 = entry_cycle(g, op, PHA_0@);
    exit_cycle(g1, PHA_1@)
}

/// The machine after the cycles of `jsr` for the opcode `op`.
pub open spec fn jsr_machine(g: GeneratorModel, op: usize) -> GeneratorModel {
    let g1 = entry_cycle(g, op, JSR_0@);
    let g2 = middle_cycle(g1, JSR_1@);
    let g3 = middle_cycle(g2, JSR_2@);
    let g4 = middle_cycle(g3, JSR_3@);
    exit_cycle(g4, JSR_4@)
}

/// The machine after the cycles of `brk` for the opcode `op`.
pub open spec fn brk_machine(g: GeneratorModel, op: usize) -> GeneratorModel {
    let g1 = entry_cycle(g, op, BRK_0@);
    let g2 = middle_cycle(g1, BRK_1@);
    let g3 = middle_cycle(g2, BRK_2@);
    let g4 = middle_cycle(g3, BRK_3@);
    let g5 = middle_cycle(g4, BRK_4@);
    exit_cycle(g5, BRK_5@)
}

/// The machine after the cycles of `rti` for the opcode `op`.
pub open spec fn rti_machine(g: GeneratorModel, op: usize) -> GeneratorModel {
    let g1 = entry_cycle(g, op, RTI_0@);
    let g2 = middle_cycle(g1, RTI_1@);
    let g3 = middle_cycle(g2, RTI_2@);
    let g4 = middle_cycle(g3, RTI_3@);
    exit_cycle(g4, RTI_4@)
}

/// The machine after the cycles of `rts` for the opcode `op`.
pub open spec fn rts_machine(g: GeneratorModel, op: usize) -> GeneratorModel {
    let g1 = entry_cycle(g, op, RTS_0@);
    let g2 = middle_cycle(g1, RTS_1@);
    let g3 = middle_cycle(g2, RTS_2@);
    let g4 = middle_cycle(g3, RTS_3@);
    exit_cycle(g4, RTS_4@)
}

/// The machine after the cycles of `implied` for the opcode `op`.
pub open spec fn implied_machine(g: GeneratorModel, code: Seq<char>, op: usize) -> GeneratorModel {
    single_cycle(g, op, IMPLIED_0_HEAD@ + code + IMPLIED_0_TAIL@)
}

/// The machine after the cycles of `immediate` for the opcode `op`.
pub open spec fn immediate_machine(g: GeneratorModel, code: Seq<char>, op: usize) -> GeneratorModel {
    single_cycle(g, op, IMMEDIATE_0_HEAD@ + code + IMMEDIATE_0_TAIL@)
}

/// The machine after the cycles of `accumulator` for the opcode `op`.
pub open spec fn accumulator_machine(g: GeneratorModel, code: Seq<char>, op: usize) -> GeneratorModel {
    single_cycle(g, op, ACCUMULATOR_0_HEAD@ + code + ACCUMULATOR_0_TAIL@)
}

/// The machine after the cycles of `zero_page` for the opcode `op`.
pub open spec fn zero_page_machine(g: GeneratorModel, code: Seq<char>, op: usize) -> GeneratorModel {
    let g1 = entry_cycle(g, op, ZERO_PAGE_0@);
    exit_cycle(g1, ZERO_PAGE_1_HEAD@ + code + ZERO_PAGE_1_TAIL@)
}

/// The machine after the cycles of `zero_page_x` for the opcode `op`.
pub open spec fn zero_page_x_machine(g: GeneratorModel, code: Seq<char>, op: usize) -> GeneratorModel {
    let g1 = entry_cycle(g, op, ZERO_PAGE_X_0@);
    let g2 = middle_cycle(g1, ZERO_PAGE_X_1@);
    exit_cycle(g2, ZERO_PAGE_X_2_HEAD@ + code + ZERO_PAGE_X_2_TAIL@)
}

/// The machine after the cycles of `zero_page_y` for the opcode `op`.
pub open spec fn zero_page_y_machine(g: GeneratorModel, code: Seq<char>, op: usize) -> GeneratorModel {
    let g1 = entry_cycle(g, op, ZERO_PAGE_Y_0@);
    let g2 = middle_cycle(g1, ZERO_PAGE_Y_1@);
    exit_cycle(g2, ZERO_PAGE_Y_2_HEAD@ + code + ZERO_PAGE_Y_2_TAIL@)
}

/// The machine after the cycles of `relative` for the opcode `op`.
pub open spec fn relative_machine(g: GeneratorModel, code: Seq<char>, op: usize) -> GeneratorModel {
    let g1 = entry_cycle(g, op, RELATIVE_0_HEAD@ + code + RELATIVE_0_TAIL@);
    let g2 = middle_cycle(g1, RELATIVE_1@);
    exit_cycle(g2, RELATIVE_2@)
}

/// The machine after the cycles of `absolute` for the opcode `op`.
pub open spec fn absolute_machine(g: GeneratorModel, code: Seq<char>, op: usize) -> GeneratorModel {
    let g1 = entry_cycle(g, op, ABSOLUTE_0@);
    let g2 = middle_cycle(g1, ABSOLUTE_1@);
    exit_cycle(g2, ABSOLUTE_2_HEAD@ + code + ABSOLUTE_2_TAIL@)
}

/// The machine after the cycles of `indirect` for the opcode `op`.
pub open spec fn indirect_machine(g: GeneratorModel, op: usize) -> GeneratorModel {
    let g1 = entry_cycle(g, op, INDIRECT_0@);
    let g2 = middle_cycle(g1, INDIRECT_1@);
    let g3 = middle_cycle(g2, INDIRECT_2@);
    exit_cycle(g3, INDIRECT_3@)
}

/// The machine after the cycles of `absolute_jmp` for the opcode `op`.
pub open spec fn absolute_jmp_machine(g: GeneratorModel, op: usize) -> GeneratorModel {
    let g1 = entry_cycle(g, op, ABSOLUTE_JMP_0@);
    exit_cycle(g1, ABSOLUTE_JMP_1@)
}

/// The machine after the cycles of `indirect_x` for the opcode `op`.
pub open spec fn indirect_x_machine(g: GeneratorModel, code: Seq<char>, op: usize) -> GeneratorModel {
    let g1 = entry_cycle(g, op, INDIRECT_X_0@);
    let g2 = middle_cycle(g1, INDIRECT_X_1@);
    let g3 = middle_cycle(g2, INDIRECT_X_2@);
    let g4 = middle_cycle(g3, INDIRECT_X_3@);
    exit_cycle(g4, INDIRECT_X_4_HEAD@ + code + INDIRECT_X_4_TAIL@)
}

/// The machine after the cycles of `zero_page_rmw` for the opcode `op`.
pub open spec fn zero_page_rmw_machine(g: GeneratorModel, code: Seq<char>, op: usize) -> GeneratorModel {
    let g1 = entry_cycle(g, op, ZERO_PAGE_RMW_0@);
    let g2 = middle_cycle(g1, ZERO_PAGE_RMW_1@);
    let g3 = middle_cycle(g2, ZERO_PAGE_RMW_2_HEAD@ + code + ZERO_PAGE_RMW_2_TAIL@);
    exit_cycle(g3, ZERO_PAGE_RMW_3@)
}

/// The machine after the cycles of `zero_page_x_rmw` for the opcode `op`.
pub open spec fn zero_page_x_rmw_machine(g: GeneratorModel, code: Seq<char>, op: usize) -> GeneratorModel {
    let g1 = entry_cycle(g, op, ZERO_PAGE_X_RMW_0@);
    let g2 = middle_cycle(g1, ZERO_PAGE_X_RMW_1@);
    let g3 = middle_cycle(g2, ZERO_PAGE_X_RMW_2@);
    let g4 = middle_cycle(g3, ZERO_PAGE_X_RMW_3_HEAD@ + code + ZERO_PAGE_X_RMW_3_TAIL@);
    exit_cycle(g4, ZERO_PAGE_X_RMW_4@)
}

/// The machine after the cycles of `absolute_rmw` for the opcode `op`.
pub open spec fn absolute_rmw_machine(g: GeneratorModel, code: Seq<char>, op: usize) -> GeneratorModel {
    let g1 = entry_cycle(g, op, ABSOLUTE_RMW_0@);
    let g2 = middle_cycle(g1, ABSOLUTE_RMW_1@);
    let g3 = middle_cycle(g2, ABSOLUTE_RMW_2@);
    let g4 = middle_cycle(g3, ABSOLUTE_RMW_3_HEAD@ + code + ABSOLUTE_RMW_3_TAIL@);
    exit_cycle(g4, ABSOLUTE_RMW_4@)
}

/// The machine after the cycles of `absolute_x_rmw` for the opcode `op`.
pub open spec fn absolute_x_rmw_machine(g: GeneratorModel, code: Seq<char>, op: usize) -> GeneratorModel {
    let g1 = entry_cycle(g, op, ABSOLUTE_X_RMW_0@);
    let g2 = middle_cycle(g1, ABSOLUTE_X_RMW_1@);
    let g3 = middle_cycle(g2, ABSOLUTE_X_RMW_2@);
    let g4 = middle_cycle(g3, ABSOLUTE_X_RMW_3@);
    let g5 = middle_cycle(g4, ABSOLUTE_X_RMW_4_HEAD@ + code + ABSOLUTE_X_RMW_4_TAIL@);
    exit_cycle(g5, ABSOLUTE_X_RMW_5@)
}

/// The machine after the cycles of `zero_page_st` for the opcode `op`.
pub open spec fn zero_page_st_machine(g: GeneratorModel, code: Seq<char>, op: usize) -> GeneratorModel {
    let g1 = entry_cycle(g, op, ZERO_PAGE_ST_0@);
    exit_cycle(g1, ZERO_PAGE_ST_1_HEAD@ + code + ZERO_PAGE_ST_1_TAIL@)
}

/// The machine after the cycles of `zero_page_x_or_y_st` for the opcode `op`.
pub open spec fn zero_page_x_or_y_st_machine(g: GeneratorModel, code: Seq<char>, op: usize, reg: Seq<char>) -> GeneratorModel {
    let g1 = entry_cycle(g, op, ZERO_PAGE_INDEXED_ST_0@);
    let g2 = middle_cycle(g1, ZERO_PAGE_INDEXED_ST_1_HEAD@ + reg + ZERO_PAGE_INDEXED_ST_1_TAIL@);
    exit_cycle(g2, ZERO_PAGE_INDEXED_ST_2_HEAD@ + code + ZERO_PAGE_INDEXED_ST_2_TAIL@)
}

/// The machine after the cycles of `absolute_st` for the opcode `op`.
pub open spec fn absolute_st_machine(g: GeneratorModel, code: Seq<char>, op: usize) -> GeneratorModel {
    let g1 = entry_cycle(g, op, ABSOLUTE_ST_0@);
    let g2 = middle_cycle(g1, ABSOLUTE_ST_1@);
    exit_cycle(g2, ABSOLUTE_ST_2_HEAD@ + code + ABSOLUTE_ST_2_TAIL@)
}

/// The machine after the cycles of `absolute_x_or_y_st` for the opcode `op`.
pub open spec fn absolute_x_or_y_st_machine(g: GeneratorModel, code: Seq<char>, op: usize, reg: Seq<char>) -> GeneratorModel {
    let g1 = entry_cycle(g, op, ABSOLUTE_INDEXED_ST_0@);
    let g2 = middle_cycle(g1, ABSOLUTE_INDEXED_ST_1_HEAD@ + reg + ABSOLUTE_INDEXED_ST_1_TAIL@);
    let g3 = middle_cycle(g2, ABSOLUTE_INDEXED_ST_2_HEAD@ + reg + ABSOLUTE_INDEXED_ST_2_TAIL@);
    exit_cycle(g3, ABSOLUTE_INDEXED_ST_3_HEAD@ + code + ABSOLUTE_INDEXED_ST_3_TAIL@)
}

/// The machine after the cycles of `indirect_x_st` for the opcode `op`.
pub open spec fn indirect_x_st_machine(g: GeneratorModel, code: Seq<char>, op: usize) -> GeneratorModel {
    let g1 = entry_cycle(g, op, INDIRECT_X_ST_0@);
    let g2 = middle_cycle(g1, INDIRECT_X_ST_1@);
    let g3 = middle_cycle(g2, INDIRECT_X_ST_2@);
    let g4 = middle_cycle(g3, INDIRECT_X_ST_3@);
    exit_cycle(g4, INDIRECT_X_ST_4_HEAD@ + code + INDIRECT_X_ST_4_TAIL@)
}

/// The machine after the cycles of `indirect_y_st` for the opcode `op`.
pub open spec fn indirect_y_st_machine(g: GeneratorModel, code: Seq<char>, op: usize) -> GeneratorModel {
    let g1 = entry_cycle(g, op, INDIRECT_Y_ST_0@);
    let g2 = middle_cycle(g1, INDIRECT_Y_ST_1@);
    let g3 = middle_cycle(g2, INDIRECT_Y_ST_2@);
    let g4 = middle_cycle(g3, INDIRECT_Y_ST_3@);
    exit_cycle(g4, INDIRECT_Y_ST_4_HEAD@ + code + INDIRECT_Y_ST_4_TAIL@)
}

/// The machine after the cycles of `indirect_x_illegal` for the opcode `op`.
pub open spec fn indirect_x_illegal_machine(g: GeneratorModel, code: Seq<char>, op: usize) -> GeneratorModel {
    let g1 = entry_cycle(g, op, INDIRECT_X_ILLEGAL_0@);
    let g2 = middle_cycle(g1, INDIRECT_X_ILLEGAL_1@);
    let g3 = middle_cycle(g2, INDIRECT_X_ILLEGAL_2@);
    let g4 = middle_cycle(g3, INDIRECT_X_ILLEGAL_3@);
    let g5 = middle_cycle(g4, INDIRECT_X_ILLEGAL_4@);
    let g6 = middle_cycle(g5, INDIRECT_X_ILLEGAL_5_HEAD@ + code + INDIRECT_X_ILLEGAL_5_TAIL@);
    exit_cycle(g6, INDIRECT_X_ILLEGAL_6@)
}

/// The machine after the cycles of `indirect_y_illegal` for the opcode `op`.
pub open spec fn indirect_y_illegal_machine(g: GeneratorModel, code: Seq<char>, op: usize) -> GeneratorModel {
    let g1 = entry_cycle(g, op, INDIRECT_Y_ILLEGAL_0@);
    let g2 = middle_cycle(g1, INDIRECT_Y_ILLEGAL_1@);
    let g3 = middle_cycle(g2, INDIRECT_Y_ILLEGAL_2@);
    let g4 = middle_cycle(g3, INDIRECT_Y_ILLEGAL_3@);
    let g5 = middle_cycle(g4, INDIRECT_Y_ILLEGAL_4@);
    let g6 = middle_cycle(g5, INDIRECT_Y_ILLEGAL_5_HEAD@ + code + INDIRECT_Y_ILLEGAL_5_TAIL@);
    exit_cycle(g6, INDIRECT_Y_ILLEGAL_6@)
}

/// The machine after the cycles of `absolute_y_illegal` for the opcode `op`.
pub open spec fn absolute_y_illegal_machine(g: GeneratorModel, code: Seq<char>, op: usize) -> GeneratorModel {
    let g1 = entry_cycle(g, op, ABSOLUTE_Y_ILLEGAL_0@);
    let g2 = middle_cycle(g1, ABSOLUTE_Y_ILLEGAL_1@);
    let g3 = middle_cycle(g2, ABSOLUTE_Y_ILLEGAL_2@);
    let g4 = middle_cycle(g3, ABSOLUTE_Y_ILLEGAL_3@);
    let g5 = middle_cycle(g4, ABSOLUTE_Y_ILLEGAL_4_HEAD@ + code + ABSOLUTE_Y_ILLEGAL_4_TAIL@);
    exit_cycle(g5, ABSOLUTE_Y_ILLEGAL_5@)
}

/// The machine after the cycles of `absolute_x_or_y` for the opcode `op`, whose second-to-last cycles
/// branch on whether the index crosses a page.
pub open spec fn absolute_x_or_y_machine(g: GeneratorModel, code: Seq<char>, op: usize, reg: Seq<char>) -> GeneratorModel {
    let s1 = (g.state + 1) as usize;
    let s2 = (g.state + 2) as usize;
    let s3 = (g.state + 3) as usize;
    GeneratorModel {
        state: g.state + 3,
        machine: g.machine
            .insert((op, seq![s1]), ABSOLUTE_INDEXED_0@)
            .insert((s1, seq![s2, s3]), ABSOLUTE_INDEXED_1_HEAD@ + reg + ABSOLUTE_INDEXED_1_MID@ + reg + ABSOLUTE_INDEXED_1_TAIL@)
            .insert((s2, seq![s3]), ABSOLUTE_INDEXED_2@)
            .insert((s3, seq![0x100usize]), ABSOLUTE_INDEXED_3_HEAD@ + code + ABSOLUTE_INDEXED_3_TAIL@)
    }
}

/// The machine after the cycles of `indirect_y` for the opcode `op`, whose second-to-last cycles
/// branch on whether the index crosses a page.
pub open spec fn indirect_y_machine(g: GeneratorModel, code: Seq<char>, op: usize) -> GeneratorModel {
    let s1 = (g.state + 1) as usize;
    let s2 = (g.state + 2) as usize;
    let s3 = (g.state + 3) as usize;
    let s4 = (g.state + 4) as usize;
    GeneratorModel {
        state: g.state + 5,
        machine: g.machine
            .insert((op, seq![s1]), INDIRECT_Y_0@)
            .insert((s1, seq![s2]), INDIRECT_Y_1@)
            .insert((s2, seq![s3, s4]), INDIRECT_Y_2@)
            .insert((s3, seq![s4]), INDIRECT_Y_3@)
            .insert((s4, seq![0x100usize]), INDIRECT_Y_4_HEAD@ + code + INDIRECT_Y_4_TAIL@)
    }
}

/// The code of the state that fetches the next opcode.
pub const FETCH: &'static str = "cache_irq!(self); let int = if self.take_interrupt {0} else {1}; self.state = u16::from(int * read_ab!(self)); self.pc += int as usize; self.ab = self.pc";

} // verus!
