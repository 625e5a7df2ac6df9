use fearless_nes::cpu::cycle::{CpuAccess, FETCH_CYCLE};
use fearless_nes::cpu::bus::DmaAccess;
use fearless_nes::cpu::tick::{TickPhase, TickStep};
use fearless_nes::cpu::{Cpu, DmaHijack, InterruptType};

/// A CPU with 64 KiB of plain memory, the program at $8000.
struct Machine {
    cpu: Cpu,
    mem: Vec<u8>,
}

impl Machine {
    fn new(program: &[u8]) -> Machine {
        let mut mem = vec![0u8; 0x10000];
        mem[0x8000..0x8000 + program.len()].copy_from_slice(program);
        let mut cpu = Cpu::new();
        cpu.pc = 0x8000;
        cpu.ab = 0x8000;
        cpu.cycle = FETCH_CYCLE;
        Machine { cpu, mem }
    }

    fn cycle(&mut self) -> CpuAccess {
        let access = self.cpu.begin_cycle();
        match access {
            CpuAccess::Read(addr) => {
                let v = self.mem[addr as usize];
                self.cpu.db = v;
                self.cpu.open_bus = v;
            },
            CpuAccess::Write(addr, v) => self.mem[addr as usize] = v,
            CpuAccess::Idle => {},
        }
        self.cpu.end_cycle();
        access
    }

    /// Runs one instruction, from its opcode fetch to the cycle before the next fetch, and
    /// gives the number of cycles it took.
    fn instruction(&mut self) -> usize {
        assert_eq!(self.cpu.cycle, FETCH_CYCLE);
        let mut n = 0;
        loop {
            self.cycle();
            n += 1;
            if self.cpu.cycle == FETCH_CYCLE {
                return n;
            }
            assert!(n < 10);
        }
    }
}

#[test]
fn immediate_load_takes_two_cycles() {
    let mut m = Machine::new(&[0xA9, 0x42]);
    assert_eq!(m.instruction(), 2);
    assert_eq!(m.cpu.a, 0x42);
    assert_eq!(m.cpu.pc, 0x8002);
    assert_eq!(m.cpu.ab, 0x8002);
}

#[test]
fn absolute_indexed_load_takes_a_cycle_more_across_a_page() {
    let mut m = Machine::new(&[0xBD, 0x34, 0x12, 0xBD, 0x00, 0x12]);
    m.cpu.x = 0xFF;
    m.mem[0x1333] = 0x77;
    m.mem[0x12FF] = 0x55;
    assert_eq!(m.instruction(), 5);
    assert_eq!(m.cpu.a, 0x77);
    assert_eq!(m.instruction(), 4);
    assert_eq!(m.cpu.a, 0x55);
}

#[test]
fn zero_page_store_and_read_modify_write() {
    let mut m = Machine::new(&[0xA9, 0x80, 0x85, 0x10, 0xE6, 0x10, 0x06, 0x10]);
    assert_eq!(m.instruction(), 2);
    assert_eq!(m.instruction(), 3);
    assert_eq!(m.mem[0x10], 0x80);
    assert_eq!(m.instruction(), 5);
    assert_eq!(m.mem[0x10], 0x81);
    assert_eq!(m.instruction(), 5);
    assert_eq!(m.mem[0x10], 0x02);
    assert!(m.cpu.c);
}

#[test]
fn subroutine_call_and_return() {
    let mut m = Machine::new(&[0x20, 0x00, 0x90]);
    m.mem[0x9000] = 0x60;
    assert_eq!(m.instruction(), 6);
    assert_eq!(m.cpu.pc, 0x9000);
    assert_eq!(m.cpu.sp, 0xFB);
    assert_eq!(m.mem[0x01FD], 0x80);
    assert_eq!(m.mem[0x01FC], 0x02);
    assert_eq!(m.instruction(), 6);
    assert_eq!(m.cpu.pc, 0x8003);
    assert_eq!(m.cpu.sp, 0xFD);
}

#[test]
fn branch_timings() {
    // BNE not taken, BEQ taken within the page, BEQ taken across a page
    let mut m = Machine::new(&[0xA9, 0x00, 0xD0, 0x10, 0xF0, 0x02, 0xEA, 0xEA, 0xF0, 0x80]);
    m.instruction();
    assert_eq!(m.instruction(), 2);
    assert_eq!(m.cpu.pc, 0x8004);
    assert_eq!(m.instruction(), 3);
    assert_eq!(m.cpu.pc, 0x8008);
    assert_eq!(m.instruction(), 4);
    assert_eq!(m.cpu.pc, 0x7F8A);
}

#[test]
fn stack_push_and_pull() {
    let mut m = Machine::new(&[0xA9, 0x33, 0x48, 0xA9, 0x00, 0x68, 0x08, 0x28]);
    m.instruction();
    assert_eq!(m.instruction(), 3);
    assert_eq!(m.mem[0x01FD], 0x33);
    m.instruction();
    assert_eq!(m.instruction(), 4);
    assert_eq!(m.cpu.a, 0x33);
    assert_eq!(m.instruction(), 3);
    assert_eq!(m.mem[0x01FD] & 0x30, 0x30);
    assert_eq!(m.instruction(), 4);
}

#[test]
fn indirect_indexed_load() {
    let mut m = Machine::new(&[0xB1, 0x20]);
    m.cpu.y = 0x10;
    m.mem[0x20] = 0xF8;
    m.mem[0x21] = 0x30;
    m.mem[0x3108] = 0x99;
    assert_eq!(m.instruction(), 6);
    assert_eq!(m.cpu.a, 0x99);
}

#[test]
fn jump_indirect_wraps_in_its_page() {
    let mut m = Machine::new(&[0x6C, 0xFF, 0x30]);
    m.mem[0x30FF] = 0x34;
    m.mem[0x3000] = 0x12;
    m.mem[0x3100] = 0x99;
    assert_eq!(m.instruction(), 5);
    assert_eq!(m.cpu.pc, 0x1234);
}

#[test]
fn interrupt_runs_brk_through_the_vector() {
    let mut m = Machine::new(&[0xEA, 0xEA]);
    m.mem[0xFFFE] = 0x00;
    m.mem[0xFFFF] = 0x90;
    m.cpu.i = false;
    m.cpu.irq_apu_signal = true;
    // NOP: its last cycle sees the IRQ sampled by the fetch
    assert_eq!(m.instruction(), 2);
    assert!(m.cpu.take_interrupt);
    assert!(m.cpu.interrupt_type == InterruptType::Irq);
    // the next fetch loads BRK in place of the opcode
    assert_eq!(m.instruction(), 7);
    assert_eq!(m.cpu.pc, 0x9000);
    assert!(m.cpu.i);
    assert_eq!(m.mem[0x01FD], 0x80);
    assert_eq!(m.mem[0x01FC], 0x01);
    assert_eq!(m.mem[0x01FB] & 0x30, 0x30);
}

/// Runs one tick through `tick_step`, making each step on the machine; gives the number of
/// clocks of the rest of the console and the bytes the DMA wrote to $2004.
fn tick(m: &mut Machine) -> (usize, Vec<u8>) {
    let mut phase = TickPhase::Start;
    let mut clocks = 0;
    let mut oam = Vec::new();
    loop {
        match m.cpu.tick_step(phase) {
            TickStep::Done => return (clocks, oam),
            TickStep::Clock(next) => {
                clocks += 1;
                phase = next;
            },
            TickStep::DmaBus(access, next) => {
                match access {
                    DmaAccess::Align(addr) | DmaAccess::Read(addr) => {
                        m.cpu.db = m.mem[addr as usize];
                    },
                    DmaAccess::Write(addr, v) => {
                        assert_eq!(addr, 0x2004);
                        oam.push(v);
                    },
                }
                phase = next;
            },
            TickStep::CpuCycle(next) => {
                m.cycle();
                phase = next;
            },
        }
    }
}

#[test]
fn a_tick_runs_an_instruction_and_the_next_fetch() {
    let mut m = Machine::new(&[0xA9, 0x42, 0xEA]);
    let parity = m.cpu.odd_cycle;
    // the first tick only fetches the opcode
    assert_eq!(tick(&mut m).0, 1);
    assert_eq!(m.cpu.odd_cycle, !parity);
    // LDA #imm: its operand cycle, then the fetch of the next opcode
    assert_eq!(tick(&mut m).0, 2);
    assert_eq!(m.cpu.a, 0x42);
    // three clocks in all: the parity has flipped three times
    assert_eq!(m.cpu.odd_cycle, !parity);
    m.cpu.halt = true;
    assert_eq!(tick(&mut m).0, 0);
}

#[test]
fn a_dma_copies_a_page_one_clock_per_tick() {
    let mut m = Machine::new(&[0xEA, 0xEA]);
    for i in 0..0x100 {
        m.mem[0x0300 + i] = (i as u8) ^ 0x5A;
    }
    m.cpu.dma_addr = 0x0300;
    m.cpu.odd_cycle = false;
    m.cpu.hijack_read = DmaHijack::Hijacked;
    // the tick that starts the transfer: one clock to halt, one for the first read
    let (clocks, oam) = tick(&mut m);
    assert_eq!(clocks, 2);
    assert!(oam.is_empty());
    let mut written = Vec::new();
    let mut ticks = 1;
    while m.cpu.dma_cycles != 0 {
        let (clocks, oam) = tick(&mut m);
        written.extend(oam);
        ticks += 1;
        if m.cpu.dma_cycles != 0 {
            assert_eq!(clocks, 1);
        }
        assert!(ticks < 1000);
    }
    assert_eq!(written, (0..0x100).map(|i| (i as u8) ^ 0x5A).collect::<Vec<u8>>());
    assert_eq!(ticks, 0x201);
}
