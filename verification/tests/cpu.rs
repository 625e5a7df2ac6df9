use fearless_nes::cpu::bus::{read_target, write_target, DmaAccess, ReadTarget, WriteTarget};
use fearless_nes::cpu::decode::{decode, AddressingMode, BranchFlag, Instruction, Operation};
use fearless_nes::cpu::{BusWrite, Cpu, DmaHijack, InterruptType};

#[test]
fn power_up_state() {
    let cpu = Cpu::new();
    assert_eq!(cpu.sp, 0xFD);
    assert!(cpu.i);
    assert!(!cpu.c && !cpu.z && !cpu.n && !cpu.v && !cpu.d);
    assert_eq!(cpu.ram.len(), 0x800);
    assert!(cpu.ram.iter().all(|&b| b == 0));
    assert!(cpu.interrupt_type == InterruptType::NoInterrupt);
    assert!(cpu.hijack_read == DmaHijack::Idle);
}

#[test]
fn adc_carry_and_overflow() {
    let mut cpu = Cpu::new();
    cpu.a = 0x50;
    cpu.adc(0x50);
    assert_eq!(cpu.a, 0xA0);
    assert!(cpu.v && !cpu.c && cpu.n && !cpu.z);
    cpu.a = 0xFF;
    cpu.c = true;
    cpu.adc(0x00);
    assert_eq!(cpu.a, 0x00);
    assert!(cpu.c && cpu.z && !cpu.v);
}

#[test]
fn sbc_borrow() {
    let mut cpu = Cpu::new();
    cpu.a = 0x50;
    cpu.c = true;
    cpu.sbc(0xF0);
    assert_eq!(cpu.a, 0x60);
    assert!(!cpu.c && !cpu.v);
    cpu.a = 0x80;
    cpu.c = true;
    cpu.sbc(0x01);
    assert_eq!(cpu.a, 0x7F);
    assert!(cpu.c && cpu.v);
}

#[test]
fn shifts_and_rotates() {
    let mut cpu = Cpu::new();
    cpu.a = 0x81;
    cpu.asl_a();
    assert_eq!(cpu.a, 0x02);
    assert!(cpu.c);
    cpu.rol_a();
    assert_eq!(cpu.a, 0x05);
    assert!(!cpu.c);
    cpu.lsr_a();
    assert_eq!(cpu.a, 0x02);
    assert!(cpu.c);
    cpu.ror_a();
    assert_eq!(cpu.a, 0x81);
    assert!(!cpu.c && cpu.n);
    cpu.c = true;
    cpu.ror(0x02);
    assert_eq!(cpu.temp, 0x81);
}

#[test]
fn rotate_left_then_right_restores() {
    for v in 0..=255u8 {
        for c in [false, true] {
            let mut cpu = Cpu::new();
            cpu.c = c;
            cpu.a = v;
            cpu.rol_a();
            cpu.ror_a();
            assert_eq!(cpu.a, v);
            assert_eq!(cpu.c, c);
        }
    }
}

#[test]
fn compare_and_bit() {
    let mut cpu = Cpu::new();
    cpu.a = 0x40;
    cpu.cmp(0x40);
    assert!(cpu.c && cpu.z && !cpu.n);
    cpu.cmp(0x41);
    assert!(!cpu.c && !cpu.z && cpu.n);
    cpu.bit(0xC0);
    assert!(!cpu.z && cpu.v && cpu.n);
}

#[test]
fn illegal_opcodes() {
    let mut cpu = Cpu::new();
    cpu.a = 0x10;
    cpu.temp = 0x11;
    cpu.dcp();
    assert_eq!(cpu.temp, 0x10);
    assert!(cpu.z && cpu.c);
    cpu.lax(0x80);
    assert_eq!((cpu.a, cpu.x), (0x80, 0x80));
    cpu.a = 0xFF;
    cpu.x = 0x0F;
    cpu.axs(0x01);
    assert_eq!(cpu.x, 0x0E);
    assert!(cpu.c);
    cpu.a = 0xFF;
    cpu.c = false;
    cpu.arr(0xC0);
    assert_eq!(cpu.a, 0x60);
    assert!(cpu.c && !cpu.v);
    cpu.ab = 0x12FF;
    cpu.a = 0xFF;
    cpu.x = 0x0F;
    assert!(cpu.aax() == BusWrite { addr: 0x12FF, val: 0x0F });
    assert!(cpu.shx() == BusWrite { addr: 0x03FF, val: 0x0F });
    let w = cpu.tas();
    assert_eq!(cpu.sp, 0x0F);
    assert!(w == BusWrite { addr: 0x12FF, val: 0x03 });
    cpu.halt();
    assert!(cpu.halt);
}

#[test]
fn status_push_and_pull() {
    let mut cpu = Cpu::new();
    cpu.n = true;
    cpu.c = true;
    cpu.i = false;
    cpu.ab = 0x01FD;
    let w = cpu.push_status(true);
    assert!(w == BusWrite { addr: 0x01FD, val: 0xB1 });
    assert_eq!(cpu.push_status(false).val, 0xA1);
    let mut other = Cpu::new();
    other.pull_status(0xB1);
    assert!(other.n && other.c && !other.i && !other.v && !other.z && !other.d);
}

#[test]
fn branches() {
    let mut cpu = Cpu::new();
    cpu.pc = 0x80F0;
    cpu.temp = 0x20;
    cpu.take_branch();
    assert_eq!(cpu.pc, 0x8110);
    assert_eq!(cpu.temp, 1);
    cpu.temp = 0xFE;
    cpu.take_branch();
    assert_eq!(cpu.pc, 0x810E);
    assert_eq!(cpu.temp, 0);
    cpu.z = true;
    assert!(cpu.branch_taken(BranchFlag::Zero, true));
    assert!(!cpu.branch_taken(BranchFlag::Zero, false));
}

#[test]
fn interrupts() {
    let mut cpu = Cpu::new();
    cpu.i = false;
    cpu.irq_apu_signal = true;
    cpu.cache_interrupts();
    cpu.check_interrupts();
    assert!(cpu.take_interrupt);
    assert!(cpu.interrupt_type == InterruptType::Irq);
    assert_eq!(cpu.interrupt_address(), 0xFFFE);
    cpu.nmi_signal = true;
    cpu.cache_interrupts();
    cpu.check_interrupts();
    assert!(cpu.interrupt_type == InterruptType::Nmi);
    assert!(!cpu.nmi_signal);
    assert_eq!(cpu.interrupt_address(), 0xFFFA);
    cpu.pc = 0x8000;
    cpu.load_next_instruction(0xA9);
    assert_eq!(cpu.current_instruction, 0);
    assert_eq!(cpu.pc, 0x8000);
    cpu.take_interrupt = false;
    cpu.load_next_instruction(0xA9);
    assert_eq!(cpu.current_instruction, 0xA9);
    assert_eq!(cpu.pc, 0x8001);
    assert_eq!(cpu.ab, 0x8001);
}

#[test]
fn masked_irq_waits() {
    let mut cpu = Cpu::new();
    cpu.irq_mapper_signal = true;
    cpu.cache_interrupts();
    cpu.check_interrupts();
    assert!(!cpu.take_interrupt);
    assert!(cpu.cached_irq);
}

#[test]
fn decode_table() {
    assert!(
        decode(0xA9)
            == Instruction { mode: AddressingMode::Immediate, op: Operation::Lda }
    );
    assert!(decode(0x00) == Instruction { mode: AddressingMode::Brk, op: Operation::Nop });
    assert!(decode(0x6C) == Instruction { mode: AddressingMode::Indirect, op: Operation::Nop });
    assert!(
        decode(0xD0)
            == Instruction {
                mode: AddressingMode::Relative,
                op: Operation::Branch(BranchFlag::Zero, false)
            }
    );
    assert!(decode(0x9D) == Instruction { mode: AddressingMode::AbsoluteXSt, op: Operation::Sta });
    assert!(decode(0xFF) == Instruction { mode: AddressingMode::AbsoluteXRmw, op: Operation::Isc });
    let halts: Vec<u8> = (0..=255u8).filter(|&op| decode(op).op == Operation::Halt).collect();
    assert_eq!(
        halts,
        vec![0x02, 0x12, 0x22, 0x32, 0x42, 0x52, 0x62, 0x72, 0x92, 0xB2, 0xD2, 0xF2]
    );
}

#[test]
fn group_one_matrix() {
    let ops = [
        Operation::Ora,
        Operation::And,
        Operation::Eor,
        Operation::Adc,
        Operation::Sta,
        Operation::Lda,
        Operation::Cmp,
        Operation::Sbc,
    ];
    for op in (0..=255u8).filter(|op| op % 4 == 1 && *op != 0x89) {
        assert!(decode(op).op == ops[(op / 32) as usize]);
    }
}

#[test]
fn execute_dispatches() {
    let mut cpu = Cpu::new();
    assert!(cpu.execute(Operation::Lda, 0x80).is_none());
    assert_eq!(cpu.a, 0x80);
    assert!(cpu.n);
    cpu.ab = 0x0200;
    assert!(cpu.execute(Operation::Sta, 0).unwrap() == BusWrite { addr: 0x0200, val: 0x80 });
    assert!(cpu.execute(Operation::Tax, 0).is_none());
    assert_eq!(cpu.x, 0x80);
    assert!(cpu.execute(Operation::Nop, 0x12).is_none());
}

#[test]
fn addressing() {
    let mut cpu = Cpu::new();
    cpu.ab = 0x00F0;
    cpu.index_zero_page(0x20);
    assert_eq!(cpu.ab, 0x0010);
    cpu.temp = 0xF0;
    assert!(cpu.index_absolute(0x12, 0x20));
    assert_eq!(cpu.ab, 0x1210);
    cpu.fix_high_byte();
    assert_eq!(cpu.ab, 0x1310);
    cpu.ab = 0x02FF;
    cpu.next_indirect_byte();
    assert_eq!(cpu.ab, 0x0200);
    cpu.temp = 0x34;
    cpu.join_address(0x12);
    assert_eq!(cpu.ab, 0x1234);
    cpu.sp = 0xFD;
    cpu.sp_to_ab();
    assert_eq!(cpu.ab, 0x01FD);
}

#[test]
fn memory_map() {
    assert!(read_target(0x0801) == ReadTarget::Ram(0x0001));
    assert!(read_target(0x2007) == ReadTarget::Ppu);
    assert!(read_target(0x4015) == ReadTarget::ApuStatus);
    assert!(read_target(0x4016) == ReadTarget::Controller);
    assert!(read_target(0x4017) == ReadTarget::OpenBus);
    assert!(read_target(0x8000) == ReadTarget::Cartridge);
    assert!(write_target(0x1FFF) == WriteTarget::Ram(0x07FF));
    assert!(write_target(0x4014) == WriteTarget::OamDma);
    assert!(write_target(0x4017) == WriteTarget::Apu);
    assert!(write_target(0x401A) == WriteTarget::Nowhere);
    assert!(write_target(0x6000) == WriteTarget::Cartridge);
}

#[test]
fn ram_is_mirrored() {
    let mut cpu = Cpu::new();
    assert!(cpu.bus_write(0x1234, 0x77) == WriteTarget::Ram(0x0234));
    assert_eq!(cpu.bus_read(0x0234, None), 0x77);
    assert_eq!(cpu.bus_read(0x0A34, None), 0x77);
    assert_eq!(cpu.open_bus, 0x77);
    // nothing drives the bus: the last value stays
    assert_eq!(cpu.bus_read(0x4018, None), 0x77);
    assert_eq!(cpu.bus_read(0x6000, None), 0x77);
    assert_eq!(cpu.bus_read(0x4016, Some(0x01)), 0x61);
    assert_eq!(cpu.bus_read(0x2002, Some(0x80)), 0x80);
}

#[test]
fn oam_dma() {
    let mut cpu = Cpu::new();
    assert!(cpu.bus_write(0x4014, 0x02) == WriteTarget::OamDma);
    assert!(cpu.hijack_read == DmaHijack::Request);
    assert_eq!(cpu.dma_addr, 0x0200);
    cpu.bus_read(0x8000, Some(0xEA));
    assert!(cpu.hijack_read == DmaHijack::Hijacked);
    assert!(cpu.begin_dma());
    assert!(!cpu.begin_dma());
    cpu.odd_cycle = true;
    assert!(cpu.dma_access() == Some(DmaAccess::Align(cpu.ab)));
    assert!(!cpu.dma_advance());
    cpu.odd_cycle = false;
    let mut cycles = 0;
    loop {
        match cpu.dma_access().unwrap() {
            DmaAccess::Read(addr) => {
                cpu.bus_read(addr, None);
            }
            DmaAccess::Write(addr, _) => assert_eq!(addr, 0x2004),
            DmaAccess::Align(_) => unreachable!(),
        }
        cycles += 1;
        if cpu.dma_advance() {
            break;
        }
    }
    assert_eq!(cycles, 512);
    assert_eq!(cpu.dma_addr, 0x0300);
    assert!(cpu.dma_access().is_none());
}
