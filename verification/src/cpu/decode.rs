use vstd::prelude::*;

use crate::cpu::{sh_addr, wrap8, BusWrite, Cpu};

verus! {

/// How an instruction reaches its operand, and so which cycles it takes on the bus.
#[derive(Clone, Copy, Debug, PartialEq, Eq, Structural)]
pub enum AddressingMode {
    Implied,
    Immediate,
    Accumulator,
    ZeroPage,
    ZeroPageX,
    ZeroPageY,
    ZeroPageSt,
    ZeroPageXSt,
    ZeroPageYSt,
    ZeroPageRmw,
    ZeroPageXRmw,
    Relative,
    Absolute,
    AbsoluteJmp,
    AbsoluteSt,
    AbsoluteRmw,
    AbsoluteX,
    AbsoluteY,
    AbsoluteXSt,
    AbsoluteYSt,
    AbsoluteXRmw,
    AbsoluteYIllegal,
    Indirect,
    IndirectX,
    IndirectXSt,
    IndirectXIllegal,
    IndirectY,
    IndirectYSt,
    IndirectYIllegal,
    Jsr,
    Brk,
    Rti,
    Rts,
    Pha,
    Php,
    Pla,
    Plp,
}

/// A flag that a branch tests.
#[derive(Clone, Copy, Debug, PartialEq, Eq, Structural)]
pub enum BranchFlag {
    Negative,
    Overflow,
    Carry,
    Zero,
}

/// What an instruction does once its operand is there. A branch is taken when its flag has
/// the given value.
#[derive(Clone, Copy, Debug, PartialEq, Eq, Structural)]
pub enum Operation {
    Nop,
    Halt,
    Ora,
    And,
    Eor,
    Adc,
    Sbc,
    Cmp,
    Cpx,
    Cpy,
    Bit,
    Lda,
    Ldx,
    Ldy,
    Sta,
    Stx,
    Sty,
    Asl,
    AslA,
    Lsr,
    LsrA,
    Rol,
    RolA,
    Ror,
    RorA,
    Inc,
    Dec,
    Inx,
    Iny,
    Dex,
    Dey,
    Clc,
    Sec,
    Cli,
    Sei,
    Cld,
    Sed,
    Clv,
    Tax,
    Tay,
    Tsx,
    Txa,
    Txs,
    Tya,
    Aax,
    Dcp,
    Isc,
    Lax,
    Rla,
    Rra,
    Slo,
    Sre,
    Anc,
    Alr,
    Axs,
    Xaa,
    Ahx,
    Shx,
    Shy,
    Las,
    Tas,
    Arr,
    Branch(BranchFlag, bool),
}

/// An opcode, decoded.
#[derive(Clone, Copy, Debug, PartialEq, Eq, Structural)]
pub struct Instruction {
    pub mode: AddressingMode,
    pub op: Operation,
}

/// The instruction that each of the 256 opcodes stands for, official or not.
pub open spec fn instruction_of(opcode: u8) -> Instruction {
    match opcode {
        0x00 => Instruction { mode: AddressingMode::Brk, op: Operation::Nop },
        0x01 => Instruction { mode: AddressingMode::IndirectX, op: Operation::Ora },
        0x02 => Instruction { mode: AddressingMode::Immediate, op: Operation::Halt },
        0x03 => Instruction { mode: AddressingMode::IndirectXIllegal, op: Operation::Slo },
        0x04 => Instruction { mode: AddressingMode::ZeroPage, op: Operation::Nop },
        0x05 => Instruction { mode: AddressingMode::ZeroPage, op: Operation::Ora },
        0x06 => Instruction { mode: AddressingMode::ZeroPageRmw, op: Operation::Asl },
        0x07 => Instruction { mode: AddressingMode::ZeroPageRmw, op: Operation::Slo },
        0x08 => Instruction { mode: AddressingMode::Php, op: Operation::Nop },
        0x09 => Instruction { mode: AddressingMode::Immediate, op: Operation::Ora },
        0x0A => Instruction { mode: AddressingMode::Accumulator, op: Operation::AslA },
        0x0B => Instruction { mode: AddressingMode::Immediate, op: Operation::Anc },
        0x0C => Instruction { mode: AddressingMode::Absolute, op: Operation::Nop },
        0x0D => Instruction { mode: AddressingMode::Absolute, op: Operation::Ora },
        0x0E => Instruction { mode: AddressingMode::AbsoluteRmw, op: Operation::Asl },
        0x0F => Instruction { mode: AddressingMode::AbsoluteRmw, op: Operation::Slo },
        0x10 => Instruction { mode: AddressingMode::Relative, op: Operation::Branch(BranchFlag::Negative, false) },
        0x11 => Instruction { mode: AddressingMode::IndirectY, op: Operation::Ora },
        0x12 => Instruction { mode: AddressingMode::Immediate, op: Operation::Halt },
        0x13 => Instruction { mode: AddressingMode::IndirectYIllegal, op: Operation::Slo },
        0x14 => Instruction { mode: AddressingMode::ZeroPageX, op: Operation::Nop },
        0x15 => Instruction { mode: AddressingMode::ZeroPageX, op: Operation::Ora },
        0x16 => Instruction { mode: AddressingMode::ZeroPageXRmw, op: Operation::Asl },
        0x17 => Instruction { mode: AddressingMode::ZeroPageXRmw, op: Operation::Slo },
        0x18 => Instruction { mode: AddressingMode::Implied, op: Operation::Clc },
        0x19 => Instruction { mode: AddressingMode::AbsoluteY, op: Operation::Ora },
        0x1A => Instruction { mode: AddressingMode::Implied, op: Operation::Nop },
        0x1B => Instruction { mode: AddressingMode::AbsoluteYIllegal, op: Operation::Slo },
        0x1C => Instruction { mode: AddressingMode::AbsoluteX, op: Operation::Nop },
        0x1D => Instruction { mode: AddressingMode::AbsoluteX, op: Operation::Ora },
        0x1E => Instruction { mode: AddressingMode::AbsoluteXRmw, op: Operation::Asl },
        0x1F => Instruction { mode: AddressingMode::AbsoluteXRmw, op: Operation::Slo },
        0x20 => Instruction { mode: AddressingMode::Jsr, op: Operation::Nop },
        0x21 => Instruction { mode: AddressingMode::IndirectX, op: Operation::And },
        0x22 => Instruction { mode: AddressingMode::Immediate, op: Operation::Halt },
        0x23 => Instruction { mode: AddressingMode::IndirectXIllegal, op: Operation::Rla },
        0x24 => Instruction { mode: AddressingMode::ZeroPage, op: Operation::Bit },
        0x25 => Instruction { mode: AddressingMode::ZeroPage, op: Operation::And },
        0x26 => Instruction { mode: AddressingMode::ZeroPageRmw, op: Operation::Rol },
        0x27 => Instruction { mode: AddressingMode::ZeroPageRmw, op: Operation::Rla },
        0x28 => Instruction { mode: AddressingMode::Plp, op: Operation::Nop },
        0x29 => Instruction { mode: AddressingMode::Immediate, op: Operation::And },
        0x2A => Instruction { mode: AddressingMode::Accumulator, op: Operation::RolA },
        0x2B => Instruction { mode: AddressingMode::Immediate, op: Operation::Anc },
        0x2C => Instruction { mode: AddressingMode::Absolute, op: Operation::Bit },
        0x2D => Instruction { mode: AddressingMode::Absolute, op: Operation::And },
        0x2E => Instruction { mode: AddressingMode::AbsoluteRmw, op: Operation::Rol },
        0x2F => Instruction { mode: AddressingMode::AbsoluteRmw, op: Operation::Rla },
        0x30 => Instruction { mode: AddressingMode::Relative, op: Operation::Branch(BranchFlag::Negative, true) },
        0x31 => Instruction { mode: AddressingMode::IndirectY, op: Operation::And },
        0x32 => Instruction { mode: AddressingMode::Immediate, op: Operation::Halt },
        0x33 => Instruction { mode: AddressingMode::IndirectYIllegal, op: Operation::Rla },
        0x34 => Instruction { mode: AddressingMode::ZeroPageX, op: Operation::Nop },
        0x35 => Instruction { mode: AddressingMode::ZeroPageX, op: Operation::And },
        0x36 => Instruction { mode: AddressingMode::ZeroPageXRmw, op: Operation::Rol },
        0x37 => Instruction { mode: AddressingMode::ZeroPageXRmw, op: Operation::Rla },
        0x38 => Instruction { mode: AddressingMode::Implied, op: Operation::Sec },
        0x39 => Instruction { mode: AddressingMode::AbsoluteY, op: Operation::And },
        0x3A => Instruction { mode: AddressingMode::Implied, op: Operation::Nop },
        0x3B => Instruction { mode: AddressingMode::AbsoluteYIllegal, op: Operation::Rla },
        0x3C => Instruction { mode: AddressingMode::AbsoluteX, op: Operation::Nop },
        0x3D => Instruction { mode: AddressingMode::AbsoluteX, op: Operation::And },
        0x3E => Instruction { mode: AddressingMode::AbsoluteXRmw, op: Operation::Rol },
        0x3F => Instruction { mode: AddressingMode::AbsoluteXRmw, op: Operation::Rla },
        0x40 => Instruction { mode: AddressingMode::Rti, op: Operation::Nop },
        0x41 => Instruction { mode: AddressingMode::IndirectX, op: Operation::Eor },
        0x42 => Instruction { mode: AddressingMode::Immediate, op: Operation::Halt },
        0x43 => Instruction { mode: AddressingMode::IndirectXIllegal, op: Operation::Sre },
        0x44 => Instruction { mode: AddressingMode::ZeroPage, op: Operation::Nop },
        0x45 => Instruction { mode: AddressingMode::ZeroPage, op: Operation::Eor },
        0x46 => Instruction { mode: AddressingMode::ZeroPageRmw, op: Operation::Lsr },
        0x47 => Instruction { mode: AddressingMode::ZeroPageRmw, op: Operation::Sre },
        0x48 => Instruction { mode: AddressingMode::Pha, op: Operation::Nop },
        0x49 => Instruction { mode: AddressingMode::Immediate, op: Operation::Eor },
        0x4A => Instruction { mode: AddressingMode::Accumulator, op: Operation::LsrA },
        0x4B => Instruction { mode: AddressingMode::Immediate, op: Operation::Alr },
        0x4C => Instruction { mode: AddressingMode::AbsoluteJmp, op: Operation::Nop },
        0x4D => Instruction { mode: AddressingMode::Absolute, op: Operation::Eor },
        0x4E => Instruction { mode: AddressingMode::AbsoluteRmw, op: Operation::Lsr },
        0x4F => Instruction { mode: AddressingMode::AbsoluteRmw, op: Operation::Sre },
        0x50 => Instruction { mode: AddressingMode::Relative, op: Operation::Branch(BranchFlag::Overflow, false) },
        0x51 => Instruction { mode: AddressingMode::IndirectY, op: Operation::Eor },
        0x52 => Instruction { mode: AddressingMode::Immediate, op: Operation::Halt },
        0x53 => Instruction { mode: AddressingMode::IndirectYIllegal, op: Operation::Sre },
        0x54 => Instruction { mode: AddressingMode::ZeroPageX, op: Operation::Nop },
        0x55 => Instruction { mode: AddressingMode::ZeroPageX, op: Operation::Eor },
        0x56 => Instruction { mode: AddressingMode::ZeroPageXRmw, op: Operation::Lsr },
        0x57 => Instruction { mode: AddressingMode::ZeroPageXRmw, op: Operation::Sre },
        0x58 => Instruction { mode: AddressingMode::Implied, op: Operation::Cli },
        0x59 => Instruction { mode: AddressingMode::AbsoluteY, op: Operation::Eor },
        0x5A => Instruction { mode: AddressingMode::Implied, op: Operation::Nop },
        0x5B => Instruction { mode: AddressingMode::AbsoluteYIllegal, op: Operation::Sre },
        0x5C => Instruction { mode: AddressingMode::AbsoluteX, op: Operation::Nop },
        0x5D => Instruction { mode: AddressingMode::AbsoluteX, op: Operation::Eor },
        0x5E => Instruction { mode: AddressingMode::AbsoluteXRmw, op: Operation::Lsr },
        0x5F => Instruction { mode: AddressingMode::AbsoluteXRmw, op: Operation::Sre },
        0x60 => Instruction { mode: AddressingMode::Rts, op: Operation::Nop },
        0x61 => Instruction { mode: AddressingMode::IndirectX, op: Operation::Adc },
        0x62 => Instruction { mode: AddressingMode::Immediate, op: Operation::Halt },
        0x63 => Instruction { mode: AddressingMode::IndirectXIllegal, op: Operation::Rra },
        0x64 => Instruction { mode: AddressingMode::ZeroPage, op: Operation::Nop },
        0x65 => Instruction { mode: AddressingMode::ZeroPage, op: Operation::Adc },
        0x66 => Instruction { mode: AddressingMode::ZeroPageRmw, op: Operation::Ror },
        0x67 => Instruction { mode: AddressingMode::ZeroPageRmw, op: Operation::Rra },
        0x68 => Instruction { mode: AddressingMode::Pla, op: Operation::Nop },
        0x69 => Instruction { mode: AddressingMode::Immediate, op: Operation::Adc },
        0x6A => Instruction { mode: AddressingMode::Accumulator, op: Operation::RorA },
        0x6B => Instruction { mode: AddressingMode::Immediate, op: Operation::Arr },
        0x6C => Instruction { mode: AddressingMode::Indirect, op: Operation::Nop },
        0x6D => Instruction { mode: AddressingMode::Absolute, op: Operation::Adc },
        0x6E => Instruction { mode: AddressingMode::AbsoluteRmw, op: Operation::Ror },
        0x6F => Instruction { mode: AddressingMode::AbsoluteRmw, op: Operation::Rra },
        0x70 => Instruction { mode: AddressingMode::Relative, op: Operation::Branch(BranchFlag::Overflow, true) },
        0x71 => Instruction { mode: AddressingMode::IndirectY, op: Operation::Adc },
        0x72 => Instruction { mode: AddressingMode::Immediate, op: Operation::Halt },
        0x73 => Instruction { mode: AddressingMode::IndirectYIllegal, op: Operation::Rra },
        0x74 => Instruction { mode: AddressingMode::ZeroPageX, op: Operation::Nop },
        0x75 => Instruction { mode: AddressingMode::ZeroPageX, op: Operation::Adc },
        0x76 => Instruction { mode: AddressingMode::ZeroPageXRmw, op: Operation::Ror },
        0x77 => Instruction { mode: AddressingMode::ZeroPageXRmw, op: Operation::Rra },
        0x78 => Instruction { mode: AddressingMode::Implied, op: Operation::Sei },
        0x79 => Instruction { mode: AddressingMode::AbsoluteY, op: Operation::Adc },
        0x7A => Instruction { mode: AddressingMode::Implied, op: Operation::Nop },
        0x7B => Instruction { mode: AddressingMode::AbsoluteYIllegal, op: Operation::Rra },
        0x7C => Instruction { mode: AddressingMode::AbsoluteX, op: Operation::Nop },
        0x7D => Instruction { mode: AddressingMode::AbsoluteX, op: Operation::Adc },
        0x7E => Instruction { mode: AddressingMode::AbsoluteXRmw, op: Operation::Ror },
        0x7F => Instruction { mode: AddressingMode::AbsoluteXRmw, op: Operation::Rra },
        0x80 => Instruction { mode: AddressingMode::Immediate, op: Operation::Nop },
        0x81 => Instruction { mode: AddressingMode::IndirectXSt, op: Operation::Sta },
        0x82 => Instruction { mode: AddressingMode::Immediate, op: Operation::Nop },
        0x83 => Instruction { mode: AddressingMode::IndirectX, op: Operation::Aax },
        0x84 => Instruction { mode: AddressingMode::ZeroPageSt, op: Operation::Sty },
        0x85 => Instruction { mode: AddressingMode::ZeroPageSt, op: Operation::Sta },
        0x86 => Instruction { mode: AddressingMode::ZeroPageSt, op: Operation::Stx },
        0x87 => Instruction { mode: AddressingMode::ZeroPage, op: Operation::Aax },
        0x88 => Instruction { mode: AddressingMode::Implied, op: Operation::Dey },
        0x89 => Instruction { mode: AddressingMode::Immediate, op: Operation::Nop },
        0x8A => Instruction { mode: AddressingMode::Implied, op: Operation::Txa },
        0x8B => Instruction { mode: AddressingMode::Immediate, op: Operation::Xaa },
        0x8C => Instruction { mode: AddressingMode::AbsoluteSt, op: Operation::Sty },
        0x8D => Instruction { mode: AddressingMode::AbsoluteSt, op: Operation::Sta },
        0x8E => Instruction { mode: AddressingMode::AbsoluteSt, op: Operation::Stx },
        0x8F => Instruction { mode: AddressingMode::Absolute, op: Operation::Aax },
        0x90 => Instruction { mode: AddressingMode::Relative, op: Operation::Branch(BranchFlag::Carry, false) },
        0x91 => Instruction { mode: AddressingMode::IndirectYSt, op: Operation::Sta },
        0x92 => Instruction { mode: AddressingMode::Immediate, op: Operation::Halt },
        0x93 => Instruction { mode: AddressingMode::IndirectYSt, op: Operation::Ahx },
        0x94 => Instruction { mode: AddressingMode::ZeroPageXSt, op: Operation::Sty },
        0x95 => Instruction { mode: AddressingMode::ZeroPageXSt, op: Operation::Sta },
        0x96 => Instruction { mode: AddressingMode::ZeroPageYSt, op: Operation::Stx },
        0x97 => Instruction { mode: AddressingMode::ZeroPageY, op: Operation::Aax },
        0x98 => Instruction { mode: AddressingMode::Implied, op: Operation::Tya },
        0x99 => Instruction { mode: AddressingMode::AbsoluteYSt, op: Operation::Sta },
        0x9A => Instruction { mode: AddressingMode::Implied, op: Operation::Txs },
        0x9B => Instruction { mode: AddressingMode::AbsoluteYSt, op: Operation::Tas },
        0x9C => Instruction { mode: AddressingMode::AbsoluteXSt, op: Operation::Shy },
        0x9D => Instruction { mode: AddressingMode::AbsoluteXSt, op: Operation::Sta },
        0x9E => Instruction { mode: AddressingMode::AbsoluteYSt, op: Operation::Shx },
        0x9F => Instruction { mode: AddressingMode::AbsoluteYSt, op: Operation::Ahx },
        0xA0 => Instruction { mode: AddressingMode::Immediate, op: Operation::Ldy },
        0xA1 => Instruction { mode: AddressingMode::IndirectX, op: Operation::Lda },
        0xA2 => Instruction { mode: AddressingMode::Immediate, op: Operation::Ldx },
        0xA3 => Instruction { mode: AddressingMode::IndirectX, op: Operation::Lax },
        0xA4 => Instruction { mode: AddressingMode::ZeroPage, op: Operation::Ldy },
        0xA5 => Instruction { mode: AddressingMode::ZeroPage, op: Operation::Lda },
        0xA6 => Instruction { mode: AddressingMode::ZeroPage, op: Operation::Ldx },
        0xA7 => Instruction { mode: AddressingMode::ZeroPage, op: Operation::Lax },
        0xA8 => Instruction { mode: AddressingMode::Implied, op: Operation::Tay },
        0xA9 => Instruction { mode: AddressingMode::Immediate, op: Operation::Lda },
        0xAA => Instruction { mode: AddressingMode::Implied, op: Operation::Tax },
        0xAB => Instruction { mode: AddressingMode::Immediate, op: Operation::Lax },
        0xAC => Instruction { mode: AddressingMode::Absolute, op: Operation::Ldy },
        0xAD => Instruction { mode: AddressingMode::Absolute, op: Operation::Lda },
        0xAE => Instruction { mode: AddressingMode::Absolute, op: Operation::Ldx },
        0xAF => Instruction { mode: AddressingMode::Absolute, op: Operation::Lax },
        0xB0 => Instruction { mode: AddressingMode::Relative, op: Operation::Branch(BranchFlag::Carry, true) },
        0xB1 => Instruction { mode: AddressingMode::IndirectY, op: Operation::Lda },
        0xB2 => Instruction { mode: AddressingMode::Immediate, op: Operation::Halt },
        0xB3 => Instruction { mode: AddressingMode::IndirectY, op: Operation::Lax },
        0xB4 => Instruction { mode: AddressingMode::ZeroPageX, op: Operation::Ldy },
        0xB5 => Instruction { mode: AddressingMode::ZeroPageX, op: Operation::Lda },
        0xB6 => Instruction { mode: AddressingMode::ZeroPageY, op: Operation::Ldx },
        0xB7 => Instruction { mode: AddressingMode::ZeroPageY, op: Operation::Lax },
        0xB8 => Instruction { mode: AddressingMode::Implied, op: Operation::Clv },
        0xB9 => Instruction { mode: AddressingMode::AbsoluteY, op: Operation::Lda },
        0xBA => Instruction { mode: AddressingMode::Implied, op: Operation::Tsx },
        0xBB => Instruction { mode: AddressingMode::AbsoluteY, op: Operation::Las },
        0xBC => Instruction { mode: AddressingMode::AbsoluteX, op: Operation::Ldy },
        0xBD => Instruction { mode: AddressingMode::AbsoluteX, op: Operation::Lda },
        0xBE => Instruction { mode: AddressingMode::AbsoluteY, op: Operation::Ldx },
        0xBF => Instruction { mode: AddressingMode::AbsoluteY, op: Operation::Lax },
        0xC0 => Instruction { mode: AddressingMode::Immediate, op: Operation::Cpy },
        0xC1 => Instruction { mode: AddressingMode::IndirectX, op: Operation::Cmp },
        0xC2 => Instruction { mode: AddressingMode::Immediate, op: Operation::Nop },
        0xC3 => Instruction { mode: AddressingMode::IndirectXIllegal, op: Operation::Dcp },
        0xC4 => Instruction { mode: AddressingMode::ZeroPage, op: Operation::Cpy },
        0xC5 => Instruction { mode: AddressingMode::ZeroPage, op: Operation::Cmp },
        0xC6 => Instruction { mode: AddressingMode::ZeroPageRmw, op: Operation::Dec },
        0xC7 => Instruction { mode: AddressingMode::ZeroPageRmw, op: Operation::Dcp },
        0xC8 => Instruction { mode: AddressingMode::Implied, op: Operation::Iny },
        0xC9 => Instruction { mode: AddressingMode::Immediate, op: Operation::Cmp },
        0xCA => Instruction { mode: AddressingMode::Implied, op: Operation::Dex },
        0xCB => Instruction { mode: AddressingMode::Immediate, op: Operation::Axs },
        0xCC => Instruction { mode: AddressingMode::Absolute, op: Operation::Cpy },
        0xCD => Instruction { mode: AddressingMode::Absolute, op: Operation::Cmp },
        0xCE => Instruction { mode: AddressingMode::AbsoluteRmw, op: Operation::Dec },
        0xCF => Instruction { mode: AddressingMode::AbsoluteRmw, op: Operation::Dcp },
        0xD0 => Instruction { mode: AddressingMode::Relative, op: Operation::Branch(BranchFlag::Zero, false) },
        0xD1 => Instruction { mode: AddressingMode::IndirectY, op: Operation::Cmp },
        0xD2 => Instruction { mode: AddressingMode::Immediate, op: Operation::Halt },
        0xD3 => Instruction { mode: AddressingMode::IndirectYIllegal, op: Operation::Dcp },
        0xD4 => Instruction { mode: AddressingMode::ZeroPageX, op: Operation::Nop },
        0xD5 => Instruction { mode: AddressingMode::ZeroPageX, op: Operation::Cmp },
        0xD6 => Instruction { mode: AddressingMode::ZeroPageXRmw, op: Operation::Dec },
        0xD7 => Instruction { mode: AddressingMode::ZeroPageXRmw, op: Operation::Dcp },
        0xD8 => Instruction { mode: AddressingMode::Implied, op: Operation::Cld },
        0xD9 => Instruction { mode: AddressingMode::AbsoluteY, op: Operation::Cmp },
        0xDA => Instruction { mode: AddressingMode::Implied, op: Operation::Nop },
        0xDB => Instruction { mode: AddressingMode::AbsoluteYIllegal, op: Operation::Dcp },
        0xDC => Instruction { mode: AddressingMode::AbsoluteX, op: Operation::Nop },
        0xDD => Instruction { mode: AddressingMode::AbsoluteX, op: Operation::Cmp },
        0xDE => Instruction { mode: AddressingMode::AbsoluteXRmw, op: Operation::Dec },
        0xDF => Instruction { mode: AddressingMode::AbsoluteXRmw, op: Operation::Dcp },
        0xE0 => Instruction { mode: AddressingMode::Immediate, op: Operation::Cpx },
        0xE1 => Instruction { mode: AddressingMode::IndirectX, op: Operation::Sbc },
        0xE2 => Instruction { mode: AddressingMode::Immediate, op: Operation::Nop },
        0xE3 => Instruction { mode: AddressingMode::IndirectXIllegal, op: Operation::Isc },
        0xE4 => Instruction { mode: AddressingMode::ZeroPage, op: Operation::Cpx },
        0xE5 => Instruction { mode: AddressingMode::ZeroPage, op: Operation::Sbc },
        0xE6 => Instruction { mode: AddressingMode::ZeroPageRmw, op: Operation::Inc },
        0xE7 => Instruction { mode: AddressingMode::ZeroPageRmw, op: Operation::Isc },
        0xE8 => Instruction { mode: AddressingMode::Implied, op: Operation::Inx },
        0xE9 => Instruction { mode: AddressingMode::Immediate, op: Operation::Sbc },
        0xEA => Instruction { mode: AddressingMode::Implied, op: Operation::Nop },
        0xEB => Instruction { mode: AddressingMode::Immediate, op: Operation::Sbc },
        0xEC => Instruction { mode: AddressingMode::Absolute, op: Operation::Cpx },
        0xED => Instruction { mode: AddressingMode::Absolute, op: Operation::Sbc },
        0xEE => Instruction { mode: AddressingMode::AbsoluteRmw, op: Operation::Inc },
        0xEF => Instruction { mode: AddressingMode::AbsoluteRmw, op: Operation::Isc },
        0xF0 => Instruction { mode: AddressingMode::Relative, op: Operation::Branch(BranchFlag::Zero, true) },
        0xF1 => Instruction { mode: AddressingMode::IndirectY, op: Operation::Sbc },
        0xF2 => Instruction { mode: AddressingMode::Immediate, op: Operation::Halt },
        0xF3 => Instruction { mode: AddressingMode::IndirectYIllegal, op: Operation::Isc },
        0xF4 => Instruction { mode: AddressingMode::ZeroPageX, op: Operation::Nop },
        0xF5 => Instruction { mode: AddressingMode::ZeroPageX, op: Operation::Sbc },
        0xF6 => Instruction { mode: AddressingMode::ZeroPageXRmw, op: Operation::Inc },
        0xF7 => Instruction { mode: AddressingMode::ZeroPageXRmw, op: Operation::Isc },
        0xF8 => Instruction { mode: AddressingMode::Implied, op: Operation::Sed },
        0xF9 => Instruction { mode: AddressingMode::AbsoluteY, op: Operation::Sbc },
        0xFA => Instruction { mode: AddressingMode::Implied, op: Operation::Nop },
        0xFB => Instruction { mode: AddressingMode::AbsoluteYIllegal, op: Operation::Isc },
        0xFC => Instruction { mode: AddressingMode::AbsoluteX, op: Operation::Nop },
        0xFD => Instruction { mode: AddressingMode::AbsoluteX, op: Operation::Sbc },
        0xFE => Instruction { mode: AddressingMode::AbsoluteXRmw, op: Operation::Inc },
        0xFF => Instruction { mode: AddressingMode::AbsoluteXRmw, op: Operation::Isc },
    }
}

/// Decodes an opcode.
pub fn decode(opcode: u8) -> (r: Instruction)
    ensures
        r == instruction_of(opcode),
{
    match opcode {
            0x00 => Instruction { mode: AddressingMode::Brk, op: Operation::Nop },
            0x01 => Instruction { mode: AddressingMode::IndirectX, op: Operation::Ora },
            0x02 => Instruction { mode: AddressingMode::Immediate, op: Operation::Halt },
            0x03 => Instruction { mode: AddressingMode::IndirectXIllegal, op: Operation::Slo },
            0x04 => Instruction { mode: AddressingMode::ZeroPage, op: Operation::Nop },
            0x05 => Instruction { mode: AddressingMode::ZeroPage, op: Operation::Ora },
            0x06 => Instruction { mode: AddressingMode::ZeroPageRmw, op: Operation::Asl },
            0x07 => Instruction { mode: AddressingMode::ZeroPageRmw, op: Operation::Slo },
            0x08 => Instruction { mode: AddressingMode::Php, op: Operation::Nop },
            0x09 => Instruction { mode: AddressingMode::Immediate, op: Operation::Ora },
            0x0A => Instruction { mode: AddressingMode::Accumulator, op: Operation::AslA },
            0x0B => Instruction { mode: AddressingMode::Immediate, op: Operation::Anc },
            0x0C => Instruction { mode: AddressingMode::Absolute, op: Operation::Nop },
            0x0D => Instruction { mode: AddressingMode::Absolute, op: Operation::Ora },
            0x0E => Instruction { mode: AddressingMode::AbsoluteRmw, op: Operation::Asl },
            0x0F => Instruction { mode: AddressingMode::AbsoluteRmw, op: Operation::Slo },
            0x10 => Instruction { mode: AddressingMode::Relative, op: Operation::Branch(BranchFlag::Negative, false) },
            0x11 => Instruction { mode: AddressingMode::IndirectY, op: Operation::Ora },
            0x12 => Instruction { mode: AddressingMode::Immediate, op: Operation::Halt },
            0x13 => Instruction { mode: AddressingMode::IndirectYIllegal, op: Operation::Slo },
            0x14 => Instruction { mode: AddressingMode::ZeroPageX, op: Operation::Nop },
            0x15 => Instruction { mode: AddressingMode::ZeroPageX, op: Operation::Ora },
            0x16 => Instruction { mode: AddressingMode::ZeroPageXRmw, op: Operation::Asl },
            0x17 => Instruction { mode: AddressingMode::ZeroPageXRmw, op: Operation::Slo },
            0x18 => Instruction { mode: AddressingMode::Implied, op: Operation::Clc },
            0x19 => Instruction { mode: AddressingMode::AbsoluteY, op: Operation::Ora },
            0x1A => Instruction { mode: AddressingMode::Implied, op: Operation::Nop },
            0x1B => Instruction { mode: AddressingMode::AbsoluteYIllegal, op: Operation::Slo },
            0x1C => Instruction { mode: AddressingMode::AbsoluteX, op: Operation::Nop },
            0x1D => Instruction { mode: AddressingMode::AbsoluteX, op: Operation::Ora },
            0x1E => Instruction { mode: AddressingMode::AbsoluteXRmw, op: Operation::Asl },
            0x1F => Instruction { mode: AddressingMode::AbsoluteXRmw, op: Operation::Slo },
            0x20 => Instruction { mode: AddressingMode::Jsr, op: Operation::Nop },
            0x21 => Instruction { mode: AddressingMode::IndirectX, op: Operation::And },
            0x22 => Instruction { mode: AddressingMode::Immediate, op: Operation::Halt },
            0x23 => Instruction { mode: AddressingMode::IndirectXIllegal, op: Operation::Rla },
            0x24 => Instruction { mode: AddressingMode::ZeroPage, op: Operation::Bit },
            0x25 => Instruction { mode: AddressingMode::ZeroPage, op: Operation::And },
            0x26 => Instruction { mode: AddressingMode::ZeroPageRmw, op: Operation::Rol },
            0x27 => Instruction { mode: AddressingMode::ZeroPageRmw, op: Operation::Rla },
            0x28 => Instruction { mode: AddressingMode::Plp, op: Operation::Nop },
            0x29 => Instruction { mode: AddressingMode::Immediate, op: Operation::And },
            0x2A => Instruction { mode: AddressingMode::Accumulator, op: Operation::RolA },
            0x2B => Instruction { mode: AddressingMode::Immediate, op: Operation::Anc },
            0x2C => Instruction { mode: AddressingMode::Absolute, op: Operation::Bit },
            0x2D => Instruction { mode: AddressingMode::Absolute, op: Operation::And },
            0x2E => Instruction { mode: AddressingMode::AbsoluteRmw, op: Operation::Rol },
            0x2F => Instruction { mode: AddressingMode::AbsoluteRmw, op: Operation::Rla },
            0x30 => Instruction { mode: AddressingMode::Relative, op: Operation::Branch(BranchFlag::Negative, true) },
            0x31 => Instruction { mode: AddressingMode::IndirectY, op: Operation::And },
            0x32 => Instruction { mode: AddressingMode::Immediate, op: Operation::Halt },
            0x33 => Instruction { mode: AddressingMode::IndirectYIllegal, op: Operation::Rla },
            0x34 => Instruction { mode: AddressingMode::ZeroPageX, op: Operation::Nop },
            0x35 => Instruction { mode: AddressingMode::ZeroPageX, op: Operation::And },
            0x36 => Instruction { mode: AddressingMode::ZeroPageXRmw, op: Operation::Rol },
            0x37 => Instruction { mode: AddressingMode::ZeroPageXRmw, op: Operation::Rla },
            0x38 => Instruction { mode: AddressingMode::Implied, op: Operation::Sec },
            0x39 => Instruction { mode: AddressingMode::AbsoluteY, op: Operation::And },
            0x3A => Instruction { mode: AddressingMode::Implied, op: Operation::Nop },
            0x3B => Instruction { mode: AddressingMode::AbsoluteYIllegal, op: Operation::Rla },
            0x3C => Instruction { mode: AddressingMode::AbsoluteX, op: Operation::Nop },
            0x3D => Instruction { mode: AddressingMode::AbsoluteX, op: Operation::And },
            0x3E => Instruction { mode: AddressingMode::AbsoluteXRmw, op: Operation::Rol },
            0x3F => Instruction { mode: AddressingMode::AbsoluteXRmw, op: Operation::Rla },
            0x40 => Instruction { mode: AddressingMode::Rti, op: Operation::Nop },
            0x41 => Instruction { mode: AddressingMode::IndirectX, op: Operation::Eor },
            0x42 => Instruction { mode: AddressingMode::Immediate, op: Operation::Halt },
            0x43 => Instruction { mode: AddressingMode::IndirectXIllegal, op: Operation::Sre },
            0x44 => Instruction { mode: AddressingMode::ZeroPage, op: Operation::Nop },
            0x45 => Instruction { mode: AddressingMode::ZeroPage, op: Operation::Eor },
            0x46 => Instruction { mode: AddressingMode::ZeroPageRmw, op: Operation::Lsr },
            0x47 => Instruction { mode: AddressingMode::ZeroPageRmw, op: Operation::Sre },
            0x48 => Instruction { mode: AddressingMode::Pha, op: Operation::Nop },
            0x49 => Instruction { mode: AddressingMode::Immediate, op: Operation::Eor },
            0x4A => Instruction { mode: AddressingMode::Accumulator, op: Operation::LsrA },
            0x4B => Instruction { mode: AddressingMode::Immediate, op: Operation::Alr },
            0x4C => Instruction { mode: AddressingMode::AbsoluteJmp, op: Operation::Nop },
            0x4D => Instruction { mode: AddressingMode::Absolute, op: Operation::Eor },
            0x4E => Instruction { mode: AddressingMode::AbsoluteRmw, op: Operation::Lsr },
            0x4F => Instruction { mode: AddressingMode::AbsoluteRmw, op: Operation::Sre },
            0x50 => Instruction { mode: AddressingMode::Relative, op: Operation::Branch(BranchFlag::Overflow, false) },
            0x51 => Instruction { mode: AddressingMode::IndirectY, op: Operation::Eor },
            0x52 => Instruction { mode: AddressingMode::Immediate, op: Operation::Halt },
            0x53 => Instruction { mode: AddressingMode::IndirectYIllegal, op: Operation::Sre },
            0x54 => Instruction { mode: AddressingMode::ZeroPageX, op: Operation::Nop },
            0x55 => Instruction { mode: AddressingMode::ZeroPageX, op: Operation::Eor },
            0x56 => Instruction { mode: AddressingMode::ZeroPageXRmw, op: Operation::Lsr },
            0x57 => Instruction { mode: AddressingMode::ZeroPageXRmw, op: Operation::Sre },
            0x58 => Instruction { mode: AddressingMode::Implied, op: Operation::Cli },
            0x59 => Instruction { mode: AddressingMode::AbsoluteY, op: Operation::Eor },
            0x5A => Instruction { mode: AddressingMode::Implied, op: Operation::Nop },
            0x5B => Instruction { mode: AddressingMode::AbsoluteYIllegal, op: Operation::Sre },
            0x5C => Instruction { mode: AddressingMode::AbsoluteX, op: Operation::Nop },
            0x5D => Instruction { mode: AddressingMode::AbsoluteX, op: Operation::Eor },
            0x5E => Instruction { mode: AddressingMode::AbsoluteXRmw, op: Operation::Lsr },
            0x5F => Instruction { mode: AddressingMode::AbsoluteXRmw, op: Operation::Sre },
            0x60 => Instruction { mode: AddressingMode::Rts, op: Operation::Nop },
            0x61 => Instruction { mode: AddressingMode::IndirectX, op: Operation::Adc },
            0x62 => Instruction { mode: AddressingMode::Immediate, op: Operation::Halt },
            0x63 => Instruction { mode: AddressingMode::IndirectXIllegal, op: Operation::Rra },
            0x64 => Instruction { mode: AddressingMode::ZeroPage, op: Operation::Nop },
            0x65 => Instruction { mode: AddressingMode::ZeroPage, op: Operation::Adc },
            0x66 => Instruction { mode: AddressingMode::ZeroPageRmw, op: Operation::Ror },
            0x67 => Instruction { mode: AddressingMode::ZeroPageRmw, op: Operation::Rra },
            0x68 => Instruction { mode: AddressingMode::Pla, op: Operation::Nop },
            0x69 => Instruction { mode: AddressingMode::Immediate, op: Operation::Adc },
            0x6A => Instruction { mode: AddressingMode::Accumulator, op: Operation::RorA },
            0x6B => Instruction { mode: AddressingMode::Immediate, op: Operation::Arr },
            0x6C => Instruction { mode: AddressingMode::Indirect, op: Operation::Nop },
            0x6D => Instruction { mode: AddressingMode::Absolute, op: Operation::Adc },
            0x6E => Instruction { mode: AddressingMode::AbsoluteRmw, op: Operation::Ror },
            0x6F => Instruction { mode: AddressingMode::AbsoluteRmw, op: Operation::Rra },
            0x70 => Instruction { mode: AddressingMode::Relative, op: Operation::Branch(BranchFlag::Overflow, true) },
            0x71 => Instruction { mode: AddressingMode::IndirectY, op: Operation::Adc },
            0x72 => Instruction { mode: AddressingMode::Immediate, op: Operation::Halt },
            0x73 => Instruction { mode: AddressingMode::IndirectYIllegal, op: Operation::Rra },
            0x74 => Instruction { mode: AddressingMode::ZeroPageX, op: Operation::Nop },
            0x75 => Instruction { mode: AddressingMode::ZeroPageX, op: Operation::Adc },
            0x76 => Instruction { mode: AddressingMode::ZeroPageXRmw, op: Operation::Ror },
            0x77 => Instruction { mode: AddressingMode::ZeroPageXRmw, op: Operation::Rra },
            0x78 => Instruction { mode: AddressingMode::Implied, op: Operation::Sei },
            0x79 => Instruction { mode: AddressingMode::AbsoluteY, op: Operation::Adc },
            0x7A => Instruction { mode: AddressingMode::Implied, op: Operation::Nop },
            0x7B => Instruction { mode: AddressingMode::AbsoluteYIllegal, op: Operation::Rra },
            0x7C => Instruction { mode: AddressingMode::AbsoluteX, op: Operation::Nop },
            0x7D => Instruction { mode: AddressingMode::AbsoluteX, op: Operation::Adc },
            0x7E => Instruction { mode: AddressingMode::AbsoluteXRmw, op: Operation::Ror },
            0x7F => Instruction { mode: AddressingMode::AbsoluteXRmw, op: Operation::Rra },
            0x80 => Instruction { mode: AddressingMode::Immediate, op: Operation::Nop },
            0x81 => Instruction { mode: AddressingMode::IndirectXSt, op: Operation::Sta },
            0x82 => Instruction { mode: AddressingMode::Immediate, op: Operation::Nop },
            0x83 => Instruction { mode: AddressingMode::IndirectX, op: Operation::Aax },
            0x84 => Instruction { mode: AddressingMode::ZeroPageSt, op: Operation::Sty },
            0x85 => Instruction { mode: AddressingMode::ZeroPageSt, op: Operation::Sta },
            0x86 => Instruction { mode: AddressingMode::ZeroPageSt, op: Operation::Stx },
            0x87 => Instruction { mode: AddressingMode::ZeroPage, op: Operation::Aax },
            0x88 => Instruction { mode: AddressingMode::Implied, op: Operation::Dey },
            0x89 => Instruction { mode: AddressingMode::Immediate, op: Operation::Nop },
            0x8A => Instruction { mode: AddressingMode::Implied, op: Operation::Txa },
            0x8B => Instruction { mode: AddressingMode::Immediate, op: Operation::Xaa },
            0x8C => Instruction { mode: AddressingMode::AbsoluteSt, op: Operation::Sty },
            0x8D => Instruction { mode: AddressingMode::AbsoluteSt, op: Operation::Sta },
            0x8E => Instruction { mode: AddressingMode::AbsoluteSt, op: Operation::Stx },
            0x8F => Instruction { mode: AddressingMode::Absolute, op: Operation::Aax },
            0x90 => Instruction { mode: AddressingMode::Relative, op: Operation::Branch(BranchFlag::Carry, false) },
            0x91 => Instruction { mode: AddressingMode::IndirectYSt, op: Operation::Sta },
            0x92 => Instruction { mode: AddressingMode::Immediate, op: Operation::Halt },
            0x93 => Instruction { mode: AddressingMode::IndirectYSt, op: Operation::Ahx },
            0x94 => Instruction { mode: AddressingMode::ZeroPageXSt, op: Operation::Sty },
            0x95 => Instruction { mode: AddressingMode::ZeroPageXSt, op: Operation::Sta },
            0x96 => Instruction { mode: AddressingMode::ZeroPageYSt, op: Operation::Stx },
            0x97 => Instruction { mode: AddressingMode::ZeroPageY, op: Operation::Aax },
            0x98 => Instruction { mode: AddressingMode::Implied, op: Operation::Tya },
            0x99 => Instruction { mode: AddressingMode::AbsoluteYSt, op: Operation::Sta },
            0x9A => Instruction { mode: AddressingMode::Implied, op: Operation::Txs },
            0x9B => Instruction { mode: AddressingMode::AbsoluteYSt, op: Operation::Tas },
            0x9C => Instruction { mode: AddressingMode::AbsoluteXSt, op: Operation::Shy },
            0x9D => Instruction { mode: AddressingMode::AbsoluteXSt, op: Operation::Sta },
            0x9E => Instruction { mode: AddressingMode::AbsoluteYSt, op: Operation::Shx },
            0x9F => Instruction { mode: AddressingMode::AbsoluteYSt, op: Operation::Ahx },
            0xA0 => Instruction { mode: AddressingMode::Immediate, op: Operation::Ldy },
            0xA1 => Instruction { mode: AddressingMode::IndirectX, op: Operation::Lda },
            0xA2 => Instruction { mode: AddressingMode::Immediate, op: Operation::Ldx },
            0xA3 => Instruction { mode: AddressingMode::IndirectX, op: Operation::Lax },
            0xA4 => Instruction { mode: AddressingMode::ZeroPage, op: Operation::Ldy },
            0xA5 => Instruction { mode: AddressingMode::ZeroPage, op: Operation::Lda },
            0xA6 => Instruction { mode: AddressingMode::ZeroPage, op: Operation::Ldx },
            0xA7 => Instruction { mode: AddressingMode::ZeroPage, op: Operation::Lax },
            0xA8 => Instruction { mode: AddressingMode::Implied, op: Operation::Tay },
            0xA9 => Instruction { mode: AddressingMode::Immediate, op: Operation::Lda },
            0xAA => Instruction { mode: AddressingMode::Implied, op: Operation::Tax },
            0xAB => Instruction { mode: AddressingMode::Immediate, op: Operation::Lax },
            0xAC => Instruction { mode: AddressingMode::Absolute, op: Operation::Ldy },
            0xAD => Instruction { mode: AddressingMode::Absolute, op: Operation::Lda },
            0xAE => Instruction { mode: AddressingMode::Absolute, op: Operation::Ldx },
            0xAF => Instruction { mode: AddressingMode::Absolute, op: Operation::Lax },
            0xB0 => Instruction { mode: AddressingMode::Relative, op: Operation::Branch(BranchFlag::Carry, true) },
            0xB1 => Instruction { mode: AddressingMode::IndirectY, op: Operation::Lda },
            0xB2 => Instruction { mode: AddressingMode::Immediate, op: Operation::Halt },
            0xB3 => Instruction { mode: AddressingMode::IndirectY, op: Operation::Lax },
            0xB4 => Instruction { mode: AddressingMode::ZeroPageX, op: Operation::Ldy },
            0xB5 => Instruction { mode: AddressingMode::ZeroPageX, op: Operation::Lda },
            0xB6 => Instruction { mode: AddressingMode::ZeroPageY, op: Operation::Ldx },
            0xB7 => Instruction { mode: AddressingMode::ZeroPageY, op: Operation::Lax },
            0xB8 => Instruction { mode: AddressingMode::Implied, op: Operation::Clv },
            0xB9 => Instruction { mode: AddressingMode::AbsoluteY, op: Operation::Lda },
            0xBA => Instruction { mode: AddressingMode::Implied, op: Operation::Tsx },
            0xBB => Instruction { mode: AddressingMode::AbsoluteY, op: Operation::Las },
            0xBC => Instruction { mode: AddressingMode::AbsoluteX, op: Operation::Ldy },
            0xBD => Instruction { mode: AddressingMode::AbsoluteX, op: Operation::Lda },
            0xBE => Instruction { mode: AddressingMode::AbsoluteY, op: Operation::Ldx },
            0xBF => Instruction { mode: AddressingMode::AbsoluteY, op: Operation::Lax },
            0xC0 => Instruction { mode: AddressingMode::Immediate, op: Operation::Cpy },
            0xC1 => Instruction { mode: AddressingMode::IndirectX, op: Operation::Cmp },
            0xC2 => Instruction { mode: AddressingMode::Immediate, op: Operation::Nop },
            0xC3 => Instruction { mode: AddressingMode::IndirectXIllegal, op: Operation::Dcp },
            0xC4 => Instruction { mode: AddressingMode::ZeroPage, op: Operation::Cpy },
            0xC5 => Instruction { mode: AddressingMode::ZeroPage, op: Operation::Cmp },
            0xC6 => Instruction { mode: AddressingMode::ZeroPageRmw, op: Operation::Dec },
            0xC7 => Instruction { mode: AddressingMode::ZeroPageRmw, op: Operation::Dcp },
            0xC8 => Instruction { mode: AddressingMode::Implied, op: Operation::Iny },
            0xC9 => Instruction { mode: AddressingMode::Immediate, op: Operation::Cmp },
            0xCA => Instruction { mode: AddressingMode::Implied, op: Operation::Dex },
            0xCB => Instruction { mode: AddressingMode::Immediate, op: Operation::Axs },
            0xCC => Instruction { mode: AddressingMode::Absolute, op: Operation::Cpy },
            0xCD => Instruction { mode: AddressingMode::Absolute, op: Operation::Cmp },
            0xCE => Instruction { mode: AddressingMode::AbsoluteRmw, op: Operation::Dec },
            0xCF => Instruction { mode: AddressingMode::AbsoluteRmw, op: Operation::Dcp },
            0xD0 => Instruction { mode: AddressingMode::Relative, op: Operation::Branch(BranchFlag::Zero, false) },
            0xD1 => Instruction { mode: AddressingMode::IndirectY, op: Operation::Cmp },
            0xD2 => Instruction { mode: AddressingMode::Immediate, op: Operation::Halt },
            0xD3 => Instruction { mode: AddressingMode::IndirectYIllegal, op: Operation::Dcp },
            0xD4 => Instruction { mode: AddressingMode::ZeroPageX, op: Operation::Nop },
            0xD5 => Instruction { mode: AddressingMode::ZeroPageX, op: Operation::Cmp },
            0xD6 => Instruction { mode: AddressingMode::ZeroPageXRmw, op: Operation::Dec },
            0xD7 => Instruction { mode: AddressingMode::ZeroPageXRmw, op: Operation::Dcp },
            0xD8 => Instruction { mode: AddressingMode::Implied, op: Operation::Cld },
            0xD9 => Instruction { mode: AddressingMode::AbsoluteY, op: Operation::Cmp },
            0xDA => Instruction { mode: AddressingMode::Implied, op: Operation::Nop },
            0xDB => Instruction { mode: AddressingMode::AbsoluteYIllegal, op: Operation::Dcp },
            0xDC => Instruction { mode: AddressingMode::AbsoluteX, op: Operation::Nop },
            0xDD => Instruction { mode: AddressingMode::AbsoluteX, op: Operation::Cmp },
            0xDE => Instruction { mode: AddressingMode::AbsoluteXRmw, op: Operation::Dec },
            0xDF => Instruction { mode: AddressingMode::AbsoluteXRmw, op: Operation::Dcp },
            0xE0 => Instruction { mode: AddressingMode::Immediate, op: Operation::Cpx },
            0xE1 => Instruction { mode: AddressingMode::IndirectX, op: Operation::Sbc },
            0xE2 => Instruction { mode: AddressingMode::Immediate, op: Operation::Nop },
            0xE3 => Instruction { mode: AddressingMode::IndirectXIllegal, op: Operation::Isc },
            0xE4 => Instruction { mode: AddressingMode::ZeroPage, op: Operation::Cpx },
            0xE5 => Instruction { mode: AddressingMode::ZeroPage, op: Operation::Sbc },
            0xE6 => Instruction { mode: AddressingMode::ZeroPageRmw, op: Operation::Inc },
            0xE7 => Instruction { mode: AddressingMode::ZeroPageRmw, op: Operation::Isc },
            0xE8 => Instruction { mode: AddressingMode::Implied, op: Operation::Inx },
            0xE9 => Instruction { mode: AddressingMode::Immediate, op: Operation::Sbc },
            0xEA => Instruction { mode: AddressingMode::Implied, op: Operation::Nop },
            0xEB => Instruction { mode: AddressingMode::Immediate, op: Operation::Sbc },
            0xEC => Instruction { mode: AddressingMode::Absolute, op: Operation::Cpx },
            0xED => Instruction { mode: AddressingMode::Absolute, op: Operation::Sbc },
            0xEE => Instruction { mode: AddressingMode::AbsoluteRmw, op: Operation::Inc },
            0xEF => Instruction { mode: AddressingMode::AbsoluteRmw, op: Operation::Isc },
            0xF0 => Instruction { mode: AddressingMode::Relative, op: Operation::Branch(BranchFlag::Zero, true) },
            0xF1 => Instruction { mode: AddressingMode::IndirectY, op: Operation::Sbc },
            0xF2 => Instruction { mode: AddressingMode::Immediate, op: Operation::Halt },
            0xF3 => Instruction { mode: AddressingMode::IndirectYIllegal, op: Operation::Isc },
            0xF4 => Instruction { mode: AddressingMode::ZeroPageX, op: Operation::Nop },
            0xF5 => Instruction { mode: AddressingMode::ZeroPageX, op: Operation::Sbc },
            0xF6 => Instruction { mode: AddressingMode::ZeroPageXRmw, op: Operation::Inc },
            0xF7 => Instruction { mode: AddressingMode::ZeroPageXRmw, op: Operation::Isc },
            0xF8 => Instruction { mode: AddressingMode::Implied, op: Operation::Sed },
            0xF9 => Instruction { mode: AddressingMode::AbsoluteY, op: Operation::Sbc },
            0xFA => Instruction { mode: AddressingMode::Implied, op: Operation::Nop },
            0xFB => Instruction { mode: AddressingMode::AbsoluteYIllegal, op: Operation::Isc },
            0xFC => Instruction { mode: AddressingMode::AbsoluteX, op: Operation::Nop },
            0xFD => Instruction { mode: AddressingMode::AbsoluteX, op: Operation::Sbc },
            0xFE => Instruction { mode: AddressingMode::AbsoluteXRmw, op: Operation::Inc },
            0xFF => Instruction { mode: AddressingMode::AbsoluteXRmw, op: Operation::Isc },
    }
}

/// The state that an operation leaves, and the write it makes on the bus, if any.
pub open spec fn execute_spec(c: Cpu, op: Operation, val: u8) -> (Cpu, Option<BusWrite>) {
    match op {
        Operation::Halt => (c.after_halt(), None),
        Operation::Ora => (c.after_ora(val), None),
        Operation::And => (c.after_and(val), None),
        Operation::Eor => (c.after_eor(val), None),
        Operation::Adc => (c.after_adc(val), None),
        Operation::Sbc => (c.after_sbc(val), None),
        Operation::Cmp => (c.after_cmp(val), None),
        Operation::Cpx => (c.after_cpx(val), None),
        Operation::Cpy => (c.after_cpy(val), None),
        Operation::Bit => (c.after_bit(val), None),
        Operation::Lda => (c.after_lda(val), None),
        Operation::Ldx => (c.after_ldx(val), None),
        Operation::Ldy => (c.after_ldy(val), None),
        Operation::Asl => (c.after_asl(val), None),
        Operation::AslA => (c.after_asl_a(), None),
        Operation::Lsr => (c.after_lsr(val), None),
        Operation::LsrA => (c.after_lsr_a(), None),
        Operation::Rol => (c.after_rol(val), None),
        Operation::RolA => (c.after_rol_a(), None),
        Operation::Ror => (c.after_ror(val), None),
        Operation::RorA => (c.after_ror_a(), None),
        Operation::Inc => (c.after_inc(val), None),
        Operation::Dec => (c.after_dec(val), None),
        Operation::Inx => (c.after_inx(), None),
        Operation::Iny => (c.after_iny(), None),
        Operation::Dex => (c.after_dex(), None),
        Operation::Dey => (c.after_dey(), None),
        Operation::Clc => (c.after_clc(), None),
        Operation::Sec => (c.after_sec(), None),
        Operation::Cli => (c.after_cli(), None),
        Operation::Sei => (c.after_sei(), None),
        Operation::Cld => (c.after_cld(), None),
        Operation::Sed => (c.after_sed(), None),
        Operation::Clv => (c.after_clv(), None),
        Operation::Tax => (c.after_tax(), None),
        Operation::Tay => (c.after_tay(), None),
        Operation::Tsx => (c.after_tsx(), None),
        Operation::Txa => (c.after_txa(), None),
        Operation::Txs => (c.after_txs(), None),
        Operation::Tya => (c.after_tya(), None),
        Operation::Dcp => (c.after_dcp(), None),
        Operation::Isc => (c.after_isc(), None),
        Operation::Lax => (c.after_lax(val), None),
        Operation::Rla => (c.after_rla(), None),
        Operation::Rra => (c.after_rra(), None),
        Operation::Slo => (c.after_slo(), None),
        Operation::Sre => (c.after_sre(), None),
        Operation::Anc => (c.after_anc(val), None),
        Operation::Alr => (c.after_alr(val), None),
        Operation::Axs => (c.after_axs(val), None),
        Operation::Xaa => (c.after_xaa(val), None),
        Operation::Las => (c.after_las(val), None),
        Operation::Arr => (c.after_arr(val), None),
        Operation::Sta => (c, Some(BusWrite { addr: c.ab, val: c.a })),
        Operation::Stx => (c, Some(BusWrite { addr: c.ab, val: c.x })),
        Operation::Sty => (c, Some(BusWrite { addr: c.ab, val: c.y })),
        Operation::Aax => (c, Some(BusWrite { addr: c.ab, val: c.a & c.x })),
        Operation::Ahx => (c, Some(BusWrite { addr: c.ab, val: c.a & c.x & wrap8(c.ab / 256 + 1) })),
        Operation::Shx => (c, Some(BusWrite { addr: sh_addr(c.ab, c.x), val: c.x })),
        Operation::Shy => (c, Some(BusWrite { addr: sh_addr(c.ab, c.y), val: c.y })),
        Operation::Tas => (
            Cpu { sp: c.a & c.x, ..c },
            Some(BusWrite { addr: c.ab, val: c.a & c.x & wrap8(c.ab / 256 + 1) }),
        ),
        Operation::Nop | Operation::Branch(_, _) => (c, None),
    }
}

/// Whether a branch on `flag` being `value` is taken.
pub open spec fn branch_taken_spec(c: Cpu, flag: BranchFlag, value: bool) -> bool {
    match flag {
        BranchFlag::Negative => c.n == value,
        BranchFlag::Overflow => c.v == value,
        BranchFlag::Carry => c.c == value,
        BranchFlag::Zero => c.z == value,
    }
}

impl Cpu {
    /// Performs an operation on the operand `val` (the byte the addressing mode read, or the
    /// byte in `temp` for read-modify-write instructions), and gives the write it makes on
    /// the bus, if any.
    pub fn execute(&mut self, op: Operation, val: u8) -> (w: Option<BusWrite>)
        ensures
            (*final(self), w) == execute_spec(*old(self), op, val),
    {
        match op {
            Operation::Halt => {
                self.halt();
                None
            },
            Operation::Ora => {
                self.ora(val);
                None
            },
            Operation::And => {
                self.and(val);
                None
            },
            Operation::Eor => {
                self.eor(val);
                None
            },
            Operation::Adc => {
                self.adc(val);
                None
            },
            Operation::Sbc => {
                self.sbc(val);
                None
            },
            Operation::Cmp => {
                self.cmp(val);
                None
            },
            Operation::Cpx => {
                self.cpx(val);
                None
            },
            Operation::Cpy => {
                self.cpy(val);
                None
            },
            Operation::Bit => {
                self.bit(val);
                None
            },
            Operation::Lda => {
                self.lda(val);
                None
            },
            Operation::Ldx => {
                self.ldx(val);
                None
            },
            Operation::Ldy => {
                self.ldy(val);
                None
            },
            Operation::Asl => {
                self.asl(val);
                None
            },
            Operation::AslA => {
                self.asl_a();
                None
            },
            Operation::Lsr => {
                self.lsr(val);
                None
            },
            Operation::LsrA => {
                self.lsr_a();
                None
            },
            Operation::Rol => {
                self.rol(val);
                None
            },
            Operation::RolA => {
                self.rol_a();
                None
            },
            Operation::Ror => {
                self.ror(val);
                None
            },
            Operation::RorA => {
                self.ror_a();
                None
            },
            Operation::Inc => {
                self.inc(val);
                None
            },
            Operation::Dec => {
                self.dec(val);
                None
            },
            Operation::Inx => {
                self.inx();
                None
            },
            Operation::Iny => {
                self.iny();
                None
            },
            Operation::Dex => {
                self.dex();
                None
            },
            Operation::Dey => {
                self.dey();
                None
            },
            Operation::Clc => {
                self.clc();
                None
            },
            Operation::Sec => {
                self.sec();
                None
            },
            Operation::Cli => {
                self.cli();
                None
            },
            Operation::Sei => {
                self.sei();
                None
            },
            Operation::Cld => {
                self.cld();
                None
            },
            Operation::Sed => {
                self.sed();
                None
            },
            Operation::Clv => {
                self.clv();
                None
            },
            Operation::Tax => {
                self.tax();
                None
            },
            Operation::Tay => {
                self.tay();
                None
            },
            Operation::Tsx => {
                self.tsx();
                None
            },
            Operation::Txa => {
                self.txa();
                None
            },
            Operation::Txs => {
                self.txs();
                None
            },
            Operation::Tya => {
                self.tya();
                None
            },
            Operation::Dcp => {
                self.dcp();
                None
            },
            Operation::Isc => {
                self.isc();
                None
            },
            Operation::Lax => {
                self.lax(val);
                None
            },
            Operation::Rla => {
                self.rla();
                None
            },
            Operation::Rra => {
                self.rra();
                None
            },
            Operation::Slo => {
                self.slo();
                None
            },
            Operation::Sre => {
                self.sre();
                None
            },
            Operation::Anc => {
                self.anc(val);
                None
            },
            Operation::Alr => {
                self.alr(val);
                None
            },
            Operation::Axs => {
                self.axs(val);
                None
            },
            Operation::Xaa => {
                self.xaa(val);
                None
            },
            Operation::Las => {
                self.las(val);
                None
            },
            Operation::Arr => {
                self.arr(val);
                None
            },
            Operation::Sta => Some(self.sta()),
            Operation::Stx => Some(self.stx()),
            Operation::Sty => Some(self.sty()),
            Operation::Aax => Some(self.aax()),
            Operation::Ahx => Some(self.ahx()),
            Operation::Shx => Some(self.shx()),
            Operation::Shy => Some(self.shy()),
            Operation::Tas => Some(self.tas()),
            Operation::Nop | Operation::Branch(_, _) => None,
        }
    }

    /// Whether a branch on `flag` being `value` is taken.
    pub fn branch_taken(&self, flag: BranchFlag, value: bool) -> (r: bool)
        ensures
            r == branch_taken_spec(*self, flag, value),
    {
        match flag {
            BranchFlag::Negative => self.n == value,
            BranchFlag::Overflow => self.v == value,
            BranchFlag::Carry => self.c == value,
            BranchFlag::Zero => self.z == value,
        }
    }
}

/// The operation that bits 5 to 7 of an opcode select among the opcodes whose low bits are
/// 01: ORA, AND, EOR, ADC, STA, LDA, CMP and SBC.
pub open spec fn group_one_op(aaa: int) -> Operation {
    if aaa == 0 {
        Operation::Ora
    } else if aaa == 1 {
        Operation::And
    } else if aaa == 2 {
        Operation::Eor
    } else if aaa == 3 {
        Operation::Adc
    } else if aaa == 4 {
        Operation::Sta
    } else if aaa == 5 {
        Operation::Lda
    } else if aaa == 6 {
        Operation::Cmp
    } else {
        Operation::Sbc
    }
}

/// The addressing mode that bits 2 to 4 of an opcode select among the opcodes whose low bits
/// are 01: (zp,X), zp, #imm, abs, (zp),Y, zp,X, abs,Y and abs,X, in their store forms for
/// STA.
pub open spec fn group_one_mode(bbb: int, store: bool) -> AddressingMode {
    if bbb == 0 {
        if store { AddressingMode::IndirectXSt } else { AddressingMode::IndirectX }
    } else if bbb == 1 {
        if store { AddressingMode::ZeroPageSt } else { AddressingMode::ZeroPage }
    } else if bbb == 2 {
        AddressingMode::Immediate
    } else if bbb == 3 {
        if store { AddressingMode::AbsoluteSt } else { AddressingMode::Absolute }
    } else if bbb == 4 {
        if store { AddressingMode::IndirectYSt } else { AddressingMode::IndirectY }
    } else if bbb == 5 {
        if store { AddressingMode::ZeroPageXSt } else { AddressingMode::ZeroPageX }
    } else if bbb == 6 {
        if store { AddressingMode::AbsoluteYSt } else { AddressingMode::AbsoluteY }
    } else {
        if store { AddressingMode::AbsoluteXSt } else { AddressingMode::AbsoluteX }
    }
}

/// Whether the opcode `x`, when its low bits are 01 and it is not the NOP at 0x89, decodes as
/// the 6502's opcode matrix lays the group out.
pub open spec fn follows_group_one(x: int) -> bool {
    (x % 4 == 1 && x != 0x89) ==> instruction_of(x as u8) == (Instruction {
        mode: group_one_mode((x / 4) % 8, x / 32 == 4),
        op: group_one_op(x / 32),
    })
}

/// Whether the opcode `x` jams the CPU exactly when it lies in column 2 of the opcode
/// matrix, outside the rows 8, A, C and E.
pub open spec fn halts_in_column_two(x: int) -> bool {
    (instruction_of(x as u8).op == Operation::Halt) == (x % 16 == 2 && (x / 16 < 8 || (x / 16) % 2 == 1))
}

/// The opcodes whose low bits are 01 follow the 6502's opcode matrix: bits 5 to 7 select the
/// operation and bits 2 to 4 the addressing mode (0x89, where STA #imm would be, is a NOP).
pub proof fn lemma_group_one(opcode: u8)
    requires
        opcode % 4 == 1,
        opcode != 0x89,
    ensures
        instruction_of(opcode) == (Instruction {
            mode: group_one_mode((opcode as int / 4) % 8, opcode as int / 32 == 4),
            op: group_one_op(opcode as int / 32),
        }),
{
    assert(follows_group_one(opcode as int));
}

/// The twelve opcodes that jam a 6502 are 0x02, 0x12, ..., 0x72, 0x92, 0xB2, 0xD2 and 0xF2,
/// and no other opcode halts the CPU.
pub proof fn lemma_halt_opcodes(opcode: u8)
    ensures
        (instruction_of(opcode).op == Operation::Halt) == (opcode % 16 == 2 && (opcode / 16 < 8
            || (opcode / 16) % 2 == 1)),
{
    // one row of the opcode matrix at a time
    if opcode < 16 {
        assert(halts_in_column_two(opcode as int));
    } else if opcode < 32 {
        assert(halts_in_column_two(opcode as int));
    } else if opcode < 48 {
        assert(halts_in_column_two(opcode as int));
    } else if opcode < 64 {
        assert(halts_in_column_two(opcode as int));
    } else if opcode < 80 {
        assert(halts_in_column_two(opcode as int));
    } else if opcode < 96 {
        assert(halts_in_column_two(opcode as int));
    } else if opcode < 112 {
        assert(halts_in_column_two(opcode as int));
    } else if opcode < 128 {
        assert(halts_in_column_two(opcode as int));
    } else if opcode < 144 {
        assert(halts_in_column_two(opcode as int));
    } else if opcode < 160 {
        assert(halts_in_column_two(opcode as int));
    } else if opcode < 176 {
        assert(halts_in_column_two(opcode as int));
    } else if opcode < 192 {
        assert(halts_in_column_two(opcode as int));
    } else if opcode < 208 {
        assert(halts_in_column_two(opcode as int));
    } else if opcode < 224 {
        assert(halts_in_column_two(opcode as int));
    } else if opcode < 240 {
        assert(halts_in_column_two(opcode as int));
    } else {
        assert(halts_in_column_two(opcode as int));
    }
}

} // verus!
