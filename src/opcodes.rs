//! The decode table: from opcode byte to instruction.
use vstd::prelude::*;

use crate::addressing::AddressingMode;
use crate::cpu::{CpuError, CPU};
use crate::operations::Operation;

verus! {

/// A decoded opcode: its base cycle count, what it does, and how it finds its operand.
#[derive(Clone, Copy, Debug, PartialEq, Eq)]
pub struct Instruction {
    pub cycles: u8,
    pub operate: Operation,
    pub mode: AddressingMode,
}

/// The instruction with these three parts.
pub open spec fn instruction(cycles: u8, operate: Operation, mode: AddressingMode) -> Instruction {
    Instruction { cycles, operate, mode }
}

/// The instruction that `opcode` encodes, if any.
#[verifier::opaque]
pub open spec fn decode(opcode: u8) -> Option<Instruction> {
    match opcode {
        0x00 => Some(instruction(7, Operation::Brk, AddressingMode::Implied)),
        0x01 => Some(instruction(6, Operation::Ora, AddressingMode::IndirectX)),
        0x05 => Some(instruction(3, Operation::Ora, AddressingMode::ZeroPage)),
        0x06 => Some(instruction(5, Operation::Asl, AddressingMode::ZeroPage)),
        0x08 => Some(instruction(3, Operation::Php, AddressingMode::Implied)),
        0x09 => Some(instruction(2, Operation::Ora, AddressingMode::Immediate)),
        0x0A => Some(instruction(2, Operation::Asl, AddressingMode::Implied)),
        0x0D => Some(instruction(4, Operation::Ora, AddressingMode::Absolute)),
        0x0E => Some(instruction(6, Operation::Asl, AddressingMode::Absolute)),
        0x10 => Some(instruction(2, Operation::Bpl, AddressingMode::Relative)),
        0x11 => Some(instruction(5, Operation::Ora, AddressingMode::IndirectY)),
        0x15 => Some(instruction(4, Operation::Ora, AddressingMode::ZeroPageX)),
        0x16 => Some(instruction(6, Operation::Asl, AddressingMode::ZeroPageX)),
        0x18 => Some(instruction(2, Operation::Clc, AddressingMode::Implied)),
        0x19 => Some(instruction(4, Operation::Ora, AddressingMode::AbsoluteY)),
        0x1D => Some(instruction(4, Operation::Ora, AddressingMode::AbsoluteX)),
        0x1E => Some(instruction(7, Operation::Asl, AddressingMode::AbsoluteX)),
        0x20 => Some(instruction(6, Operation::Jsr, AddressingMode::Absolute)),
        0x21 => Some(instruction(6, Operation::And, AddressingMode::IndirectX)),
        0x24 => Some(instruction(3, Operation::Bit, AddressingMode::ZeroPage)),
        0x25 => Some(instruction(3, Operation::And, AddressingMode::ZeroPage)),
        0x26 => Some(instruction(5, Operation::Rol, AddressingMode::ZeroPage)),
        0x28 => Some(instruction(4, Operation::Plp, AddressingMode::Implied)),
        0x29 => Some(instruction(2, Operation::And, AddressingMode::Immediate)),
        0x2A => Some(instruction(2, Operation::Rol, AddressingMode::Implied)),
        0x2C => Some(instruction(4, Operation::Bit, AddressingMode::Absolute)),
        0x2D => Some(instruction(4, Operation::And, AddressingMode::Absolute)),
        0x2E => Some(instruction(6, Operation::Rol, AddressingMode::Absolute)),
        0x30 => Some(instruction(2, Operation::Bmi, AddressingMode::Relative)),
        0x31 => Some(instruction(5, Operation::And, AddressingMode::IndirectY)),
        0x35 => Some(instruction(4, Operation::And, AddressingMode::ZeroPageX)),
        0x36 => Some(instruction(6, Operation::Rol, AddressingMode::ZeroPageX)),
        0x38 => Some(instruction(2, Operation::Sec, AddressingMode::Implied)),
        0x39 => Some(instruction(4, Operation::And, AddressingMode::AbsoluteY)),
        0x3D => Some(instruction(4, Operation::And, AddressingMode::AbsoluteX)),
        0x3E => Some(instruction(7, Operation::Rol, AddressingMode::AbsoluteX)),
        0x40 => Some(instruction(6, Operation::Rti, AddressingMode::Implied)),
        0x41 => Some(instruction(6, Operation::Eor, AddressingMode::IndirectX)),
        0x45 => Some(instruction(3, Operation::Eor, AddressingMode::ZeroPage)),
        0x46 => Some(instruction(5, Operation::Lsr, AddressingMode::ZeroPage)),
        0x48 => Some(instruction(3, Operation::Pha, AddressingMode::Implied)),
        0x49 => Some(instruction(2, Operation::Eor, AddressingMode::Immediate)),
        0x4A => Some(instruction(2, Operation::Lsr, AddressingMode::Implied)),
        0x4C => Some(instruction(3, Operation::Jmp, AddressingMode::Absolute)),
        0x4D => Some(instruction(4, Operation::Eor, AddressingMode::Absolute)),
        0x4E => Some(instruction(6, Operation::Lsr, AddressingMode::Absolute)),
        0x50 => Some(instruction(2, Operation::Bvc, AddressingMode::Relative)),
        0x51 => Some(instruction(5, Operation::Eor, AddressingMode::IndirectY)),
        0x55 => Some(instruction(4, Operation::Eor, AddressingMode::ZeroPageX)),
        0x56 => Some(instruction(6, Operation::Lsr, AddressingMode::ZeroPageX)),
        0x58 => Some(instruction(2, Operation::Cli, AddressingMode::Implied)),
        0x59 => Some(instruction(4, Operation::Eor, AddressingMode::AbsoluteY)),
        0x5D => Some(instruction(4, Operation::Eor, AddressingMode::AbsoluteX)),
        0x5E => Some(instruction(7, Operation::Lsr, AddressingMode::AbsoluteX)),
        0x60 => Some(instruction(6, Operation::Rts, AddressingMode::Implied)),
        0x61 => Some(instruction(6, Operation::Adc, AddressingMode::IndirectX)),
        0x65 => Some(instruction(3, Operation::Adc, AddressingMode::ZeroPage)),
        0x66 => Some(instruction(5, Operation::Ror, AddressingMode::ZeroPage)),
        0x68 => Some(instruction(4, Operation::Pla, AddressingMode::Implied)),
        0x69 => Some(instruction(2, Operation::Adc, AddressingMode::Immediate)),
        0x6A => Some(instruction(2, Operation::Ror, AddressingMode::Implied)),
        0x6C => Some(instruction(5, Operation::Jmp, AddressingMode::Indirect)),
        0x6D => Some(instruction(4, Operation::Adc, AddressingMode::Absolute)),
        0x6E => Some(instruction(6, Operation::Ror, AddressingMode::Absolute)),
        0x70 => Some(instruction(2, Operation::Bvs, AddressingMode::Relative)),
        0x71 => Some(instruction(5, Operation::Adc, AddressingMode::IndirectY)),
        0x75 => Some(instruction(4, Operation::Adc, AddressingMode::ZeroPageX)),
        0x76 => Some(instruction(6, Operation::Ror, AddressingMode::ZeroPageX)),
        0x78 => Some(instruction(2, Operation::Sei, AddressingMode::Implied)),
        0x79 => Some(instruction(4, Operation::Adc, AddressingMode::AbsoluteY)),
        0x7D => Some(instruction(4, Operation::Adc, AddressingMode::AbsoluteX)),
        0x7E => Some(instruction(7, Operation::Ror, AddressingMode::AbsoluteX)),
        0x81 => Some(instruction(6, Operation::Sta, AddressingMode::IndirectX)),
        0x84 => Some(instruction(3, Operation::Sty, AddressingMode::ZeroPage)),
        0x85 => Some(instruction(3, Operation::Sta, AddressingMode::ZeroPage)),
        0x86 => Some(instruction(3, Operation::Stx, AddressingMode::ZeroPage)),
        0x88 => Some(instruction(2, Operation::Dey, AddressingMode::Implied)),
        0x8A => Some(instruction(2, Operation::Txa, AddressingMode::Implied)),
        0x8C => Some(instruction(4, Operation::Sty, AddressingMode::Absolute)),
        0x8D => Some(instruction(4, Operation::Sta, AddressingMode::Absolute)),
        0x8E => Some(instruction(4, Operation::Stx, AddressingMode::Absolute)),
        0x90 => Some(instruction(2, Operation::Bcc, AddressingMode::Relative)),
        0x91 => Some(instruction(6, Operation::Sta, AddressingMode::IndirectY)),
        0x94 => Some(instruction(4, Operation::Sty, AddressingMode::ZeroPageX)),
        0x95 => Some(instruction(4, Operation::Sta, AddressingMode::ZeroPageX)),
        0x96 => Some(instruction(4, Operation::Stx, AddressingMode::ZeroPageY)),
        0x98 => Some(instruction(2, Operation::Tya, AddressingMode::Implied)),
        0x99 => Some(instruction(5, Operation::Sta, AddressingMode::AbsoluteY)),
        0x9A => Some(instruction(2, Operation::Txs, AddressingMode::Implied)),
        0x9D => Some(instruction(5, Operation::Sta, AddressingMode::AbsoluteX)),
        0xA0 => Some(instruction(2, Operation::Ldy, AddressingMode::Immediate)),
        0xA1 => Some(instruction(6, Operation::Lda, AddressingMode::IndirectX)),
        0xA2 => Some(instruction(2, Operation::Ldx, AddressingMode::Immediate)),
        0xA4 => Some(instruction(3, Operation::Ldy, AddressingMode::ZeroPage)),
        0xA5 => Some(instruction(3, Operation::Lda, AddressingMode::ZeroPage)),
        0xA6 => Some(instruction(3, Operation::Ldx, AddressingMode::ZeroPage)),
        0xA8 => Some(instruction(2, Operation::Tay, AddressingMode::Implied)),
        0xA9 => Some(instruction(2, Operation::Lda, AddressingMode::Immediate)),
        0xAA => Some(instruction(2, Operation::Tax, AddressingMode::Implied)),
        0xAC => Some(instruction(4, Operation::Ldy, AddressingMode::Absolute)),
        0xAD => Some(instruction(4, Operation::Lda, AddressingMode::Absolute)),
        0xAE => Some(instruction(4, Operation::Ldx, AddressingMode::Absolute)),
        0xB0 => Some(instruction(2, Operation::Bcs, AddressingMode::Relative)),
        0xB1 => Some(instruction(5, Operation::Lda, AddressingMode::IndirectY)),
        0xB4 => Some(instruction(4, Operation::Ldy, AddressingMode::ZeroPageX)),
        0xB5 => Some(instruction(4, Operation::Lda, AddressingMode::ZeroPageX)),
        0xB6 => Some(instruction(4, Operation::Ldx, AddressingMode::ZeroPageY)),
        0xB8 => Some(instruction(2, Operation::Clv, AddressingMode::Implied)),
        0xB9 => Some(instruction(4, Operation::Lda, AddressingMode::AbsoluteY)),
        0xBA => Some(instruction(2, Operation::Tsx, AddressingMode::Implied)),
        0xBC => Some(instruction(4, Operation::Ldy, AddressingMode::AbsoluteX)),
        0xBD => Some(instruction(4, Operation::Lda, AddressingMode::AbsoluteX)),
        0xBE => Some(instruction(4, Operation::Ldx, AddressingMode::AbsoluteY)),
        0xC0 => Some(instruction(2, Operation::Cpy, AddressingMode::Immediate)),
        0xC1 => Some(instruction(6, Operation::Cmp, AddressingMode::IndirectX)),
        0xC4 => Some(instruction(3, Operation::Cpy, AddressingMode::ZeroPage)),
        0xC5 => Some(instruction(3, Operation::Cmp, AddressingMode::ZeroPage)),
        0xC6 => Some(instruction(5, Operation::Dec, AddressingMode::ZeroPage)),
        0xC8 => Some(instruction(2, Operation::Iny, AddressingMode::Implied)),
        0xC9 => Some(instruction(2, Operation::Cmp, AddressingMode::Immediate)),
        0xCA => Some(instruction(2, Operation::Dex, AddressingMode::Implied)),
        0xCC => Some(instruction(4, Operation::Cpy, AddressingMode::Absolute)),
        0xCD => Some(instruction(4, Operation::Cmp, AddressingMode::Absolute)),
        0xCE => Some(instruction(6, Operation::Dec, AddressingMode::Absolute)),
        0xD0 => Some(instruction(2, Operation::Bne, AddressingMode::Relative)),
        0xD1 => Some(instruction(5, Operation::Cmp, AddressingMode::IndirectY)),
        0xD5 => Some(instruction(4, Operation::Cmp, AddressingMode::ZeroPageX)),
        0xD6 => Some(instruction(6, Operation::Dec, AddressingMode::ZeroPageX)),
        0xD8 => Some(instruction(2, Operation::Cld, AddressingMode::Implied)),
        0xD9 => Some(instruction(4, Operation::Cmp, AddressingMode::AbsoluteY)),
        0xDD => Some(instruction(4, Operation::Cmp, AddressingMode::AbsoluteX)),
        0xDE => Some(instruction(7, Operation::Dec, AddressingMode::AbsoluteX)),
        0xE0 => Some(instruction(2, Operation::Cpx, AddressingMode::Immediate)),
        0xE1 => Some(instruction(6, Operation::Sbc, AddressingMode::IndirectX)),
        0xE4 => Some(instruction(3, Operation::Cpx, AddressingMode::ZeroPage)),
        0xE5 => Some(instruction(3, Operation::Sbc, AddressingMode::ZeroPage)),
        0xE6 => Some(instruction(5, Operation::Inc, AddressingMode::ZeroPage)),
        0xE8 => Some(instruction(2, Operation::Inx, AddressingMode::Implied)),
        0xE9 => Some(instruction(2, Operation::Sbc, AddressingMode::Immediate)),
        0xEA => Some(instruction(2, Operation::Nop, AddressingMode::Implied)),
        0xEC => Some(instruction(4, Operation::Cpx, AddressingMode::Absolute)),
        0xED => Some(instruction(4, Operation::Sbc, AddressingMode::Absolute)),
        0xEE => Some(instruction(6, Operation::Inc, AddressingMode::Absolute)),
        0xF0 => Some(instruction(2, Operation::Beq, AddressingMode::Relative)),
        0xF1 => Some(instruction(5, Operation::Sbc, AddressingMode::IndirectY)),
        0xF5 => Some(instruction(4, Operation::Sbc, AddressingMode::ZeroPageX)),
        0xF6 => Some(instruction(6, Operation::Inc, AddressingMode::ZeroPageX)),
        0xF8 => Some(instruction(2, Operation::Sed, AddressingMode::Implied)),
        0xF9 => Some(instruction(4, Operation::Sbc, AddressingMode::AbsoluteY)),
        0xFD => Some(instruction(4, Operation::Sbc, AddressingMode::AbsoluteX)),
        0xFE => Some(instruction(7, Operation::Inc, AddressingMode::AbsoluteX)),
        _ => None,
    }
}

impl Instruction {
    /// The instruction with these three parts.
    pub fn new(cycles: u8, operate: Operation, mode: AddressingMode) -> (r: Instruction)
        ensures
            r == instruction(cycles, operate, mode),
    {
        Instruction { cycles, operate, mode }
    }
}

impl CPU {
    /// Decodes `opcode`; an opcode outside the table is an error.
    #[verifier::rlimit(50)]
    pub fn fetch_instruction(&self, opcode: u8) -> (r: Result<Instruction, CpuError>)
        ensures
            match decode(opcode) {
                Some(i) => r == Ok::<Instruction, CpuError>(i),
                None => r == Err::<Instruction, CpuError>(CpuError::InvalidOpcode(opcode)),
            },
    {
        reveal(decode);
        let instruction = match opcode {
            0x00 => Instruction::new(7, Operation::Brk, AddressingMode::Implied),
            0x01 => Instruction::new(6, Operation::Ora, AddressingMode::IndirectX),
            0x05 => Instruction::new(3, Operation::Ora, AddressingMode::ZeroPage),
            0x06 => Instruction::new(5, Operation::Asl, AddressingMode::ZeroPage),
            0x08 => Instruction::new(3, Operation::Php, AddressingMode::Implied),
            0x09 => Instruction::new(2, Operation::Ora, AddressingMode::Immediate),
            0x0A => Instruction::new(2, Operation::Asl, AddressingMode::Implied),
            0x0D => Instruction::new(4, Operation::Ora, AddressingMode::Absolute),
            0x0E => Instruction::new(6, Operation::Asl, AddressingMode::Absolute),
            0x10 => Instruction::new(2, Operation::Bpl, AddressingMode::Relative),
            0x11 => Instruction::new(5, Operation::Ora, AddressingMode::IndirectY),
            0x15 => Instruction::new(4, Operation::Ora, AddressingMode::ZeroPageX),
            0x16 => Instruction::new(6, Operation::Asl, AddressingMode::ZeroPageX),
            0x18 => Instruction::new(2, Operation::Clc, AddressingMode::Implied),
            0x19 => Instruction::new(4, Operation::Ora, AddressingMode::AbsoluteY),
            0x1D => Instruction::new(4, Operation::Ora, AddressingMode::AbsoluteX),
            0x1E => Instruction::new(7, Operation::Asl, AddressingMode::AbsoluteX),
            0x20 => Instruction::new(6, Operation::Jsr, AddressingMode::Absolute),
            0x21 => Instruction::new(6, Operation::And, AddressingMode::IndirectX),
            0x24 => Instruction::new(3, Operation::Bit, AddressingMode::ZeroPage),
            0x25 => Instruction::new(3, Operation::And, AddressingMode::ZeroPage),
            0x26 => Instruction::new(5, Operation::Rol, AddressingMode::ZeroPage),
            0x28 => Instruction::new(4, Operation::Plp, AddressingMode::Implied),
            0x29 => Instruction::new(2, Operation::And, AddressingMode::Immediate),
            0x2A => Instruction::new(2, Operation::Rol, AddressingMode::Implied),
            0x2C => Instruction::new(4, Operation::Bit, AddressingMode::Absolute),
            0x2D => Instruction::new(4, Operation::And, AddressingMode::Absolute),
            0x2E => Instruction::new(6, Operation::Rol, AddressingMode::Absolute),
            0x30 => Instruction::new(2, Operation::Bmi, AddressingMode::Relative),
            0x31 => Instruction::new(5, Operation::And, AddressingMode::IndirectY),
            0x35 => Instruction::new(4, Operation::And, AddressingMode::ZeroPageX),
            0x36 => Instruction::new(6, Operation::Rol, AddressingMode::ZeroPageX),
            0x38 => Instruction::new(2, Operation::Sec, AddressingMode::Implied),
            0x39 => Instruction::new(4, Operation::And, AddressingMode::AbsoluteY),
            0x3D => Instruction::new(4, Operation::And, AddressingMode::AbsoluteX),
            0x3E => Instruction::new(7, Operation::Rol, AddressingMode::AbsoluteX),
            0x40 => Instruction::new(6, Operation::Rti, AddressingMode::Implied),
            0x41 => Instruction::new(6, Operation::Eor, AddressingMode::IndirectX),
            0x45 => Instruction::new(3, Operation::Eor, AddressingMode::ZeroPage),
            0x46 => Instruction::new(5, Operation::Lsr, AddressingMode::ZeroPage),
            0x48 => Instruction::new(3, Operation::Pha, AddressingMode::Implied),
            0x49 => Instruction::new(2, Operation::Eor, AddressingMode::Immediate),
            0x4A => Instruction::new(2, Operation::Lsr, AddressingMode::Implied),
            0x4C => Instruction::new(3, Operation::Jmp, AddressingMode::Absolute),
            0x4D => Instruction::new(4, Operation::Eor, AddressingMode::Absolute),
            0x4E => Instruction::new(6, Operation::Lsr, AddressingMode::Absolute),
            0x50 => Instruction::new(2, Operation::Bvc, AddressingMode::Relative),
            0x51 => Instruction::new(5, Operation::Eor, AddressingMode::IndirectY),
            0x55 => Instruction::new(4, Operation::Eor, AddressingMode::ZeroPageX),
            0x56 => Instruction::new(6, Operation::Lsr, AddressingMode::ZeroPageX),
            0x58 => Instruction::new(2, Operation::Cli, AddressingMode::Implied),
            0x59 => Instruction::new(4, Operation::Eor, AddressingMode::AbsoluteY),
            0x5D => Instruction::new(4, Operation::Eor, AddressingMode::AbsoluteX),
            0x5E => Instruction::new(7, Operation::Lsr, AddressingMode::AbsoluteX),
            0x60 => Instruction::new(6, Operation::Rts, AddressingMode::Implied),
            0x61 => Instruction::new(6, Operation::Adc, AddressingMode::IndirectX),
            0x65 => Instruction::new(3, Operation::Adc, AddressingMode::ZeroPage),
            0x66 => Instruction::new(5, Operation::Ror, AddressingMode::ZeroPage),
            0x68 => Instruction::new(4, Operation::Pla, AddressingMode::Implied),
            0x69 => Instruction::new(2, Operation::Adc, AddressingMode::Immediate),
            0x6A => Instruction::new(2, Operation::Ror, AddressingMode::Implied),
            0x6C => Instruction::new(5, Operation::Jmp, AddressingMode::Indirect),
            0x6D => Instruction::new(4, Operation::Adc, AddressingMode::Absolute),
            0x6E => Instruction::new(6, Operation::Ror, AddressingMode::Absolute),
            0x70 => Instruction::new(2, Operation::Bvs, AddressingMode::Relative),
            0x71 => Instruction::new(5, Operation::Adc, AddressingMode::IndirectY),
            0x75 => Instruction::new(4, Operation::Adc, AddressingMode::ZeroPageX),
            0x76 => Instruction::new(6, Operation::Ror, AddressingMode::ZeroPageX),
            0x78 => Instruction::new(2, Operation::Sei, AddressingMode::Implied),
            0x79 => Instruction::new(4, Operation::Adc, AddressingMode::AbsoluteY),
            0x7D => Instruction::new(4, Operation::Adc, AddressingMode::AbsoluteX),
            0x7E => Instruction::new(7, Operation::Ror, AddressingMode::AbsoluteX),
            0x81 => Instruction::new(6, Operation::Sta, AddressingMode::IndirectX),
            0x84 => Instruction::new(3, Operation::Sty, AddressingMode::ZeroPage),
            0x85 => Instruction::new(3, Operation::Sta, AddressingMode::ZeroPage),
            0x86 => Instruction::new(3, Operation::Stx, AddressingMode::ZeroPage),
            0x88 => Instruction::new(2, Operation::Dey, AddressingMode::Implied),
            0x8A => Instruction::new(2, Operation::Txa, AddressingMode::Implied),
            0x8C => Instruction::new(4, Operation::Sty, AddressingMode::Absolute),
            0x8D => Instruction::new(4, Operation::Sta, AddressingMode::Absolute),
            0x8E => Instruction::new(4, Operation::Stx, AddressingMode::Absolute),
            0x90 => Instruction::new(2, Operation::Bcc, AddressingMode::Relative),
            0x91 => Instruction::new(6, Operation::Sta, AddressingMode::IndirectY),
            0x94 => Instruction::new(4, Operation::Sty, AddressingMode::ZeroPageX),
            0x95 => Instruction::new(4, Operation::Sta, AddressingMode::ZeroPageX),
            0x96 => Instruction::new(4, Operation::Stx, AddressingMode::ZeroPageY),
            0x98 => Instruction::new(2, Operation::Tya, AddressingMode::Implied),
            0x99 => Instruction::new(5, Operation::Sta, AddressingMode::AbsoluteY),
            0x9A => Instruction::new(2, Operation::Txs, AddressingMode::Implied),
            0x9D => Instruction::new(5, Operation::Sta, AddressingMode::AbsoluteX),
            0xA0 => Instruction::new(2, Operation::Ldy, AddressingMode::Immediate),
            0xA1 => Instruction::new(6, Operation::Lda, AddressingMode::IndirectX),
            0xA2 => Instruction::new(2, Operation::Ldx, AddressingMode::Immediate),
            0xA4 => Instruction::new(3, Operation::Ldy, AddressingMode::ZeroPage),
            0xA5 => Instruction::new(3, Operation::Lda, AddressingMode::ZeroPage),
            0xA6 => Instruction::new(3, Operation::Ldx, AddressingMode::ZeroPage),
            0xA8 => Instruction::new(2, Operation::Tay, AddressingMode::Implied),
            0xA9 => Instruction::new(2, Operation::Lda, AddressingMode::Immediate),
            0xAA => Instruction::new(2, Operation::Tax, AddressingMode::Implied),
            0xAC => Instruction::new(4, Operation::Ldy, AddressingMode::Absolute),
            0xAD => Instruction::new(4, Operation::Lda, AddressingMode::Absolute),
            0xAE => Instruction::new(4, Operation::Ldx, AddressingMode::Absolute),
            0xB0 => Instruction::new(2, Operation::Bcs, AddressingMode::Relative),
            0xB1 => Instruction::new(5, Operation::Lda, AddressingMode::IndirectY),
            0xB4 => Instruction::new(4, Operation::Ldy, AddressingMode::ZeroPageX),
            0xB5 => Instruction::new(4, Operation::Lda, AddressingMode::ZeroPageX),
            0xB6 => Instruction::new(4, Operation::Ldx, AddressingMode::ZeroPageY),
            0xB8 => Instruction::new(2, Operation::Clv, AddressingMode::Implied),
            0xB9 => Instruction::new(4, Operation::Lda, AddressingMode::AbsoluteY),
            0xBA => Instruction::new(2, Operation::Tsx, AddressingMode::Implied),
            0xBC => Instruction::new(4, Operation::Ldy, AddressingMode::AbsoluteX),
            0xBD => Instruction::new(4, Operation::Lda, AddressingMode::AbsoluteX),
            0xBE => Instruction::new(4, Operation::Ldx, AddressingMode::AbsoluteY),
            0xC0 => Instruction::new(2, Operation::Cpy, AddressingMode::Immediate),
            0xC1 => Instruction::new(6, Operation::Cmp, AddressingMode::IndirectX),
            0xC4 => Instruction::new(3, Operation::Cpy, AddressingMode::ZeroPage),
            0xC5 => Instruction::new(3, Operation::Cmp, AddressingMode::ZeroPage),
            0xC6 => Instruction::new(5, Operation::Dec, AddressingMode::ZeroPage),
            0xC8 => Instruction::new(2, Operation::Iny, AddressingMode::Implied),
            0xC9 => Instruction::new(2, Operation::Cmp, AddressingMode::Immediate),
            0xCA => Instruction::new(2, Operation::Dex, AddressingMode::Implied),
            0xCC => Instruction::new(4, Operation::Cpy, AddressingMode::Absolute),
            0xCD => Instruction::new(4, Operation::Cmp, AddressingMode::Absolute),
            0xCE => Instruction::new(6, Operation::Dec, AddressingMode::Absolute),
            0xD0 => Instruction::new(2, Operation::Bne, AddressingMode::Relative),
            0xD1 => Instruction::new(5, Operation::Cmp, AddressingMode::IndirectY),
            0xD5 => Instruction::new(4, Operation::Cmp, AddressingMode::ZeroPageX),
            0xD6 => Instruction::new(6, Operation::Dec, AddressingMode::ZeroPageX),
            0xD8 => Instruction::new(2, Operation::Cld, AddressingMode::Implied),
            0xD9 => Instruction::new(4, Operation::Cmp, AddressingMode::AbsoluteY),
            0xDD => Instruction::new(4, Operation::Cmp, AddressingMode::AbsoluteX),
            0xDE => Instruction::new(7, Operation::Dec, AddressingMode::AbsoluteX),
            0xE0 => Instruction::new(2, Operation::Cpx, AddressingMode::Immediate),
            0xE1 => Instruction::new(6, Operation::Sbc, AddressingMode::IndirectX),
            0xE4 => Instruction::new(3, Operation::Cpx, AddressingMode::ZeroPage),
            0xE5 => Instruction::new(3, Operation::Sbc, AddressingMode::ZeroPage),
            0xE6 => Instruction::new(5, Operation::Inc, AddressingMode::ZeroPage),
            0xE8 => Instruction::new(2, Operation::Inx, AddressingMode::Implied),
            0xE9 => Instruction::new(2, Operation::Sbc, AddressingMode::Immediate),
            0xEA => Instruction::new(2, Operation::Nop, AddressingMode::Implied),
            0xEC => Instruction::new(4, Operation::Cpx, AddressingMode::Absolute),
            0xED => Instruction::new(4, Operation::Sbc, AddressingMode::Absolute),
            0xEE => Instruction::new(6, Operation::Inc, AddressingMode::Absolute),
            0xF0 => Instruction::new(2, Operation::Beq, AddressingMode::Relative),
            0xF1 => Instruction::new(5, Operation::Sbc, AddressingMode::IndirectY),
            0xF5 => Instruction::new(4, Operation::Sbc, AddressingMode::ZeroPageX),
            0xF6 => Instruction::new(6, Operation::Inc, AddressingMode::ZeroPageX),
            0xF8 => Instruction::new(2, Operation::Sed, AddressingMode::Implied),
            0xF9 => Instruction::new(4, Operation::Sbc, AddressingMode::AbsoluteY),
            0xFD => Instruction::new(4, Operation::Sbc, AddressingMode::AbsoluteX),
            0xFE => Instruction::new(7, Operation::Inc, AddressingMode::AbsoluteX),
            _ => {
                return Err(CpuError::InvalidOpcode(opcode));
            },
        };
        Ok(instruction)
    }
}

} // verus!
