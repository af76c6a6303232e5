//! Addressing modes: each consumes the operand bytes after the opcode and names the operand.
use vstd::prelude::*;

use crate::cpu::CPU;
use crate::state::{signed, wrap16, wrap8, CpuState, Operand};

verus! {

/// The twelve addressing modes.
#[derive(Clone, Copy, Debug, PartialEq, Eq)]
pub enum AddressingMode {
    Implied,
    Immediate,
    ZeroPage,
    ZeroPageX,
    ZeroPageY,
    Absolute,
    AbsoluteX,
    AbsoluteY,
    Indirect,
    IndirectX,
    IndirectY,
    Relative,
}

/// The state with the program counter moved `n` bytes forward.
pub open spec fn advanced(s: CpuState, n: int) -> CpuState {
    CpuState { pc: wrap16(s.pc + n), ..s }
}

/// What `mode` does when the program counter stands on its first operand byte: the state
/// with the program counter past the operand bytes, and the operand.
///
/// Indirect addressing reads the pointer's high byte from the next address even across a
/// page boundary; the NMOS chip's wrap within the page is not reproduced.
pub open spec fn resolve(s: CpuState, mode: AddressingMode) -> (CpuState, Operand) {
    let pc = s.pc;
    match mode {
        AddressingMode::Implied => (s, Operand::Accumulator),
        AddressingMode::Immediate => (advanced(s, 1), Operand::Address(pc)),
        AddressingMode::ZeroPage => (advanced(s, 1), Operand::Address(s.byte(pc) as u16)),
        AddressingMode::ZeroPageX => (
            advanced(s, 1),
            Operand::Address(wrap8(s.byte(pc) + s.x) as u16),
        ),
        AddressingMode::ZeroPageY => (
            advanced(s, 1),
            Operand::Address(wrap8(s.byte(pc) + s.y) as u16),
        ),
        AddressingMode::Absolute => (advanced(s, 2), Operand::Address(s.word(pc))),
        AddressingMode::AbsoluteX => (advanced(s, 2), Operand::Address(wrap16(s.word(pc) + s.x))),
        AddressingMode::AbsoluteY => (advanced(s, 2), Operand::Address(wrap16(s.word(pc) + s.y))),
        AddressingMode::Indirect => (advanced(s, 2), Operand::Address(s.word(s.word(pc)))),
        AddressingMode::IndirectX => (
            advanced(s, 1),
            Operand::Address(s.word(wrap8(s.byte(pc) + s.x) as u16)),
        ),
        AddressingMode::IndirectY => (
            advanced(s, 1),
            Operand::Address(wrap16(s.word(s.byte(pc) as u16) + s.y)),
        ),
        AddressingMode::Relative => (
            advanced(s, 1),
            Operand::Address(wrap16(pc + 1 + signed(s.byte(pc)))),
        ),
    }
}

impl CPU {
    /// Runs the addressing mode `mode`.
    pub(crate) fn resolve(&mut self, mode: AddressingMode) -> (r: Operand)
        ensures
            (final(self)@, r) == resolve(old(self)@, mode),
    {
        match mode {
            AddressingMode::Implied => self.implied(),
            AddressingMode::Immediate => self.immediate(),
            AddressingMode::ZeroPage => self.zero_page(),
            AddressingMode::ZeroPageX => self.zero_page_x(),
            AddressingMode::ZeroPageY => self.zero_page_y(),
            AddressingMode::Absolute => self.absolute(),
            AddressingMode::AbsoluteX => self.absolute_x(),
            AddressingMode::AbsoluteY => self.absolute_y(),
            AddressingMode::Indirect => self.indirect(),
            AddressingMode::IndirectX => self.indirect_x(),
            AddressingMode::IndirectY => self.indirect_y(),
            AddressingMode::Relative => self.relative(),
        }
    }

    fn implied(&mut self) -> (r: Operand)
        ensures
            (final(self)@, r) == resolve(old(self)@, AddressingMode::Implied),
    {
        Operand::Accumulator
    }

    fn immediate(&mut self) -> (r: Operand)
        ensures
            (final(self)@, r) == resolve(old(self)@, AddressingMode::Immediate),
    {
        let address = self.registers.pc;
        self.registers.pc = self.registers.pc.wrapping_add(1);
        Operand::Address(address)
    }

    fn absolute(&mut self) -> (r: Operand)
        ensures
            (final(self)@, r) == resolve(old(self)@, AddressingMode::Absolute),
    {
        let address = self.read_word(self.registers.pc);
        self.registers.pc = self.registers.pc.wrapping_add(2);
        Operand::Address(address)
    }

    fn absolute_x(&mut self) -> (r: Operand)
        ensures
            (final(self)@, r) == resolve(old(self)@, AddressingMode::AbsoluteX),
    {
        let address = self.read_word(self.registers.pc).wrapping_add(self.registers.x as u16);
        self.registers.pc = self.registers.pc.wrapping_add(2);
        Operand::Address(address)
    }

    fn absolute_y(&mut self) -> (r: Operand)
        ensures
            (final(self)@, r) == resolve(old(self)@, AddressingMode::AbsoluteY),
    {
        let address = self.read_word(self.registers.pc).wrapping_add(self.registers.y as u16);
        self.registers.pc = self.registers.pc.wrapping_add(2);
        Operand::Address(address)
    }

    fn zero_page(&mut self) -> (r: Operand)
        ensures
            (final(self)@, r) == resolve(old(self)@, AddressingMode::ZeroPage),
    {
        let address = self.read(self.registers.pc) as u16;
        self.registers.pc = self.registers.pc.wrapping_add(1);
        Operand::Address(address)
    }

    fn zero_page_x(&mut self) -> (r: Operand)
        ensures
            (final(self)@, r) == resolve(old(self)@, AddressingMode::ZeroPageX),
    {
        let address = self.read(self.registers.pc).wrapping_add(self.registers.x) as u16;
        self.registers.pc = self.registers.pc.wrapping_add(1);
        Operand::Address(address)
    }

    fn zero_page_y(&mut self) -> (r: Operand)
        ensures
            (final(self)@, r) == resolve(old(self)@, AddressingMode::ZeroPageY),
    {
        let address = self.read(self.registers.pc).wrapping_add(self.registers.y) as u16;
        self.registers.pc = self.registers.pc.wrapping_add(1);
        Operand::Address(address)
    }

    fn indirect(&mut self) -> (r: Operand)
        ensures
            (final(self)@, r) == resolve(old(self)@, AddressingMode::Indirect),
    {
        let pointer = self.read_word(self.registers.pc);
        let address = self.read_word(pointer);
        self.registers.pc = self.registers.pc.wrapping_add(2);
        Operand::Address(address)
    }

    fn indirect_x(&mut self) -> (r: Operand)
        ensures
            (final(self)@, r) == resolve(old(self)@, AddressingMode::IndirectX),
    {
        let pointer = self.read(self.registers.pc).wrapping_add(self.registers.x) as u16;
        let address = self.read_word(pointer);
        self.registers.pc = self.registers.pc.wrapping_add(1);
        Operand::Address(address)
    }

    fn indirect_y(&mut self) -> (r: Operand)
        ensures
            (final(self)@, r) == resolve(old(self)@, AddressingMode::IndirectY),
    {
        let pointer = self.read(self.registers.pc) as u16;
        let address = self.read_word(pointer).wrapping_add(self.registers.y as u16);
        self.registers.pc = self.registers.pc.wrapping_add(1);
        Operand::Address(address)
    }

    fn relative(&mut self) -> (r: Operand)
        ensures
            (final(self)@, r) == resolve(old(self)@, AddressingMode::Relative),
    {
        let offset = self.read(self.registers.pc);
        let next = self.registers.pc.wrapping_add(1);
        let target = if offset < 0x80 {
            next.wrapping_add(offset as u16)
        } else {
            next.wrapping_sub(0x100 - offset as u16)
        };
        self.registers.pc = next;
        Operand::Address(target)
    }

    /// The value of `operand`: the accumulator, or the byte at its address.
    pub(crate) fn read_operand(&self, operand: Operand) -> (r: u8)
        ensures
            r == self@.operand_value(operand),
    {
        match operand {
            Operand::Accumulator => self.registers.a,
            Operand::Address(address) => self.read(address),
        }
    }

    /// Writes `value` through `operand`.
    pub(crate) fn write_operand(&mut self, operand: Operand, value: u8)
        ensures
            final(self)@ == old(self)@.with_operand(operand, value),
    {
        match operand {
            Operand::Accumulator => self.registers.a = value,
            Operand::Address(address) => self.write(address, value),
        }
    }
}

} // verus!
