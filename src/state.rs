//! The mathematical model of the processor: registers, status byte and a 64 KiB memory.
use vstd::prelude::*;

verus! {

/// Number of addressable memory cells.
pub const MEMORY_SIZE: usize = 0x10000;

/// The abstract state of the processor.
pub struct CpuState {
    pub a: u8,
    pub x: u8,
    pub y: u8,
    pub sp: u8,
    pub pc: u16,
    pub p: u8,
    pub memory: Seq<u8>,
}

/// What an instruction reads and writes: the accumulator, or a memory cell.
/// For jumps and branches the address is the destination.
#[derive(Clone, Copy, Debug, PartialEq, Eq)]
pub enum Operand {
    Accumulator,
    Address(u16),
}

/// `v` modulo 256.
pub open spec fn wrap8(v: int) -> u8 {
    (v % 0x100) as u8
}

/// `v` modulo 65536.
pub open spec fn wrap16(v: int) -> u16 {
    (v % 0x10000) as u16
}

/// The two's-complement value of a byte.
pub open spec fn signed(b: u8) -> int {
    if b < 0x80 {
        b as int
    } else {
        b as int - 0x100
    }
}

/// The 16-bit value with low byte `lo` and high byte `hi`.
pub open spec fn word_of(lo: u8, hi: u8) -> u16 {
    (lo as int + 0x100 * hi as int) as u16
}

/// Address of the stack cell that `sp` designates.
pub open spec fn stack_address(sp: u8) -> int {
    0x100 + sp as int
}

impl CpuState {
    /// The memory has its 65,536 cells.
    pub open spec fn wf(self) -> bool {
        self.memory.len() == MEMORY_SIZE
    }

    /// The byte at `address`.
    pub open spec fn byte(self, address: u16) -> u8 {
        self.memory[address as int]
    }

    /// The little-endian word at `address`; the high byte's address wraps at 65536.
    pub open spec fn word(self, address: u16) -> u16 {
        word_of(self.byte(address), self.byte(wrap16(address + 1)))
    }

    /// The state with `value` stored at `address`.
    pub open spec fn with_byte(self, address: u16, value: u8) -> CpuState {
        CpuState { memory: self.memory.update(address as int, value), ..self }
    }

    /// The state with `value` stored little-endian at `address`.
    pub open spec fn with_word(self, address: u16, value: u16) -> CpuState {
        self.with_byte(address, (value % 0x100) as u8).with_byte(
            wrap16(address + 1),
            (value / 0x100) as u8,
        )
    }

    /// The value an instruction reads through `operand`.
    pub open spec fn operand_value(self, operand: Operand) -> u8 {
        match operand {
            Operand::Accumulator => self.a,
            Operand::Address(address) => self.byte(address),
        }
    }

    /// The state after an instruction writes `value` through `operand`.
    pub open spec fn with_operand(self, operand: Operand, value: u8) -> CpuState {
        match operand {
            Operand::Accumulator => CpuState { a: value, ..self },
            Operand::Address(address) => self.with_byte(address, value),
        }
    }

    /// The state after pushing `value`: it is stored at the current stack cell and SP moves down.
    pub open spec fn push(self, value: u8) -> CpuState {
        CpuState {
            memory: self.memory.update(stack_address(self.sp), value),
            sp: wrap8(self.sp - 1),
            ..self
        }
    }

    /// The state after pulling: SP moves up.
    pub open spec fn pulled(self) -> CpuState {
        CpuState { sp: wrap8(self.sp + 1), ..self }
    }

    /// The byte a pull returns: the one at the cell above SP.
    pub open spec fn pull_value(self) -> u8 {
        self.memory[stack_address(wrap8(self.sp + 1))]
    }

    /// The state after pushing a word, high byte first.
    pub open spec fn push_word(self, value: u16) -> CpuState {
        self.push((value / 0x100) as u8).push((value % 0x100) as u8)
    }

    /// The state after pulling a word.
    pub open spec fn pulled_word(self) -> CpuState {
        self.pulled().pulled()
    }

    /// The word a pull of two bytes returns, low byte first.
    pub open spec fn pull_word_value(self) -> u16 {
        word_of(self.pull_value(), self.pulled().pull_value())
    }
}

} // verus!
