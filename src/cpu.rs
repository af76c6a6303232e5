//! The processor: registers, status, memory bus, stack, and the reset / load / run surface.
use vstd::prelude::*;

use crate::addressing::{advanced, resolve};
use crate::endian::{read_le_u16, write_le_u16};
use crate::opcodes::decode;
use crate::operations::{operate, Operation};
use crate::state::{CpuState, Operand, MEMORY_SIZE};
use crate::status::{StatusFlags, INITIAL_STATUS};

verus! {

/// Where `load` places a program image.
pub const PROGRAM_START: u16 = 0x8000;

/// Where the reset vector, the program counter's initial value, is stored.
pub const RESET_VECTOR: u16 = 0xFFFC;

/// The largest image that fits between `PROGRAM_START` and $FFFE.
pub const MAX_IMAGE_LEN: usize = 0x7FFF;

/// Why loading or running stopped short.
#[derive(Clone, Copy, Debug, PartialEq, Eq)]
pub enum CpuError {
    /// The byte at the program counter encodes no instruction.
    InvalidOpcode(u8),
    /// The program image does not fit between $8000 and $FFFE.
    ImageTooLarge,
    /// The step budget ran out before a BRK was reached.
    StepLimitReached,
}

/// The state after reset: registers zeroed, PC from the reset vector, the initial status.
pub open spec fn after_reset(s: CpuState) -> CpuState {
    CpuState {
        a: 0,
        x: 0,
        y: 0,
        sp: 0,
        pc: s.word(RESET_VECTOR),
        p: INITIAL_STATUS,
        memory: s.memory,
    }
}

/// `memory` with `image` copied from $8000 on and the reset vector pointing at $8000.
pub open spec fn loaded_memory(memory: Seq<u8>, image: Seq<u8>) -> Seq<u8> {
    Seq::new(
        MEMORY_SIZE as nat,
        |i: int|
            if i == RESET_VECTOR {
                0x00
            } else if i == RESET_VECTOR + 1 {
                0x80
            } else if PROGRAM_START <= i < PROGRAM_START + image.len() {
                image[i - PROGRAM_START]
            } else {
                memory[i]
            },
    )
}

/// The state after `load` of `image`.
pub open spec fn after_load(s: CpuState, image: Seq<u8>) -> CpuState {
    CpuState { memory: loaded_memory(s.memory, image), ..s }
}

/// One fetch-decode-execute step: the next state, and whether BRK halted the run (`Ok(true)`),
/// an instruction was carried out (`Ok(false)`), or the opcode is not in the table.
/// BRK sets I and leaves the program counter on the BRK.
pub open spec fn step_result(s: CpuState) -> (CpuState, Result<bool, CpuError>) {
    let opcode = s.byte(s.pc);
    if opcode == 0x00 {
        (operate(s, Operation::Brk, Operand::Accumulator), Ok(true))
    } else {
        match decode(opcode) {
            None => (s, Err(CpuError::InvalidOpcode(opcode))),
            Some(i) => {
                let (t, operand) = resolve(advanced(s, 1), i.mode);
                (operate(t, i.operate, operand), Ok(false))
            },
        }
    }
}

/// Steps until BRK, a decode failure, or `fuel` steps have been taken.
pub open spec fn run_result(s: CpuState, fuel: nat) -> (CpuState, Result<(), CpuError>)
    decreases fuel,
{
    if fuel == 0 {
        (s, Err(CpuError::StepLimitReached))
    } else {
        let (t, r) = step_result(s);
        match r {
            Ok(true) => (t, Ok(())),
            Ok(false) => run_result(t, (fuel - 1) as nat),
            Err(e) => (t, Err(e)),
        }
    }
}

/// The eight-bit registers and the program counter.
#[derive(Clone, Copy, Debug, PartialEq, Eq)]
pub struct Registers {
    pub a: u8,
    pub x: u8,
    pub y: u8,
    pub sp: u8,
    pub pc: u16,
}

/// A 6502 with its 64 KiB of memory.
pub struct CPU {
    pub registers: Registers,
    pub status: StatusFlags,
    pub memory: [u8; MEMORY_SIZE],
}

impl View for CPU {
    type V = CpuState;

    open spec fn view(&self) -> CpuState {
        CpuState {
            a: self.registers.a,
            x: self.registers.x,
            y: self.registers.y,
            sp: self.registers.sp,
            pc: self.registers.pc,
            p: self.status.bits,
            memory: self.memory@,
        }
    }
}

impl CPU {
    /// A processor with zeroed registers, the reset status and zeroed memory.
    pub fn new() -> (r: CPU)
        ensures
            r@.wf(),
            r@.a == 0 && r@.x == 0 && r@.y == 0 && r@.sp == 0 && r@.pc == 0,
            r@.p == INITIAL_STATUS,
            forall|i: int| 0 <= i < MEMORY_SIZE ==> r@.memory[i] == 0,
    {
        CPU {
            registers: Registers { a: 0, x: 0, y: 0, sp: 0, pc: 0 },
            status: StatusFlags::from_bits(INITIAL_STATUS),
            memory: [0u8; MEMORY_SIZE],
        }
    }

    /// The byte at `address`.
    pub fn read(&self, address: u16) -> (r: u8)
        ensures
            r == self@.byte(address),
    {
        self.memory[address as usize]
    }

    /// Stores `value` at `address`.
    pub fn write(&mut self, address: u16, value: u8)
        ensures
            final(self)@ == old(self)@.with_byte(address, value),
    {
        self.memory[address as usize] = value;
    }

    /// The little-endian word at `address`; the high byte comes from `address + 1` modulo 65536.
    pub fn read_word(&self, address: u16) -> (r: u16)
        ensures
            r == self@.word(address),
    {
        let lo = self.read(address);
        let hi = self.read(address.wrapping_add(1));
        read_le_u16(lo, hi)
    }

    /// Stores `value` little-endian at `address` and `address + 1` modulo 65536.
    pub fn write_word(&mut self, address: u16, value: u16)
        ensures
            final(self)@ == old(self)@.with_word(address, value),
    {
        let (lo, hi) = write_le_u16(value);
        self.write(address, lo);
        self.write(address.wrapping_add(1), hi);
    }

    /// Pushes `value` onto the stack in page 1.
    pub fn push(&mut self, value: u8)
        ensures
            final(self)@ == old(self)@.push(value),
    {
        let sp = self.registers.sp;
        self.write(0x0100 + sp as u16, value);
        self.registers.sp = sp.wrapping_sub(1);
    }

    /// Pulls a byte from the stack in page 1.
    pub fn pull(&mut self) -> (r: u8)
        ensures
            r == old(self)@.pull_value(),
            final(self)@ == old(self)@.pulled(),
    {
        let sp = self.registers.sp.wrapping_add(1);
        self.registers.sp = sp;
        self.read(0x0100 + sp as u16)
    }

    /// Pushes a word, high byte first.
    pub fn push_word(&mut self, value: u16)
        ensures
            final(self)@ == old(self)@.push_word(value),
    {
        let (lo, hi) = write_le_u16(value);
        self.push(hi);
        self.push(lo);
    }

    /// Pulls a word, low byte first.
    pub fn pull_word(&mut self) -> (r: u16)
        ensures
            r == old(self)@.pull_word_value(),
            final(self)@ == old(self)@.pulled_word(),
    {
        let lo = self.pull();
        let hi = self.pull();
        read_le_u16(lo, hi)
    }

    /// Zeroes A, X, Y and SP, loads PC from the reset vector and restores the initial status.
    pub fn reset(&mut self)
        ensures
            final(self)@ == after_reset(old(self)@),
    {
        let pc = self.read_word(RESET_VECTOR);
        self.registers = Registers { a: 0, x: 0, y: 0, sp: 0, pc };
        self.status = StatusFlags::from_bits(INITIAL_STATUS);
    }

    /// Copies `data` into memory from $8000 on and points the reset vector at $8000.
    /// An image longer than `MAX_IMAGE_LEN` is refused and nothing changes.
    pub fn load(&mut self, data: Vec<u8>) -> (r: Result<(), CpuError>)
        ensures
            data@.len() <= MAX_IMAGE_LEN ==> r == Ok::<(), CpuError>(()) && final(self)@ == after_load(
                old(self)@,
                data@,
            ),
            data@.len() > MAX_IMAGE_LEN ==> r == Err::<(), CpuError>(CpuError::ImageTooLarge)
                && final(self)@ == old(self)@,
    {
        if data.len() > MAX_IMAGE_LEN {
            return Err(CpuError::ImageTooLarge);
        }
        let ghost start = self@;
        let mut i: usize = 0;
        while i < data.len()
            invariant
                i <= data@.len() <= MAX_IMAGE_LEN,
                self@.memory.len() == MEMORY_SIZE,
                self.registers == old(self).registers,
                self.status == old(self).status,
                forall|j: int|
                    0 <= j < MEMORY_SIZE ==> #[trigger] self@.memory[j] == if PROGRAM_START <= j
                        < PROGRAM_START + i {
                        data@[j - PROGRAM_START]
                    } else {
                        start.memory[j]
                    },
            decreases data@.len() - i,
        {
            self.memory[0x8000 + i] = data[i];
            i = i + 1;
        }
        self.write_word(RESET_VECTOR, PROGRAM_START);
        assert(self@.memory =~= loaded_memory(start.memory, data@));
        Ok(())
    }

    /// Carries out the instruction at the program counter. BRK (opcode $00) sets I, leaves PC on
    /// it and reports `Ok(true)`; another opcode of the table is executed and gives `Ok(false)`;
    /// any other opcode is an error and changes nothing.
    pub fn step(&mut self) -> (r: Result<bool, CpuError>)
        ensures
            (final(self)@, r) == step_result(old(self)@),
    {
        let opcode = self.read(self.registers.pc);
        if opcode == 0x00 {
            self.execute(Operation::Brk, Operand::Accumulator);
            return Ok(true);
        }
        let instruction = match self.fetch_instruction(opcode) {
            Ok(instruction) => instruction,
            Err(e) => {
                return Err(e);
            },
        };
        self.registers.pc = self.registers.pc.wrapping_add(1);
        let operand = self.resolve(instruction.mode);
        self.execute(instruction.operate, operand);
        Ok(false)
    }

    /// Steps until BRK halts the run (`Ok`), an opcode fails to decode, or `max_steps` steps,
    /// BRK included, have been taken without reaching BRK.
    pub fn run_for(&mut self, max_steps: u64) -> (r: Result<(), CpuError>)
        ensures
            (final(self)@, r) == run_result(old(self)@, max_steps as nat),
    {
        let mut remaining = max_steps;
        while remaining > 0
            invariant
                run_result(self@, remaining as nat) == run_result(old(self)@, max_steps as nat),
            decreases remaining,
        {
            match self.step() {
                Ok(true) => {
                    return Ok(());
                },
                Ok(false) => {},
                Err(e) => {
                    return Err(e);
                },
            }
            remaining = remaining - 1;
        }
        Err(CpuError::StepLimitReached)
    }

    /// Runs until BRK or a decode failure. The step budget is `u64::MAX`, which no real program
    /// exhausts.
    pub fn run(&mut self) -> (r: Result<(), CpuError>)
        ensures
            (final(self)@, r) == run_result(old(self)@, u64::MAX as nat),
    {
        self.run_for(u64::MAX)
    }

    /// Loads `data`, resets and runs.
    pub fn load_and_run(&mut self, data: Vec<u8>) -> (r: Result<(), CpuError>)
        ensures
            data@.len() <= MAX_IMAGE_LEN ==> (final(self)@, r) == run_result(
                after_reset(after_load(old(self)@, data@)),
                u64::MAX as nat,
            ),
            data@.len() > MAX_IMAGE_LEN ==> r == Err::<(), CpuError>(CpuError::ImageTooLarge)
                && final(self)@ == old(self)@,
    {
        if let Err(e) = self.load(data) {
            return Err(e);
        }
        self.reset();
        self.run()
    }
}

} // verus!
