//! An interpreting emulator of the MOS 6502 processor.
//!
//! A host loads a program image, resets the processor and runs it until BRK; registers,
//! status and memory stay inspectable afterwards. Every instruction's effect is stated as a
//! function of the abstract state in `operations::operate`, and `laws` proves properties of
//! the instruction set over that model.
use vstd::prelude::*;

pub mod addressing;
pub mod cpu;
mod endian;
pub mod laws;
pub mod opcodes;
pub mod operations;
pub mod state;
pub mod status;

pub use addressing::AddressingMode;
pub use cpu::{CpuError, Registers, CPU};
pub use opcodes::Instruction;
pub use operations::Operation;
pub use state::Operand;
pub use status::StatusFlags;

verus! {

} // verus!
