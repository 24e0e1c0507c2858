//! A small interpreter for a subset of 32-bit x86 machine code: a register
//! file, a bounded byte memory and an instruction pointer, driven by a
//! fetch-decode-execute loop.
pub mod emulator;
pub mod error;
pub mod instruction;
pub mod termination;

pub use emulator::{Cycle, Emulator, DEFAULT_CAPACITY};
pub use error::EmuError;
pub use instruction::{decode, Instruction, REGISTER_SIZE};
