use vstd::prelude::*;

verus! {

/// Why loading or running a program failed.
#[derive(Debug, Clone, Copy, PartialEq, Eq, Structural)]
pub enum EmuError {
    /// The image (of `size` bytes) does not fit into memory of `capacity` bytes.
    LoadCapacityExceeded { size: usize, capacity: usize },
    /// A byte was read at `offset`, which lies outside the loaded memory.
    OutOfBounds { offset: usize },
    /// The opcode at `offset` is not one this interpreter knows.
    UnrecognizedOpcode { offset: usize },
    /// The short jump at `offset` leads outside the 32-bit address space.
    JumpOutOfRange { offset: usize },
    /// The program ran as many cycles as memory has bytes without ending.
    /// Control flow depends on memory and the instruction pointer alone, so it
    /// has come back to an offset it ran from before and would run forever;
    /// `offset` is where it stood.
    NonTerminating { offset: usize },
}

} // verus!
