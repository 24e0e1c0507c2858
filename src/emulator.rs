use vstd::prelude::*;

use crate::error::EmuError;
use crate::instruction::{decode, decode_spec, Instruction, REGISTER_SIZE};

verus! {

/// Memory capacity of an emulator made by `Emulator::new`.
pub const DEFAULT_CAPACITY: usize = 1024;

/// The abstract state of an emulator.
pub struct EmuState {
    /// The eight general-purpose registers, EAX to EDI.
    pub registers: Seq<u32>,
    /// The flags word.
    pub eflags: u32,
    /// The loaded image: every addressable byte.
    pub memory: Seq<u8>,
    /// The largest image that memory takes.
    pub capacity: usize,
    /// The instruction pointer.
    pub eip: u32,
}

/// The little-endian 32-bit value of four bytes.
pub open spec fn le32(b0: u8, b1: u8, b2: u8, b3: u8) -> u32 {
    (b0 as u32) | ((b1 as u32) << 8u32) | ((b2 as u32) << 16u32) | ((b3 as u32) << 24u32)
}

/// `le32` is the base-256 number with the bytes as digits, lowest first.
pub proof fn lemma_le32_value(b0: u8, b1: u8, b2: u8, b3: u8)
    ensures
        le32(b0, b1, b2, b3) == b0 + 0x100 * b1 + 0x1_0000 * b2 + 0x100_0000 * b3,
{
    assert(le32(b0, b1, b2, b3) == b0 + 0x100 * b1 + 0x1_0000 * b2 + 0x100_0000 * b3) by (bit_vector);
}

/// The little-endian value of the `n` bytes of `mem` from `start` on.
pub open spec fn le_prefix(mem: Seq<u8>, start: int, n: nat) -> u32
    decreases n,
{
    if n == 0 {
        0
    } else {
        le_prefix(mem, start, (n - 1) as nat) | ((mem[start + n - 1] as u32) << (8 * (n - 1)) as u32)
    }
}

/// A run of four little-endian bytes is the value `le32` gives.
pub proof fn lemma_le_prefix_four(mem: Seq<u8>, start: int)
    ensures
        le_prefix(mem, start, 4) == le32(
            mem[start],
            mem[start + 1],
            mem[start + 2],
            mem[start + 3],
        ),
{
    reveal_with_fuel(le_prefix, 5);
    let b0 = mem[start] as u32;
    let b1 = mem[start + 1] as u32;
    let b2 = mem[start + 2] as u32;
    let b3 = mem[start + 3] as u32;
    assert((0u32 | (b0 << 0u32)) | (b1 << 8u32) | (b2 << 16u32) | (b3 << 24u32) == b0 | (b1 << 8u32)
        | (b2 << 16u32) | (b3 << 24u32)) by (bit_vector);
}

/// An index past `usize::MAX` stands as `usize::MAX`, which is never in memory.
pub open spec fn clip(i: int) -> int {
    if i > usize::MAX {
        usize::MAX as int
    } else {
        i
    }
}

/// The byte at `offset`, if it lies in memory.
pub open spec fn read_spec(s: EmuState, offset: int) -> Result<u8, EmuError> {
    if 0 <= offset < s.memory.len() {
        Ok(s.memory[offset])
    } else {
        Err(EmuError::OutOfBounds { offset: clip(offset) as usize })
    }
}

/// The little-endian 32-bit value at `offset`, or the first offset of the
/// four that lies outside memory.
pub open spec fn read_le32_spec(s: EmuState, offset: int) -> Result<u32, EmuError> {
    if offset + 4 <= s.memory.len() {
        Ok(
            le32(
                s.memory[offset],
                s.memory[offset + 1],
                s.memory[offset + 2],
                s.memory[offset + 3],
            ),
        )
    } else if offset >= s.memory.len() {
        Err(EmuError::OutOfBounds { offset: clip(offset) as usize })
    } else {
        Err(EmuError::OutOfBounds { offset: s.memory.len() as usize })
    }
}

/// How a cycle of the fetch-decode-execute loop ended.
#[derive(Debug, Clone, Copy, PartialEq, Eq, Structural)]
pub enum Cycle {
    /// An instruction ran and the program goes on.
    Running,
    /// An instruction ran and left the instruction pointer at 0: the program halts.
    Halted,
    /// The instruction pointer lies outside memory: the program has ended.
    Ended,
}

/// The effect of the instruction at the instruction pointer, which lies in
/// memory: the next state, or why the instruction failed.
pub open spec fn execute_spec(s: EmuState) -> Result<EmuState, EmuError> {
    let at = s.eip as int;
    match decode_spec(s.memory[at]) {
        Instruction::MovR32Imm32(r) => match read_le32_spec(s, at + 1) {
            Ok(v) => Ok(EmuState { registers: s.registers.update(r as int, v), eip: (at + 5) as u32, ..s }),
            Err(e) => Err(e),
        },
        Instruction::ShortJump => match read_spec(s, at + 1) {
            Ok(d) => {
                let target = at + 2 + (d as i8) as int;
                if 0 <= target <= u32::MAX {
                    Ok(EmuState { eip: target as u32, ..s })
                } else {
                    Err(EmuError::JumpOutOfRange { offset: s.eip as usize })
                }
            },
            Err(e) => Err(e),
        },
        Instruction::NotImplemented => Err(EmuError::UnrecognizedOpcode { offset: s.eip as usize }),
    }
}

/// One cycle: the state after it, and how it ended. A failed instruction
/// leaves the state as it was.
pub open spec fn step_spec(s: EmuState) -> (EmuState, Result<Cycle, EmuError>) {
    if s.eip >= s.memory.len() {
        (s, Ok(Cycle::Ended))
    } else {
        match execute_spec(s) {
            Ok(t) => (t, Ok(if t.eip == 0 { Cycle::Halted } else { Cycle::Running })),
            Err(e) => (s, Err(e)),
        }
    }
}

/// Up to `fuel` cycles from `s`: the final state and the outcome. When the
/// fuel runs out before the program ends, the outcome is `NonTerminating`.
pub open spec fn run_from(s: EmuState, fuel: nat) -> (EmuState, Result<(), EmuError>)
    decreases fuel,
{
    if s.eip >= s.memory.len() {
        (s, Ok(()))
    } else if fuel == 0 {
        (s, Err(EmuError::NonTerminating { offset: s.eip as usize }))
    } else {
        match step_spec(s) {
            (t, Ok(Cycle::Running)) => run_from(t, (fuel - 1) as nat),
            (t, Ok(_)) => (t, Ok(())),
            (t, Err(e)) => (t, Err(e)),
        }
    }
}

/// What a whole run from `s` gives. Control flow depends on the instruction
/// pointer alone, and every cycle that goes on starts inside memory, so a
/// program that has not ended after as many cycles as memory has bytes has
/// come back to an offset it ran from before, and never ends.
pub open spec fn run_spec(s: EmuState) -> (EmuState, Result<(), EmuError>) {
    run_from(s, s.memory.len())
}

/// Four bytes held in memory at `o` read back as their little-endian value.
pub proof fn lemma_read_le32_loaded(s: EmuState, o: int, b0: u8, b1: u8, b2: u8, b3: u8)
    requires
        0 <= o,
        o + 4 <= s.memory.len(),
        s.memory[o] == b0,
        s.memory[o + 1] == b1,
        s.memory[o + 2] == b2,
        s.memory[o + 3] == b3,
    ensures
        read_le32_spec(s, o) == Ok::<u32, EmuError>(
            (b0 as u32) | ((b1 as u32) << 8u32) | ((b2 as u32) << 16u32) | ((b3 as u32) << 24u32),
        ),
{
}

/// An emulated CPU: registers, flags, memory and instruction pointer.
#[derive(Debug)]
pub struct Emulator {
    registers: [u32; REGISTER_SIZE],
    eflags: u32,
    memory: Vec<u8>,
    memory_capacity: usize,
    eip: u32,
}

impl View for Emulator {
    type V = EmuState;

    closed spec fn view(&self) -> EmuState {
        EmuState {
            registers: self.registers@,
            eflags: self.eflags,
            memory: self.memory@,
            capacity: self.memory_capacity,
            eip: self.eip,
        }
    }
}

impl Emulator {
    /// The state invariant: eight registers, and an image within a capacity
    /// that 32-bit addresses can reach.
    pub open spec fn wf(&self) -> bool {
        &&& self@.registers.len() == REGISTER_SIZE
        &&& self@.memory.len() <= self@.capacity
        &&& self@.capacity <= u32::MAX
    }

    /// An emulator with all registers zero, empty memory of the default
    /// capacity, and the instruction pointer at 0.
    pub fn new() -> (r: Emulator)
        ensures
            r.wf(),
            r@.registers == Seq::new(REGISTER_SIZE as nat, |i: int| 0u32),
            r@.eflags == 0,
            r@.memory.len() == 0,
            r@.capacity == DEFAULT_CAPACITY,
            r@.eip == 0,
    {
        Emulator::with_config(DEFAULT_CAPACITY, 0)
    }

    /// An emulator with all registers zero, empty memory of `capacity` bytes,
    /// and the instruction pointer at `entry`. A program image that is meant to
    /// run from a fixed address is padded to that address by the caller.
    pub fn with_config(capacity: usize, entry: u32) -> (r: Emulator)
        requires
            capacity <= u32::MAX,
        ensures
            r.wf(),
            r@.registers == Seq::new(REGISTER_SIZE as nat, |i: int| 0u32),
            r@.eflags == 0,
            r@.memory.len() == 0,
            r@.capacity == capacity,
            r@.eip == entry,
    {
        let r = Emulator {
            registers: [0, 0, 0, 0, 0, 0, 0, 0],
            eflags: 0,
            memory: Vec::new(),
            memory_capacity: capacity,
            eip: entry,
        };
        assert(r@.registers =~= Seq::new(REGISTER_SIZE as nat, |i: int| 0u32));
        r
    }

    /// Makes `codes` the whole memory, if it fits; otherwise fails and leaves
    /// the emulator as it was.
    pub fn load(self: &mut Self, codes: Vec<u8>) -> (r: Result<(), EmuError>)
        requires
            old(self).wf(),
        ensures
            final(self).wf(),
            codes@.len() > old(self)@.capacity ==> r == Err::<(), EmuError>(
                EmuError::LoadCapacityExceeded { size: codes@.len() as usize, capacity: old(self)@.capacity },
            ) && final(self)@ == old(self)@,
            codes@.len() <= old(self)@.capacity ==> r == Ok::<(), EmuError>(()) && final(self)@ == (
            EmuState { memory: codes@, ..old(self)@ }),
    {
        if codes.len() > self.memory_capacity {
            Err(EmuError::LoadCapacityExceeded { size: codes.len(), capacity: self.memory_capacity })
        } else {
            self.memory = codes;
            Ok(())
        }
    }

    /// A snapshot of the eight general-purpose registers.
    pub fn registers(self: &Self) -> (r: [u32; REGISTER_SIZE])
        ensures
            r@ == self@.registers,
    {
        self.registers
    }

    /// The general-purpose register with index `idx`.
    pub fn register(self: &Self, idx: usize) -> (r: u32)
        requires
            self.wf(),
            idx < REGISTER_SIZE,
        ensures
            r == self@.registers[idx as int],
    {
        self.registers[idx]
    }

    /// Sets the general-purpose register with index `idx` to `v`.
    pub fn set_register(self: &mut Self, idx: usize, v: u32)
        requires
            old(self).wf(),
            idx < REGISTER_SIZE,
        ensures
            final(self).wf(),
            final(self)@ == (EmuState { registers: old(self)@.registers.update(idx as int, v), ..old(self)@ }),
    {
        self.registers[idx] = v;
    }

    /// The instruction pointer.
    pub fn eip(self: &Self) -> (r: u32)
        ensures
            r == self@.eip,
    {
        self.eip
    }

    /// Moves the instruction pointer to `eip`.
    pub fn set_eip(self: &mut Self, eip: u32)
        requires
            old(self).wf(),
        ensures
            final(self).wf(),
            final(self)@ == (EmuState { eip, ..old(self)@ }),
    {
        self.eip = eip;
    }

    /// The flags word.
    pub fn eflags(self: &Self) -> (r: u32)
        ensures
            r == self@.eflags,
    {
        self.eflags
    }

    /// Sets the flags word to `eflags`.
    pub fn set_eflags(self: &mut Self, eflags: u32)
        requires
            old(self).wf(),
        ensures
            final(self).wf(),
            final(self)@ == (EmuState { eflags, ..old(self)@ }),
    {
        self.eflags = eflags;
    }

    /// The number of bytes loaded.
    pub fn code_size(self: &Self) -> (r: usize)
        ensures
            r == self@.memory.len(),
    {
        self.memory.len()
    }

    /// The largest image that can be loaded.
    pub fn capacity(self: &Self) -> (r: usize)
        ensures
            r == self@.capacity,
    {
        self.memory_capacity
    }

    /// The byte `offset` bytes past the instruction pointer.
    pub fn fetch_8(self: &Self, offset: usize) -> (r: Result<u8, EmuError>)
        ensures
            r == read_spec(self@, self@.eip + offset),
    {
        let idx = (self.eip as usize).saturating_add(offset);
        if idx < self.memory.len() {
            Ok(self.memory[idx])
        } else {
            Err(EmuError::OutOfBounds { offset: idx })
        }
    }

    /// The byte `offset` bytes past the instruction pointer, as a signed value.
    pub fn fetch_signed_8(self: &Self, offset: usize) -> (r: Result<i8, EmuError>)
        ensures
            r == match read_spec(self@, self@.eip + offset) {
                Ok(b) => Ok::<i8, EmuError>(b as i8),
                Err(e) => Err(e),
            },
    {
        let idx = (self.eip as usize).saturating_add(offset);
        if idx < self.memory.len() {
            Ok(self.memory[idx] as i8)
        } else {
            Err(EmuError::OutOfBounds { offset: idx })
        }
    }

    /// The little-endian 32-bit value that starts `offset` bytes past the
    /// instruction pointer. No alignment is required.
    pub fn fetch_32(self: &Self, offset: usize) -> (r: Result<u32, EmuError>)
        ensures
            r == read_le32_spec(self@, self@.eip + offset),
    {
        let len = self.memory.len();
        let mut val: u32 = 0;
        let mut i: usize = 0;
        while i < 4
            invariant
                len == self@.memory.len(),
                i <= 4,
                i == 0 || self@.eip + offset + i <= self@.memory.len(),
                val == le_prefix(self@.memory, self@.eip + offset, i as nat),
            decreases 4 - i,
        {
            let b = match self.fetch_8(offset.saturating_add(i)) {
                Ok(b) => b,
                Err(e) => return Err(e),
            };
            let v = (b as u32) << ((i * 8) as u32);
            val = val | v;
            i = i + 1;
        }
        proof {
            lemma_le_prefix_four(self@.memory, self@.eip + offset);
        }
        Ok(val)
    }

    /// The instruction at the instruction pointer.
    pub fn current_instruction(self: &Self) -> (r: Result<Instruction, EmuError>)
        ensures
            r == match read_spec(self@, self@.eip as int) {
                Ok(b) => Ok::<Instruction, EmuError>(decode_spec(b)),
                Err(e) => Err(e),
            },
    {
        if (self.eip as usize) < self.memory.len() {
            Ok(decode(self.memory[self.eip as usize]))
        } else {
            Err(EmuError::OutOfBounds { offset: self.eip as usize })
        }
    }

    /// Runs one fetch-decode-execute cycle.
    pub fn step(self: &mut Self) -> (r: Result<Cycle, EmuError>)
        requires
            old(self).wf(),
        ensures
            final(self).wf(),
            (final(self)@, r) == step_spec(old(self)@),
    {
        let insn = match self.current_instruction() {
            Ok(insn) => insn,
            Err(_) => return Ok(Cycle::Ended),
        };
        match insn {
            Instruction::MovR32Imm32(idx) => {
                let v = match self.fetch_32(1) {
                    Ok(v) => v,
                    Err(e) => return Err(e),
                };
                self.registers[idx] = v;
                self.eip = self.eip + 5;
            },
            Instruction::ShortJump => {
                let diff = match self.fetch_signed_8(1) {
                    Ok(d) => d,
                    Err(e) => return Err(e),
                };
                let next = self.eip + 2;
                if diff >= 0 {
                    let abs = diff as u32;
                    if abs > u32::MAX - next {
                        return Err(EmuError::JumpOutOfRange { offset: self.eip as usize });
                    }
                    self.eip = next + abs;
                } else {
                    let abs = (-(diff as i32)) as u32;
                    if abs > next {
                        return Err(EmuError::JumpOutOfRange { offset: self.eip as usize });
                    }
                    self.eip = next - abs;
                }
            },
            Instruction::NotImplemented => {
                return Err(EmuError::UnrecognizedOpcode { offset: self.eip as usize });
            },
        }
        if self.eip == 0 {
            Ok(Cycle::Halted)
        } else {
            Ok(Cycle::Running)
        }
    }

    /// Runs the program until the instruction pointer leaves memory or is
    /// left at 0 by an instruction, or until an instruction fails. A program
    /// that can never end is reported as `NonTerminating`.
    pub fn run(self: &mut Self) -> (r: Result<(), EmuError>)
        requires
            old(self).wf(),
        ensures
            final(self).wf(),
            (final(self)@, r) == run_spec(old(self)@),
    {
        let n = self.memory.len();
        let mut k: usize = 0;
        loop
            invariant
                self.wf(),
                k <= n,
                n == self@.memory.len(),
                run_spec(old(self)@) == run_from(self@, (n - k) as nat),
            decreases n - k,
        {
            if k == n {
                if (self.eip as usize) < n {
                    return Err(EmuError::NonTerminating { offset: self.eip as usize });
                }
                return Ok(());
            }
            match self.step() {
                Ok(Cycle::Running) => {
                    k = k + 1;
                },
                Ok(_) => {
                    return Ok(());
                },
                Err(e) => {
                    return Err(e);
                },
            }
        }
    }
}

} // verus!
