use vstd::prelude::*;

verus! {

/// Number of general-purpose registers (EAX, ECX, EDX, EBX, ESP, EBP, ESI, EDI).
pub const REGISTER_SIZE: usize = 8;

/// First opcode of `mov r32, imm32`; the low three bits select the register.
pub const OPCODE_MOV_R32_IMM32: u8 = 0xb8;

/// Last opcode of `mov r32, imm32`.
pub const OPCODE_MOV_R32_IMM32_LAST: u8 = 0xbf;

/// Opcode of `jmp rel8`.
pub const OPCODE_SHORT_JUMP: u8 = 0xeb;

/// A decoded instruction.
#[derive(Debug, Clone, Copy, PartialEq, Eq, Structural)]
pub enum Instruction {
    /// Load a 32-bit immediate into the register with this index.
    MovR32Imm32(usize),
    /// Jump by a signed 8-bit displacement.
    ShortJump,
    /// Any opcode this interpreter does not know.
    NotImplemented,
}

/// What a byte decodes to.
pub open spec fn decode_spec(b: u8) -> Instruction {
    if OPCODE_MOV_R32_IMM32 <= b && b <= OPCODE_MOV_R32_IMM32_LAST {
        Instruction::MovR32Imm32((b - OPCODE_MOV_R32_IMM32) as usize)
    } else if b == OPCODE_SHORT_JUMP {
        Instruction::ShortJump
    } else {
        Instruction::NotImplemented
    }
}

/// Decodes an opcode byte. Every byte decodes to exactly one instruction.
pub fn decode(b: u8) -> (r: Instruction)
    ensures
        r == decode_spec(b),
{
    if b >= OPCODE_MOV_R32_IMM32 && b <= OPCODE_MOV_R32_IMM32_LAST {
        return Instruction::MovR32Imm32((b - OPCODE_MOV_R32_IMM32) as usize);
    }
    match b {
        OPCODE_SHORT_JUMP => Instruction::ShortJump,
        _ => Instruction::NotImplemented,
    }
}

impl From<u8> for Instruction {
    fn from(b: u8) -> (r: Instruction) {
        decode(b)
    }
}

impl vstd::std_specs::convert::FromSpecImpl<u8> for Instruction {
    open spec fn obeys_from_spec() -> bool {
        true
    }

    open spec fn from_spec(b: u8) -> Instruction {
        decode_spec(b)
    }
}

/// Decoding is total: each byte gives exactly one of the three kinds of
/// instruction, and a `mov` always names a valid register.
pub proof fn lemma_decode_total(b: u8)
    ensures
        match decode_spec(b) {
            Instruction::MovR32Imm32(r) => r < REGISTER_SIZE,
            Instruction::ShortJump => b == OPCODE_SHORT_JUMP,
            Instruction::NotImplemented => !(OPCODE_MOV_R32_IMM32 <= b && b <= OPCODE_MOV_R32_IMM32_LAST)
                && b != OPCODE_SHORT_JUMP,
        },
{
}

/// The opcode `0xb8 + r` loads register `r`, for each of the eight registers.
pub proof fn lemma_decode_mov(r: u8)
    requires
        r < REGISTER_SIZE,
    ensures
        decode_spec((OPCODE_MOV_R32_IMM32 + r) as u8) == Instruction::MovR32Imm32(r as usize),
{
}

} // verus!
