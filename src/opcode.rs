//! Opcode bytes and their decoding into a closed set of instructions.
use vstd::prelude::*;

verus! {

/// Load-Accumulator-Immediate: one operand byte follows.
pub const LDA: u8 = 0xA9;

/// Transfer-Accumulator-to-Index.
pub const TAX: u8 = 0xAA;

/// Increment-Index.
pub const INX: u8 = 0xE8;

/// Halt (break).
pub const BRK: u8 = 0x00;

/// The instructions this core executes.
#[derive(Clone, Copy, Debug, PartialEq, Eq, Structural)]
pub enum Opcode {
    LoadAccumulator,
    TransferAccumulatorToIndex,
    IncrementIndex,
    Halt,
}

/// The instruction that `byte` encodes, if any.
pub open spec fn opcode_of(byte: u8) -> Option<Opcode> {
    if byte == LDA {
        Some(Opcode::LoadAccumulator)
    } else if byte == TAX {
        Some(Opcode::TransferAccumulatorToIndex)
    } else if byte == INX {
        Some(Opcode::IncrementIndex)
    } else if byte == BRK {
        Some(Opcode::Halt)
    } else {
        None
    }
}

impl Opcode {
    /// Decodes one opcode byte; `None` for a byte with no handler.
    pub fn decode(byte: u8) -> (r: Option<Opcode>)
        ensures
            r == opcode_of(byte),
    {
        match byte {
            LDA => Some(Opcode::LoadAccumulator),
            TAX => Some(Opcode::TransferAccumulatorToIndex),
            INX => Some(Opcode::IncrementIndex),
            BRK => Some(Opcode::Halt),
            _ => None,
        }
    }
}

} // verus!
