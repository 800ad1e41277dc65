//! Machine state and the fetch-decode-execute engine.
use vstd::prelude::*;
use crate::opcode::{Opcode, opcode_of};
use crate::status_flag::{with_flags, ZERO_ON, ZERO_OFF, NEGATIVE_ON, NEGATIVE_OFF};

verus! {

/// Architectural state of the processor.
#[derive(Clone, Copy, Debug, PartialEq, Eq, Structural)]
pub struct CPU {
    /// Accumulator.
    pub register_a: u8,
    /// Index register.
    pub register_x: u8,
    /// Processor status, NV_BDIZC from bit 7 down to bit 0.
    pub status: u8,
    /// Offset in the opcode stream of the next byte to fetch.
    pub program_counter: u16,
}

/// Why a run stopped short of a Halt.
#[derive(Clone, Copy, Debug, PartialEq, Eq, Structural)]
pub enum CpuError {
    /// An opcode or operand byte was fetched at `offset`, which lies past the
    /// end of the stream or at 0xFFFF, where the 16-bit counter cannot step
    /// past it.
    OutOfBounds { offset: u16 },
    /// `opcode`, fetched at `offset`, has no handler.
    UnknownOpcode { opcode: u8, offset: u16 },
}

/// Whether the byte at `pc` can be fetched: it lies in the stream and the
/// counter can advance past it.
pub open spec fn can_fetch(pc: u16, program: Seq<u8>) -> bool {
    (pc as int) < program.len() && pc < 0xFFFF
}

impl CPU {
    /// The state with the program counter one byte further on.
    pub open spec fn advanced(self) -> CPU {
        CPU { program_counter: (self.program_counter + 1) as u16, ..self }
    }

    /// The state after Load-Accumulator-Immediate of `value`.
    pub open spec fn loaded(self, value: u8) -> CPU {
        CPU { register_a: value, status: with_flags(self.status, value), ..self }
    }

    /// The state after Transfer-Accumulator-to-Index.
    pub open spec fn transferred(self) -> CPU {
        CPU {
            register_x: self.register_a,
            status: with_flags(self.status, self.register_a),
            ..self
        }
    }

    /// The state after Increment-Index, which wraps modulo 256.
    pub open spec fn incremented(self) -> CPU {
        let x = ((self.register_x + 1) % 256) as u8;
        CPU { register_x: x, status: with_flags(self.status, x), ..self }
    }
}

/// Running `program` from `cpu` until Halt or a fault: the final state and
/// whether the run ended on a Halt (`Ok`) or on a fault (`Err`).
pub open spec fn run(cpu: CPU, program: Seq<u8>) -> (CPU, Result<(), CpuError>)
    decreases 0xFFFF - cpu.program_counter,
{
    let pc = cpu.program_counter;
    if !can_fetch(pc, program) {
        (cpu, Err(CpuError::OutOfBounds { offset: pc }))
    } else {
        let byte = program[pc as int];
        let next = cpu.advanced();
        match opcode_of(byte) {
            None => (next, Err(CpuError::UnknownOpcode { opcode: byte, offset: pc })),
            Some(Opcode::Halt) => (next, Ok(())),
            Some(Opcode::LoadAccumulator) => {
                let at = next.program_counter;
                if !can_fetch(at, program) {
                    (next, Err(CpuError::OutOfBounds { offset: at }))
                } else {
                    run(next.advanced().loaded(program[at as int]), program)
                }
            },
            Some(Opcode::TransferAccumulatorToIndex) => run(next.transferred(), program),
            Some(Opcode::IncrementIndex) => run(next.incremented(), program),
        }
    }
}

impl CPU {
    /// A machine with every register, the status and the counter at zero.
    pub fn new() -> (r: Self)
        ensures
            r == (CPU { register_a: 0, register_x: 0, status: 0, program_counter: 0 }),
    {
        CPU { register_a: 0, register_x: 0, status: 0, program_counter: 0 }
    }

    fn lda(&mut self, value: u8)
        ensures
            *final(self) == old(self).loaded(value),
    {
        self.register_a = value;
        self.update_zero_and_negative_flags(self.register_a);
    }

    fn tax(&mut self)
        ensures
            *final(self) == old(self).transferred(),
    {
        self.register_x = self.register_a;
        self.update_zero_and_negative_flags(self.register_x);
    }

    fn inx(&mut self)
        ensures
            *final(self) == old(self).incremented(),
    {
        self.register_x = self.register_x.wrapping_add(1);
        self.update_zero_and_negative_flags(self.register_x);
    }

    /// The one flag-update operation shared by every handler that produces a
    /// result: Zero and Negative are recomputed from `result`, the other bits
    /// of the status are kept.
    fn update_zero_and_negative_flags(&mut self, result: u8)
        ensures
            *final(self) == (CPU { status: with_flags(old(self).status, result), ..*old(self) }),
    {
        let status = self.status;
        let mut s: u8 = status;
        if result == 0 {
            s = s | ZERO_ON;
        } else {
            s = s & ZERO_OFF;
        }
        if result & 0b1000_0000 != 0 {
            s = s | NEGATIVE_ON;
        } else {
            s = s & NEGATIVE_OFF;
        }
        assert(s == with_flags(status, result)) by (bit_vector)
            requires
                (result == 0 && result & 0x80 != 0) ==> s == (status | ZERO_ON) | NEGATIVE_ON,
                (result == 0 && result & 0x80 == 0) ==> s == (status | ZERO_ON) & NEGATIVE_OFF,
                (result != 0 && result & 0x80 != 0) ==> s == (status & ZERO_OFF) | NEGATIVE_ON,
                (result != 0 && result & 0x80 == 0) ==> s == (status & ZERO_OFF) & NEGATIVE_OFF,
        ;
        self.status = s;
    }

    /// Fetches the byte at the program counter and advances the counter past
    /// it; fails, leaving the state as it was, where the byte cannot be
    /// fetched.
    fn fetch(&mut self, program: &Vec<u8>) -> (r: Result<u8, CpuError>)
        ensures
            can_fetch(old(self).program_counter, program@) ==> r == Ok::<u8, CpuError>(
                program@[old(self).program_counter as int],
            ) && *final(self) == old(self).advanced(),
            !can_fetch(old(self).program_counter, program@) ==> r == Err::<u8, CpuError>(
                CpuError::OutOfBounds { offset: old(self).program_counter },
            ) && *final(self) == *old(self),
    {
        let pc = self.program_counter;
        if pc == 0xFFFF || pc as usize >= program.len() {
            return Err(CpuError::OutOfBounds { offset: pc });
        }
        let byte = program[pc as usize];
        self.program_counter = pc + 1;
        Ok(byte)
    }

    /// Executes `program` from the current state until a Halt opcode, which
    /// ends the run with `Ok`, or a fault: a fetch past the end of the
    /// stream, or an opcode with no handler. The final state and the result
    /// are those of `run`.
    pub fn interpret(&mut self, program: Vec<u8>) -> (r: Result<(), CpuError>)
        ensures
            *final(self) == run(*old(self), program@).0,
            r == run(*old(self), program@).1,
    {
        loop
            invariant
                run(*self, program@) == run(*old(self), program@),
            decreases 0xFFFF - self.program_counter,
        {
            let pc = self.program_counter;
            let byte = match self.fetch(&program) {
                Ok(b) => b,
                Err(e) => return Err(e),
            };
            match Opcode::decode(byte) {
                None => return Err(CpuError::UnknownOpcode { opcode: byte, offset: pc }),
                Some(Opcode::Halt) => return Ok(()),
                Some(Opcode::LoadAccumulator) => {
                    let value = match self.fetch(&program) {
                        Ok(b) => b,
                        Err(e) => return Err(e),
                    };
                    self.lda(value);
                },
                Some(Opcode::TransferAccumulatorToIndex) => self.tax(),
                Some(Opcode::IncrementIndex) => self.inx(),
            }
        }
    }
}

} // verus!
