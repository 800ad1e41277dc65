//! Properties of `run`, the semantics that `CPU::interpret` follows.
use vstd::prelude::*;
use crate::cpu::{CPU, CpuError, can_fetch, run};
use crate::opcode::{LDA, TAX, INX, BRK};
use crate::status_flag::{zero_set, negative_set, bit7, with_flags, lemma_with_flags};

verus! {

/// Loading any byte `v` and halting leaves `v` in the accumulator, with Zero
/// set iff `v` is 0 and Negative set iff bit 7 of `v` is set.
pub proof fn lemma_load_sets_flags(cpu: CPU, v: u8)
    requires
        cpu.program_counter == 0,
    ensures
        run(cpu, seq![LDA, v, BRK]).1 == Ok::<(), CpuError>(()),
        run(cpu, seq![LDA, v, BRK]).0.register_a == v,
        zero_set(run(cpu, seq![LDA, v, BRK]).0.status) == (v == 0),
        negative_set(run(cpu, seq![LDA, v, BRK]).0.status) == bit7(v),
{
    let p = seq![LDA, v, BRK];
    let s = cpu.advanced().advanced().loaded(v);
    assert(run(cpu, p) == run(s, p));
    assert(run(s, p) == (s.advanced(), Ok::<(), CpuError>(())));
    lemma_with_flags(cpu.status, v);
}

/// Transfer-Accumulator-to-Index then Halt copies the accumulator into the
/// index register, keeps the accumulator, and recomputes the flags from the
/// index register.
pub proof fn lemma_transfer_copies_accumulator(cpu: CPU)
    requires
        cpu.program_counter == 0,
    ensures
        run(cpu, seq![TAX, BRK]).1 == Ok::<(), CpuError>(()),
        run(cpu, seq![TAX, BRK]).0.register_x == cpu.register_a,
        run(cpu, seq![TAX, BRK]).0.register_a == cpu.register_a,
        run(cpu, seq![TAX, BRK]).0.status == with_flags(
            cpu.status,
            run(cpu, seq![TAX, BRK]).0.register_x,
        ),
        zero_set(run(cpu, seq![TAX, BRK]).0.status) == (run(cpu, seq![TAX, BRK]).0.register_x
            == 0),
        negative_set(run(cpu, seq![TAX, BRK]).0.status) == bit7(
            run(cpu, seq![TAX, BRK]).0.register_x,
        ),
{
    let p = seq![TAX, BRK];
    let s = cpu.advanced().transferred();
    assert(run(cpu, p) == run(s, p));
    assert(run(s, p) == (s.advanced(), Ok::<(), CpuError>(())));
    lemma_with_flags(cpu.status, cpu.register_a);
}

/// Increment-Index then Halt adds one to the index register modulo 256 and
/// recomputes the flags from the new value: 0xFF becomes 0x00 with Zero set
/// and Negative clear, 0x7F becomes 0x80 with Negative set and Zero clear.
pub proof fn lemma_increment_wraps(cpu: CPU)
    requires
        cpu.program_counter == 0,
    ensures
        run(cpu, seq![INX, BRK]).1 == Ok::<(), CpuError>(()),
        run(cpu, seq![INX, BRK]).0.register_x == (cpu.register_x + 1) % 256,
        zero_set(run(cpu, seq![INX, BRK]).0.status) == (run(cpu, seq![INX, BRK]).0.register_x
            == 0),
        negative_set(run(cpu, seq![INX, BRK]).0.status) == bit7(
            run(cpu, seq![INX, BRK]).0.register_x,
        ),
        cpu.register_x == 0xFF ==> run(cpu, seq![INX, BRK]).0.register_x == 0x00 && zero_set(
            run(cpu, seq![INX, BRK]).0.status,
        ) && !negative_set(run(cpu, seq![INX, BRK]).0.status),
        cpu.register_x == 0x7F ==> run(cpu, seq![INX, BRK]).0.register_x == 0x80 && !zero_set(
            run(cpu, seq![INX, BRK]).0.status,
        ) && negative_set(run(cpu, seq![INX, BRK]).0.status),
{
    let p = seq![INX, BRK];
    let s = cpu.advanced().incremented();
    assert(run(cpu, p) == run(s, p));
    assert(run(s, p) == (s.advanced(), Ok::<(), CpuError>(())));
    lemma_with_flags(cpu.status, s.register_x);
    assert(!bit7(0x00u8) && bit7(0x80u8)) by (bit_vector);
}

/// Load, Transfer, Increment, Halt ends in the state that applying the three
/// instructions one after another gives; loading 0xC0 leaves 0xC1 in the
/// index register.
pub proof fn lemma_load_transfer_increment(cpu: CPU, v: u8)
    requires
        cpu.program_counter == 0,
    ensures
        run(cpu, seq![LDA, v, TAX, INX, BRK]).1 == Ok::<(), CpuError>(()),
        run(cpu, seq![LDA, v, TAX, INX, BRK]).0 == (CPU {
            program_counter: 5,
            ..cpu.loaded(v).transferred().incremented()
        }),
        v == 0xC0 ==> run(cpu, seq![LDA, v, TAX, INX, BRK]).0.register_x == 0xC1,
{
    let p = seq![LDA, v, TAX, INX, BRK];
    let s1 = cpu.advanced().advanced().loaded(v);
    let s2 = s1.advanced().transferred();
    let s3 = s2.advanced().incremented();
    assert(run(cpu, p) == run(s1, p));
    assert(run(s1, p) == run(s2, p));
    assert(run(s2, p) == run(s3, p));
    assert(run(s3, p) == (s3.advanced(), Ok::<(), CpuError>(())));
}

/// Bytes after the Halt that ends a run are never fetched: appending any
/// bytes to a program whose run halts leaves the run unchanged.
pub proof fn lemma_halt_ignores_rest(cpu: CPU, program: Seq<u8>, rest: Seq<u8>)
    requires
        run(cpu, program).1 == Ok::<(), CpuError>(()),
    ensures
        run(cpu, program + rest) == run(cpu, program),
    decreases 0xFFFF - cpu.program_counter,
{
    let q = program + rest;
    let pc = cpu.program_counter;
    assert(can_fetch(pc, program));
    assert(q[pc as int] == program[pc as int]);
    let next = cpu.advanced();
    let at = next.program_counter;
    if program[pc as int] == LDA {
        assert(can_fetch(at, program));
        assert(q[at as int] == program[at as int]);
        lemma_halt_ignores_rest(next.advanced().loaded(program[at as int]), program, rest);
    } else if program[pc as int] == TAX {
        lemma_halt_ignores_rest(next.transferred(), program, rest);
    } else if program[pc as int] == INX {
        lemma_halt_ignores_rest(next.incremented(), program, rest);
    }
}

/// An empty stream faults at once with an out-of-bounds fetch at the counter.
pub proof fn lemma_empty_stream_faults(cpu: CPU)
    ensures
        run(cpu, Seq::<u8>::empty()) == (cpu, Err::<(), CpuError>(
            CpuError::OutOfBounds { offset: cpu.program_counter },
        )),
{
}

/// A Load whose operand byte is missing faults with an out-of-bounds fetch
/// at the offset just past the opcode.
pub proof fn lemma_missing_operand_faults(cpu: CPU, program: Seq<u8>)
    requires
        cpu.program_counter as int == program.len() - 1,
        cpu.program_counter < 0xFFFF,
        program.last() == LDA,
    ensures
        run(cpu, program) == (cpu.advanced(), Err::<(), CpuError>(
            CpuError::OutOfBounds { offset: (cpu.program_counter + 1) as u16 },
        )),
{
}

/// A run only reports an out-of-bounds fetch at an offset that cannot be
/// fetched: no byte outside the stream is ever read.
pub proof fn lemma_out_of_bounds_is_outside(cpu: CPU, program: Seq<u8>, offset: u16)
    requires
        run(cpu, program).1 == Err::<(), CpuError>(CpuError::OutOfBounds { offset }),
    ensures
        !can_fetch(offset, program),
    decreases 0xFFFF - cpu.program_counter,
{
    let pc = cpu.program_counter;
    if can_fetch(pc, program) {
        let next = cpu.advanced();
        let at = next.program_counter;
        if program[pc as int] == LDA && can_fetch(at, program) {
            lemma_out_of_bounds_is_outside(next.advanced().loaded(program[at as int]), program, offset);
        } else if program[pc as int] == TAX {
            lemma_out_of_bounds_is_outside(next.transferred(), program, offset);
        } else if program[pc as int] == INX {
            lemma_out_of_bounds_is_outside(next.incremented(), program, offset);
        }
    }
}

} // verus!
