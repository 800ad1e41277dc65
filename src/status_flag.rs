//! The packed status byte, laid out high to low as Negative, Overflow,
//! unused, Break, Decimal, Interrupt-Disable, Zero, Carry.
use vstd::prelude::*;

verus! {

/// Zero is bit 1 of the status byte.
pub const ZERO_ON: u8 = 0b0000_0010;

pub const ZERO_OFF: u8 = 0b1111_1101;

/// Negative is bit 7 of the status byte.
pub const NEGATIVE_ON: u8 = 0b1000_0000;

pub const NEGATIVE_OFF: u8 = 0b0111_1111;

/// Whether the Zero flag is set in `status`.
pub open spec fn zero_set(status: u8) -> bool {
    status & ZERO_ON != 0
}

/// Whether the Negative flag is set in `status`.
pub open spec fn negative_set(status: u8) -> bool {
    status & NEGATIVE_ON != 0
}

/// Whether bit 7 of a result is set.
pub open spec fn bit7(result: u8) -> bool {
    result & 0x80 != 0
}

/// The status byte after a handler produced `result`: Zero set iff the
/// result is 0, Negative copied from bit 7 of the result, every other bit
/// kept as it was.
pub open spec fn with_flags(status: u8, result: u8) -> u8 {
    let z: u8 = if result == 0 { ZERO_ON } else { 0 };
    let n: u8 = if result & 0x80 != 0 { NEGATIVE_ON } else { 0 };
    (status & !(ZERO_ON | NEGATIVE_ON)) | z | n
}

/// The flag-update policy, read back through the named flags: Zero holds iff
/// the result is 0, Negative iff bit 7 of the result is set, and the six
/// other bits of the status byte are left untouched.
pub proof fn lemma_with_flags(status: u8, result: u8)
    ensures
        zero_set(with_flags(status, result)) == (result == 0),
        negative_set(with_flags(status, result)) == bit7(result),
        with_flags(status, result) & !(ZERO_ON | NEGATIVE_ON) == status & !(ZERO_ON | NEGATIVE_ON),
{
    assert(zero_set(with_flags(status, result)) == (result == 0)) by (bit_vector);
    assert(negative_set(with_flags(status, result)) == bit7(result)) by (bit_vector);
    assert(with_flags(status, result) & !(ZERO_ON | NEGATIVE_ON) == status & !(ZERO_ON
        | NEGATIVE_ON)) by (bit_vector);
}

} // verus!
