//! Interpretation core of an 8-bit accumulator CPU: machine state, opcode
//! decoding and a fetch-decode-execute loop, each step proved against the
//! spec function `run`.

pub mod status_flag;
pub mod opcode;
pub mod cpu;
pub mod lemmas;
