use nes_cpu::cpu::{CpuError, CPU};
use nes_cpu::opcode::Opcode;
use nes_cpu::status_flag::{NEGATIVE_ON, ZERO_ON};

#[test]
fn test_0xa9_lda_immidiate_load_data() {
    let mut cpu = CPU::new();
    assert_eq!(cpu.interpret(vec![0xa9, 0x05, 0x00]), Ok(()));
    assert_eq!(cpu.register_a, 0x05);
    assert!(cpu.status & ZERO_ON == 0);
    assert!(cpu.status & NEGATIVE_ON == 0);
}

#[test]
fn test_0xa9_lda_zero_flag() {
    let mut cpu = CPU::new();
    assert_eq!(cpu.interpret(vec![0xa9, 0x00, 0x00]), Ok(()));
    assert!(cpu.status & ZERO_ON == 0b0000_0010);
}

#[test]
fn test_0xaa_tax_move_a_to_x() {
    let mut cpu = CPU::new();
    cpu.register_a = 0b0000_1010;
    assert_eq!(cpu.interpret(vec![0xaa, 0x00]), Ok(()));

    assert_eq!(cpu.register_x, 10)
}

#[test]
fn test_5_ops_working_together() {
    let mut cpu = CPU::new();
    assert_eq!(cpu.interpret(vec![0xa9, 0xc0, 0xaa, 0xe8, 0x00]), Ok(()));

    assert_eq!(cpu.register_x, 0b1100_0001);
}

#[test]
fn test_inx_overflow() {
    let mut cpu = CPU::new();
    cpu.register_x = 0xff;
    assert_eq!(cpu.interpret(vec![0xe8, 0xe8, 0x00]), Ok(()));

    assert_eq!(cpu.register_x, 1)
}

#[test]
fn new_machine_is_all_zero() {
    let cpu = CPU::new();
    assert_eq!(cpu.register_a, 0);
    assert_eq!(cpu.register_x, 0);
    assert_eq!(cpu.status, 0);
    assert_eq!(cpu.program_counter, 0);
}

#[test]
fn load_sets_flags_for_every_byte() {
    for v in 0..=255u8 {
        let mut cpu = CPU::new();
        assert_eq!(cpu.interpret(vec![0xa9, v, 0x00]), Ok(()));
        assert_eq!(cpu.register_a, v);
        assert_eq!(cpu.status & ZERO_ON != 0, v == 0);
        assert_eq!(cpu.status & NEGATIVE_ON != 0, v & 0x80 != 0);
        assert_eq!(cpu.program_counter, 3);
    }
}

#[test]
fn load_negative_value_sets_negative() {
    let mut cpu = CPU::new();
    assert_eq!(cpu.interpret(vec![0xa9, 0x80, 0x00]), Ok(()));
    assert_eq!(cpu.status, 0b1000_0000);
}

#[test]
fn flag_update_keeps_other_bits() {
    let mut cpu = CPU::new();
    cpu.status = 0b0111_1101;
    assert_eq!(cpu.interpret(vec![0xa9, 0x00, 0x00]), Ok(()));
    assert_eq!(cpu.status, 0b0111_1111);
    let mut cpu = CPU::new();
    cpu.status = 0b1111_1111;
    assert_eq!(cpu.interpret(vec![0xa9, 0x01, 0x00]), Ok(()));
    assert_eq!(cpu.status, 0b0111_1101);
}

#[test]
fn transfer_takes_flags_from_index() {
    let mut cpu = CPU::new();
    cpu.register_a = 0x90;
    cpu.register_x = 0x00;
    assert_eq!(cpu.interpret(vec![0xaa, 0x00]), Ok(()));
    assert_eq!(cpu.register_x, 0x90);
    assert_eq!(cpu.register_a, 0x90);
    assert!(cpu.status & ZERO_ON == 0);
    assert!(cpu.status & NEGATIVE_ON != 0);

    let mut cpu = CPU::new();
    cpu.register_a = 0x00;
    cpu.register_x = 0x42;
    assert_eq!(cpu.interpret(vec![0xaa, 0x00]), Ok(()));
    assert_eq!(cpu.register_x, 0x00);
    assert!(cpu.status & ZERO_ON != 0);
    assert!(cpu.status & NEGATIVE_ON == 0);
}

#[test]
fn increment_wraps_ff_to_zero() {
    let mut cpu = CPU::new();
    cpu.register_x = 0xff;
    assert_eq!(cpu.interpret(vec![0xe8, 0x00]), Ok(()));
    assert_eq!(cpu.register_x, 0x00);
    assert!(cpu.status & ZERO_ON != 0);
    assert!(cpu.status & NEGATIVE_ON == 0);
}

#[test]
fn increment_7f_sets_negative() {
    let mut cpu = CPU::new();
    cpu.register_x = 0x7f;
    assert_eq!(cpu.interpret(vec![0xe8, 0x00]), Ok(()));
    assert_eq!(cpu.register_x, 0x80);
    assert!(cpu.status & ZERO_ON == 0);
    assert!(cpu.status & NEGATIVE_ON != 0);
}

#[test]
fn composition_matches_each_step() {
    let mut cpu = CPU::new();
    assert_eq!(cpu.interpret(vec![0xa9, 0xc0, 0xaa, 0xe8, 0x00]), Ok(()));
    assert_eq!(cpu.register_a, 0xc0);
    assert_eq!(cpu.register_x, 0xc1);
    assert_eq!(cpu.status, 0b1000_0000);
    assert_eq!(cpu.program_counter, 5);
}

#[test]
fn bytes_after_halt_are_not_read() {
    let mut cpu = CPU::new();
    assert_eq!(cpu.interpret(vec![0xa9, 0x07, 0x00, 0xe8, 0xff, 0xa9]), Ok(()));
    assert_eq!(cpu.register_a, 0x07);
    assert_eq!(cpu.register_x, 0x00);
    assert_eq!(cpu.program_counter, 3);
}

#[test]
fn empty_stream_is_out_of_bounds() {
    let mut cpu = CPU::new();
    assert_eq!(cpu.interpret(vec![]), Err(CpuError::OutOfBounds { offset: 0 }));
    assert_eq!(cpu, CPU::new());
}

#[test]
fn missing_operand_is_out_of_bounds() {
    let mut cpu = CPU::new();
    assert_eq!(cpu.interpret(vec![0xa9]), Err(CpuError::OutOfBounds { offset: 1 }));
    assert_eq!(cpu.program_counter, 1);
    assert_eq!(cpu.register_a, 0);
}

#[test]
fn stream_without_halt_runs_out() {
    let mut cpu = CPU::new();
    assert_eq!(cpu.interpret(vec![0xe8, 0xe8]), Err(CpuError::OutOfBounds { offset: 2 }));
    assert_eq!(cpu.register_x, 2);
}

#[test]
fn unknown_opcode_is_reported_with_offset() {
    let mut cpu = CPU::new();
    assert_eq!(
        cpu.interpret(vec![0xe8, 0xff, 0x00]),
        Err(CpuError::UnknownOpcode { opcode: 0xff, offset: 1 })
    );
    assert_eq!(cpu.register_x, 1);
    assert_eq!(cpu.program_counter, 2);
}

#[test]
fn counter_at_top_of_range_faults() {
    let mut cpu = CPU::new();
    cpu.program_counter = 0xfffe;
    let mut program = vec![0xe8u8; 0x10000];
    program[0xfffe] = 0xe8;
    assert_eq!(cpu.interpret(program), Err(CpuError::OutOfBounds { offset: 0xffff }));
    assert_eq!(cpu.register_x, 1);
}

#[test]
fn run_resumes_from_counter() {
    let mut cpu = CPU::new();
    cpu.program_counter = 2;
    assert_eq!(cpu.interpret(vec![0xff, 0xff, 0xe8, 0x00]), Ok(()));
    assert_eq!(cpu.register_x, 1);
    assert_eq!(cpu.program_counter, 4);
}

#[test]
fn decode_known_and_unknown_bytes() {
    assert_eq!(Opcode::decode(0xa9), Some(Opcode::LoadAccumulator));
    assert_eq!(Opcode::decode(0xaa), Some(Opcode::TransferAccumulatorToIndex));
    assert_eq!(Opcode::decode(0xe8), Some(Opcode::IncrementIndex));
    assert_eq!(Opcode::decode(0x00), Some(Opcode::Halt));
    assert_eq!(Opcode::decode(0x01), None);
}
