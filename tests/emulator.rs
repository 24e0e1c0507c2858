use rx86::{decode, Cycle, EmuError, Emulator, Instruction, DEFAULT_CAPACITY, REGISTER_SIZE};

fn loaded(codes: Vec<u8>) -> Emulator {
    let mut emulator = Emulator::new();
    emulator.load(codes).expect("failed to load");
    emulator
}

#[test]
fn test_fetch_32() {
    let mut emulator = Emulator::new();
    emulator
        .load(vec![0x78, 0x56, 0x34, 0x12]) // LE
        .expect("failed to load");
    let res = emulator.fetch_32(0);
    assert_eq!(res, Ok(0x12345678))
}

#[test]
fn fetch_32_reads_little_endian_at_any_offset() {
    let emulator = loaded(vec![0x00, 0xef, 0xbe, 0xad, 0xde, 0x01]);
    assert_eq!(emulator.fetch_32(1), Ok(0xdeadbeef));
    assert_eq!(emulator.fetch_32(2), Ok(0x01deadbe));
}

#[test]
fn fetch_32_reports_first_missing_byte() {
    let emulator = loaded(vec![0x01, 0x02]);
    assert_eq!(emulator.fetch_32(0), Err(EmuError::OutOfBounds { offset: 2 }));
    assert_eq!(emulator.fetch_32(5), Err(EmuError::OutOfBounds { offset: 5 }));
    assert_eq!(
        emulator.fetch_32(usize::MAX),
        Err(EmuError::OutOfBounds { offset: usize::MAX })
    );
}

#[test]
fn fetch_8_and_signed() {
    let emulator = loaded(vec![0xfe, 0x7f]);
    assert_eq!(emulator.fetch_8(0), Ok(0xfe));
    assert_eq!(emulator.fetch_signed_8(0), Ok(-2));
    assert_eq!(emulator.fetch_signed_8(1), Ok(127));
    assert_eq!(emulator.fetch_8(2), Err(EmuError::OutOfBounds { offset: 2 }));
    assert_eq!(emulator.fetch_signed_8(2), Err(EmuError::OutOfBounds { offset: 2 }));
}

#[test]
fn decode_is_total() {
    for b in 0..=255u8 {
        let insn = decode(b);
        match insn {
            Instruction::MovR32Imm32(r) => {
                assert!((0xb8..=0xbf).contains(&b));
                assert_eq!(r, (b - 0xb8) as usize);
                assert!(r < REGISTER_SIZE);
            }
            Instruction::ShortJump => assert_eq!(b, 0xeb),
            Instruction::NotImplemented => {
                assert!(!(0xb8..=0xbf).contains(&b));
                assert_ne!(b, 0xeb);
            }
        }
        assert_eq!(decode(b), insn);
        assert_eq!(Instruction::from(b), insn);
    }
}

#[test]
fn decode_mov_registers() {
    for r in 0..8u8 {
        assert_eq!(decode(0xb8 + r), Instruction::MovR32Imm32(r as usize));
    }
    assert_eq!(decode(0xeb), Instruction::ShortJump);
    assert_eq!(decode(0xff), Instruction::NotImplemented);
    assert_eq!(decode(0xb7), Instruction::NotImplemented);
    assert_eq!(decode(0xc0), Instruction::NotImplemented);
}

#[test]
fn new_emulator_is_zeroed() {
    let emulator = Emulator::new();
    assert_eq!(emulator.registers(), [0; 8]);
    assert_eq!(emulator.eip(), 0);
    assert_eq!(emulator.eflags(), 0);
    assert_eq!(emulator.code_size(), 0);
    assert_eq!(emulator.capacity(), DEFAULT_CAPACITY);
    assert_eq!(DEFAULT_CAPACITY, 1024);
}

#[test]
fn load_over_capacity_fails_and_keeps_memory() {
    let mut emulator = loaded(vec![0xb8, 1, 2, 3, 4]);
    let res = emulator.load(vec![0; 1025]);
    assert_eq!(
        res,
        Err(EmuError::LoadCapacityExceeded { size: 1025, capacity: 1024 })
    );
    assert_eq!(emulator.code_size(), 5);
    assert_eq!(emulator.fetch_32(1), Ok(0x04030201));
}

#[test]
fn load_at_capacity_succeeds() {
    let mut emulator = Emulator::with_config(4, 0);
    assert_eq!(emulator.load(vec![1, 2, 3, 4]), Ok(()));
    assert_eq!(emulator.code_size(), 4);
    assert_eq!(
        emulator.load(vec![1, 2, 3, 4, 5]),
        Err(EmuError::LoadCapacityExceeded { size: 5, capacity: 4 })
    );
    assert_eq!(emulator.code_size(), 4);
}

#[test]
fn mov_then_end_of_program() {
    let mut emulator = loaded(vec![0xb8, 0x78, 0x56, 0x34, 0x12]);
    assert_eq!(emulator.step(), Ok(Cycle::Running));
    assert_eq!(emulator.register(0), 0x12345678);
    assert_eq!(emulator.eip(), 5);
    assert_eq!(emulator.step(), Ok(Cycle::Ended));
    assert_eq!(emulator.eip(), 5);

    let mut emulator = loaded(vec![0xb8, 0x78, 0x56, 0x34, 0x12]);
    assert_eq!(emulator.run(), Ok(()));
    assert_eq!(emulator.registers(), [0x12345678, 0, 0, 0, 0, 0, 0, 0]);
    assert_eq!(emulator.eip(), 5);
}

#[test]
fn mov_into_each_register() {
    let mut emulator = loaded(vec![0xbf, 7, 0, 0, 0, 0xb9, 1, 0, 0, 0]);
    assert_eq!(emulator.run(), Ok(()));
    assert_eq!(emulator.registers(), [0, 1, 0, 0, 0, 0, 0, 7]);
    assert_eq!(emulator.eip(), 10);
}

#[test]
fn short_jump_forward_past_end() {
    let mut emulator = loaded(vec![0xeb, 0x02, 0x00, 0x00]);
    assert_eq!(emulator.step(), Ok(Cycle::Running));
    assert_eq!(emulator.eip(), 4);
    assert_eq!(emulator.step(), Ok(Cycle::Ended));

    let mut emulator = loaded(vec![0xeb, 0x02, 0x00, 0x00]);
    assert_eq!(emulator.run(), Ok(()));
    assert_eq!(emulator.eip(), 4);
    assert_eq!(emulator.registers(), [0; 8]);
}

#[test]
fn short_jump_back_to_zero_halts() {
    let mut emulator = loaded(vec![0xeb, 0xfe]);
    assert_eq!(emulator.step(), Ok(Cycle::Halted));
    assert_eq!(emulator.eip(), 0);

    let mut emulator = loaded(vec![0xeb, 0xfe]);
    assert_eq!(emulator.run(), Ok(()));
    assert_eq!(emulator.eip(), 0);
    assert_eq!(emulator.registers(), [0; 8]);
}

#[test]
fn halt_stops_with_bytes_left() {
    let mut emulator = loaded(vec![0xeb, 0x03, 0, 0, 0, 0xeb, 0xf9, 0xb8, 1, 0, 0, 0]);
    assert_eq!(emulator.run(), Ok(()));
    assert_eq!(emulator.eip(), 0);
    assert_eq!(emulator.registers(), [0; 8]);
}

#[test]
fn unrecognized_opcode_fails() {
    let mut emulator = loaded(vec![0xff]);
    assert_eq!(emulator.current_instruction(), Ok(Instruction::NotImplemented));
    assert_eq!(emulator.run(), Err(EmuError::UnrecognizedOpcode { offset: 0 }));
    assert_eq!(emulator.eip(), 0);

    let mut emulator = loaded(vec![0xb8, 5, 0, 0, 0, 0x90]);
    assert_eq!(emulator.run(), Err(EmuError::UnrecognizedOpcode { offset: 5 }));
    assert_eq!(emulator.register(0), 5);
    assert_eq!(emulator.eip(), 5);
}

#[test]
fn truncated_operands_are_out_of_bounds() {
    let mut emulator = loaded(vec![0xb8, 1, 2]);
    assert_eq!(emulator.run(), Err(EmuError::OutOfBounds { offset: 3 }));
    assert_eq!(emulator.registers(), [0; 8]);
    assert_eq!(emulator.eip(), 0);

    let mut emulator = loaded(vec![0xeb]);
    assert_eq!(emulator.step(), Err(EmuError::OutOfBounds { offset: 1 }));
    assert_eq!(emulator.eip(), 0);
}

#[test]
fn backward_jump_below_zero_fails() {
    let mut emulator = loaded(vec![0xeb, 0x80]);
    assert_eq!(emulator.run(), Err(EmuError::JumpOutOfRange { offset: 0 }));
    assert_eq!(emulator.eip(), 0);
}

#[test]
fn endless_loop_is_reported() {
    let mut emulator = loaded(vec![0xeb, 0x00, 0xeb, 0xfe]);
    assert_eq!(emulator.run(), Err(EmuError::NonTerminating { offset: 2 }));
    assert_eq!(emulator.eip(), 2);
}

#[test]
fn entry_offset_is_where_the_run_starts() {
    let mut emulator = Emulator::with_config(16, 2);
    assert_eq!(emulator.eip(), 2);
    emulator.load(vec![0xff, 0xff, 0xb8, 1, 0, 0, 0]).expect("failed to load");
    assert_eq!(emulator.current_instruction(), Ok(Instruction::MovR32Imm32(0)));
    assert_eq!(emulator.run(), Ok(()));
    assert_eq!(emulator.register(0), 1);
    assert_eq!(emulator.eip(), 7);
}

#[test]
fn current_instruction_outside_memory() {
    let emulator = loaded(vec![]);
    assert_eq!(emulator.current_instruction(), Err(EmuError::OutOfBounds { offset: 0 }));
    let mut emulator = loaded(vec![]);
    assert_eq!(emulator.run(), Ok(()));
}

#[test]
fn inspection_does_not_change_state() {
    let mut emulator = loaded(vec![0xbb, 0x44, 0x33, 0x22, 0x11]);
    assert_eq!(emulator.run(), Ok(()));
    let first = (emulator.registers(), emulator.eip(), emulator.eflags());
    let second = (emulator.registers(), emulator.eip(), emulator.eflags());
    assert_eq!(first, second);
    assert_eq!(first.0[3], 0x11223344);
    assert_eq!(emulator.register(3), 0x11223344);
}

#[test]
fn setters_change_only_their_field() {
    let mut emulator = loaded(vec![0xeb, 0x00]);
    emulator.set_register(7, 9);
    emulator.set_eflags(0x202);
    emulator.set_eip(1);
    assert_eq!(emulator.registers(), [0, 0, 0, 0, 0, 0, 0, 9]);
    assert_eq!(emulator.eflags(), 0x202);
    assert_eq!(emulator.eip(), 1);
    assert_eq!(emulator.code_size(), 2);
}
