use cpu_core::conditions::Condition;
use cpu_core::cpu::Registers;
use cpu_core::memory::{read_byte, read_halfword, Memory, MemoryError, MEMORY_BYTES};
use cpu_core::{
    decode_instruction, execute_instruction, fetch_instruction, read_word, run_pipeline,
    write_byte, write_halfword, write_word, DecodeError, InstructionType, OpCode, PipelineError,
};

fn nibble(n: bool, z: bool, c: bool, v: bool) -> u8 {
    ((n as u8) << 3) | ((z as u8) << 2) | ((c as u8) << 1) | (v as u8)
}

#[test]
fn condition_truth_table_all_flag_states() {
    let codes = [
        Condition::EQ,
        Condition::NE,
        Condition::CS,
        Condition::CC,
        Condition::MI,
        Condition::PL,
        Condition::VS,
        Condition::VC,
        Condition::HI,
        Condition::LS,
        Condition::GE,
        Condition::LT,
        Condition::GT,
        Condition::LE,
        Condition::AL,
        Condition::INVALID,
    ];
    for (idx, code) in codes.iter().enumerate() {
        for flags in 0u8..16 {
            let n = flags & 0b1000 != 0;
            let z = flags & 0b0100 != 0;
            let c = flags & 0b0010 != 0;
            let v = flags & 0b0001 != 0;
            let expected = match idx {
                0 => z,
                1 => !z,
                2 => c,
                3 => !c,
                4 => n,
                5 => !n,
                6 => v,
                7 => !v,
                8 => c && !z,
                9 => !c || z,
                10 => n == v,
                11 => n != v,
                12 => !z && n == v,
                13 => z || n != v,
                14 => true,
                _ => false,
            };
            assert_eq!(
                code.is_met(nibble(n, z, c, v)),
                expected,
                "code index {} flags {:04b}",
                idx,
                flags
            );
        }
    }
}

#[test]
fn condition_from_u8_table() {
    assert_eq!(Condition::from_u8(0), Condition::EQ);
    assert_eq!(Condition::from_u8(1), Condition::NE);
    assert_eq!(Condition::from_u8(2), Condition::CS);
    assert_eq!(Condition::from_u8(3), Condition::CC);
    assert_eq!(Condition::from_u8(4), Condition::MI);
    assert_eq!(Condition::from_u8(5), Condition::PL);
    assert_eq!(Condition::from_u8(6), Condition::VS);
    assert_eq!(Condition::from_u8(7), Condition::VC);
    assert_eq!(Condition::from_u8(8), Condition::HI);
    assert_eq!(Condition::from_u8(9), Condition::LS);
    assert_eq!(Condition::from_u8(10), Condition::GE);
    assert_eq!(Condition::from_u8(11), Condition::LT);
    assert_eq!(Condition::from_u8(12), Condition::GT);
    assert_eq!(Condition::from_u8(13), Condition::LE);
    assert_eq!(Condition::from_u8(14), Condition::AL);
    assert_eq!(Condition::from_u8(15), Condition::INVALID);
    assert_eq!(Condition::from_u8(200), Condition::INVALID);
}

#[test]
fn opcode_from_u8_table() {
    assert_eq!(OpCode::from_u8(0b0100), OpCode::ADD);
    assert_eq!(OpCode::from_u8(0b1101), OpCode::MOV);
    assert_eq!(OpCode::from_u8(0b0000), OpCode::Unknown);
    assert_eq!(OpCode::from_u8(0b1111), OpCode::Unknown);
}

#[test]
fn decode_immediate_mov_fields() {
    let instruction = decode_instruction(0xE3A0000A).unwrap();
    assert_eq!(instruction.instruction_type, InstructionType::DataProcessing);
    assert_eq!(instruction.opcode, OpCode::MOV);
    assert!(instruction.immediate);
    assert_eq!(instruction.dest_register, 0);
    assert_eq!(instruction.operand_2, 10);
    assert_eq!(Condition::from_u8(instruction.condition), Condition::AL);
    assert!(!instruction.set_state);

    let mut registers = Registers::new();
    execute_instruction(&instruction, &mut registers);
    assert_eq!(registers.gpr[0], 10);
}

#[test]
fn decode_then_execute_immediate_mov() {
    let mut registers = Registers::new();
    let instruction = decode_instruction(0xE3A01014).unwrap();
    execute_instruction(&instruction, &mut registers);
    assert_eq!(registers.gpr[1], 20); // 0x14 = 20, immediate MOV
}

#[test]
fn register_add_reads_source_before_write() {
    let mut registers = Registers::new();
    registers.gpr[0] = 10;
    registers.gpr[1] = 20;
    // add r0, r0, r1: non-immediate, src = r0, dest = r0, operand2 low bits = 1
    let instruction = decode_instruction(0xE0800001).unwrap();
    assert_eq!(instruction.opcode, OpCode::ADD);
    assert!(!instruction.immediate);
    assert_eq!(instruction.src_register, 0);
    assert_eq!(instruction.dest_register, 0);
    execute_instruction(&instruction, &mut registers);
    assert_eq!(registers.gpr[0], 30);

    // add r0, r0, r0: destination, source and operand all name r0;
    // both reads see the old value
    let mut registers = Registers::new();
    registers.gpr[0] = 10;
    let instruction = decode_instruction(0xE0800000).unwrap();
    execute_instruction(&instruction, &mut registers);
    assert_eq!(registers.gpr[0], 20);
}

#[test]
fn conditional_execution_and_idempotent_no_op() {
    // moveq r2, #5: executes exactly when Z == 1
    let instruction = decode_instruction(0x03A02005).unwrap();

    let mut registers = Registers::new();
    registers.cpsr = 0x4000_0000; // Z = 1
    execute_instruction(&instruction, &mut registers);
    assert_eq!(registers.gpr[2], 5);

    let mut registers = Registers::new();
    registers.gpr[2] = 77;
    registers.cpsr = 0; // Z = 0
    execute_instruction(&instruction, &mut registers);
    assert_eq!(registers.gpr[2], 77); // unchanged from its prior value
    execute_instruction(&instruction, &mut registers);
    assert_eq!(registers.gpr[2], 77); // re-executing is idempotent
}

#[test]
fn ne_is_exact_complement_of_eq() {
    // moveq r2, #5 and movne r3, #10 on the same flag values
    let if_eq = decode_instruction(0x03A02005).unwrap();
    let if_ne = decode_instruction(0x13A0300A).unwrap();

    for z in [false, true] {
        let mut registers = Registers::new();
        registers.cpsr = if z { 0x4000_0000 } else { 0 };
        execute_instruction(&if_eq, &mut registers);
        execute_instruction(&if_ne, &mut registers);
        let eq_fired = registers.gpr[2] == 5;
        let ne_fired = registers.gpr[3] == 10;
        assert_eq!(eq_fired, z);
        assert_eq!(ne_fired, !z);
        assert_ne!(eq_fired, ne_fired);
    }
}

#[test]
fn pipeline_advances_pc_four_per_cycle() {
    let mut memory = Memory::new();
    write_word(&mut memory, 0x0, 0xE3A0000A).unwrap(); // mov r0, #10
    write_word(&mut memory, 0x4, 0xE3A01014).unwrap(); // mov r1, #20
    write_word(&mut memory, 0x8, 0xE0800001).unwrap(); // add r0, r0, r1
    write_word(&mut memory, 0xC, 0x03A02005).unwrap(); // moveq r2, #5 (Z == 0: retired, no effect)
    write_word(&mut memory, 0x10, 0xE2000001).unwrap(); // unmodeled opcode: no-op

    let mut registers = Registers::new();
    registers.pc = 0x0;
    let outcome = run_pipeline(&memory, &mut registers, 5);
    assert_eq!(outcome, Ok(()));
    assert_eq!(registers.pc, 4 * 5); // exactly 4 bytes per cycle
    assert_eq!(registers.gpr[0], 30);
    assert_eq!(registers.gpr[1], 20);
    assert_eq!(registers.gpr[2], 0); // condition unmet: at most one mutation per cycle, here none
    assert_eq!(registers.cpsr, 0); // the status register is never touched
}

#[test]
fn pipeline_stops_on_invalid_class() {
    let mut memory = Memory::new();
    write_word(&mut memory, 0x0, 0xE3A0000A).unwrap(); // mov r0, #10
    // the word at 0x4 stays zero: low 26 bits all zero, not data-processing

    let mut registers = Registers::new();
    registers.pc = 0x0;
    let outcome = run_pipeline(&memory, &mut registers, 3);
    assert_eq!(outcome, Err(PipelineError::InvalidClass));
    assert_eq!(registers.pc, 8); // the counter had already advanced past the bad word
    assert_eq!(registers.gpr[0], 10); // the first cycle still took effect
}

#[test]
fn decode_rejects_low_bits_all_zero() {
    assert_eq!(decode_instruction(0x0000_0000), Err(DecodeError::InvalidClass));
    assert_eq!(decode_instruction(0xE000_0000), Err(DecodeError::InvalidClass));
    assert_eq!(decode_instruction(0xFC00_0000), Err(DecodeError::InvalidClass));
    assert!(decode_instruction(0x0000_0001).is_ok());
    assert!(decode_instruction(0x0200_0000).is_ok());
}

#[test]
fn memory_round_trips_and_bounds() {
    let mut memory = Memory::new();

    // zero-initialized
    assert_eq!(read_word(&memory, 0x1234), Ok(0));

    // little-endian byte order
    write_word(&mut memory, 0x100, 0x0A0B0C0D).unwrap();
    assert_eq!(read_byte(&memory, 0x100), Ok(0x0D));
    assert_eq!(read_byte(&memory, 0x101), Ok(0x0C));
    assert_eq!(read_byte(&memory, 0x102), Ok(0x0B));
    assert_eq!(read_byte(&memory, 0x103), Ok(0x0A));
    assert_eq!(read_halfword(&memory, 0x100), Ok(0x0C0D));
    assert_eq!(read_word(&memory, 0x100), Ok(0x0A0B0C0D));

    write_halfword(&mut memory, 0x200, 0xBEEF).unwrap();
    assert_eq!(read_halfword(&memory, 0x200), Ok(0xBEEF));
    assert_eq!(read_byte(&memory, 0x200), Ok(0xEF));

    write_byte(&mut memory, 0x300, 0x7F).unwrap();
    assert_eq!(read_byte(&memory, 0x300), Ok(0x7F));

    // high addresses are served like low ones; their pages materialize on
    // first write
    write_word(&mut memory, 0x8000_0000, 0xCAFE_F00D).unwrap();
    assert_eq!(read_word(&memory, 0x8000_0000), Ok(0xCAFE_F00D));
    assert_eq!(read_word(&memory, 0x8000_0004), Ok(0));
    write_byte(&mut memory, 0xFFFF_FFFE, 0xAB).unwrap(); // the store's last byte
    assert_eq!(read_byte(&memory, 0xFFFF_FFFE), Ok(0xAB));

    // accesses that would run past the region fail with OutOfBounds
    let end = MEMORY_BYTES as u32;
    assert_eq!(read_word(&memory, end - 3), Err(MemoryError::OutOfBounds));
    assert_eq!(read_halfword(&memory, end - 1), Err(MemoryError::OutOfBounds));
    assert_eq!(read_byte(&memory, end), Err(MemoryError::OutOfBounds));
    assert_eq!(write_word(&mut memory, end - 3, 1), Err(MemoryError::OutOfBounds));
    assert_eq!(write_halfword(&mut memory, end - 1, 1), Err(MemoryError::OutOfBounds));
    assert_eq!(write_byte(&mut memory, end, 1), Err(MemoryError::OutOfBounds));

    // the last word, halfword and byte that fit are accessible; the byte
    // written at end - 1 shows up as the top byte of the last word
    assert_eq!(read_word(&memory, end - 4), Ok(0xAB00_0000));
    assert_eq!(read_halfword(&memory, end - 2), Ok(0xAB00));
    assert_eq!(read_byte(&memory, end - 1), Ok(0xAB));
    assert_eq!(fetch_instruction(&memory, end - 4), Ok(0xAB00_0000));

    // a fetch outside the region propagates the memory's error
    assert_eq!(fetch_instruction(&memory, end - 3), Err(MemoryError::OutOfBounds));
}

#[test]
fn pipeline_propagates_out_of_bounds_fetch() {
    let memory = Memory::new();
    let mut registers = Registers::new();
    registers.pc = MEMORY_BYTES as u32;
    let outcome = run_pipeline(&memory, &mut registers, 1);
    assert_eq!(outcome, Err(PipelineError::OutOfBounds));
    assert_eq!(registers.pc, MEMORY_BYTES as u32); // a failed fetch leaves the counter alone
}

#[test]
fn registers_start_zeroed() {
    let registers = Registers::new();
    for k in 0..13 {
        assert_eq!(registers.gpr[k], 0);
    }
    assert_eq!(registers.sp, 0);
    assert_eq!(registers.lr, 0);
    assert_eq!(registers.pc, 0);
    assert_eq!(registers.cpsr, 0);
    assert_eq!(registers.spsr, 0);
}

#[test]
fn unknown_opcode_is_no_op() {
    let mut registers = Registers::new();
    registers.gpr[5] = 42;
    // and r0, r0, #1 decodes with an opcode this core does not model
    let instruction = decode_instruction(0xE2000001).unwrap();
    assert_eq!(instruction.opcode, OpCode::Unknown);
    execute_instruction(&instruction, &mut registers);
    for k in 0..13 {
        let expected = if k == 5 { 42 } else { 0 };
        assert_eq!(registers.gpr[k], expected);
    }
}
