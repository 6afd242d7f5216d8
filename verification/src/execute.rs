//! Conditional execution of a decoded instruction against the register
//! file.
//!
//! The raw condition field is resolved to a named code and evaluated
//! against the top nibble of the current status register; an unmet
//! condition retires the instruction with no observable effect, which is
//! normal control flow, not an error. An unknown opcode is likewise a
//! no-op. The executor never touches the status register: recomputing the
//! flags after an operation is a deliberate scope boundary.

use crate::conditions::condition_met;
use crate::conditions::condition_of;
use crate::conditions::Condition;
use crate::cpu::RegModel;
use crate::cpu::Registers;
use crate::cpu::GPR_COUNT;
use crate::decode::Instruction;
use crate::decode::OpCode;
use vstd::prelude::*;

verus! {

/// The flag nibble of a status-register value: bits 31..28, read as
/// N, Z, C, V.
pub open spec fn cpsr_nibble(cpsr: u32) -> u8 {
    ((cpsr >> 28) & 0xf) as u8
}

/// Whether the instruction's condition holds of the register file's
/// current status flags.
pub open spec fn condition_passes(i: Instruction, regs: RegModel) -> bool {
    condition_met(condition_of(i.condition), cpsr_nibble(regs.cpsr))
}

/// The register index consumed by a non-immediate operand 2: its low four
/// bits.
pub open spec fn operand2_register(i: Instruction) -> int {
    (i.operand_2 & 0xf) as int
}

/// The value a MOV writes to the destination register: the immediate, or
/// the register addressed by the low four bits of operand 2.
pub open spec fn mov_value(i: Instruction, regs: RegModel) -> u32 {
    if i.immediate {
        i.operand_2 as u32
    } else {
        regs.gpr[operand2_register(i)]
    }
}

/// The value an ADD writes to the destination register: the destination's
/// current value plus the immediate, or the source register's value plus
/// the register addressed by the low four bits of operand 2.
pub open spec fn add_value(i: Instruction, regs: RegModel) -> u32 {
    if i.immediate {
        (regs.gpr[i.dest_register as int] + i.operand_2) as u32
    } else {
        (regs.gpr[i.src_register as int] + regs.gpr[operand2_register(i)]) as u32
    }
}

/// What executing one instruction does to the register file: nothing when
/// the condition is unmet or the opcode is unknown, otherwise a single
/// write of the opcode's value to the destination register.
pub open spec fn spec_execute(i: Instruction, regs: RegModel) -> RegModel {
    if !condition_passes(i, regs) {
        regs
    } else {
        match i.opcode {
            OpCode::ADD => RegModel {
                gpr: regs.gpr.update(i.dest_register as int, add_value(i, regs)),
                ..regs
            },
            OpCode::MOV => RegModel {
                gpr: regs.gpr.update(i.dest_register as int, mov_value(i, regs)),
                ..regs
            },
            OpCode::Unknown => regs,
        }
    }
}

/// The inputs on which execution is defined: the destination and source
/// fields resolve to general-purpose registers, and, when the instruction
/// takes effect, so does a non-immediate operand-2 register, and an ADD
/// does not overflow the 32-bit destination.
pub open spec fn instr_safe(i: Instruction, regs: RegModel) -> bool {
    &&& i.dest_register < GPR_COUNT
    &&& i.src_register < GPR_COUNT
    &&& condition_passes(i, regs) ==> match i.opcode {
        OpCode::ADD => {
            &&& !i.immediate ==> operand2_register(i) < GPR_COUNT
            &&& regs.gpr[i.dest_register as int] + i.operand_2 <= u32::MAX || !i.immediate
            &&& i.immediate || regs.gpr[i.src_register as int] + regs.gpr[operand2_register(i)]
                <= u32::MAX
        },
        OpCode::MOV => i.immediate || operand2_register(i) < GPR_COUNT,
        OpCode::Unknown => true,
    }
}

/// Applies one instruction to the register file in place, gated by its
/// condition, exactly as `spec_execute` states.
pub fn execute_instruction(instruction: &Instruction, registers: &mut Registers)
    requires
        instr_safe(*instruction, old(registers)@),
    ensures
        final(registers)@ == spec_execute(*instruction, old(registers)@),
{
    proof {
        let cpsr = registers.cpsr;
        assert((cpsr >> 28) & 0xf < 0x100) by (bit_vector);
    }
    let flags = ((registers.cpsr >> 28) & 0xf) as u8;
    if !Condition::from_u8(instruction.condition).is_met(flags) {
        return ;
    }
    match instruction.opcode {
        OpCode::ADD => {
            let dest = instruction.dest_register as usize;
            let value: u32 = if instruction.immediate {
                registers.gpr[dest] + instruction.operand_2 as u32
            } else {
                let op_reg = (instruction.operand_2 & 0xf) as usize;
                registers.gpr[instruction.src_register as usize] + registers.gpr[op_reg]
            };
            registers.gpr[dest] = value;
        },
        OpCode::MOV => {
            let dest = instruction.dest_register as usize;
            let value: u32 = if instruction.immediate {
                instruction.operand_2 as u32
            } else {
                let op_reg = (instruction.operand_2 & 0xf) as usize;
                registers.gpr[op_reg]
            };
            registers.gpr[dest] = value;
        },
        OpCode::Unknown => {},
    }
}

/// One executed instruction writes at most its destination general-purpose
/// register: every other general-purpose register and every special
/// register — the status register included — keeps its value, and an unmet
/// condition or an unknown opcode leaves the whole file unchanged.
pub proof fn lemma_execute_frame(i: Instruction, regs: RegModel)
    requires
        regs.gpr.len() == GPR_COUNT,
        i.dest_register < GPR_COUNT,
    ensures
        spec_execute(i, regs).sp == regs.sp,
        spec_execute(i, regs).lr == regs.lr,
        spec_execute(i, regs).pc == regs.pc,
        spec_execute(i, regs).cpsr == regs.cpsr,
        spec_execute(i, regs).spsr == regs.spsr,
        spec_execute(i, regs).gpr.len() == regs.gpr.len(),
        forall|k: int|
            0 <= k < regs.gpr.len() && k != i.dest_register as int ==> spec_execute(
                i,
                regs,
            ).gpr[k] == regs.gpr[k],
        !condition_passes(i, regs) ==> spec_execute(i, regs) == regs,
        i.opcode == OpCode::Unknown ==> spec_execute(i, regs) == regs,
{
}

} // verus!
