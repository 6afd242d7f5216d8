//! The pipeline driver: fetch a word at the program counter, advance the
//! counter by four, decode, execute — for a fixed iteration count.
//!
//! A decode failure aborts the run immediately; an out-of-bounds fetch is
//! the memory's error, propagated unhandled. An unmet condition or an
//! unknown opcode is not an error: the cycle still consumes one fetch,
//! advances the counter, and retires with no register effect.

use crate::cpu::RegModel;
use crate::cpu::Registers;
use crate::decode::decode_instruction;
use crate::decode::decoded;
use crate::decode::is_data_processing;
use crate::decode::DecodeError;
use crate::execute::execute_instruction;
use crate::execute::instr_safe;
use crate::execute::spec_execute;
use crate::memory::read_word;
use crate::memory::word_at;
use crate::memory::Memory;
use crate::memory::MemoryError;
use vstd::prelude::*;

verus! {

/// What aborts a run: a fetch outside the memory region, or a word that
/// does not match the recognized instruction-class mask.
#[derive(PartialEq, Eq, Structural, Clone, Copy, Debug)]
pub enum PipelineError {
    OutOfBounds,
    InvalidClass,
}

/// Reads the instruction word at `address`, little-endian, or the
/// memory's own error when the four bytes do not fit in the region.
pub fn fetch_instruction(memory: &Memory, address: u32) -> (r: Result<u32, MemoryError>)
    requires
        memory.wf(),
    ensures
        address as int + 4 <= memory@.len() ==> r == Ok::<u32, MemoryError>(
            word_at(memory@, address as int),
        ),
        address as int + 4 > memory@.len() ==> r == Err::<u32, MemoryError>(
            MemoryError::OutOfBounds,
        ),
{
    read_word(memory, address)
}

/// The register file and the outcome after running `cycles` pipeline
/// steps: each step fetches the word at the program counter, advances the
/// counter by four, decodes and executes. A failed fetch stops with the
/// counter where it was; a failed classification stops with the counter
/// already advanced.
pub open spec fn spec_run(ram: Seq<u8>, regs: RegModel, cycles: nat) -> (RegModel, Option<
    PipelineError,
>)
    decreases cycles,
{
    if cycles == 0 {
        (regs, None)
    } else if !(regs.pc + 4 <= ram.len()) {
        (regs, Some(PipelineError::OutOfBounds))
    } else {
        let word = word_at(ram, regs.pc as int);
        let fetched = RegModel { pc: (regs.pc + 4) as u32, ..regs };
        if !is_data_processing(word) {
            (fetched, Some(PipelineError::InvalidClass))
        } else {
            spec_run(ram, spec_execute(decoded(word), fetched), (cycles - 1) as nat)
        }
    }
}

/// The inputs on which a run is defined: at every step that reaches the
/// executor, the decoded instruction is safe to execute — its register
/// fields resolve to general-purpose registers and an executed ADD does
/// not overflow. Steps that stop on a fetch or classification failure need
/// nothing.
pub open spec fn safe_run(ram: Seq<u8>, regs: RegModel, cycles: nat) -> bool
    decreases cycles,
{
    if cycles == 0 {
        true
    } else if !(regs.pc + 4 <= ram.len()) {
        true
    } else {
        let word = word_at(ram, regs.pc as int);
        let fetched = RegModel { pc: (regs.pc + 4) as u32, ..regs };
        if !is_data_processing(word) {
            true
        } else {
            instr_safe(decoded(word), fetched) && safe_run(
                ram,
                spec_execute(decoded(word), fetched),
                (cycles - 1) as nat,
            )
        }
    }
}

/// Runs the pipeline for `cycles` steps, exactly as `spec_run` states:
/// `Ok` after the full count, or the first step's error, with the register
/// file left at the state the model gives.
pub fn run_pipeline(memory: &Memory, registers: &mut Registers, cycles: usize) -> (r: Result<
    (),
    PipelineError,
>)
    requires
        memory.wf(),
        safe_run(memory@, old(registers)@, cycles as nat),
    ensures
        final(registers)@ == spec_run(memory@, old(registers)@, cycles as nat).0,
        r == (match spec_run(memory@, old(registers)@, cycles as nat).1 {
            None => Ok::<(), PipelineError>(()),
            Some(e) => Err::<(), PipelineError>(e),
        }),
{
    let mut i: usize = 0;
    while i < cycles
        invariant
            i <= cycles,
            memory.wf(),
            memory@.len() <= u32::MAX,
            safe_run(memory@, registers@, (cycles - i) as nat),
            spec_run(memory@, old(registers)@, cycles as nat) == spec_run(
                memory@,
                registers@,
                (cycles - i) as nat,
            ),
        decreases cycles - i,
    {
        let word = match fetch_instruction(memory, registers.pc) {
            Ok(word) => word,
            Err(MemoryError::OutOfBounds) => {
                return Err(PipelineError::OutOfBounds);
            },
        };
        registers.pc = registers.pc + 4;
        let instruction = match decode_instruction(word) {
            Ok(instruction) => instruction,
            Err(DecodeError::InvalidClass) => {
                return Err(PipelineError::InvalidClass);
            },
        };
        execute_instruction(&instruction, registers);
        i = i + 1;
    }
    Ok(())
}

/// The driver advances the program counter by exactly four bytes per
/// cycle: a run that completes without error leaves the counter higher by
/// four times the cycle count.
pub proof fn lemma_run_advances_pc(ram: Seq<u8>, regs: RegModel, cycles: nat)
    requires
        ram.len() <= u32::MAX,
        spec_run(ram, regs, cycles).1 is None,
    ensures
        spec_run(ram, regs, cycles).0.pc == regs.pc + 4 * cycles,
    decreases cycles,
{
    if cycles > 0 {
        let word = word_at(ram, regs.pc as int);
        let fetched = RegModel { pc: (regs.pc + 4) as u32, ..regs };
        lemma_run_advances_pc(
            ram,
            spec_execute(decoded(word), fetched),
            (cycles - 1) as nat,
        );
    }
}

/// Number of register writes a run performs: one for each cycle whose
/// instruction takes effect on the general-purpose registers, none for a
/// cycle retired on an unmet condition or an unknown opcode.
pub open spec fn run_mutations(ram: Seq<u8>, regs: RegModel, cycles: nat) -> nat
    decreases cycles,
{
    if cycles == 0 {
        0nat
    } else if !(regs.pc + 4 <= ram.len()) {
        0nat
    } else {
        let word = word_at(ram, regs.pc as int);
        let fetched = RegModel { pc: (regs.pc + 4) as u32, ..regs };
        if !is_data_processing(word) {
            0nat
        } else {
            let stepped = spec_execute(decoded(word), fetched);
            (if stepped.gpr == fetched.gpr {
                0nat
            } else {
                1nat
            }) + run_mutations(ram, stepped, (cycles - 1) as nat)
        }
    }
}

/// A run of `cycles` steps performs at most `cycles` register mutations —
/// fewer when conditions are not met or an opcode is unknown.
pub proof fn lemma_run_mutations_bounded(ram: Seq<u8>, regs: RegModel, cycles: nat)
    ensures
        run_mutations(ram, regs, cycles) <= cycles,
    decreases cycles,
{
    if cycles > 0 && regs.pc + 4 <= ram.len() {
        let word = word_at(ram, regs.pc as int);
        let fetched = RegModel { pc: (regs.pc + 4) as u32, ..regs };
        if is_data_processing(word) {
            lemma_run_mutations_bounded(
                ram,
                spec_execute(decoded(word), fetched),
                (cycles - 1) as nat,
            );
        }
    }
}

/// A run never writes the special registers: the stack pointer, link
/// register and both status registers come out as they went in, whatever
/// the outcome.
pub proof fn lemma_run_preserves_special(ram: Seq<u8>, regs: RegModel, cycles: nat)
    ensures
        spec_run(ram, regs, cycles).0.sp == regs.sp,
        spec_run(ram, regs, cycles).0.lr == regs.lr,
        spec_run(ram, regs, cycles).0.cpsr == regs.cpsr,
        spec_run(ram, regs, cycles).0.spsr == regs.spsr,
    decreases cycles,
{
    if cycles > 0 && regs.pc + 4 <= ram.len() {
        let word = word_at(ram, regs.pc as int);
        let fetched = RegModel { pc: (regs.pc + 4) as u32, ..regs };
        if is_data_processing(word) {
            lemma_run_preserves_special(
                ram,
                spec_execute(decoded(word), fetched),
                (cycles - 1) as nat,
            );
        }
    }
}

} // verus!
