//! Instruction-execution core of a RISC-style 32-bit processor emulator.
//!
//! The core interprets fixed-width binary instruction words against an
//! explicit register file and a flat byte-addressable memory: it evaluates
//! per-instruction condition codes against the processor status flags,
//! decodes the data-processing instruction class into a structured form,
//! and conditionally applies a minimal opcode set to the register state.
//! A pipeline driver repeatedly fetches, decodes and executes.

pub mod conditions;
pub mod cpu;
pub mod decode;
pub mod execute;
pub mod memory;
pub mod pipeline;

pub use decode::decode_data_processing_instruction;
pub use decode::decode_instruction;
pub use decode::DecodeError;
pub use decode::Instruction;
pub use decode::InstructionType;
pub use decode::OpCode;
pub use execute::execute_instruction;
pub use memory::read_byte;
pub use memory::read_halfword;
pub use memory::read_word;
pub use memory::write_byte;
pub use memory::write_halfword;
pub use memory::write_word;
pub use pipeline::fetch_instruction;
pub use pipeline::run_pipeline;
pub use pipeline::PipelineError;
