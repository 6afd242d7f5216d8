//! The register file: thirteen general-purpose registers plus the stack
//! pointer, link register, program counter and the two status registers.
//!
//! Only the top nibble of the current status register (bits 31..28 =
//! N, Z, C, V) is consumed by this core; the saved status register is
//! carried but unused.

use vstd::prelude::*;

verus! {

/// Number of general-purpose registers addressable by this core.
/// Indices 13 to 15 of the 4-bit register fields (stack pointer, link
/// register, program counter) are not addressable through the
/// data-processing encoding modeled here.
pub const GPR_COUNT: usize = 13;

pub struct Registers {
    pub gpr: [u32; 13],
    /// Stack pointer.
    pub sp: u32,
    /// Link register.
    pub lr: u32,
    /// Program counter.
    pub pc: u32,
    /// Current program status register.
    pub cpsr: u32,
    /// Saved program status register.
    pub spsr: u32,
}

/// Mathematical model of the register file: the general-purpose registers
/// as a sequence, beside the special registers.
pub struct RegModel {
    pub gpr: Seq<u32>,
    pub sp: u32,
    pub lr: u32,
    pub pc: u32,
    pub cpsr: u32,
    pub spsr: u32,
}

impl View for Registers {
    type V = RegModel;

    open spec fn view(&self) -> RegModel {
        RegModel {
            gpr: self.gpr@,
            sp: self.sp,
            lr: self.lr,
            pc: self.pc,
            cpsr: self.cpsr,
            spsr: self.spsr,
        }
    }
}

impl Registers {
    /// A zero-initialized register file; a loader sets the program counter
    /// to the entry address before the pipeline driver starts.
    pub fn new() -> (r: Registers)
        ensures
            r@.gpr.len() == GPR_COUNT,
            forall|k: int| 0 <= k < r@.gpr.len() ==> r@.gpr[k] == 0,
            r@.sp == 0,
            r@.lr == 0,
            r@.pc == 0,
            r@.cpsr == 0,
            r@.spsr == 0,
    {
        Registers { gpr: [0u32; 13], sp: 0, lr: 0, pc: 0, cpsr: 0, spsr: 0 }
    }
}

} // verus!
