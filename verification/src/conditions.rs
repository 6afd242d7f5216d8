//! Condition codes and their evaluation against the processor status flags.
//!
//! A condition is a closed set of 16 named codes; it is evaluated against a
//! 4-bit flag nibble with bit 3 = N (negative), bit 2 = Z (zero),
//! bit 1 = C (carry) and bit 0 = V (overflow), as extracted by the caller
//! from the top nibble of the status register.

use vstd::prelude::*;

verus! {

/// The condition codes of the data-processing encoding. The reserved
/// encoding is represented by `INVALID`, which no flag state satisfies.
#[derive(PartialEq, Eq, Structural, Clone, Copy, Debug)]
pub enum Condition {
    EQ,
    NE,
    CS,
    CC,
    MI,
    PL,
    VS,
    VC,
    HI,
    LS,
    GE,
    LT,
    GT,
    LE,
    AL,
    INVALID,
}

/// The truth table of the condition codes over the flag nibble
/// (bit 3 = N, bit 2 = Z, bit 1 = C, bit 0 = V).
pub open spec fn condition_met(condition: Condition, flags: u8) -> bool {
    let n = (flags >> 3) & 1;
    let z = (flags >> 2) & 1;
    let c = (flags >> 1) & 1;
    let v = flags & 1;
    match condition {
        Condition::EQ => z != 0,
        Condition::NE => z == 0,
        Condition::CS => c != 0,
        Condition::CC => c == 0,
        Condition::MI => n != 0,
        Condition::PL => n == 0,
        Condition::VS => v != 0,
        Condition::VC => v == 0,
        Condition::HI => c != 0 && z == 0,
        Condition::LS => c == 0 || z != 0,
        Condition::GE => n == v,
        Condition::LT => n != v,
        Condition::GT => z == 0 && n == v,
        Condition::LE => z != 0 || n != v,
        Condition::AL => true,
        Condition::INVALID => false,
    }
}

/// The fixed decoding of the raw 4-bit condition field: 0 is `EQ` through
/// 14 for `AL`; the reserved encoding 15 (and any wider raw value) maps
/// to `INVALID`.
pub open spec fn condition_of(condition: u8) -> Condition {
    if condition == 0b0000 {
        Condition::EQ
    } else if condition == 0b0001 {
        Condition::NE
    } else if condition == 0b0010 {
        Condition::CS
    } else if condition == 0b0011 {
        Condition::CC
    } else if condition == 0b0100 {
        Condition::MI
    } else if condition == 0b0101 {
        Condition::PL
    } else if condition == 0b0110 {
        Condition::VS
    } else if condition == 0b0111 {
        Condition::VC
    } else if condition == 0b1000 {
        Condition::HI
    } else if condition == 0b1001 {
        Condition::LS
    } else if condition == 0b1010 {
        Condition::GE
    } else if condition == 0b1011 {
        Condition::LT
    } else if condition == 0b1100 {
        Condition::GT
    } else if condition == 0b1101 {
        Condition::LE
    } else if condition == 0b1110 {
        Condition::AL
    } else {
        Condition::INVALID
    }
}

impl Condition {
    /// Evaluates this condition against a flag nibble, exactly as the
    /// truth table `condition_met` states.
    pub fn is_met(&self, cpsr_condition: u8) -> (r: bool)
        ensures
            r == condition_met(*self, cpsr_condition),
    {
        let n: u8 = (cpsr_condition >> 3) & 1;
        let z: u8 = (cpsr_condition >> 2) & 1;
        let c: u8 = (cpsr_condition >> 1) & 1;
        let v: u8 = cpsr_condition & 1;

        match self {
            Condition::EQ => z != 0,
            Condition::NE => z == 0,
            Condition::CS => c != 0,
            Condition::CC => c == 0,
            Condition::MI => n != 0,
            Condition::PL => n == 0,
            Condition::VS => v != 0,
            Condition::VC => v == 0,
            Condition::HI => c != 0 && z == 0,
            Condition::LS => c == 0 || z != 0,
            Condition::GE => n == v,
            Condition::LT => n != v,
            Condition::GT => z == 0 && n == v,
            Condition::LE => z != 0 || n != v,
            Condition::AL => true,
            Condition::INVALID => false,
        }
    }

    /// Resolves the raw 4-bit condition field of an instruction to its
    /// named code, per the fixed table `condition_of`.
    pub fn from_u8(condition: u8) -> (r: Condition)
        ensures
            r == condition_of(condition),
    {
        match condition {
            0b0000 => Condition::EQ,
            0b0001 => Condition::NE,
            0b0010 => Condition::CS,
            0b0011 => Condition::CC,
            0b0100 => Condition::MI,
            0b0101 => Condition::PL,
            0b0110 => Condition::VS,
            0b0111 => Condition::VC,
            0b1000 => Condition::HI,
            0b1001 => Condition::LS,
            0b1010 => Condition::GE,
            0b1011 => Condition::LT,
            0b1100 => Condition::GT,
            0b1101 => Condition::LE,
            0b1110 => Condition::AL,
            _ => Condition::INVALID,
        }
    }
}

/// The unconditional code holds for every flag state, and the reserved
/// code for none.
pub proof fn lemma_al_always_invalid_never(flags: u8)
    ensures
        condition_met(Condition::AL, flags),
        !condition_met(Condition::INVALID, flags),
{
}

/// The condition codes come in complementary pairs: each even/odd pair of
/// the encoding evaluates to opposite truth values on every flag state.
pub proof fn lemma_condition_complements(flags: u8)
    ensures
        condition_met(Condition::NE, flags) == !condition_met(Condition::EQ, flags),
        condition_met(Condition::CC, flags) == !condition_met(Condition::CS, flags),
        condition_met(Condition::PL, flags) == !condition_met(Condition::MI, flags),
        condition_met(Condition::VC, flags) == !condition_met(Condition::VS, flags),
        condition_met(Condition::LS, flags) == !condition_met(Condition::HI, flags),
        condition_met(Condition::LT, flags) == !condition_met(Condition::GE, flags),
        condition_met(Condition::LE, flags) == !condition_met(Condition::GT, flags),
{
}

} // verus!
