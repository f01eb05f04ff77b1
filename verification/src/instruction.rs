//! The instruction set. Each opcode carries an operand type that holds only
//! the targets it may act on, so an illegal pairing cannot be written down.

use vstd::prelude::*;

verus! {

/// The single 8-bit registers that an 8-bit instruction may name.
#[derive(Copy, Clone, Debug, PartialEq, Eq, Structural)]
pub enum ArithmeticTarget {
    A,
    B,
    C,
    D,
    E,
    H,
    L,
}

/// The register pairs that a 16-bit addition may name.
#[derive(Copy, Clone, Debug, PartialEq, Eq, Structural)]
pub enum RegisterPair {
    BC,
    DE,
    HL,
}

/// One decoded instruction.
///
/// `CCF`, `SCF`, `RRA`, `RLA`, `RRCA`, `RRLA` and `CPL` take no operand: they
/// act on the accumulator and the carry flag. `RRLA` is the circular left
/// rotation, `RRCA` the circular right rotation. `BIT`, `RESET` and `SET`
/// carry a bit index, which must lie in `0..=7`.
#[derive(Copy, Clone, Debug, PartialEq, Eq, Structural)]
pub enum Instruction {
    ADD(ArithmeticTarget),
    ADDHL(RegisterPair),
    ADC(ArithmeticTarget),
    SUB(ArithmeticTarget),
    SBC(ArithmeticTarget),
    AND(ArithmeticTarget),
    OR(ArithmeticTarget),
    XOR(ArithmeticTarget),
    CP(ArithmeticTarget),
    INC(ArithmeticTarget),
    DEC(ArithmeticTarget),
    CCF,
    SCF,
    RRA,
    RLA,
    RRCA,
    RRLA,
    CPL,
    BIT(u8, ArithmeticTarget),
    RESET(u8, ArithmeticTarget),
    SET(u8, ArithmeticTarget),
}

impl Instruction {
    /// Whether the instruction is one the processor can execute: a bit
    /// instruction names one of the eight bits of a register. Every other
    /// instruction is legal as built.
    pub open spec fn valid(self) -> bool {
        match self {
            Instruction::BIT(index, _) => index <= 7,
            Instruction::RESET(index, _) => index <= 7,
            Instruction::SET(index, _) => index <= 7,
            _ => true,
        }
    }

    /// Decides `valid` at run time, for a caller that builds instructions from
    /// untrusted bytes.
    pub fn is_valid(&self) -> (ok: bool)
        ensures
            ok == self.valid(),
    {
        match self {
            Instruction::BIT(index, _) => *index <= 7,
            Instruction::RESET(index, _) => *index <= 7,
            Instruction::SET(index, _) => *index <= 7,
            _ => true,
        }
    }
}

} // verus!
