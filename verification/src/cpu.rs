//! The executor: one state transition per instruction.

use vstd::prelude::*;
use crate::alu::{
    adc_flags, adc_value, add_flags, add_value, addhl_flags, addhl_value, and_flags, and_value,
    bit_flags, carry_bit, ccf_flags, cpl_flags, cpl_value, dec_flags, dec_value, inc_flags, inc_value,
    lemma_bit_values, lemma_inc_dec_values, lemma_low_bits, or_flags, or_value, reset_value, rla_flags, rla_value,
    rra_flags, rra_value, rrca_flags, rrca_value, rrla_flags, rrla_value, sbc_flags, sbc_value,
    scf_flags, set_value, sub_flags, sub_value, xor_flags, xor_value,
};
use crate::flags::bit_is_set;
use crate::instruction::{ArithmeticTarget, Instruction, RegisterPair};
use crate::registers::{lemma_split_value, Registers};

verus! {

/// The processor: its whole state is the register file.
#[derive(Copy, Clone, Debug, PartialEq, Eq, Structural)]
pub struct CPU {
    pub registers: Registers,
}

impl CPU {
    /// The state that follows this one when `instruction` is executed.
    ///
    /// Arithmetic and logic on the accumulator write the accumulator and the
    /// flags; `ADDHL` writes HL and the flags; `INC` and `DEC` write the
    /// register they name and the flags; `CP`, `BIT`, `CCF` and `SCF` write
    /// the flags alone; `SET` and `RESET` write the register they name and no
    /// flag.
    pub open spec fn step(self, instruction: Instruction) -> CPU {
        let r = self.registers;
        CPU {
            registers: match instruction {
                Instruction::ADD(t) => Registers {
                    a: add_value(r.a, r.reg(t)),
                    f: add_flags(r.a, r.reg(t)),
                    ..r
                },
                Instruction::ADDHL(p) => r.with_hl(addhl_value(r.hl(), r.pair(p))).with_flags(
                    addhl_flags(r.hl(), r.pair(p)),
                ),
                Instruction::ADC(t) => Registers {
                    a: adc_value(r.a, r.reg(t), r.f.carry),
                    f: adc_flags(r.a, r.reg(t), r.f.carry),
                    ..r
                },
                Instruction::SUB(t) => Registers {
                    a: sub_value(r.a, r.reg(t)),
                    f: sub_flags(r.a, r.reg(t)),
                    ..r
                },
                Instruction::SBC(t) => Registers {
                    a: sbc_value(r.a, r.reg(t), r.f.carry),
                    f: sbc_flags(r.a, r.reg(t), r.f.carry),
                    ..r
                },
                Instruction::AND(t) => Registers {
                    a: and_value(r.a, r.reg(t)),
                    f: and_flags(r.a, r.reg(t)),
                    ..r
                },
                Instruction::OR(t) => Registers {
                    a: or_value(r.a, r.reg(t)),
                    f: or_flags(r.a, r.reg(t)),
                    ..r
                },
                Instruction::XOR(t) => Registers {
                    a: xor_value(r.a, r.reg(t)),
                    f: xor_flags(r.a, r.reg(t)),
                    ..r
                },
                Instruction::CP(t) => r.with_flags(sub_flags(r.a, r.reg(t))),
                Instruction::INC(t) => r.with_reg(t, inc_value(r.reg(t))).with_flags(
                    inc_flags(r.reg(t), r.f),
                ),
                Instruction::DEC(t) => r.with_reg(t, dec_value(r.reg(t))).with_flags(
                    dec_flags(r.reg(t), r.f),
                ),
                Instruction::CCF => r.with_flags(ccf_flags(r.f)),
                Instruction::SCF => r.with_flags(scf_flags(r.f)),
                Instruction::RRA => Registers {
                    a: rra_value(r.a, r.f.carry),
                    f: rra_flags(r.a),
                    ..r
                },
                Instruction::RLA => Registers {
                    a: rla_value(r.a, r.f.carry),
                    f: rla_flags(r.a),
                    ..r
                },
                Instruction::RRCA => Registers { a: rrca_value(r.a), f: rrca_flags(r.a), ..r },
                Instruction::RRLA => Registers { a: rrla_value(r.a), f: rrla_flags(r.a), ..r },
                Instruction::CPL => Registers { a: cpl_value(r.a), f: cpl_flags(r.f), ..r },
                Instruction::BIT(index, t) => r.with_flags(bit_flags(r.reg(t), index, r.f)),
                Instruction::RESET(index, t) => r.with_reg(t, reset_value(r.reg(t), index)),
                Instruction::SET(index, t) => r.with_reg(t, set_value(r.reg(t), index)),
            },
        }
    }

    /// Executes one instruction: the state afterwards is `step` of the state
    /// before. A bit instruction must name a bit in `0..=7`.
    pub fn execute(&mut self, instruction: Instruction)
        requires
            instruction.valid(),
        ensures
            *final(self) == old(self).step(instruction),
    {
        match instruction {
            Instruction::ADD(target) => {
                let value = self.registers.read(target);
                let new_value = self.add(value);
                self.registers.a = new_value;
            },
            Instruction::ADDHL(pair) => {
                let value = self.registers.read_pair(pair);
                let new_value = self.addhl(value);
                self.registers.set_hl(new_value);
            },
            Instruction::ADC(target) => {
                let value = self.registers.read(target);
                let new_value = self.adc(value);
                self.registers.a = new_value;
            },
            Instruction::SUB(target) => {
                let value = self.registers.read(target);
                let new_value = self.sub(value);
                self.registers.a = new_value;
            },
            Instruction::SBC(target) => {
                let value = self.registers.read(target);
                let new_value = self.sbc(value);
                self.registers.a = new_value;
            },
            Instruction::AND(target) => {
                let value = self.registers.read(target);
                let new_value = self.and(value);
                self.registers.a = new_value;
            },
            Instruction::OR(target) => {
                let value = self.registers.read(target);
                let new_value = self.or(value);
                self.registers.a = new_value;
            },
            Instruction::XOR(target) => {
                let value = self.registers.read(target);
                let new_value = self.xor(value);
                self.registers.a = new_value;
            },
            Instruction::CP(target) => {
                let value = self.registers.read(target);
                self.cp(value);
            },
            Instruction::INC(target) => {
                let value = self.registers.read(target);
                let new_value = self.inc(value);
                self.registers.write(target, new_value);
            },
            Instruction::DEC(target) => {
                let value = self.registers.read(target);
                let new_value = self.dec(value);
                self.registers.write(target, new_value);
            },
            Instruction::CCF => {
                self.ccf();
            },
            Instruction::SCF => {
                self.scf();
            },
            Instruction::RRA => {
                let value = self.registers.a;
                let new_value = self.rra(value);
                self.registers.a = new_value;
            },
            Instruction::RLA => {
                let value = self.registers.a;
                let new_value = self.rla(value);
                self.registers.a = new_value;
            },
            Instruction::RRCA => {
                let value = self.registers.a;
                let new_value = self.rrca(value);
                self.registers.a = new_value;
            },
            Instruction::RRLA => {
                let value = self.registers.a;
                let new_value = self.rrla(value);
                self.registers.a = new_value;
            },
            Instruction::CPL => {
                self.cpl();
            },
            Instruction::BIT(index, target) => {
                let value = self.registers.read(target);
                self.bit(value, index);
            },
            Instruction::RESET(index, target) => {
                let value = self.registers.read(target);
                let new_value = self.reset(value, index);
                self.registers.write(target, new_value);
            },
            Instruction::SET(index, target) => {
                let value = self.registers.read(target);
                let new_value = self.set(value, index);
                self.registers.write(target, new_value);
            },
        }
    }

    /// Adds `value` to the accumulator's value: returns the sum and sets the
    /// flags. The accumulator itself is left for the caller to write.
    pub fn add(&mut self, value: u8) -> (result: u8)
        ensures
            result == add_value(old(self).registers.a, value),
            final(self).registers == old(self).registers.with_flags(
                add_flags(old(self).registers.a, value),
            ),
    {
        let a = self.registers.a;
        proof {
            lemma_low_bits(a, 0);
            lemma_low_bits(value, 0);
        }
        let new_value = a.wrapping_add(value);
        self.registers.f.zero = new_value == 0;
        self.registers.f.subtract = false;
        self.registers.f.half_carry = (a & 0xF) + (value & 0xF) > 0xF;
        self.registers.f.carry = (a as u16) + (value as u16) > 0xFF;
        new_value
    }

    /// Adds `value` to HL's value: returns the 16-bit sum and sets the flags.
    /// HL itself is left for the caller to write.
    pub fn addhl(&mut self, value: u16) -> (result: u16)
        ensures
            result == addhl_value(old(self).registers.hl(), value),
            final(self).registers == old(self).registers.with_flags(
                addhl_flags(old(self).registers.hl(), value),
            ),
    {
        let hl = self.registers.get_hl();
        proof {
            lemma_low_bits(0, hl);
            lemma_low_bits(0, value);
        }
        let new_value = hl.wrapping_add(value);
        self.registers.f.zero = new_value == 0;
        self.registers.f.subtract = false;
        self.registers.f.half_carry = (hl & 0xFFF) + (value & 0xFFF) > 0xFFF;
        self.registers.f.carry = (hl as u32) + (value as u32) > 0xFFFF;
        new_value
    }

    /// Adds `value` and the carry flag to the accumulator's value: returns the
    /// sum and sets the flags.
    pub fn adc(&mut self, value: u8) -> (result: u8)
        ensures
            result == adc_value(old(self).registers.a, value, old(self).registers.f.carry),
            final(self).registers == old(self).registers.with_flags(
                adc_flags(old(self).registers.a, value, old(self).registers.f.carry),
            ),
    {
        let a = self.registers.a;
        let carry_in: u8 = if self.registers.f.carry { 1 } else { 0 };
        proof {
            lemma_low_bits(a, 0);
            lemma_low_bits(value, 0);
        }
        let new_value = a.wrapping_add(value).wrapping_add(carry_in);
        self.registers.f.zero = new_value == 0;
        self.registers.f.subtract = false;
        self.registers.f.half_carry = (a & 0xF) + (value & 0xF) + carry_in > 0xF;
        self.registers.f.carry = (a as u16) + (value as u16) + (carry_in as u16) > 0xFF;
        new_value
    }

    /// Subtracts `value` from the accumulator's value: returns the difference
    /// and sets the flags.
    pub fn sub(&mut self, value: u8) -> (result: u8)
        ensures
            result == sub_value(old(self).registers.a, value),
            final(self).registers == old(self).registers.with_flags(
                sub_flags(old(self).registers.a, value),
            ),
    {
        let a = self.registers.a;
        let new_value = a.wrapping_sub(value);
        self.registers.f.zero = new_value == 0;
        self.registers.f.subtract = true;
        self.registers.f.half_carry = (a & 0xF) < (value & 0xF);
        self.registers.f.carry = a < value;
        new_value
    }

    /// Subtracts `value` and the carry flag from the accumulator's value:
    /// returns the difference and sets the flags.
    pub fn sbc(&mut self, value: u8) -> (result: u8)
        ensures
            result == sbc_value(old(self).registers.a, value, old(self).registers.f.carry),
            final(self).registers == old(self).registers.with_flags(
                sbc_flags(old(self).registers.a, value, old(self).registers.f.carry),
            ),
    {
        let a = self.registers.a;
        let carry_in: u8 = if self.registers.f.carry { 1 } else { 0 };
        proof {
            lemma_low_bits(value, 0);
        }
        let new_value = a.wrapping_sub(value).wrapping_sub(carry_in);
        self.registers.f.zero = new_value == 0;
        self.registers.f.subtract = true;
        self.registers.f.half_carry = (a & 0xF) < (value & 0xF) + carry_in;
        self.registers.f.carry = (a as u16) < (value as u16) + (carry_in as u16);
        new_value
    }

    /// Bitwise AND of the accumulator's value with `value`: returns it and
    /// sets the flags.
    pub fn and(&mut self, value: u8) -> (result: u8)
        ensures
            result == old(self).registers.a & value,
            final(self).registers == old(self).registers.with_flags(
                and_flags(old(self).registers.a, value),
            ),
    {
        let new_value = self.registers.a & value;
        self.registers.f.zero = new_value == 0;
        self.registers.f.subtract = false;
        self.registers.f.half_carry = true;
        self.registers.f.carry = false;
        new_value
    }

    /// Bitwise OR of the accumulator's value with `value`: returns it and sets
    /// the flags.
    pub fn or(&mut self, value: u8) -> (result: u8)
        ensures
            result == old(self).registers.a | value,
            final(self).registers == old(self).registers.with_flags(
                or_flags(old(self).registers.a, value),
            ),
    {
        let new_value = self.registers.a | value;
        self.registers.f.zero = new_value == 0;
        self.registers.f.subtract = false;
        self.registers.f.half_carry = false;
        self.registers.f.carry = false;
        new_value
    }

    /// Bitwise XOR of the accumulator's value with `value`: returns it and
    /// sets the flags.
    pub fn xor(&mut self, value: u8) -> (result: u8)
        ensures
            result == old(self).registers.a ^ value,
            final(self).registers == old(self).registers.with_flags(
                xor_flags(old(self).registers.a, value),
            ),
    {
        let new_value = self.registers.a ^ value;
        self.registers.f.zero = new_value == 0;
        self.registers.f.subtract = false;
        self.registers.f.half_carry = false;
        self.registers.f.carry = false;
        new_value
    }

    /// Compares the accumulator with `value`: sets the flags as a subtraction
    /// would and writes no register.
    pub fn cp(&mut self, value: u8)
        ensures
            final(self).registers == old(self).registers.with_flags(
                sub_flags(old(self).registers.a, value),
            ),
    {
        let a = self.registers.a;
        let new_value = a.wrapping_sub(value);
        self.registers.f.zero = new_value == 0;
        self.registers.f.subtract = true;
        self.registers.f.half_carry = (a & 0xF) < (value & 0xF);
        self.registers.f.carry = a < value;
    }

    /// Returns `value` plus one, wrapping from 0xFF to 0x00, and sets zero,
    /// subtract and half-carry. The carry flag is left as it was.
    pub fn inc(&mut self, value: u8) -> (result: u8)
        ensures
            result == inc_value(value),
            final(self).registers == old(self).registers.with_flags(
                inc_flags(value, old(self).registers.f),
            ),
    {
        proof {
            lemma_low_bits(value, 0);
        }
        let new_value = value.wrapping_add(1);
        self.registers.f.zero = new_value == 0;
        self.registers.f.subtract = false;
        self.registers.f.half_carry = (value & 0xF) + 1 > 0xF;
        new_value
    }

    /// Returns `value` minus one, wrapping from 0x00 to 0xFF, and sets zero,
    /// subtract and half-carry. The carry flag is left as it was.
    pub fn dec(&mut self, value: u8) -> (result: u8)
        ensures
            result == dec_value(value),
            final(self).registers == old(self).registers.with_flags(
                dec_flags(value, old(self).registers.f),
            ),
    {
        let new_value = value.wrapping_sub(1);
        self.registers.f.zero = new_value == 0;
        self.registers.f.subtract = true;
        self.registers.f.half_carry = (value & 0xF) == 0;
        new_value
    }

    /// Turns the carry flag over and clears subtract and half-carry.
    pub fn ccf(&mut self)
        ensures
            final(self).registers == old(self).registers.with_flags(
                ccf_flags(old(self).registers.f),
            ),
    {
        self.registers.f.subtract = false;
        self.registers.f.half_carry = false;
        self.registers.f.carry = !self.registers.f.carry;
    }

    /// Sets the carry flag and clears subtract and half-carry.
    pub fn scf(&mut self)
        ensures
            final(self).registers == old(self).registers.with_flags(
                scf_flags(old(self).registers.f),
            ),
    {
        self.registers.f.subtract = false;
        self.registers.f.half_carry = false;
        self.registers.f.carry = true;
    }

    /// Rotates `value` right through the carry: the carry flag comes in at
    /// bit 7 and bit 0 goes out into it.
    pub fn rra(&mut self, value: u8) -> (result: u8)
        ensures
            result == rra_value(value, old(self).registers.f.carry),
            final(self).registers == old(self).registers.with_flags(rra_flags(value)),
    {
        let carry_in: u8 = if self.registers.f.carry { 1 } else { 0 };
        let new_value = (value >> 1u8) | (carry_in << 7u8);
        self.registers.f.zero = false;
        self.registers.f.subtract = false;
        self.registers.f.half_carry = false;
        self.registers.f.carry = (value >> 0u8) & 1 != 0;
        new_value
    }

    /// Rotates `value` left through the carry: the carry flag comes in at
    /// bit 0 and bit 7 goes out into it.
    pub fn rla(&mut self, value: u8) -> (result: u8)
        ensures
            result == rla_value(value, old(self).registers.f.carry),
            final(self).registers == old(self).registers.with_flags(rla_flags(value)),
    {
        let carry_in: u8 = if self.registers.f.carry { 1 } else { 0 };
        let new_value = (value << 1u8) | carry_in;
        self.registers.f.zero = false;
        self.registers.f.subtract = false;
        self.registers.f.half_carry = false;
        self.registers.f.carry = (value >> 7u8) & 1 != 0;
        new_value
    }

    /// Rotates `value` right in a circle: bit 0 comes round to bit 7 and is
    /// copied into the carry flag.
    pub fn rrca(&mut self, value: u8) -> (result: u8)
        ensures
            result == rrca_value(value),
            final(self).registers == old(self).registers.with_flags(rrca_flags(value)),
    {
        let new_value = (value >> 1u8) | ((value & 1) << 7u8);
        self.registers.f.zero = false;
        self.registers.f.subtract = false;
        self.registers.f.half_carry = false;
        self.registers.f.carry = (value >> 0u8) & 1 != 0;
        new_value
    }

    /// Rotates `value` left in a circle: bit 7 comes round to bit 0 and is
    /// copied into the carry flag.
    pub fn rrla(&mut self, value: u8) -> (result: u8)
        ensures
            result == rrla_value(value),
            final(self).registers == old(self).registers.with_flags(rrla_flags(value)),
    {
        let new_value = (value << 1u8) | (value >> 7u8);
        self.registers.f.zero = false;
        self.registers.f.subtract = false;
        self.registers.f.half_carry = false;
        self.registers.f.carry = (value >> 7u8) & 1 != 0;
        new_value
    }

    /// Turns every bit of the accumulator over and sets subtract and
    /// half-carry.
    pub fn cpl(&mut self)
        ensures
            final(self).registers == (Registers {
                a: old(self).registers.a ^ 0xFF,
                f: cpl_flags(old(self).registers.f),
                ..old(self).registers
            }),
    {
        self.registers.a = self.registers.a ^ 0xFF;
        self.registers.f.subtract = true;
        self.registers.f.half_carry = true;
    }

    /// Tests bit `index` of `value`: the zero flag is set when the bit is
    /// clear. No register is written.
    pub fn bit(&mut self, value: u8, index: u8)
        requires
            index <= 7,
        ensures
            final(self).registers == old(self).registers.with_flags(
                bit_flags(value, index, old(self).registers.f),
            ),
    {
        self.registers.f.zero = (value >> index) & 1 == 0;
        self.registers.f.subtract = false;
        self.registers.f.half_carry = true;
    }

    /// Returns `value` with bit `index` clear. The processor's state is not
    /// touched.
    pub fn reset(&mut self, value: u8, index: u8) -> (result: u8)
        requires
            index <= 7,
        ensures
            result == value & !(1u8 << index),
            *final(self) == *old(self),
    {
        value & !(1u8 << index)
    }

    /// Returns `value` with bit `index` set. The processor's state is not
    /// touched.
    pub fn set(&mut self, value: u8, index: u8) -> (result: u8)
        requires
            index <= 7,
        ensures
            result == value | (1u8 << index),
            *final(self) == *old(self),
    {
        value | (1u8 << index)
    }
}

/// `ADD` leaves in the accumulator the sum modulo 256 of the accumulator and
/// the operand register. Carry is set exactly when the sum passes 255,
/// half-carry exactly when the sum of the two low nibbles passes 15, zero
/// exactly when the result is 0, and subtract is clear. No other register
/// changes.
pub proof fn lemma_add_sum_and_flags(cpu: CPU, target: ArithmeticTarget)
    ensures
        ({
            let before = cpu.registers;
            let operand = before.reg(target);
            let after = cpu.step(Instruction::ADD(target)).registers;
            &&& after.a as int == (before.a + operand) % 256
            &&& after.f.carry == (before.a + operand > 255)
            &&& after.f.half_carry == ((before.a & 0xF) + (operand & 0xF) > 0xF)
            &&& after.f.half_carry == (before.a % 16 + operand % 16 > 15)
            &&& after.f.zero == (after.a == 0)
            &&& !after.f.subtract
            &&& after == (Registers { a: after.a, f: after.f, ..before })
        }),
{
    lemma_low_bits(cpu.registers.a, 0);
    lemma_low_bits(cpu.registers.reg(target), 0);
}

/// `AND` leaves in the accumulator the bits set both in the accumulator and
/// in the operand register, whichever register that is.
pub proof fn lemma_and_takes_operand(cpu: CPU, target: ArithmeticTarget)
    ensures
        cpu.step(Instruction::AND(target)).registers.a == cpu.registers.a & cpu.registers.reg(
            target,
        ),
        cpu.step(Instruction::AND(ArithmeticTarget::A)).registers.a == cpu.registers.a,
{
    let a = cpu.registers.a;
    assert(a & a == a) by (bit_vector);
}

/// `CPL` executed twice leaves the accumulator, and every other register, as
/// it was.
pub proof fn lemma_cpl_twice(cpu: CPU)
    ensures
        ({
            let before = cpu.registers;
            let after = cpu.step(Instruction::CPL).step(Instruction::CPL).registers;
            &&& after.a == before.a
            &&& after == (Registers { f: after.f, ..before })
            &&& after.f.zero == before.f.zero
            &&& after.f.carry == before.f.carry
        }),
{
    let a = cpu.registers.a;
    assert((a ^ 0xFF) ^ 0xFF == a) by (bit_vector);
}

/// `CP` changes the flags and nothing else: the accumulator and the operand
/// register keep their values, and the flags are those that `SUB` of the same
/// operand leaves.
pub proof fn lemma_cp_writes_flags_only(cpu: CPU, target: ArithmeticTarget)
    ensures
        ({
            let before = cpu.registers;
            let after = cpu.step(Instruction::CP(target)).registers;
            &&& after.a == before.a
            &&& after == (Registers { f: after.f, ..before })
            &&& after.f == cpu.step(Instruction::SUB(target)).registers.f
            &&& after.f.zero == (before.a == before.reg(target))
            &&& after.f.carry == (before.a < before.reg(target))
        }),
{
}

/// `BIT` changes the flags and no register; `SET` and `RESET` change the
/// register they name and no flag.
pub proof fn lemma_bit_instructions_scope(cpu: CPU, index: u8, target: ArithmeticTarget)
    requires
        index <= 7,
    ensures
        ({
            let before = cpu.registers;
            let tested = cpu.step(Instruction::BIT(index, target)).registers;
            let set = cpu.step(Instruction::SET(index, target)).registers;
            let reset = cpu.step(Instruction::RESET(index, target)).registers;
            &&& tested == (Registers { f: tested.f, ..before })
            &&& tested.f.zero == !bit_is_set(before.reg(target), index)
            &&& set == before.with_reg(target, set.reg(target))
            &&& bit_is_set(set.reg(target), index)
            &&& reset == before.with_reg(target, reset.reg(target))
            &&& !bit_is_set(reset.reg(target), index)
        }),
{
    lemma_bit_values(cpu.registers.reg(target), index, index);
}

/// `INC` and `DEC` undo each other on the register they name, and neither
/// changes the carry flag.
pub proof fn lemma_inc_dec_inverse(cpu: CPU, target: ArithmeticTarget)
    ensures
        ({
            let before = cpu.registers;
            let up = cpu.step(Instruction::INC(target));
            let down = cpu.step(Instruction::DEC(target));
            &&& up.step(Instruction::DEC(target)).registers.reg(target) == before.reg(target)
            &&& down.step(Instruction::INC(target)).registers.reg(target) == before.reg(target)
            &&& up.registers.f.carry == before.f.carry
            &&& down.registers.f.carry == before.f.carry
        }),
{
    let r = cpu.registers.reg(target);
    lemma_inc_dec_values(r);
    let up = cpu.step(Instruction::INC(target));
    let down = cpu.step(Instruction::DEC(target));
    assert(up.registers.reg(target) == inc_value(r));
    assert(down.registers.reg(target) == dec_value(r));
    assert(up.step(Instruction::DEC(target)).registers.reg(target) == dec_value(inc_value(r)));
    assert(down.step(Instruction::INC(target)).registers.reg(target) == inc_value(dec_value(r)));
}

/// A rotation through the carry is undone by the one in the other direction:
/// `RLA` then `RRA`, or `RRA` then `RLA`, restores the accumulator and the
/// carry flag. A circular rotation is undone likewise, as far as the
/// accumulator goes.
pub proof fn lemma_rotations_inverse(cpu: CPU)
    ensures
        ({
            let before = cpu.registers;
            let left_right = cpu.step(Instruction::RLA).step(Instruction::RRA).registers;
            let right_left = cpu.step(Instruction::RRA).step(Instruction::RLA).registers;
            &&& left_right.a == before.a
            &&& left_right.f.carry == before.f.carry
            &&& right_left.a == before.a
            &&& right_left.f.carry == before.f.carry
            &&& cpu.step(Instruction::RRLA).step(Instruction::RRCA).registers.a == before.a
            &&& cpu.step(Instruction::RRCA).step(Instruction::RRLA).registers.a == before.a
        }),
{
    let a = cpu.registers.a;
    let c = carry_bit(cpu.registers.f.carry);
    assert({
        &&& (((a << 1u8) | c) >> 1u8) | ((if (a >> 7u8) & 1 != 0 { 1u8 } else { 0u8 }) << 7u8) == a
        &&& ((((a << 1u8) | c) >> 0u8) & 1 != 0) == (c == 1)
        &&& (((a >> 1u8) | (c << 7u8)) << 1u8) | (if (a >> 0u8) & 1 != 0 { 1u8 } else { 0u8 }) == a
        &&& ((((a >> 1u8) | (c << 7u8)) >> 7u8) & 1 != 0) == (c == 1)
        &&& (((a << 1u8) | (a >> 7u8)) >> 1u8) | ((((a << 1u8) | (a >> 7u8)) & 1) << 7u8) == a
        &&& (((a >> 1u8) | ((a & 1) << 7u8)) << 1u8) | (((a >> 1u8) | ((a & 1) << 7u8)) >> 7u8) == a
    }) by (bit_vector)
        requires
            c <= 1,
    ;
}

/// `ADDHL` leaves in HL the sum modulo 65536 of HL and the operand pair.
/// Carry is set exactly when the sum passes 65535, half-carry exactly when
/// the sum of the two low 12-bit parts passes 4095. No register but H and L
/// changes.
pub proof fn lemma_addhl_sum_and_flags(cpu: CPU, pair: RegisterPair)
    ensures
        ({
            let before = cpu.registers;
            let operand = before.pair(pair);
            let after = cpu.step(Instruction::ADDHL(pair)).registers;
            &&& after.hl() as int == (before.hl() + operand) % 65536
            &&& after.f.carry == (before.hl() + operand > 65535)
            &&& after.f.half_carry == ((before.hl() & 0xFFF) + (operand & 0xFFF) > 0xFFF)
            &&& after.f.half_carry == (before.hl() % 4096 + operand % 4096 > 4095)
            &&& after.f.zero == (after.hl() == 0)
            &&& !after.f.subtract
            &&& after == (Registers { h: after.h, l: after.l, f: after.f, ..before })
        }),
{
    let before = cpu.registers;
    lemma_low_bits(0, before.hl());
    lemma_low_bits(0, before.pair(pair));
    lemma_split_value(addhl_value(before.hl(), before.pair(pair)));
}

} // verus!
