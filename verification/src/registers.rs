//! The register file: seven 8-bit registers, the flags, and the 16-bit pairs
//! that are read and written through two registers each.

use vstd::prelude::*;
use crate::flags::{lemma_byte_round_trip, lemma_flags_round_trip, FlagsRegister};
use crate::instruction::{ArithmeticTarget, RegisterPair};

verus! {

/// The 16-bit value with `high` in bits 15 to 8 and `low` in bits 7 to 0.
pub open spec fn join(high: u8, low: u8) -> u16 {
    ((high as u16) << 8) | (low as u16)
}

/// Bits 15 to 8 of `value`.
pub open spec fn high_byte(value: u16) -> u8 {
    (value >> 8) as u8
}

/// Bits 7 to 0 of `value`.
pub open spec fn low_byte(value: u16) -> u8 {
    (value & 0xFF) as u8
}

/// A pair is its high register times 256 plus its low register.
pub proof fn lemma_join_value(high: u8, low: u8)
    ensures
        join(high, low) as int == high * 256 + low,
        high_byte(join(high, low)) == high,
        low_byte(join(high, low)) == low,
{
    assert({
        &&& (((high as u16) << 8) | (low as u16)) == (high as u16) * 256 + (low as u16)
        &&& ((((high as u16) << 8) | (low as u16)) >> 8) as u8 == high
        &&& ((((high as u16) << 8) | (low as u16)) & 0xFF) as u8 == low
    }) by (bit_vector);
}

/// The two halves of a 16-bit value are its quotient and remainder by 256,
/// and joined they give the value back.
pub proof fn lemma_split_value(value: u16)
    ensures
        high_byte(value) as int == value / 256,
        low_byte(value) as int == value % 256,
        join(high_byte(value), low_byte(value)) == value,
{
    assert({
        &&& (value >> 8) as u8 == value / 256
        &&& (value & 0xFF) as u8 == value % 256
        &&& ((((value >> 8) as u8) as u16) << 8) | (((value & 0xFF) as u8) as u16) == value
    }) by (bit_vector);
}

/// The processor's registers. `f` holds the four flags unpacked; the pairs
/// AF, BC, DE and HL are no state of their own.
#[derive(Copy, Clone, Debug, PartialEq, Eq, Structural)]
pub struct Registers {
    pub a: u8,
    pub b: u8,
    pub c: u8,
    pub d: u8,
    pub e: u8,
    pub f: FlagsRegister,
    pub h: u8,
    pub l: u8,
}

impl Registers {
    /// The pair AF: the accumulator above the packed flags.
    pub open spec fn af(self) -> u16 {
        join(self.a, self.f.packed())
    }

    /// The pair BC.
    pub open spec fn bc(self) -> u16 {
        join(self.b, self.c)
    }

    /// The pair DE.
    pub open spec fn de(self) -> u16 {
        join(self.d, self.e)
    }

    /// The pair HL.
    pub open spec fn hl(self) -> u16 {
        join(self.h, self.l)
    }

    /// These registers with AF replaced: the low nibble of `value` is lost.
    pub open spec fn with_af(self, value: u16) -> Registers {
        Registers { a: high_byte(value), f: FlagsRegister::unpacked(low_byte(value)), ..self }
    }

    /// These registers with BC replaced.
    pub open spec fn with_bc(self, value: u16) -> Registers {
        Registers { b: high_byte(value), c: low_byte(value), ..self }
    }

    /// These registers with DE replaced.
    pub open spec fn with_de(self, value: u16) -> Registers {
        Registers { d: high_byte(value), e: low_byte(value), ..self }
    }

    /// These registers with HL replaced.
    pub open spec fn with_hl(self, value: u16) -> Registers {
        Registers { h: high_byte(value), l: low_byte(value), ..self }
    }

    /// These registers with the flags replaced.
    pub open spec fn with_flags(self, flags: FlagsRegister) -> Registers {
        Registers { f: flags, ..self }
    }

    /// The register that `target` names.
    pub open spec fn reg(self, target: ArithmeticTarget) -> u8 {
        match target {
            ArithmeticTarget::A => self.a,
            ArithmeticTarget::B => self.b,
            ArithmeticTarget::C => self.c,
            ArithmeticTarget::D => self.d,
            ArithmeticTarget::E => self.e,
            ArithmeticTarget::H => self.h,
            ArithmeticTarget::L => self.l,
        }
    }

    /// These registers with the one that `target` names replaced.
    pub open spec fn with_reg(self, target: ArithmeticTarget, value: u8) -> Registers {
        match target {
            ArithmeticTarget::A => Registers { a: value, ..self },
            ArithmeticTarget::B => Registers { b: value, ..self },
            ArithmeticTarget::C => Registers { c: value, ..self },
            ArithmeticTarget::D => Registers { d: value, ..self },
            ArithmeticTarget::E => Registers { e: value, ..self },
            ArithmeticTarget::H => Registers { h: value, ..self },
            ArithmeticTarget::L => Registers { l: value, ..self },
        }
    }

    /// The pair that `pair` names.
    pub open spec fn pair(self, pair: RegisterPair) -> u16 {
        match pair {
            RegisterPair::BC => self.bc(),
            RegisterPair::DE => self.de(),
            RegisterPair::HL => self.hl(),
        }
    }

    /// Reads AF. The low nibble of the result is always clear.
    pub fn get_af(&self) -> (value: u16)
        ensures
            value == self.af(),
            value as int == self.a * 256 + self.f.packed(),
            value & 0x000F == 0,
    {
        let low: u8 = self.f.pack();
        proof {
            lemma_join_value(self.a, low);
            let high = self.a;
            assert((((high as u16) << 8) | (low as u16)) & 0x000F == 0) by (bit_vector)
                requires
                    low & 0x0F == 0,
            ;
        }
        ((self.a as u16) << 8) | (low as u16)
    }

    /// Writes AF: the high byte to the accumulator, bits 7 to 4 of the low
    /// byte to the flags. Bits 3 to 0 are dropped.
    pub fn set_af(&mut self, value: u16)
        ensures
            *final(self) == old(self).with_af(value),
            final(self).a as int == value / 256,
            final(self).f == FlagsRegister::unpacked(low_byte(value)),
    {
        proof {
            lemma_split_value(value);
        }
        self.a = (value >> 8) as u8;
        self.f = FlagsRegister::unpack((value & 0xFF) as u8);
    }

    /// Reads BC.
    pub fn get_bc(&self) -> (value: u16)
        ensures
            value == self.bc(),
            value as int == self.b * 256 + self.c,
    {
        proof {
            lemma_join_value(self.b, self.c);
        }
        ((self.b as u16) << 8) | (self.c as u16)
    }

    /// Writes BC: the high byte to B, the low byte to C.
    pub fn set_bc(&mut self, value: u16)
        ensures
            *final(self) == old(self).with_bc(value),
            final(self).b as int == value / 256,
            final(self).c as int == value % 256,
    {
        proof {
            lemma_split_value(value);
        }
        self.b = (value >> 8) as u8;
        self.c = (value & 0xFF) as u8;
    }

    /// Reads DE.
    pub fn get_de(&self) -> (value: u16)
        ensures
            value == self.de(),
            value as int == self.d * 256 + self.e,
    {
        proof {
            lemma_join_value(self.d, self.e);
        }
        ((self.d as u16) << 8) | (self.e as u16)
    }

    /// Writes DE: the high byte to D, the low byte to E.
    pub fn set_de(&mut self, value: u16)
        ensures
            *final(self) == old(self).with_de(value),
            final(self).d as int == value / 256,
            final(self).e as int == value % 256,
    {
        proof {
            lemma_split_value(value);
        }
        self.d = (value >> 8) as u8;
        self.e = (value & 0xFF) as u8;
    }

    /// Reads HL.
    pub fn get_hl(&self) -> (value: u16)
        ensures
            value == self.hl(),
            value as int == self.h * 256 + self.l,
    {
        proof {
            lemma_join_value(self.h, self.l);
        }
        ((self.h as u16) << 8) | (self.l as u16)
    }

    /// Writes HL: the high byte to H, the low byte to L.
    pub fn set_hl(&mut self, value: u16)
        ensures
            *final(self) == old(self).with_hl(value),
            final(self).h as int == value / 256,
            final(self).l as int == value % 256,
    {
        proof {
            lemma_split_value(value);
        }
        self.h = (value >> 8) as u8;
        self.l = (value & 0xFF) as u8;
    }

    /// Reads the register that `target` names.
    pub fn read(&self, target: ArithmeticTarget) -> (value: u8)
        ensures
            value == self.reg(target),
    {
        match target {
            ArithmeticTarget::A => self.a,
            ArithmeticTarget::B => self.b,
            ArithmeticTarget::C => self.c,
            ArithmeticTarget::D => self.d,
            ArithmeticTarget::E => self.e,
            ArithmeticTarget::H => self.h,
            ArithmeticTarget::L => self.l,
        }
    }

    /// Writes the register that `target` names and leaves the rest as it is.
    pub fn write(&mut self, target: ArithmeticTarget, value: u8)
        ensures
            *final(self) == old(self).with_reg(target, value),
    {
        match target {
            ArithmeticTarget::A => {
                self.a = value;
            },
            ArithmeticTarget::B => {
                self.b = value;
            },
            ArithmeticTarget::C => {
                self.c = value;
            },
            ArithmeticTarget::D => {
                self.d = value;
            },
            ArithmeticTarget::E => {
                self.e = value;
            },
            ArithmeticTarget::H => {
                self.h = value;
            },
            ArithmeticTarget::L => {
                self.l = value;
            },
        }
    }

    /// Reads the pair that `pair` names.
    pub fn read_pair(&self, pair: RegisterPair) -> (value: u16)
        ensures
            value == self.pair(pair),
    {
        match pair {
            RegisterPair::BC => self.get_bc(),
            RegisterPair::DE => self.get_de(),
            RegisterPair::HL => self.get_hl(),
        }
    }
}

/// Writing a pair and reading it back gives the value written, with its high
/// byte in the first register and its low byte in the second.
pub proof fn lemma_pair_write_then_read(registers: Registers, value: u16)
    ensures
        registers.with_bc(value).bc() == value,
        registers.with_bc(value).b == value >> 8,
        registers.with_bc(value).c == value & 0xFF,
        registers.with_de(value).de() == value,
        registers.with_de(value).d == value >> 8,
        registers.with_de(value).e == value & 0xFF,
        registers.with_hl(value).hl() == value,
        registers.with_hl(value).h == value >> 8,
        registers.with_hl(value).l == value & 0xFF,
{
    lemma_split_value(value);
    assert((value >> 8) as u8 == value >> 8 && (value & 0xFF) as u8 == value & 0xFF)
        by (bit_vector);
}

/// Writing AF and reading it back gives the value written with its low nibble
/// cleared: those four bits are not stored.
pub proof fn lemma_af_write_then_read(registers: Registers, value: u16)
    ensures
        registers.with_af(value).af() == value & 0xFFF0,
        registers.with_af(value).a == value >> 8,
{
    let high = high_byte(value);
    let low = low_byte(value);
    lemma_byte_round_trip(low);
    assert({
        &&& (value >> 8) as u8 == value >> 8
        &&& (((value >> 8) as u8) as u16) << 8 | ((((value & 0xFF) as u8) & 0xF0) as u16) == value
            & 0xFFF0
    }) by (bit_vector);
}

/// Reading a pair and writing the value back changes nothing.
pub proof fn lemma_pair_read_then_write(registers: Registers)
    ensures
        registers.with_bc(registers.bc()) == registers,
        registers.with_de(registers.de()) == registers,
        registers.with_hl(registers.hl()) == registers,
        registers.with_af(registers.af()) == registers,
{
    lemma_join_value(registers.b, registers.c);
    lemma_join_value(registers.d, registers.e);
    lemma_join_value(registers.h, registers.l);
    lemma_join_value(registers.a, registers.f.packed());
    lemma_flags_round_trip(registers.f);
}

} // verus!
