//! The arithmetic and logic model: what each operation computes and which
//! flags it leaves, as functions of the operands alone.
//!
//! `a` is the accumulator, `r` the operand register, `carry` the carry flag
//! before the operation. Sums and differences are taken over the integers, so
//! nothing in a formula wraps unless it says `%`.

use vstd::prelude::*;
use crate::flags::{bit_is_set, FlagsRegister};

verus! {

/// The carry flag as a number: 1 if set, 0 if clear.
pub open spec fn carry_bit(carry: bool) -> u8 {
    if carry {
        1u8
    } else {
        0u8
    }
}

/// `ADD`: the sum modulo 256.
pub open spec fn add_value(a: u8, r: u8) -> u8 {
    ((a + r) % 256) as u8
}

/// `ADD`: carry out of bit 3 sets half-carry, carry out of bit 7 sets carry.
pub open spec fn add_flags(a: u8, r: u8) -> FlagsRegister {
    FlagsRegister {
        zero: add_value(a, r) == 0,
        subtract: false,
        half_carry: (a & 0xF) + (r & 0xF) > 0xF,
        carry: a + r > 255,
    }
}

/// `ADDHL`: the 16-bit sum modulo 65536.
pub open spec fn addhl_value(hl: u16, rr: u16) -> u16 {
    ((hl + rr) % 65536) as u16
}

/// `ADDHL`: carry out of bit 11 sets half-carry, carry out of bit 15 sets
/// carry.
pub open spec fn addhl_flags(hl: u16, rr: u16) -> FlagsRegister {
    FlagsRegister {
        zero: addhl_value(hl, rr) == 0,
        subtract: false,
        half_carry: (hl & 0xFFF) + (rr & 0xFFF) > 0xFFF,
        carry: hl + rr > 65535,
    }
}

/// `ADC`: the sum with the carry added in, modulo 256.
pub open spec fn adc_value(a: u8, r: u8, carry: bool) -> u8 {
    ((a + r + carry_bit(carry)) % 256) as u8
}

/// `ADC`: both carries count the carry that came in.
pub open spec fn adc_flags(a: u8, r: u8, carry: bool) -> FlagsRegister {
    FlagsRegister {
        zero: adc_value(a, r, carry) == 0,
        subtract: false,
        half_carry: (a & 0xF) + (r & 0xF) + carry_bit(carry) > 0xF,
        carry: a + r + carry_bit(carry) > 255,
    }
}

/// `SUB` and `CP`: the difference modulo 256.
pub open spec fn sub_value(a: u8, r: u8) -> u8 {
    ((a - r) % 256) as u8
}

/// `SUB` and `CP`: a borrow from bit 4 sets half-carry, a borrow from beyond
/// bit 7 sets carry.
pub open spec fn sub_flags(a: u8, r: u8) -> FlagsRegister {
    FlagsRegister {
        zero: sub_value(a, r) == 0,
        subtract: true,
        half_carry: (a & 0xF) < (r & 0xF),
        carry: a < r,
    }
}

/// `SBC`: the difference with the carry taken off too, modulo 256.
pub open spec fn sbc_value(a: u8, r: u8, carry: bool) -> u8 {
    ((a - r - carry_bit(carry)) % 256) as u8
}

/// `SBC`: both borrows count the carry that came in.
pub open spec fn sbc_flags(a: u8, r: u8, carry: bool) -> FlagsRegister {
    FlagsRegister {
        zero: sbc_value(a, r, carry) == 0,
        subtract: true,
        half_carry: (a & 0xF) < (r & 0xF) + carry_bit(carry),
        carry: a < r + carry_bit(carry),
    }
}

/// `AND`: the bits set in both.
pub open spec fn and_value(a: u8, r: u8) -> u8 {
    a & r
}

/// `AND`: half-carry is always set, carry always clear.
pub open spec fn and_flags(a: u8, r: u8) -> FlagsRegister {
    FlagsRegister { zero: and_value(a, r) == 0, subtract: false, half_carry: true, carry: false }
}

/// `OR`: the bits set in either.
pub open spec fn or_value(a: u8, r: u8) -> u8 {
    a | r
}

/// `OR`: only the zero flag can be set.
pub open spec fn or_flags(a: u8, r: u8) -> FlagsRegister {
    FlagsRegister { zero: or_value(a, r) == 0, subtract: false, half_carry: false, carry: false }
}

/// `XOR`: the bits set in exactly one.
pub open spec fn xor_value(a: u8, r: u8) -> u8 {
    a ^ r
}

/// `XOR`: only the zero flag can be set.
pub open spec fn xor_flags(a: u8, r: u8) -> FlagsRegister {
    FlagsRegister { zero: xor_value(a, r) == 0, subtract: false, half_carry: false, carry: false }
}

/// `INC`: one more, modulo 256.
pub open spec fn inc_value(r: u8) -> u8 {
    ((r + 1) % 256) as u8
}

/// `INC`: the carry flag stays as it was in `before`.
pub open spec fn inc_flags(r: u8, before: FlagsRegister) -> FlagsRegister {
    FlagsRegister {
        zero: inc_value(r) == 0,
        subtract: false,
        half_carry: (r & 0xF) + 1 > 0xF,
        carry: before.carry,
    }
}

/// `DEC`: one less, modulo 256.
pub open spec fn dec_value(r: u8) -> u8 {
    ((r - 1) % 256) as u8
}

/// `DEC`: the carry flag stays as it was in `before`.
pub open spec fn dec_flags(r: u8, before: FlagsRegister) -> FlagsRegister {
    FlagsRegister {
        zero: dec_value(r) == 0,
        subtract: true,
        half_carry: (r & 0xF) == 0,
        carry: before.carry,
    }
}

/// `CCF`: the carry flag is turned over, the zero flag kept.
pub open spec fn ccf_flags(before: FlagsRegister) -> FlagsRegister {
    FlagsRegister {
        zero: before.zero,
        subtract: false,
        half_carry: false,
        carry: !before.carry,
    }
}

/// `SCF`: the carry flag is set, the zero flag kept.
pub open spec fn scf_flags(before: FlagsRegister) -> FlagsRegister {
    FlagsRegister { zero: before.zero, subtract: false, half_carry: false, carry: true }
}

/// `CPL`: every bit turned over.
pub open spec fn cpl_value(a: u8) -> u8 {
    a ^ 0xFF
}

/// `CPL`: zero and carry are kept.
pub open spec fn cpl_flags(before: FlagsRegister) -> FlagsRegister {
    FlagsRegister {
        zero: before.zero,
        subtract: true,
        half_carry: true,
        carry: before.carry,
    }
}

/// The flags after any of the four rotations: only carry can be set, and it
/// holds the bit that was rotated out.
pub open spec fn rotate_flags(carry_out: bool) -> FlagsRegister {
    FlagsRegister { zero: false, subtract: false, half_carry: false, carry: carry_out }
}

/// `RLA`: one place to the left, with the carry coming in at bit 0.
pub open spec fn rla_value(a: u8, carry: bool) -> u8 {
    (a << 1u8) | carry_bit(carry)
}

/// `RLA`: bit 7 goes out into the carry.
pub open spec fn rla_flags(a: u8) -> FlagsRegister {
    rotate_flags(bit_is_set(a, 7))
}

/// `RRA`: one place to the right, with the carry coming in at bit 7.
pub open spec fn rra_value(a: u8, carry: bool) -> u8 {
    (a >> 1u8) | (carry_bit(carry) << 7u8)
}

/// `RRA`: bit 0 goes out into the carry.
pub open spec fn rra_flags(a: u8) -> FlagsRegister {
    rotate_flags(bit_is_set(a, 0))
}

/// Circular left rotation: one place to the left, with bit 7 coming round to
/// bit 0.
pub open spec fn rrla_value(a: u8) -> u8 {
    (a << 1u8) | (a >> 7u8)
}

/// Circular left rotation: bit 7 is copied into the carry.
pub open spec fn rrla_flags(a: u8) -> FlagsRegister {
    rotate_flags(bit_is_set(a, 7))
}

/// Circular right rotation: one place to the right, with bit 0 coming round
/// to bit 7.
pub open spec fn rrca_value(a: u8) -> u8 {
    (a >> 1u8) | ((a & 1) << 7u8)
}

/// Circular right rotation: bit 0 is copied into the carry.
pub open spec fn rrca_flags(a: u8) -> FlagsRegister {
    rotate_flags(bit_is_set(a, 0))
}

/// `BIT`: zero is set when bit `index` of `r` is clear; carry stays as it was
/// in `before`.
pub open spec fn bit_flags(r: u8, index: u8, before: FlagsRegister) -> FlagsRegister {
    FlagsRegister {
        zero: !bit_is_set(r, index),
        subtract: false,
        half_carry: true,
        carry: before.carry,
    }
}

/// `SET`: `r` with bit `index` set.
pub open spec fn set_value(r: u8, index: u8) -> u8 {
    r | (1u8 << index)
}

/// `RESET`: `r` with bit `index` clear.
pub open spec fn reset_value(r: u8, index: u8) -> u8 {
    r & !(1u8 << index)
}

/// The nibble tests of the half-carry flags, read as arithmetic: `x & 0xF` is
/// the remainder of `x` by 16, and `x & 0xFFF` the remainder by 4096.
pub proof fn lemma_low_bits(x: u8, y: u16)
    ensures
        (x & 0xF) as int == x % 16,
        (y & 0xFFF) as int == y % 4096,
{
    assert(x & 0xF == x % 16 && y & 0xFFF == y % 4096) by (bit_vector);
}

/// `INC` and `DEC` undo each other, at the two ends of the range too.
pub proof fn lemma_inc_dec_values(r: u8)
    ensures
        dec_value(inc_value(r)) == r,
        inc_value(dec_value(r)) == r,
        inc_value(r) == (if r == 255 { 0u8 } else { (r + 1) as u8 }),
        dec_value(r) == (if r == 0 { 255u8 } else { (r - 1) as u8 }),
{
}

/// The rotations read as arithmetic: a left rotation doubles and drops what
/// passes bit 7, a right rotation halves, and the bit that comes in is added
/// at its place value.
pub proof fn lemma_rotate_values(a: u8, carry: bool)
    ensures
        rla_value(a, carry) as int == (2 * a) % 256 + carry_bit(carry),
        rra_value(a, carry) as int == a / 2 + 128 * carry_bit(carry),
        rrla_value(a) as int == (2 * a) % 256 + a / 128,
        rrca_value(a) as int == a / 2 + 128 * (a % 2),
        bit_is_set(a, 7) == (a >= 128),
        bit_is_set(a, 0) == (a % 2 == 1),
{
    let c = carry_bit(carry);
    assert({
        &&& ((a << 1u8) | c) == ((2 * a) % 256) as u8 + c
        &&& ((a >> 1u8) | (c << 7u8)) == a / 2 + 128 * c
        &&& ((a << 1u8) | (a >> 7u8)) == ((2 * a) % 256) as u8 + a / 128
        &&& ((a >> 1u8) | ((a & 1) << 7u8)) == a / 2 + 128 * (a % 2)
        &&& ((a >> 7u8) & 1 != 0) == (a >= 128)
        &&& ((a >> 0u8) & 1 != 0) == (a % 2 == 1)
    }) by (bit_vector)
        requires
            c <= 1,
    ;
}

/// The bit operations read one bit at a time: `SET` and `RESET` fix bit
/// `index` and keep every other bit.
pub proof fn lemma_bit_values(r: u8, index: u8, other: u8)
    requires
        index <= 7,
        other <= 7,
    ensures
        bit_is_set(set_value(r, index), index),
        !bit_is_set(reset_value(r, index), index),
        other != index ==> bit_is_set(set_value(r, index), other) == bit_is_set(r, other),
        other != index ==> bit_is_set(reset_value(r, index), other) == bit_is_set(r, other),
{
    assert({
        &&& ((r | (1u8 << index)) >> index) & 1 != 0
        &&& ((r & !(1u8 << index)) >> index) & 1 == 0
        &&& other != index ==> ((r | (1u8 << index)) >> other) & 1 == (r >> other) & 1
        &&& other != index ==> ((r & !(1u8 << index)) >> other) & 1 == (r >> other) & 1
    }) by (bit_vector)
        requires
            index <= 7,
            other <= 7,
    ;
}

} // verus!
