//! The four condition flags and their packed byte form.

use vstd::prelude::*;
use vstd::std_specs::convert::FromSpecImpl;

verus! {

/// Bit of the packed byte that holds the zero flag.
pub const ZERO_FLAG_BYTE_POSITION: u8 = 7;

/// Bit of the packed byte that holds the subtract flag.
pub const SUBTRACT_FLAG_BYTE_POSITION: u8 = 6;

/// Bit of the packed byte that holds the half-carry flag.
pub const HALF_CARRY_FLAG_BYTE_POSITION: u8 = 5;

/// Bit of the packed byte that holds the carry flag.
pub const CARRY_FLAG_BYTE_POSITION: u8 = 4;

/// Condition flags that summarise the last arithmetic or logic result.
#[derive(Copy, Clone, Debug, PartialEq, Eq, Structural)]
pub struct FlagsRegister {
    pub zero: bool,
    pub subtract: bool,
    pub half_carry: bool,
    pub carry: bool,
}

/// A byte with bit `position` set if `flag` holds, and no other bit set.
pub open spec fn flag_bit(flag: bool, position: u8) -> u8 {
    if flag {
        1u8 << position
    } else {
        0u8
    }
}

/// Whether bit `position` of `byte` is set.
pub open spec fn bit_is_set(byte: u8, position: u8) -> bool {
    (byte >> position) & 1 != 0
}

impl FlagsRegister {
    /// The packed byte: zero in bit 7, subtract in bit 6, half-carry in bit 5,
    /// carry in bit 4, and the low nibble clear.
    pub open spec fn packed(self) -> u8 {
        flag_bit(self.zero, ZERO_FLAG_BYTE_POSITION)
            | flag_bit(self.subtract, SUBTRACT_FLAG_BYTE_POSITION)
            | flag_bit(self.half_carry, HALF_CARRY_FLAG_BYTE_POSITION)
            | flag_bit(self.carry, CARRY_FLAG_BYTE_POSITION)
    }

    /// The flags that `byte` holds in its high nibble; the low nibble carries
    /// no flag and is not read.
    pub open spec fn unpacked(byte: u8) -> FlagsRegister {
        FlagsRegister {
            zero: bit_is_set(byte, ZERO_FLAG_BYTE_POSITION),
            subtract: bit_is_set(byte, SUBTRACT_FLAG_BYTE_POSITION),
            half_carry: bit_is_set(byte, HALF_CARRY_FLAG_BYTE_POSITION),
            carry: bit_is_set(byte, CARRY_FLAG_BYTE_POSITION),
        }
    }

    /// Packs the four flags into one byte.
    pub fn pack(self) -> (byte: u8)
        ensures
            byte == self.packed(),
            byte & 0x0F == 0,
            byte as int == (if self.zero { 128int } else { 0 })
                + (if self.subtract { 64int } else { 0 })
                + (if self.half_carry { 32int } else { 0 })
                + (if self.carry { 16int } else { 0 }),
    {
        let z: u8 = if self.zero { 1 } else { 0 };
        let n: u8 = if self.subtract { 1 } else { 0 };
        let h: u8 = if self.half_carry { 1 } else { 0 };
        let c: u8 = if self.carry { 1 } else { 0 };
        proof {
            lemma_packed_value(self);
            assert((z << 7u8 | n << 6u8 | h << 5u8 | c << 4u8) == (if z == 1 { 1u8 << 7u8 } else { 0u8 })
                | (if n == 1 { 1u8 << 6u8 } else { 0u8 })
                | (if h == 1 { 1u8 << 5u8 } else { 0u8 })
                | (if c == 1 { 1u8 << 4u8 } else { 0u8 })) by (bit_vector)
                requires
                    z <= 1,
                    n <= 1,
                    h <= 1,
                    c <= 1,
            ;
        }
        z << ZERO_FLAG_BYTE_POSITION | n << SUBTRACT_FLAG_BYTE_POSITION | h
            << HALF_CARRY_FLAG_BYTE_POSITION | c << CARRY_FLAG_BYTE_POSITION
    }

    /// Reads the four flags out of a packed byte, ignoring its low nibble.
    pub fn unpack(byte: u8) -> (flags: FlagsRegister)
        ensures
            flags == FlagsRegister::unpacked(byte),
            flags == FlagsRegister::unpacked(byte & 0xF0),
            flags.zero == (byte >= 128),
            flags.subtract == (byte % 128 >= 64),
            flags.half_carry == (byte % 64 >= 32),
            flags.carry == (byte % 32 >= 16),
    {
        proof {
            lemma_unpacked_value(byte);
        }
        let zero: bool = ((byte >> ZERO_FLAG_BYTE_POSITION) & 0x1) != 0;
        let subtract: bool = ((byte >> SUBTRACT_FLAG_BYTE_POSITION) & 0x1) != 0;
        let half_carry: bool = ((byte >> HALF_CARRY_FLAG_BYTE_POSITION) & 0x1) != 0;
        let carry: bool = ((byte >> CARRY_FLAG_BYTE_POSITION) & 0x1) != 0;
        FlagsRegister { zero, subtract, half_carry, carry }
    }
}

/// The packed byte as a sum of place values, with a clear low nibble.
pub proof fn lemma_packed_value(flags: FlagsRegister)
    ensures
        flags.packed() & 0x0F == 0,
        flags.packed() as int == (if flags.zero { 128int } else { 0 })
            + (if flags.subtract { 64int } else { 0 })
            + (if flags.half_carry { 32int } else { 0 })
            + (if flags.carry { 16int } else { 0 }),
{
    let z = flag_bit(flags.zero, ZERO_FLAG_BYTE_POSITION);
    let n = flag_bit(flags.subtract, SUBTRACT_FLAG_BYTE_POSITION);
    let h = flag_bit(flags.half_carry, HALF_CARRY_FLAG_BYTE_POSITION);
    let c = flag_bit(flags.carry, CARRY_FLAG_BYTE_POSITION);
    assert(1u8 << 7u8 == 128 && 1u8 << 6u8 == 64 && 1u8 << 5u8 == 32 && 1u8 << 4u8 == 16)
        by (bit_vector);
    assert((z | n | h | c) & 0x0F == 0 && (z | n | h | c) == z + n + h + c) by (bit_vector)
        requires
            z == 0 || z == 128,
            n == 0 || n == 64,
            h == 0 || h == 32,
            c == 0 || c == 16,
    ;
}

/// Each unpacked flag as a test on the byte's value; the low nibble has no
/// part in it.
pub proof fn lemma_unpacked_value(byte: u8)
    ensures
        FlagsRegister::unpacked(byte) == FlagsRegister::unpacked(byte & 0xF0),
        FlagsRegister::unpacked(byte).zero == (byte >= 128),
        FlagsRegister::unpacked(byte).subtract == (byte % 128 >= 64),
        FlagsRegister::unpacked(byte).half_carry == (byte % 64 >= 32),
        FlagsRegister::unpacked(byte).carry == (byte % 32 >= 16),
{
    assert({
        &&& ((byte >> 7u8) & 1 != 0) == (byte >= 128)
        &&& ((byte >> 6u8) & 1 != 0) == (byte % 128 >= 64)
        &&& ((byte >> 5u8) & 1 != 0) == (byte % 64 >= 32)
        &&& ((byte >> 4u8) & 1 != 0) == (byte % 32 >= 16)
        &&& ((byte & 0xF0) >> 7u8) & 1 == (byte >> 7u8) & 1
        &&& ((byte & 0xF0) >> 6u8) & 1 == (byte >> 6u8) & 1
        &&& ((byte & 0xF0) >> 5u8) & 1 == (byte >> 5u8) & 1
        &&& ((byte & 0xF0) >> 4u8) & 1 == (byte >> 4u8) & 1
    }) by (bit_vector);
}

/// Unpacking a packed flags value gives the same four flags back.
pub proof fn lemma_flags_round_trip(flags: FlagsRegister)
    ensures
        FlagsRegister::unpacked(flags.packed()) == flags,
{
    lemma_packed_value(flags);
    lemma_unpacked_value(flags.packed());
}

/// Packing the flags of a byte gives the byte with its low nibble cleared.
pub proof fn lemma_byte_round_trip(byte: u8)
    ensures
        FlagsRegister::unpacked(byte).packed() == byte & 0xF0,
{
    lemma_unpacked_value(byte);
    lemma_packed_value(FlagsRegister::unpacked(byte));
    assert((byte & 0xF0) as int == (if byte >= 128 { 128int } else { 0 }) + (if byte % 128 >= 64 {
        64int
    } else {
        0
    }) + (if byte % 64 >= 32 { 32int } else { 0 }) + (if byte % 32 >= 16 { 16int } else { 0 }))
        by (bit_vector);
}

impl From<FlagsRegister> for u8 {
    fn from(flag: FlagsRegister) -> (byte: u8) {
        flag.pack()
    }
}

impl FromSpecImpl<FlagsRegister> for u8 {
    open spec fn obeys_from_spec() -> bool {
        true
    }

    open spec fn from_spec(flag: FlagsRegister) -> u8 {
        flag.packed()
    }
}

impl From<u8> for FlagsRegister {
    fn from(byte: u8) -> (flags: FlagsRegister) {
        FlagsRegister::unpack(byte)
    }
}

impl FromSpecImpl<u8> for FlagsRegister {
    open spec fn obeys_from_spec() -> bool {
        true
    }

    open spec fn from_spec(byte: u8) -> FlagsRegister {
        FlagsRegister::unpacked(byte)
    }
}

} // verus!
