use gb_cpu::flags::{
    FlagsRegister, CARRY_FLAG_BYTE_POSITION, HALF_CARRY_FLAG_BYTE_POSITION,
    SUBTRACT_FLAG_BYTE_POSITION, ZERO_FLAG_BYTE_POSITION,
};

fn flags(zero: bool, subtract: bool, half_carry: bool, carry: bool) -> FlagsRegister {
    FlagsRegister { zero, subtract, half_carry, carry }
}

#[test]
fn flag_positions_are_the_high_nibble() {
    assert_eq!(ZERO_FLAG_BYTE_POSITION, 7);
    assert_eq!(SUBTRACT_FLAG_BYTE_POSITION, 6);
    assert_eq!(HALF_CARRY_FLAG_BYTE_POSITION, 5);
    assert_eq!(CARRY_FLAG_BYTE_POSITION, 4);
}

#[test]
fn pack_puts_each_flag_at_its_bit() {
    assert_eq!(flags(false, false, false, false).pack(), 0x00);
    assert_eq!(flags(true, false, false, false).pack(), 0x80);
    assert_eq!(flags(false, true, false, false).pack(), 0x40);
    assert_eq!(flags(false, false, true, false).pack(), 0x20);
    assert_eq!(flags(false, false, false, true).pack(), 0x10);
    assert_eq!(flags(true, false, true, false).pack(), 0xA0);
    assert_eq!(flags(true, true, true, true).pack(), 0xF0);
}

#[test]
fn unpack_reads_each_flag_from_its_bit() {
    assert_eq!(FlagsRegister::unpack(0x00), flags(false, false, false, false));
    assert_eq!(FlagsRegister::unpack(0x80), flags(true, false, false, false));
    assert_eq!(FlagsRegister::unpack(0x40), flags(false, true, false, false));
    assert_eq!(FlagsRegister::unpack(0x20), flags(false, false, true, false));
    assert_eq!(FlagsRegister::unpack(0x10), flags(false, false, false, true));
    assert_eq!(FlagsRegister::unpack(0xF0), flags(true, true, true, true));
}

#[test]
fn unpack_ignores_the_low_nibble() {
    assert_eq!(FlagsRegister::unpack(0x0F), flags(false, false, false, false));
    assert_eq!(FlagsRegister::unpack(0xAF), flags(true, false, true, false));
    assert_eq!(FlagsRegister::unpack(0x51), flags(false, true, false, true));
    for byte in 0u8..=255u8 {
        assert_eq!(FlagsRegister::unpack(byte), FlagsRegister::unpack(byte & 0xF0));
    }
}

#[test]
fn flags_round_trip_for_all_sixteen_combinations() {
    let both: [bool; 2] = [false, true];
    let mut seen: u32 = 0;
    for zero in both {
        for subtract in both {
            for half_carry in both {
                for carry in both {
                    let f = flags(zero, subtract, half_carry, carry);
                    assert_eq!(FlagsRegister::unpack(f.pack()), f);
                    assert_eq!(f.pack() & 0x0F, 0);
                    seen += 1;
                }
            }
        }
    }
    assert_eq!(seen, 16);
}

#[test]
fn packing_an_unpacked_byte_clears_its_low_nibble() {
    for byte in 0u8..=255u8 {
        assert_eq!(FlagsRegister::unpack(byte).pack(), byte & 0xF0);
    }
}

#[test]
fn from_conversions_agree_with_pack_and_unpack() {
    let f = flags(true, false, false, true);
    assert_eq!(u8::from(f), 0x90);
    assert_eq!(FlagsRegister::from(0x9Cu8), f);
    for byte in 0u8..=255u8 {
        let unpacked = FlagsRegister::from(byte);
        assert_eq!(unpacked, FlagsRegister::unpack(byte));
        assert_eq!(u8::from(unpacked), unpacked.pack());
    }
}
