use lb_emu::flags::FlagsRegister;

fn all_flag_combinations() -> Vec<FlagsRegister> {
    let mut out = Vec::new();
    for bits in 0u8..16 {
        out.push(FlagsRegister {
            zero: bits & 8 != 0,
            subtraction: bits & 4 != 0,
            half_carry: bits & 2 != 0,
            carry: bits & 1 != 0,
        });
    }
    out
}

#[test]
fn flags_round_trip_all_sixteen_combinations() {
    for f in all_flag_combinations() {
        let byte = f.encode();
        let back = FlagsRegister::decode(byte);
        assert_eq!(back, f);
    }
}

#[test]
fn encode_places_each_flag_in_its_bit() {
    let f = FlagsRegister { zero: true, subtraction: false, half_carry: false, carry: false };
    assert_eq!(f.encode(), 0x80);
    let f = FlagsRegister { zero: false, subtraction: true, half_carry: false, carry: false };
    assert_eq!(f.encode(), 0x40);
    let f = FlagsRegister { zero: false, subtraction: false, half_carry: true, carry: false };
    assert_eq!(f.encode(), 0x20);
    let f = FlagsRegister { zero: false, subtraction: false, half_carry: false, carry: true };
    assert_eq!(f.encode(), 0x10);
    let f = FlagsRegister { zero: true, subtraction: true, half_carry: true, carry: true };
    assert_eq!(f.encode(), 0xF0);
}

#[test]
fn encode_low_nibble_is_always_zero() {
    for f in all_flag_combinations() {
        assert_eq!(f.encode() & 0x0F, 0);
    }
}

#[test]
fn decode_ignores_the_low_nibble() {
    for low in 0u8..16 {
        let f = FlagsRegister::decode(0xB0 | low);
        assert!(f.zero);
        assert!(!f.subtraction);
        assert!(f.half_carry);
        assert!(f.carry);
    }
}
