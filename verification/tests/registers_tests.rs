use lb_emu::flags::FlagsRegister;
use lb_emu::registers::Registers;

fn zeroed() -> Registers {
    Registers::power_on()
}

#[test]
fn pair_composition_round_trip_all_byte_pairs() {
    let mut r = zeroed();
    for hi in 0u16..256 {
        for lo in [0u16, 1, 0x0F, 0x7F, 0x80, 0xAA, 0xFF] {
            let v = (hi << 8) | lo;
            r.set_bc(v);
            assert_eq!(r.b as u16, hi);
            assert_eq!(r.c as u16, lo);
            assert_eq!(r.get_bc(), v);
            r.set_de(v);
            assert_eq!(r.d as u16, hi);
            assert_eq!(r.e as u16, lo);
            assert_eq!(r.get_de(), v);
            r.set_hl(v);
            assert_eq!(r.h as u16, hi);
            assert_eq!(r.l as u16, lo);
            assert_eq!(r.get_hl(), v);
        }
    }
}

#[test]
fn af_view_composes_a_and_encoded_flags() {
    let mut r = zeroed();
    r.a = 0x12;
    r.f = FlagsRegister { zero: true, subtraction: false, half_carry: true, carry: false };
    assert_eq!(r.get_af(), 0x12A0);
}

#[test]
fn set_af_decodes_flags_and_masks_low_nibble() {
    let mut r = zeroed();
    r.set_af(0x34BF);
    assert_eq!(r.a, 0x34);
    assert!(r.f.zero);
    assert!(!r.f.subtraction);
    assert!(r.f.half_carry);
    assert!(r.f.carry);
    // Reading the pair back: the low nibble of the flags byte is gone.
    assert_eq!(r.get_af(), 0x34B0);
}

#[test]
fn power_on_state_is_architectural() {
    let r = zeroed();
    assert_eq!(r.a, 0);
    assert_eq!(r.b, 0);
    assert_eq!(r.c, 0);
    assert_eq!(r.d, 0);
    assert_eq!(r.e, 0);
    assert_eq!(r.h, 0);
    assert_eq!(r.l, 0);
    assert!(!r.f.zero && !r.f.subtraction && !r.f.half_carry && !r.f.carry);
    assert_eq!(r.pc, 0x0100);
    assert_eq!(r.sp, 0xFFFE);
}
