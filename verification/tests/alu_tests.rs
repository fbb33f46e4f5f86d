use lb_emu::cpu::CPU;
use lb_emu::instructions::BitPosition;
use lb_emu::memory::MemoryBus;

fn cpu() -> CPU {
    CPU::new(MemoryBus::new())
}

#[test]
fn add_half_carry_example() {
    // A=0x0F plus 0x01: low nibbles alone carry out of bit 3.
    let mut c = cpu();
    c.registers.a = 0x0F;
    let res = c.add(0x01);
    assert_eq!(res, 0x10);
    assert!(!c.registers.f.zero);
    assert!(!c.registers.f.subtraction);
    assert!(c.registers.f.half_carry);
    assert!(!c.registers.f.carry);
}

#[test]
fn add_overflow_example() {
    // A=0xFF plus 0x01 wraps to zero and sets H and C.
    let mut c = cpu();
    c.registers.a = 0xFF;
    let res = c.add(0x01);
    assert_eq!(res, 0x00);
    assert!(c.registers.f.zero);
    assert!(c.registers.f.half_carry);
    assert!(c.registers.f.carry);
}

#[test]
fn add_with_carry_includes_incoming_carry() {
    let mut c = cpu();
    c.registers.a = 0x0E;
    c.registers.f.carry = true;
    let res = c.add_with_carry(0x01);
    assert_eq!(res, 0x10);
    assert!(c.registers.f.half_carry);
    assert!(!c.registers.f.carry);

    let mut c = cpu();
    c.registers.a = 0xFF;
    c.registers.f.carry = true;
    let res = c.add_with_carry(0x00);
    assert_eq!(res, 0x00);
    assert!(c.registers.f.zero);
    assert!(c.registers.f.carry);
}

#[test]
fn sub_sets_borrow_flags() {
    let mut c = cpu();
    c.registers.a = 0x10;
    let res = c.sub(0x01);
    assert_eq!(res, 0x0F);
    assert!(!c.registers.f.zero);
    assert!(c.registers.f.subtraction);
    assert!(c.registers.f.half_carry); // low nibble 0 < 1
    assert!(!c.registers.f.carry);

    let mut c = cpu();
    c.registers.a = 0x00;
    let res = c.sub(0x01);
    assert_eq!(res, 0xFF);
    assert!(c.registers.f.carry);
}

#[test]
fn sub_with_carry_includes_incoming_borrow() {
    let mut c = cpu();
    c.registers.a = 0x10;
    c.registers.f.carry = true;
    let res = c.sub_with_carry(0x0F);
    assert_eq!(res, 0x00);
    assert!(c.registers.f.zero);
    assert!(c.registers.f.subtraction);
    assert!(c.registers.f.half_carry);
    assert!(!c.registers.f.carry);
}

#[test]
fn compare_leaves_a_untouched() {
    let mut c = cpu();
    c.registers.a = 0x42;
    c.compare(0x42);
    assert_eq!(c.registers.a, 0x42);
    assert!(c.registers.f.zero);
    assert!(c.registers.f.subtraction);

    c.compare(0x50);
    assert_eq!(c.registers.a, 0x42);
    assert!(!c.registers.f.zero);
    assert!(c.registers.f.carry);
}

#[test]
fn and_or_xor_flag_rules() {
    let mut c = cpu();
    c.registers.a = 0xF0;
    let res = c.and(0x0F);
    assert_eq!(res, 0x00);
    assert!(c.registers.f.zero);
    assert!(c.registers.f.half_carry);
    assert!(!c.registers.f.carry);

    let mut c = cpu();
    c.registers.a = 0xF0;
    let res = c.or(0x0F);
    assert_eq!(res, 0xFF);
    assert!(!c.registers.f.zero);
    assert!(!c.registers.f.half_carry);

    let mut c = cpu();
    c.registers.a = 0xFF;
    let res = c.xor(0xFF);
    assert_eq!(res, 0x00);
    assert!(c.registers.f.zero);
    assert!(!c.registers.f.half_carry);
}

#[test]
fn inc_wraps_and_sets_intended_flags() {
    // register=0xFF: adding one wraps to zero with Z and H set.
    let mut c = cpu();
    let res = c.inc_8b(0xFF);
    assert_eq!(res, 0x00);
    assert!(c.registers.f.zero);
    assert!(!c.registers.f.subtraction);
    assert!(c.registers.f.half_carry);

    let mut c = cpu();
    let res = c.inc_8b(0x41);
    assert_eq!(res, 0x42);
    assert!(!c.registers.f.zero);
    assert!(!c.registers.f.half_carry);
}

#[test]
fn dec_wraps_and_sets_intended_flags() {
    let mut c = cpu();
    let res = c.dec_8b(0x01);
    assert_eq!(res, 0x00);
    assert!(c.registers.f.zero);
    assert!(c.registers.f.subtraction);
    assert!(!c.registers.f.half_carry);

    let mut c = cpu();
    let res = c.dec_8b(0x10);
    assert_eq!(res, 0x0F);
    assert!(c.registers.f.half_carry);

    let mut c = cpu();
    let res = c.dec_8b(0x00);
    assert_eq!(res, 0xFF);
    assert!(c.registers.f.half_carry);
}

#[test]
fn sixteen_bit_inc_dec_touch_no_flags() {
    let mut c = cpu();
    c.registers.f.zero = true;
    c.registers.f.carry = true;
    assert_eq!(c.inc_16b(0xFFFF), 0x0000);
    assert_eq!(c.dec_16b(0x0000), 0xFFFF);
    assert!(c.registers.f.zero);
    assert!(c.registers.f.carry);
}

#[test]
fn addhl_leaves_zero_flag_alone() {
    let mut c = cpu();
    c.registers.set_hl(0x0FFF);
    c.registers.f.zero = true;
    let res = c.addhl(0x0001);
    assert_eq!(res, 0x1000);
    assert!(c.registers.f.zero); // unaffected
    assert!(c.registers.f.half_carry); // carry out of bit 11
    assert!(!c.registers.f.carry);

    let mut c = cpu();
    c.registers.set_hl(0xFFFF);
    let res = c.addhl(0x0001);
    assert_eq!(res, 0x0000);
    assert!(c.registers.f.carry);
}

#[test]
fn swap_exchanges_nibbles() {
    // value=0xA5 swaps to 0x5A with every flag clear.
    let mut c = cpu();
    let res = c.swap(0xA5);
    assert_eq!(res, 0x5A);
    assert!(!c.registers.f.zero);
    assert!(!c.registers.f.subtraction);
    assert!(!c.registers.f.half_carry);
    assert!(!c.registers.f.carry);

    let mut c = cpu();
    let res = c.swap(0x00);
    assert_eq!(res, 0x00);
    assert!(c.registers.f.zero);
}

#[test]
fn rotate_left_true_rotate_wraps_bit_seven() {
    let mut c = cpu();
    let res = c.rotate_left(0x85);
    assert_eq!(res, 0x0B); // 1000_0101 -> 0000_1011
    assert!(c.registers.f.carry);
    assert!(!c.registers.f.zero);
}

#[test]
fn rotate_right_true_rotate_wraps_bit_zero() {
    let mut c = cpu();
    let res = c.rotate_right(0x01);
    assert_eq!(res, 0x80);
    assert!(c.registers.f.carry);
    assert!(!c.registers.f.zero);
}

#[test]
fn rotate_through_carry_uses_previous_carry() {
    let mut c = cpu();
    c.registers.f.carry = true;
    let res = c.rotate_left_with_carry(0x80);
    assert_eq!(res, 0x01); // carry enters bit 0
    assert!(c.registers.f.carry); // bit 7 left

    let mut c = cpu();
    c.registers.f.carry = true;
    let res = c.rotate_right_with_carry(0x01);
    assert_eq!(res, 0x80); // carry enters bit 7
    assert!(c.registers.f.carry); // bit 0 left

    let mut c = cpu();
    c.registers.f.carry = false;
    let res = c.rotate_left_with_carry(0x80);
    assert_eq!(res, 0x00);
    assert!(c.registers.f.zero); // register form takes Z from the result
}

#[test]
fn accumulator_rotates_always_clear_zero() {
    let mut c = cpu();
    c.registers.a = 0x80;
    c.rotate_left_a_with_carry();
    assert_eq!(c.registers.a, 0x00);
    assert!(!c.registers.f.zero); // accumulator form never sets Z
    assert!(c.registers.f.carry);

    let mut c = cpu();
    c.registers.a = 0x01;
    c.rotate_right_a();
    assert_eq!(c.registers.a, 0x80); // true rotate
    assert!(c.registers.f.carry);
    assert!(!c.registers.f.zero);

    let mut c = cpu();
    c.registers.a = 0x85;
    c.rotate_left_a();
    assert_eq!(c.registers.a, 0x0B);
    assert!(c.registers.f.carry);
}

#[test]
fn shifts_keep_or_clear_the_top_bit() {
    let mut c = cpu();
    let res = c.rotate_right_arithmetic(0x81);
    assert_eq!(res, 0xC0); // bit 7 preserved
    assert!(c.registers.f.carry);

    let mut c = cpu();
    let res = c.shift_right_logical(0x81);
    assert_eq!(res, 0x40); // zero enters bit 7
    assert!(c.registers.f.carry);
    assert!(!c.registers.f.half_carry);

    let mut c = cpu();
    let res = c.rotate_left_arithmetic(0xC0);
    assert_eq!(res, 0x80); // zero enters bit 0, bit 7 out
    assert!(c.registers.f.carry);

    let mut c = cpu();
    let res = c.rotate_left_arithmetic(0x80);
    assert_eq!(res, 0x00);
    assert!(c.registers.f.zero);
}

#[test]
fn complement_and_carry_ops() {
    let mut c = cpu();
    c.registers.a = 0x5A;
    c.registers.f.zero = true;
    c.registers.f.carry = true;
    c.complement();
    assert_eq!(c.registers.a, 0xA5);
    assert!(c.registers.f.subtraction);
    assert!(c.registers.f.half_carry);
    assert!(c.registers.f.zero); // unaffected
    assert!(c.registers.f.carry); // unaffected

    let mut c = cpu();
    c.registers.f.carry = true;
    c.registers.f.zero = true;
    c.complement_carry();
    assert!(!c.registers.f.carry);
    assert!(c.registers.f.zero);
    c.complement_carry();
    assert!(c.registers.f.carry);

    let mut c = cpu();
    c.set_carry();
    assert!(c.registers.f.carry);
    assert!(!c.registers.f.subtraction);
    assert!(!c.registers.f.half_carry);
}

#[test]
fn test_bit_reads_without_mutating() {
    let mut c = cpu();
    c.registers.f.carry = true;
    c.test_bit(0b0010_0000, BitPosition::B5);
    assert!(!c.registers.f.zero);
    assert!(!c.registers.f.subtraction);
    assert!(c.registers.f.half_carry);
    assert!(c.registers.f.carry); // unaffected

    c.test_bit(0b0010_0000, BitPosition::B4);
    assert!(c.registers.f.zero);
}

#[test]
fn set_and_reset_bit_force_single_bits() {
    let c = cpu();
    assert_eq!(c.set_bit(0x00, BitPosition::B7), 0x80);
    assert_eq!(c.set_bit(0xFF, BitPosition::B0), 0xFF);
    assert_eq!(c.reset_bit(0xFF, BitPosition::B7), 0x7F);
    assert_eq!(c.reset_bit(0x00, BitPosition::B3), 0x00);
}
