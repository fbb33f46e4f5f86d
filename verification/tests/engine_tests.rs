use lb_emu::cpu::{CPU, DecodeError};
use lb_emu::instructions::{ArithmeticTarget, BitPosition, Instruction};
use lb_emu::memory::MemoryBus;

/// A CPU whose program is written at the entry address 0x0100.
fn cpu_with_program(program: &[u8]) -> CPU {
    let mut bus = MemoryBus::new();
    let mut addr: u16 = 0x0100;
    for &b in program {
        bus.write_byte(addr, b);
        addr = addr.wrapping_add(1);
    }
    CPU::new(bus)
}

#[test]
fn step_executes_add_and_advances_pc() {
    let mut c = cpu_with_program(&[0x80]); // ADD B
    c.registers.a = 0x0F;
    c.registers.b = 0x01;
    assert_eq!(c.step(), Ok(()));
    assert_eq!(c.registers.a, 0x10);
    assert_eq!(c.registers.pc, 0x0101);
    assert!(c.registers.f.half_carry);
}

#[test]
fn step_decodes_prefixed_opcode() {
    let mut c = cpu_with_program(&[0xCB, 0x37]); // SWAP A
    c.registers.a = 0xA5;
    assert_eq!(c.step(), Ok(()));
    assert_eq!(c.registers.a, 0x5A);
    // A prefixed instruction is two bytes long.
    assert_eq!(c.registers.pc, 0x0102);
}

#[test]
fn decode_failure_reports_address_and_byte_and_mutates_nothing() {
    let mut c = cpu_with_program(&[0x00]); // not a defined instruction here
    c.registers.a = 0x42;
    let before_regs = c.registers;
    let r = c.step();
    assert_eq!(r, Err(DecodeError { address: 0x0100, byte: 0x00 }));
    assert_eq!(c.registers, before_regs);
    assert_eq!(c.bus.read_byte(0x0100), 0x00);
}

#[test]
fn prefixed_decode_failure_reports_second_byte() {
    let mut c = cpu_with_program(&[0xCB, 0x06]); // extended (HL) form: undefined here
    let before_regs = c.registers;
    let r = c.step();
    assert_eq!(r, Err(DecodeError { address: 0x0101, byte: 0x06 }));
    assert_eq!(c.registers, before_regs);
}

#[test]
fn jr_backward_displacement_example() {
    // PC=0x0100, displacement byte 0xFE (−2): 0x0102 − 2 = 0x0100.
    let mut c = cpu_with_program(&[0x18, 0xFE]); // JR always, -2
    assert_eq!(c.step(), Ok(()));
    assert_eq!(c.registers.pc, 0x0100);
}

#[test]
fn jr_boundary_displacement_is_true_signed() {
    // Displacement 0x80 is −128, not +128.
    let mut c = cpu_with_program(&[0x18, 0x80]);
    assert_eq!(c.step(), Ok(()));
    assert_eq!(c.registers.pc, 0x0102 - 128);
}

#[test]
fn jr_not_taken_falls_through() {
    let mut c = cpu_with_program(&[0x28, 0xFE]); // JR Z, -2 with Z clear
    assert_eq!(c.step(), Ok(()));
    assert_eq!(c.registers.pc, 0x0102);
}

#[test]
fn jp_taken_and_not_taken() {
    let mut c = cpu_with_program(&[0xC3, 0x34, 0x12]); // JP always, 0x1234
    assert_eq!(c.step(), Ok(()));
    assert_eq!(c.registers.pc, 0x1234);

    let mut c = cpu_with_program(&[0xC2, 0x34, 0x12]); // JP NZ with Z set
    c.registers.f.zero = true;
    assert_eq!(c.step(), Ok(()));
    assert_eq!(c.registers.pc, 0x0103);
}

#[test]
fn jp_indirect_takes_hl() {
    let mut c = cpu_with_program(&[0xE9]);
    c.registers.set_hl(0x8000);
    assert_eq!(c.step(), Ok(()));
    assert_eq!(c.registers.pc, 0x8000);
}

#[test]
fn ld_immediate_byte_advances_pc_by_two() {
    let mut c = cpu_with_program(&[0x3E, 0x99]); // LD A, 0x99
    assert_eq!(c.step(), Ok(()));
    assert_eq!(c.registers.a, 0x99);
    assert_eq!(c.registers.pc, 0x0102);
}

#[test]
fn ld_register_to_register_advances_pc_by_one() {
    let mut c = cpu_with_program(&[0x41]); // LD B, C
    c.registers.c = 0x7E;
    assert_eq!(c.step(), Ok(()));
    assert_eq!(c.registers.b, 0x7E);
    assert_eq!(c.registers.pc, 0x0101);
}

#[test]
fn ld_word_is_little_endian() {
    let mut c = cpu_with_program(&[0x21, 0xCD, 0xAB]); // LD HL, 0xABCD
    assert_eq!(c.step(), Ok(()));
    assert_eq!(c.registers.get_hl(), 0xABCD);
    assert_eq!(c.registers.pc, 0x0103);
}

#[test]
fn ld_through_hl_reads_and_writes_memory() {
    let mut c = cpu_with_program(&[0x7E]); // LD A, (HL)
    c.bus.write_byte(0x9000, 0x5C);
    c.registers.set_hl(0x9000);
    assert_eq!(c.step(), Ok(()));
    assert_eq!(c.registers.a, 0x5C);

    let mut c = cpu_with_program(&[0x70]); // LD (HL), B
    c.registers.b = 0x6D;
    c.registers.set_hl(0x9000);
    assert_eq!(c.step(), Ok(()));
    assert_eq!(c.bus.read_byte(0x9000), 0x6D);
}

#[test]
fn hl_post_increment_and_post_decrement() {
    let mut c = cpu_with_program(&[0x2A]); // LD A, (HL+)
    c.bus.write_byte(0x9000, 0x11);
    c.registers.set_hl(0x9000);
    assert_eq!(c.step(), Ok(()));
    assert_eq!(c.registers.a, 0x11);
    assert_eq!(c.registers.get_hl(), 0x9001);

    let mut c = cpu_with_program(&[0x32]); // LD (HL-), A
    c.registers.a = 0x22;
    c.registers.set_hl(0x9000);
    assert_eq!(c.step(), Ok(()));
    assert_eq!(c.bus.read_byte(0x9000), 0x22);
    assert_eq!(c.registers.get_hl(), 0x8FFF);
}

#[test]
fn absolute_word_addressed_loads() {
    let mut c = cpu_with_program(&[0xFA, 0x00, 0x90]); // LD A, (0x9000)
    c.bus.write_byte(0x9000, 0x77);
    assert_eq!(c.step(), Ok(()));
    assert_eq!(c.registers.a, 0x77);
    assert_eq!(c.registers.pc, 0x0103);

    let mut c = cpu_with_program(&[0xEA, 0x00, 0x90]); // LD (0x9000), A
    c.registers.a = 0x88;
    assert_eq!(c.step(), Ok(()));
    assert_eq!(c.bus.read_byte(0x9000), 0x88);
    assert_eq!(c.registers.pc, 0x0103);
}

#[test]
fn high_page_loads() {
    let mut c = cpu_with_program(&[0xF0, 0x47]); // LD A, (0xFF47)
    c.bus.write_byte(0xFF47, 0x91);
    assert_eq!(c.step(), Ok(()));
    assert_eq!(c.registers.a, 0x91);
    assert_eq!(c.registers.pc, 0x0102);

    let mut c = cpu_with_program(&[0xE0, 0x47]); // LD (0xFF47), A
    c.registers.a = 0x3C;
    assert_eq!(c.step(), Ok(()));
    assert_eq!(c.bus.read_byte(0xFF47), 0x3C);
    assert_eq!(c.registers.pc, 0x0102);

    let mut c = cpu_with_program(&[0xF2]); // LD A, (0xFF00 + C)
    c.registers.c = 0x10;
    c.bus.write_byte(0xFF10, 0x64);
    assert_eq!(c.step(), Ok(()));
    assert_eq!(c.registers.a, 0x64);
    assert_eq!(c.registers.pc, 0x0101);
}

#[test]
fn bit_test_twice_is_idempotent_and_never_mutates() {
    // Executing BIT b,r twice in a row: same flags, register untouched.
    for value in [0x00u8, 0x01, 0x80, 0xA5, 0xFF] {
        for bit in [
            BitPosition::B0,
            BitPosition::B1,
            BitPosition::B2,
            BitPosition::B3,
            BitPosition::B4,
            BitPosition::B5,
            BitPosition::B6,
            BitPosition::B7,
        ] {
            let mut c = cpu_with_program(&[]);
            c.registers.d = value;
            let instr = Instruction::BIT(ArithmeticTarget::D, bit);
            c.execute(instr);
            let after_first = c.registers;
            c.execute(instr);
            assert_eq!(c.registers, after_first);
            assert_eq!(c.registers.d, value);
        }
    }
}

#[test]
fn execute_inc_on_pair_has_no_flag_effect() {
    let mut c = cpu_with_program(&[0x23]); // INC HL
    c.registers.set_hl(0xFFFF);
    c.registers.f.zero = true;
    assert_eq!(c.step(), Ok(()));
    assert_eq!(c.registers.get_hl(), 0x0000);
    assert!(c.registers.f.zero);
    assert_eq!(c.registers.pc, 0x0101);
}

#[test]
fn reset_restores_power_on_state_and_keeps_bus() {
    let mut c = cpu_with_program(&[0x80]);
    c.registers.a = 0x55;
    c.registers.pc = 0x2000;
    c.reset();
    assert_eq!(c.registers.pc, 0x0100);
    assert_eq!(c.registers.sp, 0xFFFE);
    assert_eq!(c.registers.a, 0x00);
    assert_eq!(c.bus.read_byte(0x0100), 0x80); // bus untouched
}

#[test]
fn extended_bit_instructions_run_through_step() {
    let mut c = cpu_with_program(&[0xCB, 0xFF]); // SET 7, A
    assert_eq!(c.step(), Ok(()));
    assert_eq!(c.registers.a, 0x80);

    let mut c = cpu_with_program(&[0xCB, 0xB8]); // RES 7, B
    c.registers.b = 0xFF;
    assert_eq!(c.step(), Ok(()));
    assert_eq!(c.registers.b, 0x7F);
}
