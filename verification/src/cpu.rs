//! The CPU core: the register file together with the memory bus, the ALU
//! operations with their precise flag-update rules, and the
//! fetch-decode-execute step.
//!
//! All arithmetic is unsigned with wraparound semantics: overflow is never
//! an error, it sets the carry flag and the numeric result wraps modulo
//! 256 (or 65536 for the 16-bit operations).

use vstd::prelude::*;

use crate::flags::FlagsRegister;
use crate::instructions::{
    spec_bit_index, spec_decode, ArithmeticTarget, BitPosition, GroupedArithmeticTarget,
    IncDecTarget, IndirectSrc, Instruction, JumpCondition, LoadByteSrc, LoadByteTarget,
    LoadType, LoadWordTarget,
};
use crate::memory::MemoryBus;
use crate::registers::{hi_byte, lo_byte, word_of, Registers};

verus! {

/// The CPU: one owned aggregate of register file and bus, passed
/// explicitly into each step call.
pub struct CPU {
    pub registers: Registers,
    pub bus: MemoryBus,
}

/// The mathematical value of a whole machine: the register file and the
/// contents of the bus.
#[verifier::ext_equal]
pub struct MachineState {
    pub regs: Registers,
    pub mem: Seq<u8>,
}

impl CPU {
    /// Well-formed: the bus maps every 16-bit address.
    pub open spec fn wf(self) -> bool {
        self.bus.wf()
    }

    /// The machine state this CPU holds.
    pub open spec fn state(self) -> MachineState {
        MachineState { regs: self.registers, mem: self.bus.mem@ }
    }
}

/// The value of an 8-bit register operand.
pub open spec fn reg8(r: Registers, t: ArithmeticTarget) -> u8 {
    match t {
        ArithmeticTarget::A => r.a,
        ArithmeticTarget::B => r.b,
        ArithmeticTarget::C => r.c,
        ArithmeticTarget::D => r.d,
        ArithmeticTarget::E => r.e,
        ArithmeticTarget::H => r.h,
        ArithmeticTarget::L => r.l,
    }
}

/// The register file with one 8-bit register replaced.
pub open spec fn with_reg8(r: Registers, t: ArithmeticTarget, v: u8) -> Registers {
    match t {
        ArithmeticTarget::A => Registers { a: v, ..r },
        ArithmeticTarget::B => Registers { b: v, ..r },
        ArithmeticTarget::C => Registers { c: v, ..r },
        ArithmeticTarget::D => Registers { d: v, ..r },
        ArithmeticTarget::E => Registers { e: v, ..r },
        ArithmeticTarget::H => Registers { h: v, ..r },
        ArithmeticTarget::L => Registers { l: v, ..r },
    }
}

/// The value of a register-pair operand.
pub open spec fn pair16(r: Registers, g: GroupedArithmeticTarget) -> u16 {
    match g {
        GroupedArithmeticTarget::BC => word_of(r.b, r.c),
        GroupedArithmeticTarget::DE => word_of(r.d, r.e),
        GroupedArithmeticTarget::HL => word_of(r.h, r.l),
    }
}

/// The register file with the BC view replaced.
pub open spec fn with_bc(r: Registers, v: u16) -> Registers {
    Registers { b: hi_byte(v), c: lo_byte(v), ..r }
}

/// The register file with the DE view replaced.
pub open spec fn with_de(r: Registers, v: u16) -> Registers {
    Registers { d: hi_byte(v), e: lo_byte(v), ..r }
}

/// The register file with the HL view replaced.
pub open spec fn with_hl(r: Registers, v: u16) -> Registers {
    Registers { h: hi_byte(v), l: lo_byte(v), ..r }
}

/// The flags after an 8-bit add: Z from the wrapped result, N clear, H set
/// exactly when the low nibbles alone carry out of bit 3, C exactly when
/// the unsigned sum overflows a byte.
pub open spec fn spec_add_flags(a: u8, v: u8) -> FlagsRegister {
    FlagsRegister {
        zero: a.wrapping_add(v) == 0,
        subtraction: false,
        half_carry: a % 16 + v % 16 > 15,
        carry: a + v > 255,
    }
}

/// The wrapped result of add-with-carry: two sequential adds, so an
/// overflow in either step sets the carry.
pub open spec fn spec_adc_result(a: u8, v: u8, cin: bool) -> u8 {
    a.wrapping_add(v).wrapping_add(if cin { 1u8 } else { 0u8 })
}

/// The flags after add-with-carry: as for add, with the incoming carry
/// included in both the half-carry and the carry computation.
pub open spec fn spec_adc_flags(a: u8, v: u8, cin: bool) -> FlagsRegister {
    FlagsRegister {
        zero: spec_adc_result(a, v, cin) == 0,
        subtraction: false,
        half_carry: a % 16 + v % 16 + (if cin { 1int } else { 0int }) > 15,
        carry: a + v + (if cin { 1int } else { 0int }) > 255,
    }
}

/// The flags after an 8-bit subtract (also the comparison flags): Z when
/// the operands are equal, N set, H exactly when the low nibble of the
/// minuend is smaller, C exactly when an unsigned borrow occurs.
pub open spec fn spec_sub_flags(a: u8, v: u8) -> FlagsRegister {
    FlagsRegister {
        zero: a.wrapping_sub(v) == 0,
        subtraction: true,
        half_carry: a % 16 < v % 16,
        carry: a < v,
    }
}

/// The wrapped result of subtract-with-carry: two sequential subtracts,
/// so a borrow in either step sets the carry.
pub open spec fn spec_sbc_result(a: u8, v: u8, cin: bool) -> u8 {
    a.wrapping_sub(v).wrapping_sub(if cin { 1u8 } else { 0u8 })
}

/// The flags after subtract-with-carry: as for subtract, with the
/// incoming carry included in both borrow computations.
pub open spec fn spec_sbc_flags(a: u8, v: u8, cin: bool) -> FlagsRegister {
    FlagsRegister {
        zero: spec_sbc_result(a, v, cin) == 0,
        subtraction: true,
        half_carry: (a % 16) < v % 16 + (if cin { 1int } else { 0int }),
        carry: (a as int) < v + (if cin { 1int } else { 0int }),
    }
}

/// The flags after a bitwise operation: Z from the result, N and C clear,
/// H set for AND and clear for OR and XOR.
pub open spec fn spec_logic_flags(res: u8, half_carry: bool) -> FlagsRegister {
    FlagsRegister { zero: res == 0, subtraction: false, half_carry, carry: false }
}

/// The flags after the 16-bit HL add: N clear, H exactly when the low
/// eleven bits alone carry out of bit 11, C exactly when the 16-bit sum
/// overflows; Z is unaffected and keeps its previous value.
pub open spec fn spec_addhl_flags(hl: u16, v: u16, zero_before: bool) -> FlagsRegister {
    FlagsRegister {
        zero: zero_before,
        subtraction: false,
        half_carry: hl % 0x800 + v % 0x800 > 0x7FF,
        carry: hl + v > 0xFFFF,
    }
}

/// The flags after an 8-bit increment: Z from the result, N clear, H
/// exactly when the low nibble was 0xF before; C keeps its previous value.
pub open spec fn spec_inc8_flags(v: u8, carry_before: bool) -> FlagsRegister {
    FlagsRegister {
        zero: v.wrapping_add(1) == 0,
        subtraction: false,
        half_carry: v % 16 == 15,
        carry: carry_before,
    }
}

/// The flags after an 8-bit decrement: Z from the result, N set, H
/// exactly when the low nibble was 0x0 before; C keeps its previous value.
pub open spec fn spec_dec8_flags(v: u8, carry_before: bool) -> FlagsRegister {
    FlagsRegister {
        zero: v.wrapping_sub(1) == 0,
        subtraction: true,
        half_carry: v % 16 == 0,
        carry: carry_before,
    }
}

/// The flags after a rotate or shift: Z from the result for the
/// per-register forms (the accumulator-only forms pass `false`), N and H
/// clear, C the bit that was rotated or shifted out.
pub open spec fn spec_rotate_flags(zero: bool, carry_out: bool) -> FlagsRegister {
    FlagsRegister { zero, subtraction: false, half_carry: false, carry: carry_out }
}

/// Rotate left through carry: the previous carry enters bit 0.
pub open spec fn spec_rl(v: u8, cin: bool) -> u8 {
    (v << 1) | (if cin { 1u8 } else { 0u8 })
}

/// Rotate right through carry: the previous carry enters bit 7.
pub open spec fn spec_rr(v: u8, cin: bool) -> u8 {
    (v >> 1) | (if cin { 0x80u8 } else { 0u8 })
}

/// True rotate left: the bit leaving bit 7 re-enters at bit 0.
pub open spec fn spec_rlc(v: u8) -> u8 {
    (v << 1) | (if v & 0x80 == 0x80 { 1u8 } else { 0u8 })
}

/// True rotate right: the bit leaving bit 0 re-enters at bit 7.
pub open spec fn spec_rrc(v: u8) -> u8 {
    (v >> 1) | (if v & 0x01 == 0x01 { 0x80u8 } else { 0u8 })
}

/// Shift left, inserting 0 into bit 0.
pub open spec fn spec_sla(v: u8) -> u8 {
    v << 1
}

/// Arithmetic shift right: bit 7 is preserved.
pub open spec fn spec_sra(v: u8) -> u8 {
    (v & 0x80) | (v >> 1)
}

/// Logical shift right, inserting 0 into bit 7.
pub open spec fn spec_srl(v: u8) -> u8 {
    v >> 1
}

/// Nibble swap: the high and low nibble exchange places.
pub open spec fn spec_swap(v: u8) -> u8 {
    ((v & 0x0F) << 4) | ((v & 0xF0) >> 4)
}

impl CPU {
    /// A CPU in the power-on state over the given bus.
    pub fn new(bus: MemoryBus) -> (r: CPU)
        requires
            bus.wf(),
        ensures
            r.wf(),
            r.registers == Registers::power_on_spec(),
            r.bus == bus,
    {
        CPU { registers: Registers::power_on(), bus }
    }

    /// Reset contract: puts the register file back into the power-on
    /// state, PC at the entry address; the bus is untouched.
    pub fn reset(&mut self)
        ensures
            final(self).registers == Registers::power_on_spec(),
            final(self).bus == old(self).bus,
    {
        self.registers = Registers::power_on();
    }

    /// Reads the 8-bit register an operand selects.
    pub fn register_value(&self, target: ArithmeticTarget) -> (r: u8)
        ensures
            r == reg8(self.registers, target),
    {
        match target {
            ArithmeticTarget::A => self.registers.a,
            ArithmeticTarget::B => self.registers.b,
            ArithmeticTarget::C => self.registers.c,
            ArithmeticTarget::D => self.registers.d,
            ArithmeticTarget::E => self.registers.e,
            ArithmeticTarget::H => self.registers.h,
            ArithmeticTarget::L => self.registers.l,
        }
    }

    /// Writes the 8-bit register an operand selects.
    pub fn set_register(&mut self, target: ArithmeticTarget, value: u8)
        ensures
            final(self).registers == with_reg8(old(self).registers, target, value),
            final(self).bus == old(self).bus,
    {
        match target {
            ArithmeticTarget::A => self.registers.a = value,
            ArithmeticTarget::B => self.registers.b = value,
            ArithmeticTarget::C => self.registers.c = value,
            ArithmeticTarget::D => self.registers.d = value,
            ArithmeticTarget::E => self.registers.e = value,
            ArithmeticTarget::H => self.registers.h = value,
            ArithmeticTarget::L => self.registers.l = value,
        }
    }

    /// ADD: wrapped 8-bit add of the operand into A's value, returning the
    /// result; the flags follow the add rules.
    pub fn add(&mut self, value: u8) -> (r: u8)
        ensures
            r == old(self).registers.a.wrapping_add(value),
            final(self).registers == (Registers {
                f: spec_add_flags(old(self).registers.a, value),
                ..old(self).registers
            }),
            final(self).bus == old(self).bus,
    {
        let a = self.registers.a;
        let res = a.wrapping_add(value);
        self.registers.f = FlagsRegister {
            zero: res == 0,
            subtraction: false,
            half_carry: a % 16 + value % 16 > 15,
            carry: (a as u16) + (value as u16) > 255,
        };
        res
    }

    /// ADDHL: wrapped 16-bit add of the operand into the HL view,
    /// returning the result; Z is unaffected, H is the carry out of bit
    /// 11, C the 16-bit overflow.
    pub fn addhl(&mut self, value: u16) -> (r: u16)
        ensures
            r == word_of(old(self).registers.h, old(self).registers.l).wrapping_add(value),
            final(self).registers == (Registers {
                f: spec_addhl_flags(
                    word_of(old(self).registers.h, old(self).registers.l),
                    value,
                    old(self).registers.f.zero,
                ),
                ..old(self).registers
            }),
            final(self).bus == old(self).bus,
    {
        let hl = self.registers.get_hl();
        let res = hl.wrapping_add(value);
        self.registers.f = FlagsRegister {
            zero: self.registers.f.zero,
            subtraction: false,
            half_carry: hl % 0x800 + value % 0x800 > 0x7FF,
            carry: (hl as u32) + (value as u32) > 0xFFFF,
        };
        res
    }

    /// ADC: wrapped 8-bit add of the operand and the incoming carry into
    /// A's value; the incoming carry counts in both H and C.
    pub fn add_with_carry(&mut self, value: u8) -> (r: u8)
        ensures
            r == spec_adc_result(old(self).registers.a, value, old(self).registers.f.carry),
            final(self).registers == (Registers {
                f: spec_adc_flags(old(self).registers.a, value, old(self).registers.f.carry),
                ..old(self).registers
            }),
            final(self).bus == old(self).bus,
    {
        let a = self.registers.a;
        let cin: u8 = if self.registers.f.carry {
            1
        } else {
            0
        };
        let res = a.wrapping_add(value).wrapping_add(cin);
        self.registers.f = FlagsRegister {
            zero: res == 0,
            subtraction: false,
            half_carry: a % 16 + value % 16 + cin > 15,
            carry: (a as u16) + (value as u16) + (cin as u16) > 255,
        };
        res
    }

    /// SUB: wrapped 8-bit subtract of the operand from A's value; the
    /// flags follow the subtract rules.
    pub fn sub(&mut self, value: u8) -> (r: u8)
        ensures
            r == old(self).registers.a.wrapping_sub(value),
            final(self).registers == (Registers {
                f: spec_sub_flags(old(self).registers.a, value),
                ..old(self).registers
            }),
            final(self).bus == old(self).bus,
    {
        let a = self.registers.a;
        let res = a.wrapping_sub(value);
        self.registers.f = FlagsRegister {
            zero: res == 0,
            subtraction: true,
            half_carry: a % 16 < value % 16,
            carry: a < value,
        };
        res
    }

    /// SBC: wrapped 8-bit subtract of the operand and the incoming carry
    /// from A's value; the incoming carry counts in both borrows.
    pub fn sub_with_carry(&mut self, value: u8) -> (r: u8)
        ensures
            r == spec_sbc_result(old(self).registers.a, value, old(self).registers.f.carry),
            final(self).registers == (Registers {
                f: spec_sbc_flags(old(self).registers.a, value, old(self).registers.f.carry),
                ..old(self).registers
            }),
            final(self).bus == old(self).bus,
    {
        let a = self.registers.a;
        let cin: u8 = if self.registers.f.carry {
            1
        } else {
            0
        };
        let res = a.wrapping_sub(value).wrapping_sub(cin);
        self.registers.f = FlagsRegister {
            zero: res == 0,
            subtraction: true,
            half_carry: a % 16 < value % 16 + cin,
            carry: (a as u16) < (value as u16) + (cin as u16),
        };
        res
    }

    /// AND: bitwise and of the operand into A's value; H is set, C clear.
    pub fn and(&mut self, value: u8) -> (r: u8)
        ensures
            r == old(self).registers.a & value,
            final(self).registers == (Registers {
                f: spec_logic_flags(old(self).registers.a & value, true),
                ..old(self).registers
            }),
            final(self).bus == old(self).bus,
    {
        let res = self.registers.a & value;
        self.registers.f = FlagsRegister {
            zero: res == 0,
            subtraction: false,
            half_carry: true,
            carry: false,
        };
        res
    }

    /// OR: bitwise or of the operand into A's value; H and C clear.
    pub fn or(&mut self, value: u8) -> (r: u8)
        ensures
            r == (old(self).registers.a | value),
            final(self).registers == (Registers {
                f: spec_logic_flags(old(self).registers.a | value, false),
                ..old(self).registers
            }),
            final(self).bus == old(self).bus,
    {
        let res = self.registers.a | value;
        self.registers.f = FlagsRegister {
            zero: res == 0,
            subtraction: false,
            half_carry: false,
            carry: false,
        };
        res
    }

    /// XOR: bitwise exclusive or of the operand into A's value; H and C
    /// clear.
    pub fn xor(&mut self, value: u8) -> (r: u8)
        ensures
            r == (old(self).registers.a ^ value),
            final(self).registers == (Registers {
                f: spec_logic_flags(old(self).registers.a ^ value, false),
                ..old(self).registers
            }),
            final(self).bus == old(self).bus,
    {
        let res = self.registers.a ^ value;
        self.registers.f = FlagsRegister {
            zero: res == 0,
            subtraction: false,
            half_carry: false,
            carry: false,
        };
        res
    }

    /// CP: the subtract flags against the operand, without storing the
    /// result; A keeps its value.
    pub fn compare(&mut self, value: u8)
        ensures
            final(self).registers == (Registers {
                f: spec_sub_flags(old(self).registers.a, value),
                ..old(self).registers
            }),
            final(self).bus == old(self).bus,
    {
        let a = self.registers.a;
        self.registers.f = FlagsRegister {
            zero: a == value,
            subtraction: true,
            half_carry: a % 16 < value % 16,
            carry: a < value,
        };
    }

    /// 8-bit INC: the value plus one, wrapped; C keeps its previous value,
    /// H is set exactly when the low nibble was 0xF before the increment.
    pub fn inc_8b(&mut self, value: u8) -> (r: u8)
        ensures
            r == value.wrapping_add(1),
            final(self).registers == (Registers {
                f: spec_inc8_flags(value, old(self).registers.f.carry),
                ..old(self).registers
            }),
            final(self).bus == old(self).bus,
    {
        let res = value.wrapping_add(1);
        self.registers.f = FlagsRegister {
            zero: res == 0,
            subtraction: false,
            half_carry: value % 16 == 15,
            carry: self.registers.f.carry,
        };
        res
    }

    /// 16-bit INC: the value plus one, wrapped; no flags are affected.
    pub fn inc_16b(&mut self, value: u16) -> (r: u16)
        ensures
            r == value.wrapping_add(1),
            *final(self) == *old(self),
    {
        value.wrapping_add(1)
    }

    /// 8-bit DEC: the value minus one, wrapped; C keeps its previous
    /// value, H is set exactly when the low nibble was 0x0 before the
    /// decrement.
    pub fn dec_8b(&mut self, value: u8) -> (r: u8)
        ensures
            r == value.wrapping_sub(1),
            final(self).registers == (Registers {
                f: spec_dec8_flags(value, old(self).registers.f.carry),
                ..old(self).registers
            }),
            final(self).bus == old(self).bus,
    {
        let res = value.wrapping_sub(1);
        self.registers.f = FlagsRegister {
            zero: res == 0,
            subtraction: true,
            half_carry: value % 16 == 0,
            carry: self.registers.f.carry,
        };
        res
    }

    /// 16-bit DEC: the value minus one, wrapped; no flags are affected.
    pub fn dec_16b(&mut self, value: u16) -> (r: u16)
        ensures
            r == value.wrapping_sub(1),
            *final(self) == *old(self),
    {
        value.wrapping_sub(1)
    }

    /// CCF: complements the carry; N and H clear, Z unaffected.
    pub fn complement_carry(&mut self)
        ensures
            final(self).registers == (Registers {
                f: FlagsRegister {
                    zero: old(self).registers.f.zero,
                    subtraction: false,
                    half_carry: false,
                    carry: !old(self).registers.f.carry,
                },
                ..old(self).registers
            }),
            final(self).bus == old(self).bus,
    {
        self.registers.f = FlagsRegister {
            zero: self.registers.f.zero,
            subtraction: false,
            half_carry: false,
            carry: !self.registers.f.carry,
        };
    }

    /// SCF: sets the carry; N and H clear, Z unaffected.
    pub fn set_carry(&mut self)
        ensures
            final(self).registers == (Registers {
                f: FlagsRegister {
                    zero: old(self).registers.f.zero,
                    subtraction: false,
                    half_carry: false,
                    carry: true,
                },
                ..old(self).registers
            }),
            final(self).bus == old(self).bus,
    {
        self.registers.f = FlagsRegister {
            zero: self.registers.f.zero,
            subtraction: false,
            half_carry: false,
            carry: true,
        };
    }

    /// CPL: complements A; N and H set, Z and C unaffected.
    pub fn complement(&mut self)
        ensures
            final(self).registers == (Registers {
                a: old(self).registers.a ^ 0xFF,
                f: FlagsRegister {
                    zero: old(self).registers.f.zero,
                    subtraction: true,
                    half_carry: true,
                    carry: old(self).registers.f.carry,
                },
                ..old(self).registers
            }),
            final(self).bus == old(self).bus,
    {
        self.registers.f = FlagsRegister {
            zero: self.registers.f.zero,
            subtraction: true,
            half_carry: true,
            carry: self.registers.f.carry,
        };
        self.registers.a = self.registers.a ^ 0xFF;
    }

    /// RRA: rotates A right through the carry; Z always clear in the
    /// accumulator form.
    pub fn rotate_right_a_with_carry(&mut self)
        ensures
            final(self).registers == (Registers {
                a: spec_rr(old(self).registers.a, old(self).registers.f.carry),
                f: spec_rotate_flags(false, old(self).registers.a & 0x01 == 0x01),
                ..old(self).registers
            }),
            final(self).bus == old(self).bus,
    {
        let a = self.registers.a;
        let res = (a >> 1) | (if self.registers.f.carry {
            0x80u8
        } else {
            0u8
        });
        self.registers.f = FlagsRegister {
            zero: false,
            subtraction: false,
            half_carry: false,
            carry: a & 0x01 == 0x01,
        };
        self.registers.a = res;
    }

    /// RLA: rotates A left through the carry; Z always clear in the
    /// accumulator form.
    pub fn rotate_left_a_with_carry(&mut self)
        ensures
            final(self).registers == (Registers {
                a: spec_rl(old(self).registers.a, old(self).registers.f.carry),
                f: spec_rotate_flags(false, old(self).registers.a & 0x80 == 0x80),
                ..old(self).registers
            }),
            final(self).bus == old(self).bus,
    {
        let a = self.registers.a;
        let res = (a << 1) | (if self.registers.f.carry {
            1u8
        } else {
            0u8
        });
        self.registers.f = FlagsRegister {
            zero: false,
            subtraction: false,
            half_carry: false,
            carry: a & 0x80 == 0x80,
        };
        self.registers.a = res;
    }

    /// RRCA: true rotate of A right; Z always clear in the accumulator
    /// form.
    pub fn rotate_right_a(&mut self)
        ensures
            final(self).registers == (Registers {
                a: spec_rrc(old(self).registers.a),
                f: spec_rotate_flags(false, old(self).registers.a & 0x01 == 0x01),
                ..old(self).registers
            }),
            final(self).bus == old(self).bus,
    {
        let a = self.registers.a;
        let res = (a >> 1) | (if a & 0x01 == 0x01 {
            0x80u8
        } else {
            0u8
        });
        self.registers.f = FlagsRegister {
            zero: false,
            subtraction: false,
            half_carry: false,
            carry: a & 0x01 == 0x01,
        };
        self.registers.a = res;
    }

    /// RLCA: true rotate of A left; Z always clear in the accumulator
    /// form.
    pub fn rotate_left_a(&mut self)
        ensures
            final(self).registers == (Registers {
                a: spec_rlc(old(self).registers.a),
                f: spec_rotate_flags(false, old(self).registers.a & 0x80 == 0x80),
                ..old(self).registers
            }),
            final(self).bus == old(self).bus,
    {
        let a = self.registers.a;
        let res = (a << 1) | (if a & 0x80 == 0x80 {
            1u8
        } else {
            0u8
        });
        self.registers.f = FlagsRegister {
            zero: false,
            subtraction: false,
            half_carry: false,
            carry: a & 0x80 == 0x80,
        };
        self.registers.a = res;
    }

    /// BIT: Z is set exactly when bit `bit` of the value is zero; N clear,
    /// H set, C unaffected; the value itself is not modified.
    pub fn test_bit(&mut self, value: u8, bit: BitPosition)
        ensures
            final(self).registers == (Registers {
                f: FlagsRegister {
                    zero: (value >> spec_bit_index(bit)) & 0x01 == 0,
                    subtraction: false,
                    half_carry: true,
                    carry: old(self).registers.f.carry,
                },
                ..old(self).registers
            }),
            final(self).bus == old(self).bus,
    {
        let b = bit.index();
        let res = (value >> b) & 0x01;
        self.registers.f = FlagsRegister {
            zero: res == 0,
            subtraction: false,
            half_carry: true,
            carry: self.registers.f.carry,
        };
    }

    /// RESET: the value with bit `bit` forced to zero; no flags affected.
    pub fn reset_bit(&self, value: u8, bit: BitPosition) -> (r: u8)
        ensures
            r == value & !(1u8 << spec_bit_index(bit)),
    {
        let b = bit.index();
        value & !(1u8 << b)
    }

    /// SET: the value with bit `bit` forced to one; no flags affected.
    pub fn set_bit(&self, value: u8, bit: BitPosition) -> (r: u8)
        ensures
            r == value | (1u8 << spec_bit_index(bit)),
    {
        let b = bit.index();
        value | (1u8 << b)
    }

    /// SRL: logical shift right; the bit shifted out becomes the carry, Z
    /// from the result.
    pub fn shift_right_logical(&mut self, value: u8) -> (r: u8)
        ensures
            r == spec_srl(value),
            final(self).registers == (Registers {
                f: spec_rotate_flags(spec_srl(value) == 0, value & 0x01 == 0x01),
                ..old(self).registers
            }),
            final(self).bus == old(self).bus,
    {
        let res = value >> 1;
        self.registers.f = FlagsRegister {
            zero: res == 0,
            subtraction: false,
            half_carry: false,
            carry: value & 0x01 == 0x01,
        };
        res
    }

    /// RR: rotates the value right through the carry; Z from the result.
    pub fn rotate_right_with_carry(&mut self, value: u8) -> (r: u8)
        ensures
            r == spec_rr(value, old(self).registers.f.carry),
            final(self).registers == (Registers {
                f: spec_rotate_flags(
                    spec_rr(value, old(self).registers.f.carry) == 0,
                    value & 0x01 == 0x01,
                ),
                ..old(self).registers
            }),
            final(self).bus == old(self).bus,
    {
        let res = (value >> 1) | (if self.registers.f.carry {
            0x80u8
        } else {
            0u8
        });
        self.registers.f = FlagsRegister {
            zero: res == 0,
            subtraction: false,
            half_carry: false,
            carry: value & 0x01 == 0x01,
        };
        res
    }

    /// RL: rotates the value left through the carry; Z from the result.
    pub fn rotate_left_with_carry(&mut self, value: u8) -> (r: u8)
        ensures
            r == spec_rl(value, old(self).registers.f.carry),
            final(self).registers == (Registers {
                f: spec_rotate_flags(
                    spec_rl(value, old(self).registers.f.carry) == 0,
                    value & 0x80 == 0x80,
                ),
                ..old(self).registers
            }),
            final(self).bus == old(self).bus,
    {
        let res = (value << 1) | (if self.registers.f.carry {
            1u8
        } else {
            0u8
        });
        self.registers.f = FlagsRegister {
            zero: res == 0,
            subtraction: false,
            half_carry: false,
            carry: value & 0x80 == 0x80,
        };
        res
    }

    /// RRC: true rotate right; the bit leaving bit 0 re-enters at bit 7
    /// and becomes the carry, Z from the result.
    pub fn rotate_right(&mut self, value: u8) -> (r: u8)
        ensures
            r == spec_rrc(value),
            final(self).registers == (Registers {
                f: spec_rotate_flags(spec_rrc(value) == 0, value & 0x01 == 0x01),
                ..old(self).registers
            }),
            final(self).bus == old(self).bus,
    {
        let res = (value >> 1) | (if value & 0x01 == 0x01 {
            0x80u8
        } else {
            0u8
        });
        self.registers.f = FlagsRegister {
            zero: res == 0,
            subtraction: false,
            half_carry: false,
            carry: value & 0x01 == 0x01,
        };
        res
    }

    /// RLC: true rotate left; the bit leaving bit 7 re-enters at bit 0
    /// and becomes the carry, Z from the result.
    pub fn rotate_left(&mut self, value: u8) -> (r: u8)
        ensures
            r == spec_rlc(value),
            final(self).registers == (Registers {
                f: spec_rotate_flags(spec_rlc(value) == 0, value & 0x80 == 0x80),
                ..old(self).registers
            }),
            final(self).bus == old(self).bus,
    {
        let res = (value << 1) | (if value & 0x80 == 0x80 {
            1u8
        } else {
            0u8
        });
        self.registers.f = FlagsRegister {
            zero: res == 0,
            subtraction: false,
            half_carry: false,
            carry: value & 0x80 == 0x80,
        };
        res
    }

    /// SRA: arithmetic shift right, preserving bit 7; the bit shifted out
    /// becomes the carry, Z from the result.
    pub fn rotate_right_arithmetic(&mut self, value: u8) -> (r: u8)
        ensures
            r == spec_sra(value),
            final(self).registers == (Registers {
                f: spec_rotate_flags(spec_sra(value) == 0, value & 0x01 == 0x01),
                ..old(self).registers
            }),
            final(self).bus == old(self).bus,
    {
        let res = (value & 0x80) | (value >> 1);
        self.registers.f = FlagsRegister {
            zero: res == 0,
            subtraction: false,
            half_carry: false,
            carry: value & 0x01 == 0x01,
        };
        res
    }

    /// SLA: shift left, inserting 0 into bit 0; the bit shifted out
    /// becomes the carry, Z from the result.
    pub fn rotate_left_arithmetic(&mut self, value: u8) -> (r: u8)
        ensures
            r == spec_sla(value),
            final(self).registers == (Registers {
                f: spec_rotate_flags(spec_sla(value) == 0, value & 0x80 == 0x80),
                ..old(self).registers
            }),
            final(self).bus == old(self).bus,
    {
        let res = value << 1;
        self.registers.f = FlagsRegister {
            zero: res == 0,
            subtraction: false,
            half_carry: false,
            carry: value & 0x80 == 0x80,
        };
        res
    }

    /// SWAP: exchanges the high and low nibbles; Z from the result, N, H
    /// and C clear.
    pub fn swap(&mut self, value: u8) -> (r: u8)
        ensures
            r == spec_swap(value),
            final(self).registers == (Registers {
                f: spec_logic_flags(spec_swap(value), false),
                ..old(self).registers
            }),
            final(self).bus == old(self).bus,
    {
        let res = ((value & 0x0F) << 4) | ((value & 0xF0) >> 4);
        self.registers.f = FlagsRegister {
            zero: res == 0,
            subtraction: false,
            half_carry: false,
            carry: false,
        };
        res
    }
}

/// The register file after an INC: an 8-bit target wraps up by one and
/// takes the increment flags; a pair target wraps up by one with no flags
/// affected.
pub open spec fn spec_inc(r: Registers, t: IncDecTarget) -> Registers {
    match t {
        IncDecTarget::A => Registers {
            a: r.a.wrapping_add(1),
            f: spec_inc8_flags(r.a, r.f.carry),
            ..r
        },
        IncDecTarget::B => Registers {
            b: r.b.wrapping_add(1),
            f: spec_inc8_flags(r.b, r.f.carry),
            ..r
        },
        IncDecTarget::C => Registers {
            c: r.c.wrapping_add(1),
            f: spec_inc8_flags(r.c, r.f.carry),
            ..r
        },
        IncDecTarget::D => Registers {
            d: r.d.wrapping_add(1),
            f: spec_inc8_flags(r.d, r.f.carry),
            ..r
        },
        IncDecTarget::E => Registers {
            e: r.e.wrapping_add(1),
            f: spec_inc8_flags(r.e, r.f.carry),
            ..r
        },
        IncDecTarget::H => Registers {
            h: r.h.wrapping_add(1),
            f: spec_inc8_flags(r.h, r.f.carry),
            ..r
        },
        IncDecTarget::L => Registers {
            l: r.l.wrapping_add(1),
            f: spec_inc8_flags(r.l, r.f.carry),
            ..r
        },
        IncDecTarget::BC => with_bc(r, word_of(r.b, r.c).wrapping_add(1)),
        IncDecTarget::DE => with_de(r, word_of(r.d, r.e).wrapping_add(1)),
        IncDecTarget::HL => with_hl(r, word_of(r.h, r.l).wrapping_add(1)),
    }
}

/// The register file after a DEC: an 8-bit target wraps down by one and
/// takes the decrement flags; a pair target wraps down by one with no
/// flags affected.
pub open spec fn spec_dec(r: Registers, t: IncDecTarget) -> Registers {
    match t {
        IncDecTarget::A => Registers {
            a: r.a.wrapping_sub(1),
            f: spec_dec8_flags(r.a, r.f.carry),
            ..r
        },
        IncDecTarget::B => Registers {
            b: r.b.wrapping_sub(1),
            f: spec_dec8_flags(r.b, r.f.carry),
            ..r
        },
        IncDecTarget::C => Registers {
            c: r.c.wrapping_sub(1),
            f: spec_dec8_flags(r.c, r.f.carry),
            ..r
        },
        IncDecTarget::D => Registers {
            d: r.d.wrapping_sub(1),
            f: spec_dec8_flags(r.d, r.f.carry),
            ..r
        },
        IncDecTarget::E => Registers {
            e: r.e.wrapping_sub(1),
            f: spec_dec8_flags(r.e, r.f.carry),
            ..r
        },
        IncDecTarget::H => Registers {
            h: r.h.wrapping_sub(1),
            f: spec_dec8_flags(r.h, r.f.carry),
            ..r
        },
        IncDecTarget::L => Registers {
            l: r.l.wrapping_sub(1),
            f: spec_dec8_flags(r.l, r.f.carry),
            ..r
        },
        IncDecTarget::BC => with_bc(r, word_of(r.b, r.c).wrapping_sub(1)),
        IncDecTarget::DE => with_de(r, word_of(r.d, r.e).wrapping_sub(1)),
        IncDecTarget::HL => with_hl(r, word_of(r.h, r.l).wrapping_sub(1)),
    }
}

/// Whether a jump condition holds of the current flags.
pub open spec fn spec_condition(f: FlagsRegister, c: JumpCondition) -> bool {
    match c {
        JumpCondition::NotZero => !f.zero,
        JumpCondition::Zero => f.zero,
        JumpCondition::NotCarry => !f.carry,
        JumpCondition::Carry => f.carry,
        JumpCondition::Always => true,
    }
}

/// The two's-complement reading of a displacement byte: values 0x80 and
/// above stand for their value minus 256.
pub open spec fn spec_signed8(d: u8) -> int {
    if d < 0x80 {
        d as int
    } else {
        d as int - 256
    }
}

/// The target of a relative jump: the address after the instruction plus
/// the sign-interpreted displacement, wrapping around the address space.
pub open spec fn spec_jr_dest(next: u16, d: u8) -> u16 {
    if d < 0x80 {
        next.wrapping_add(d as u16)
    } else {
        next.wrapping_sub((0x100 - d) as u16)
    }
}

/// The relative-jump target is exactly the sign-interpreted displacement
/// added to the follow-on address, modulo the address space — in
/// particular the boundary displacement 0x80 (−128) is handled as a true
/// signed value.
pub proof fn lemma_jr_signed(next: u16, d: u8)
    ensures
        spec_jr_dest(next, d) == (next + spec_signed8(d)) % 0x10000,
{
}

/// The 16-bit immediate following the opcode, little-endian: the low byte
/// at PC+1, the high byte at PC+2.
pub open spec fn spec_next_word(s: MachineState) -> u16 {
    word_of(
        s.mem[s.regs.pc.wrapping_add(2) as int],
        s.mem[s.regs.pc.wrapping_add(1) as int],
    )
}

/// The byte a load source stands for: a register, the immediate byte at
/// PC+1, or the byte addressed by HL.
pub open spec fn spec_load_src_val(s: MachineState, src: LoadByteSrc) -> u8 {
    match src {
        LoadByteSrc::A => s.regs.a,
        LoadByteSrc::B => s.regs.b,
        LoadByteSrc::C => s.regs.c,
        LoadByteSrc::D => s.regs.d,
        LoadByteSrc::E => s.regs.e,
        LoadByteSrc::H => s.regs.h,
        LoadByteSrc::L => s.regs.l,
        LoadByteSrc::D8 => s.mem[s.regs.pc.wrapping_add(1) as int],
        LoadByteSrc::HLI => s.mem[word_of(s.regs.h, s.regs.l) as int],
    }
}

/// The machine state and next PC after a load instruction.
pub open spec fn spec_execute_load(s: MachineState, lt: LoadType) -> (MachineState, u16) {
    let r = s.regs;
    match lt {
        LoadType::Byte(target, src) => {
            let v = spec_load_src_val(s, src);
            let s2 = match target {
                LoadByteTarget::A => MachineState { regs: Registers { a: v, ..r }, ..s },
                LoadByteTarget::B => MachineState { regs: Registers { b: v, ..r }, ..s },
                LoadByteTarget::C => MachineState { regs: Registers { c: v, ..r }, ..s },
                LoadByteTarget::D => MachineState { regs: Registers { d: v, ..r }, ..s },
                LoadByteTarget::E => MachineState { regs: Registers { e: v, ..r }, ..s },
                LoadByteTarget::H => MachineState { regs: Registers { h: v, ..r }, ..s },
                LoadByteTarget::L => MachineState { regs: Registers { l: v, ..r }, ..s },
                LoadByteTarget::HLI => MachineState {
                    mem: s.mem.update(word_of(r.h, r.l) as int, v),
                    ..s
                },
            };
            let npc = if src is D8 {
                r.pc.wrapping_add(2)
            } else {
                r.pc.wrapping_add(1)
            };
            (s2, npc)
        },
        LoadType::Word(target) => {
            let v = spec_next_word(s);
            let regs2 = match target {
                LoadWordTarget::BC => with_bc(r, v),
                LoadWordTarget::DE => with_de(r, v),
                LoadWordTarget::HL => with_hl(r, v),
            };
            (MachineState { regs: regs2, ..s }, r.pc.wrapping_add(3))
        },
        LoadType::AFromIndirect(src) => {
            match src {
                IndirectSrc::BC => (
                    MachineState {
                        regs: Registers { a: s.mem[word_of(r.b, r.c) as int], ..r },
                        ..s
                    },
                    r.pc.wrapping_add(1),
                ),
                IndirectSrc::DE => (
                    MachineState {
                        regs: Registers { a: s.mem[word_of(r.d, r.e) as int], ..r },
                        ..s
                    },
                    r.pc.wrapping_add(1),
                ),
                IndirectSrc::HLMinus => {
                    let hl = word_of(r.h, r.l);
                    (
                        MachineState {
                            regs: with_hl(
                                Registers { a: s.mem[hl as int], ..r },
                                hl.wrapping_sub(1),
                            ),
                            ..s
                        },
                        r.pc.wrapping_add(1),
                    )
                },
                IndirectSrc::HLPlus => {
                    let hl = word_of(r.h, r.l);
                    (
                        MachineState {
                            regs: with_hl(
                                Registers { a: s.mem[hl as int], ..r },
                                hl.wrapping_add(1),
                            ),
                            ..s
                        },
                        r.pc.wrapping_add(1),
                    )
                },
                IndirectSrc::D8 => (
                    MachineState {
                        regs: Registers { a: s.mem[spec_next_word(s) as int], ..r },
                        ..s
                    },
                    r.pc.wrapping_add(3),
                ),
                IndirectSrc::IOPortC => (
                    MachineState {
                        regs: Registers { a: s.mem[(0xFF00 + r.c) as int], ..r },
                        ..s
                    },
                    r.pc.wrapping_add(1),
                ),
            }
        },
        LoadType::IndirectFromA(src) => {
            match src {
                IndirectSrc::BC => (
                    MachineState { mem: s.mem.update(word_of(r.b, r.c) as int, r.a), ..s },
                    r.pc.wrapping_add(1),
                ),
                IndirectSrc::DE => (
                    MachineState { mem: s.mem.update(word_of(r.d, r.e) as int, r.a), ..s },
                    r.pc.wrapping_add(1),
                ),
                IndirectSrc::HLMinus => {
                    let hl = word_of(r.h, r.l);
                    (
                        MachineState {
                            regs: with_hl(r, hl.wrapping_sub(1)),
                            mem: s.mem.update(hl as int, r.a),
                        },
                        r.pc.wrapping_add(1),
                    )
                },
                IndirectSrc::HLPlus => {
                    let hl = word_of(r.h, r.l);
                    (
                        MachineState {
                            regs: with_hl(r, hl.wrapping_add(1)),
                            mem: s.mem.update(hl as int, r.a),
                        },
                        r.pc.wrapping_add(1),
                    )
                },
                IndirectSrc::D8 => (
                    MachineState { mem: s.mem.update(spec_next_word(s) as int, r.a), ..s },
                    r.pc.wrapping_add(3),
                ),
                IndirectSrc::IOPortC => (
                    MachineState { mem: s.mem.update((0xFF00 + r.c) as int, r.a), ..s },
                    r.pc.wrapping_add(1),
                ),
            }
        },
        LoadType::AFromByteAddress => {
            let off = s.mem[r.pc.wrapping_add(1) as int];
            (
                MachineState { regs: Registers { a: s.mem[(0xFF00 + off) as int], ..r }, ..s },
                r.pc.wrapping_add(2),
            )
        },
        LoadType::ByteAddressFromA => {
            let off = s.mem[r.pc.wrapping_add(1) as int];
            (
                MachineState { mem: s.mem.update((0xFF00 + off) as int, r.a), ..s },
                r.pc.wrapping_add(2),
            )
        },
    }
}

/// The machine state and next PC after one instruction: the mathematical
/// model of the execute step. The returned state keeps the old PC in its
/// register file; the caller stores the returned next PC.
pub open spec fn spec_execute(s: MachineState, i: Instruction) -> (MachineState, u16) {
    let r = s.regs;
    let pc1 = r.pc.wrapping_add(1);
    let pc2 = r.pc.wrapping_add(2);
    match i {
        Instruction::ADD(t) => {
            let v = reg8(r, t);
            (
                MachineState {
                    regs: Registers {
                        a: r.a.wrapping_add(v),
                        f: spec_add_flags(r.a, v),
                        ..r
                    },
                    ..s
                },
                pc1,
            )
        },
        Instruction::ADDHL(g) => {
            let v = pair16(r, g);
            let hl = word_of(r.h, r.l);
            (
                MachineState {
                    regs: with_hl(
                        Registers { f: spec_addhl_flags(hl, v, r.f.zero), ..r },
                        hl.wrapping_add(v),
                    ),
                    ..s
                },
                pc1,
            )
        },
        Instruction::ADC(t) => {
            let v = reg8(r, t);
            (
                MachineState {
                    regs: Registers {
                        a: spec_adc_result(r.a, v, r.f.carry),
                        f: spec_adc_flags(r.a, v, r.f.carry),
                        ..r
                    },
                    ..s
                },
                pc1,
            )
        },
        Instruction::SUB(t) => {
            let v = reg8(r, t);
            (
                MachineState {
                    regs: Registers {
                        a: r.a.wrapping_sub(v),
                        f: spec_sub_flags(r.a, v),
                        ..r
                    },
                    ..s
                },
                pc1,
            )
        },
        Instruction::SBC(t) => {
            let v = reg8(r, t);
            (
                MachineState {
                    regs: Registers {
                        a: spec_sbc_result(r.a, v, r.f.carry),
                        f: spec_sbc_flags(r.a, v, r.f.carry),
                        ..r
                    },
                    ..s
                },
                pc1,
            )
        },
        Instruction::AND(t) => {
            let v = reg8(r, t);
            (
                MachineState {
                    regs: Registers { a: r.a & v, f: spec_logic_flags(r.a & v, true), ..r },
                    ..s
                },
                pc1,
            )
        },
        Instruction::OR(t) => {
            let v = reg8(r, t);
            (
                MachineState {
                    regs: Registers { a: r.a | v, f: spec_logic_flags(r.a | v, false), ..r },
                    ..s
                },
                pc1,
            )
        },
        Instruction::XOR(t) => {
            let v = reg8(r, t);
            (
                MachineState {
                    regs: Registers { a: r.a ^ v, f: spec_logic_flags(r.a ^ v, false), ..r },
                    ..s
                },
                pc1,
            )
        },
        Instruction::CP(t) => {
            let v = reg8(r, t);
            (
                MachineState { regs: Registers { f: spec_sub_flags(r.a, v), ..r }, ..s },
                pc1,
            )
        },
        Instruction::INC(t) => (MachineState { regs: spec_inc(r, t), ..s }, pc1),
        Instruction::DEC(t) => (MachineState { regs: spec_dec(r, t), ..s }, pc1),
        Instruction::CCF => (
            MachineState {
                regs: Registers {
                    f: FlagsRegister {
                        zero: r.f.zero,
                        subtraction: false,
                        half_carry: false,
                        carry: !r.f.carry,
                    },
                    ..r
                },
                ..s
            },
            pc1,
        ),
        Instruction::SCF => (
            MachineState {
                regs: Registers {
                    f: FlagsRegister {
                        zero: r.f.zero,
                        subtraction: false,
                        half_carry: false,
                        carry: true,
                    },
                    ..r
                },
                ..s
            },
            pc1,
        ),
        Instruction::RRA => (
            MachineState {
                regs: Registers {
                    a: spec_rr(r.a, r.f.carry),
                    f: spec_rotate_flags(false, r.a & 0x01 == 0x01),
                    ..r
                },
                ..s
            },
            pc1,
        ),
        Instruction::RLA => (
            MachineState {
                regs: Registers {
                    a: spec_rl(r.a, r.f.carry),
                    f: spec_rotate_flags(false, r.a & 0x80 == 0x80),
                    ..r
                },
                ..s
            },
            pc1,
        ),
        Instruction::RRCA => (
            MachineState {
                regs: Registers {
                    a: spec_rrc(r.a),
                    f: spec_rotate_flags(false, r.a & 0x01 == 0x01),
                    ..r
                },
                ..s
            },
            pc1,
        ),
        Instruction::RLCA => (
            MachineState {
                regs: Registers {
                    a: spec_rlc(r.a),
                    f: spec_rotate_flags(false, r.a & 0x80 == 0x80),
                    ..r
                },
                ..s
            },
            pc1,
        ),
        Instruction::CPL => (
            MachineState {
                regs: Registers {
                    a: r.a ^ 0xFF,
                    f: FlagsRegister {
                        zero: r.f.zero,
                        subtraction: true,
                        half_carry: true,
                        carry: r.f.carry,
                    },
                    ..r
                },
                ..s
            },
            pc1,
        ),
        Instruction::BIT(t, b) => (
            MachineState {
                regs: Registers {
                    f: FlagsRegister {
                        zero: (reg8(r, t) >> spec_bit_index(b)) & 0x01 == 0,
                        subtraction: false,
                        half_carry: true,
                        carry: r.f.carry,
                    },
                    ..r
                },
                ..s
            },
            pc2,
        ),
        Instruction::RESET(t, b) => (
            MachineState {
                regs: with_reg8(r, t, reg8(r, t) & !(1u8 << spec_bit_index(b))),
                ..s
            },
            pc2,
        ),
        Instruction::SET(t, b) => (
            MachineState {
                regs: with_reg8(r, t, reg8(r, t) | (1u8 << spec_bit_index(b))),
                ..s
            },
            pc2,
        ),
        Instruction::SRL(t) => {
            let v = reg8(r, t);
            (
                MachineState {
                    regs: with_reg8(
                        Registers {
                            f: spec_rotate_flags(spec_srl(v) == 0, v & 0x01 == 0x01),
                            ..r
                        },
                        t,
                        spec_srl(v),
                    ),
                    ..s
                },
                pc2,
            )
        },
        Instruction::RR(t) => {
            let v = reg8(r, t);
            let res = spec_rr(v, r.f.carry);
            (
                MachineState {
                    regs: with_reg8(
                        Registers { f: spec_rotate_flags(res == 0, v & 0x01 == 0x01), ..r },
                        t,
                        res,
                    ),
                    ..s
                },
                pc2,
            )
        },
        Instruction::RL(t) => {
            let v = reg8(r, t);
            let res = spec_rl(v, r.f.carry);
            (
                MachineState {
                    regs: with_reg8(
                        Registers { f: spec_rotate_flags(res == 0, v & 0x80 == 0x80), ..r },
                        t,
                        res,
                    ),
                    ..s
                },
                pc2,
            )
        },
        Instruction::RRC(t) => {
            let v = reg8(r, t);
            (
                MachineState {
                    regs: with_reg8(
                        Registers {
                            f: spec_rotate_flags(spec_rrc(v) == 0, v & 0x01 == 0x01),
                            ..r
                        },
                        t,
                        spec_rrc(v),
                    ),
                    ..s
                },
                pc2,
            )
        },
        Instruction::RLC(t) => {
            let v = reg8(r, t);
            (
                MachineState {
                    regs: with_reg8(
                        Registers {
                            f: spec_rotate_flags(spec_rlc(v) == 0, v & 0x80 == 0x80),
                            ..r
                        },
                        t,
                        spec_rlc(v),
                    ),
                    ..s
                },
                pc2,
            )
        },
        Instruction::SRA(t) => {
            let v = reg8(r, t);
            (
                MachineState {
                    regs: with_reg8(
                        Registers {
                            f: spec_rotate_flags(spec_sra(v) == 0, v & 0x01 == 0x01),
                            ..r
                        },
                        t,
                        spec_sra(v),
                    ),
                    ..s
                },
                pc2,
            )
        },
        Instruction::SLA(t) => {
            let v = reg8(r, t);
            (
                MachineState {
                    regs: with_reg8(
                        Registers {
                            f: spec_rotate_flags(spec_sla(v) == 0, v & 0x80 == 0x80),
                            ..r
                        },
                        t,
                        spec_sla(v),
                    ),
                    ..s
                },
                pc2,
            )
        },
        Instruction::SWAP(t) => {
            let v = reg8(r, t);
            (
                MachineState {
                    regs: with_reg8(
                        Registers { f: spec_logic_flags(spec_swap(v), false), ..r },
                        t,
                        spec_swap(v),
                    ),
                    ..s
                },
                pc2,
            )
        },
        Instruction::JP(c) => (
            s,
            if spec_condition(r.f, c) {
                spec_next_word(s)
            } else {
                r.pc.wrapping_add(3)
            },
        ),
        Instruction::JR(c) => {
            let next = r.pc.wrapping_add(2);
            (
                s,
                if spec_condition(r.f, c) {
                    spec_jr_dest(next, s.mem[r.pc.wrapping_add(1) as int])
                } else {
                    next
                },
            )
        },
        Instruction::JPI => (s, word_of(r.h, r.l)),
        Instruction::LD(lt) => spec_execute_load(s, lt),
    }
}

impl CPU {
    /// Whether a jump condition holds of the current flags.
    pub fn condition_met(&self, c: JumpCondition) -> (r: bool)
        ensures
            r == spec_condition(self.registers.f, c),
    {
        match c {
            JumpCondition::NotZero => !self.registers.f.zero,
            JumpCondition::Zero => self.registers.f.zero,
            JumpCondition::NotCarry => !self.registers.f.carry,
            JumpCondition::Carry => self.registers.f.carry,
            JumpCondition::Always => true,
        }
    }

    /// Reads the 16-bit immediate following the opcode, little-endian:
    /// the low byte at PC+1, the high byte at PC+2.
    pub fn next_word(&self) -> (r: u16)
        requires
            self.wf(),
        ensures
            r == spec_next_word(self.state()),
    {
        let lo = self.bus.read_byte(self.registers.pc.wrapping_add(1));
        let hi = self.bus.read_byte(self.registers.pc.wrapping_add(2));
        ((hi as u16) << 8) | (lo as u16)
    }

    /// JP: the immediate word when the condition holds, the address after
    /// the three-byte instruction otherwise.
    pub fn jump(&self, condition: bool) -> (r: u16)
        requires
            self.wf(),
        ensures
            r == if condition {
                spec_next_word(self.state())
            } else {
                self.registers.pc.wrapping_add(3)
            },
    {
        if condition {
            self.next_word()
        } else {
            self.registers.pc.wrapping_add(3)
        }
    }

    /// JR: the address after the two-byte instruction plus the
    /// sign-interpreted displacement byte when the condition holds, that
    /// address alone otherwise.
    pub fn jump_relative(&self, condition: bool) -> (r: u16)
        requires
            self.wf(),
        ensures
            r == ({
                let next = self.registers.pc.wrapping_add(2);
                if condition {
                    spec_jr_dest(next, self.state().mem[self.registers.pc.wrapping_add(1) as int])
                } else {
                    next
                }
            }),
    {
        let next = self.registers.pc.wrapping_add(2);
        if condition {
            let d = self.bus.read_byte(self.registers.pc.wrapping_add(1));
            if d < 0x80 {
                next.wrapping_add(d as u16)
            } else {
                next.wrapping_sub(0x100u16 - (d as u16))
            }
        } else {
            next
        }
    }

    /// Dispatches one decoded instruction: mutates the register file and
    /// the bus exactly as the machine model says, and returns the next
    /// PC without storing it.
    pub fn execute(&mut self, instruction: Instruction) -> (next_pc: u16)
        requires
            old(self).wf(),
        ensures
            final(self).wf(),
            (final(self).state(), next_pc) == spec_execute(old(self).state(), instruction),
    {
        match instruction {
            Instruction::ADD(_)
            | Instruction::ADDHL(_)
            | Instruction::ADC(_)
            | Instruction::SUB(_)
            | Instruction::SBC(_)
            | Instruction::AND(_)
            | Instruction::OR(_)
            | Instruction::XOR(_)
            | Instruction::CP(_) => self.execute_arith(instruction),
            Instruction::INC(_) | Instruction::DEC(_) => self.execute_inc_dec(instruction),
            Instruction::CCF
            | Instruction::SCF
            | Instruction::RRA
            | Instruction::RLA
            | Instruction::RRCA
            | Instruction::RLCA
            | Instruction::CPL => self.execute_acc_misc(instruction),
            Instruction::BIT(_, _)
            | Instruction::RESET(_, _)
            | Instruction::SET(_, _) => self.execute_bit_ops(instruction),
            Instruction::SRL(_)
            | Instruction::RR(_)
            | Instruction::RL(_)
            | Instruction::RRC(_)
            | Instruction::RLC(_)
            | Instruction::SRA(_)
            | Instruction::SLA(_)
            | Instruction::SWAP(_) => self.execute_shift_rotate(instruction),
            Instruction::JP(_) | Instruction::JR(_) | Instruction::JPI => self.execute_jump(
                instruction,
            ),
            Instruction::LD(load_type) => self.execute_load(load_type),
        }
    }

    /// Dispatches the accumulator and HL arithmetic/logic instructions.
    fn execute_arith(&mut self, instruction: Instruction) -> (next_pc: u16)
        requires
            old(self).wf(),
            instruction is ADD || instruction is ADDHL || instruction is ADC
                || instruction is SUB || instruction is SBC || instruction is AND
                || instruction is OR || instruction is XOR || instruction is CP,
        ensures
            final(self).wf(),
            (final(self).state(), next_pc) == spec_execute(old(self).state(), instruction),
    {
        match instruction {
            Instruction::ADD(register) => {
                let value = self.register_value(register);
                let res = self.add(value);
                self.registers.a = res;
                self.registers.pc.wrapping_add(1)
            },
            Instruction::ADDHL(grouped_register) => {
                let value = match grouped_register {
                    GroupedArithmeticTarget::BC => self.registers.get_bc(),
                    GroupedArithmeticTarget::DE => self.registers.get_de(),
                    GroupedArithmeticTarget::HL => self.registers.get_hl(),
                };
                let res = self.addhl(value);
                self.registers.set_hl(res);
                self.registers.pc.wrapping_add(1)
            },
            Instruction::ADC(register) => {
                let value = self.register_value(register);
                let res = self.add_with_carry(value);
                self.registers.a = res;
                self.registers.pc.wrapping_add(1)
            },
            Instruction::SUB(register) => {
                let value = self.register_value(register);
                let res = self.sub(value);
                self.registers.a = res;
                self.registers.pc.wrapping_add(1)
            },
            Instruction::SBC(register) => {
                let value = self.register_value(register);
                let res = self.sub_with_carry(value);
                self.registers.a = res;
                self.registers.pc.wrapping_add(1)
            },
            Instruction::AND(register) => {
                let value = self.register_value(register);
                let res = self.and(value);
                self.registers.a = res;
                self.registers.pc.wrapping_add(1)
            },
            Instruction::OR(register) => {
                let value = self.register_value(register);
                let res = self.or(value);
                self.registers.a = res;
                self.registers.pc.wrapping_add(1)
            },
            Instruction::XOR(register) => {
                let value = self.register_value(register);
                let res = self.xor(value);
                self.registers.a = res;
                self.registers.pc.wrapping_add(1)
            },
            Instruction::CP(register) => {
                let value = self.register_value(register);
                self.compare(value);
                self.registers.pc.wrapping_add(1)
            },
            _ => unreached(),
        }
    }

    /// Dispatches the INC and DEC instructions.
    fn execute_inc_dec(&mut self, instruction: Instruction) -> (next_pc: u16)
        requires
            old(self).wf(),
            instruction is INC || instruction is DEC,
        ensures
            final(self).wf(),
            (final(self).state(), next_pc) == spec_execute(old(self).state(), instruction),
    {
        match instruction {
            Instruction::INC(register) => {
                match register {
                    IncDecTarget::A => {
                        let res = self.inc_8b(self.registers.a);
                        self.registers.a = res;
                    },
                    IncDecTarget::B => {
                        let res = self.inc_8b(self.registers.b);
                        self.registers.b = res;
                    },
                    IncDecTarget::C => {
                        let res = self.inc_8b(self.registers.c);
                        self.registers.c = res;
                    },
                    IncDecTarget::D => {
                        let res = self.inc_8b(self.registers.d);
                        self.registers.d = res;
                    },
                    IncDecTarget::E => {
                        let res = self.inc_8b(self.registers.e);
                        self.registers.e = res;
                    },
                    IncDecTarget::H => {
                        let res = self.inc_8b(self.registers.h);
                        self.registers.h = res;
                    },
                    IncDecTarget::L => {
                        let res = self.inc_8b(self.registers.l);
                        self.registers.l = res;
                    },
                    IncDecTarget::BC => {
                        let res = self.inc_16b(self.registers.get_bc());
                        self.registers.set_bc(res);
                    },
                    IncDecTarget::DE => {
                        let res = self.inc_16b(self.registers.get_de());
                        self.registers.set_de(res);
                    },
                    IncDecTarget::HL => {
                        let res = self.inc_16b(self.registers.get_hl());
                        self.registers.set_hl(res);
                    },
                }
                self.registers.pc.wrapping_add(1)
            },
            Instruction::DEC(register) => {
                match register {
                    IncDecTarget::A => {
                        let res = self.dec_8b(self.registers.a);
                        self.registers.a = res;
                    },
                    IncDecTarget::B => {
                        let res = self.dec_8b(self.registers.b);
                        self.registers.b = res;
                    },
                    IncDecTarget::C => {
                        let res = self.dec_8b(self.registers.c);
                        self.registers.c = res;
                    },
                    IncDecTarget::D => {
                        let res = self.dec_8b(self.registers.d);
                        self.registers.d = res;
                    },
                    IncDecTarget::E => {
                        let res = self.dec_8b(self.registers.e);
                        self.registers.e = res;
                    },
                    IncDecTarget::H => {
                        let res = self.dec_8b(self.registers.h);
                        self.registers.h = res;
                    },
                    IncDecTarget::L => {
                        let res = self.dec_8b(self.registers.l);
                        self.registers.l = res;
                    },
                    IncDecTarget::BC => {
                        let res = self.dec_16b(self.registers.get_bc());
                        self.registers.set_bc(res);
                    },
                    IncDecTarget::DE => {
                        let res = self.dec_16b(self.registers.get_de());
                        self.registers.set_de(res);
                    },
                    IncDecTarget::HL => {
                        let res = self.dec_16b(self.registers.get_hl());
                        self.registers.set_hl(res);
                    },
                }
                self.registers.pc.wrapping_add(1)
            },
            _ => unreached(),
        }
    }

    /// Dispatches the flag and accumulator one-byte instructions.
    fn execute_acc_misc(&mut self, instruction: Instruction) -> (next_pc: u16)
        requires
            old(self).wf(),
            instruction is CCF || instruction is SCF || instruction is RRA
                || instruction is RLA || instruction is RRCA || instruction is RLCA
                || instruction is CPL,
        ensures
            final(self).wf(),
            (final(self).state(), next_pc) == spec_execute(old(self).state(), instruction),
    {
        match instruction {
            Instruction::CCF => {
                self.complement_carry();
                self.registers.pc.wrapping_add(1)
            },
            Instruction::SCF => {
                self.set_carry();
                self.registers.pc.wrapping_add(1)
            },
            Instruction::RRA => {
                self.rotate_right_a_with_carry();
                self.registers.pc.wrapping_add(1)
            },
            Instruction::RLA => {
                self.rotate_left_a_with_carry();
                self.registers.pc.wrapping_add(1)
            },
            Instruction::RRCA => {
                self.rotate_right_a();
                self.registers.pc.wrapping_add(1)
            },
            Instruction::RLCA => {
                self.rotate_left_a();
                self.registers.pc.wrapping_add(1)
            },
            Instruction::CPL => {
                self.complement();
                self.registers.pc.wrapping_add(1)
            },
            _ => unreached(),
        }
    }

    /// Dispatches the bit-test, reset and set instructions.
    fn execute_bit_ops(&mut self, instruction: Instruction) -> (next_pc: u16)
        requires
            old(self).wf(),
            instruction is BIT || instruction is RESET || instruction is SET,
        ensures
            final(self).wf(),
            (final(self).state(), next_pc) == spec_execute(old(self).state(), instruction),
    {
        match instruction {
            Instruction::BIT(register, bit) => {
                let value = self.register_value(register);
                self.test_bit(value, bit);
                self.registers.pc.wrapping_add(2)
            },
            Instruction::RESET(register, bit) => {
                let value = self.register_value(register);
                let res = self.reset_bit(value, bit);
                self.set_register(register, res);
                self.registers.pc.wrapping_add(2)
            },
            Instruction::SET(register, bit) => {
                let value = self.register_value(register);
                let res = self.set_bit(value, bit);
                self.set_register(register, res);
                self.registers.pc.wrapping_add(2)
            },
            _ => unreached(),
        }
    }

    /// Dispatches the per-register rotate, shift and nibble-swap
    /// instructions.
    fn execute_shift_rotate(&mut self, instruction: Instruction) -> (next_pc: u16)
        requires
            old(self).wf(),
            instruction is SRL || instruction is RR || instruction is RL
                || instruction is RRC || instruction is RLC || instruction is SRA
                || instruction is SLA || instruction is SWAP,
        ensures
            final(self).wf(),
            (final(self).state(), next_pc) == spec_execute(old(self).state(), instruction),
    {
        match instruction {
            Instruction::SRL(register) => {
                let value = self.register_value(register);
                let res = self.shift_right_logical(value);
                self.set_register(register, res);
                self.registers.pc.wrapping_add(2)
            },
            Instruction::RR(register) => {
                let value = self.register_value(register);
                let res = self.rotate_right_with_carry(value);
                self.set_register(register, res);
                self.registers.pc.wrapping_add(2)
            },
            Instruction::RL(register) => {
                let value = self.register_value(register);
                let res = self.rotate_left_with_carry(value);
                self.set_register(register, res);
                self.registers.pc.wrapping_add(2)
            },
            Instruction::RRC(register) => {
                let value = self.register_value(register);
                let res = self.rotate_right(value);
                self.set_register(register, res);
                self.registers.pc.wrapping_add(2)
            },
            Instruction::RLC(register) => {
                let value = self.register_value(register);
                let res = self.rotate_left(value);
                self.set_register(register, res);
                self.registers.pc.wrapping_add(2)
            },
            Instruction::SRA(register) => {
                let value = self.register_value(register);
                let res = self.rotate_right_arithmetic(value);
                self.set_register(register, res);
                self.registers.pc.wrapping_add(2)
            },
            Instruction::SLA(register) => {
                let value = self.register_value(register);
                let res = self.rotate_left_arithmetic(value);
                self.set_register(register, res);
                self.registers.pc.wrapping_add(2)
            },
            Instruction::SWAP(register) => {
                let value = self.register_value(register);
                let res = self.swap(value);
                self.set_register(register, res);
                self.registers.pc.wrapping_add(2)
            },
            _ => unreached(),
        }
    }

    /// Dispatches the absolute, relative and register-indirect jumps.
    fn execute_jump(&mut self, instruction: Instruction) -> (next_pc: u16)
        requires
            old(self).wf(),
            instruction is JP || instruction is JR || instruction is JPI,
        ensures
            final(self).wf(),
            (final(self).state(), next_pc) == spec_execute(old(self).state(), instruction),
    {
        match instruction {
            Instruction::JP(condition) => {
                let met = self.condition_met(condition);
                self.jump(met)
            },
            Instruction::JR(condition) => {
                let met = self.condition_met(condition);
                self.jump_relative(met)
            },
            Instruction::JPI => self.registers.get_hl(),
            _ => unreached(),
        }
    }

    /// One fetch-decode-execute cycle: reads the byte at PC (and, after
    /// the 0xCB prefix, the byte that follows), decodes it, dispatches,
    /// and stores the next PC. On a decode failure the step mutates
    /// nothing and reports the offending address and raw byte value.
    pub fn step(&mut self) -> (r: Result<(), DecodeError>)
        requires
            old(self).wf(),
        ensures
            final(self).wf(),
            match r {
                Ok(_) => spec_decoded(old(self).state()) is Some && final(self).state()
                    == spec_step(old(self).state()),
                Err(e) => {
                    &&& spec_decoded(old(self).state()) is None
                    &&& final(self).state() == old(self).state()
                    &&& e.address == spec_opcode_addr(old(self).state())
                    &&& e.byte == spec_opcode(old(self).state())
                },
            },
    {
        let mut opcode = self.bus.read_byte(self.registers.pc);
        let prefixed = opcode == 0xCB;
        let mut address = self.registers.pc;
        if prefixed {
            address = self.registers.pc.wrapping_add(1);
            opcode = self.bus.read_byte(address);
        }
        match Instruction::from_byte(opcode, prefixed) {
            Some(instruction) => {
                let npc = self.execute(instruction);
                self.registers.pc = npc;
                Ok(())
            },
            None => Err(DecodeError { address, byte: opcode }),
        }
    }


    /// Dispatches one load instruction.
    fn execute_load(&mut self, load_type: LoadType) -> (next_pc: u16)
        requires
            old(self).wf(),
        ensures
            final(self).wf(),
            (final(self).state(), next_pc) == spec_execute_load(old(self).state(), load_type),
    {
        match load_type {
            LoadType::Byte(target, src) => {
                let value = match src {
                    LoadByteSrc::A => self.registers.a,
                    LoadByteSrc::B => self.registers.b,
                    LoadByteSrc::C => self.registers.c,
                    LoadByteSrc::D => self.registers.d,
                    LoadByteSrc::E => self.registers.e,
                    LoadByteSrc::H => self.registers.h,
                    LoadByteSrc::L => self.registers.l,
                    LoadByteSrc::D8 => self.bus.read_byte(self.registers.pc.wrapping_add(1)),
                    LoadByteSrc::HLI => self.bus.read_byte(self.registers.get_hl()),
                };
                match target {
                    LoadByteTarget::A => self.registers.a = value,
                    LoadByteTarget::B => self.registers.b = value,
                    LoadByteTarget::C => self.registers.c = value,
                    LoadByteTarget::D => self.registers.d = value,
                    LoadByteTarget::E => self.registers.e = value,
                    LoadByteTarget::H => self.registers.h = value,
                    LoadByteTarget::L => self.registers.l = value,
                    LoadByteTarget::HLI => {
                        let addr = self.registers.get_hl();
                        self.bus.write_byte(addr, value);
                    },
                }
                match src {
                    LoadByteSrc::D8 => self.registers.pc.wrapping_add(2),
                    _ => self.registers.pc.wrapping_add(1),
                }
            },
            LoadType::Word(target) => {
                let value = self.next_word();
                match target {
                    LoadWordTarget::BC => self.registers.set_bc(value),
                    LoadWordTarget::DE => self.registers.set_de(value),
                    LoadWordTarget::HL => self.registers.set_hl(value),
                }
                self.registers.pc.wrapping_add(3)
            },
            LoadType::AFromIndirect(src) => {
                match src {
                    IndirectSrc::BC => {
                        let addr = self.registers.get_bc();
                        self.registers.a = self.bus.read_byte(addr);
                        self.registers.pc.wrapping_add(1)
                    },
                    IndirectSrc::DE => {
                        let addr = self.registers.get_de();
                        self.registers.a = self.bus.read_byte(addr);
                        self.registers.pc.wrapping_add(1)
                    },
                    IndirectSrc::HLMinus => {
                        let hl = self.registers.get_hl();
                        self.registers.a = self.bus.read_byte(hl);
                        self.registers.set_hl(hl.wrapping_sub(1));
                        self.registers.pc.wrapping_add(1)
                    },
                    IndirectSrc::HLPlus => {
                        let hl = self.registers.get_hl();
                        self.registers.a = self.bus.read_byte(hl);
                        self.registers.set_hl(hl.wrapping_add(1));
                        self.registers.pc.wrapping_add(1)
                    },
                    IndirectSrc::D8 => {
                        let addr = self.next_word();
                        self.registers.a = self.bus.read_byte(addr);
                        self.registers.pc.wrapping_add(3)
                    },
                    IndirectSrc::IOPortC => {
                        let addr = 0xFF00u16 + (self.registers.c as u16);
                        self.registers.a = self.bus.read_byte(addr);
                        self.registers.pc.wrapping_add(1)
                    },
                }
            },
            LoadType::IndirectFromA(src) => {
                let value = self.registers.a;
                match src {
                    IndirectSrc::BC => {
                        let addr = self.registers.get_bc();
                        self.bus.write_byte(addr, value);
                        self.registers.pc.wrapping_add(1)
                    },
                    IndirectSrc::DE => {
                        let addr = self.registers.get_de();
                        self.bus.write_byte(addr, value);
                        self.registers.pc.wrapping_add(1)
                    },
                    IndirectSrc::HLMinus => {
                        let hl = self.registers.get_hl();
                        self.bus.write_byte(hl, value);
                        self.registers.set_hl(hl.wrapping_sub(1));
                        self.registers.pc.wrapping_add(1)
                    },
                    IndirectSrc::HLPlus => {
                        let hl = self.registers.get_hl();
                        self.bus.write_byte(hl, value);
                        self.registers.set_hl(hl.wrapping_add(1));
                        self.registers.pc.wrapping_add(1)
                    },
                    IndirectSrc::D8 => {
                        let addr = self.next_word();
                        self.bus.write_byte(addr, value);
                        self.registers.pc.wrapping_add(3)
                    },
                    IndirectSrc::IOPortC => {
                        let addr = 0xFF00u16 + (self.registers.c as u16);
                        self.bus.write_byte(addr, value);
                        self.registers.pc.wrapping_add(1)
                    },
                }
            },
            LoadType::AFromByteAddress => {
                let offset = self.bus.read_byte(self.registers.pc.wrapping_add(1));
                self.registers.a = self.bus.read_byte(0xFF00u16 + (offset as u16));
                self.registers.pc.wrapping_add(2)
            },
            LoadType::ByteAddressFromA => {
                let offset = self.bus.read_byte(self.registers.pc.wrapping_add(1));
                self.bus.write_byte(0xFF00u16 + (offset as u16), self.registers.a);
                self.registers.pc.wrapping_add(2)
            },
        }
    }
}

/// A fatal decode failure: the address the undefined opcode byte was
/// fetched from, and that raw byte value.
#[derive(Clone, Copy, Debug, PartialEq, Eq, Structural)]
pub struct DecodeError {
    pub address: u16,
    pub byte: u8,
}

/// Whether the byte at PC is the 0xCB prefix, so the step decodes the
/// following byte in the extended state.
pub open spec fn spec_fetch_prefixed(s: MachineState) -> bool {
    s.mem[s.regs.pc as int] == 0xCB
}

/// The address the opcode byte proper is fetched from: PC, or PC+1 after
/// the prefix.
pub open spec fn spec_opcode_addr(s: MachineState) -> u16 {
    if spec_fetch_prefixed(s) {
        s.regs.pc.wrapping_add(1)
    } else {
        s.regs.pc
    }
}

/// The opcode byte a step fetches.
pub open spec fn spec_opcode(s: MachineState) -> u8 {
    s.mem[spec_opcode_addr(s) as int]
}

/// What the fetched (possibly prefixed) byte decodes to, if anything.
pub open spec fn spec_decoded(s: MachineState) -> Option<Instruction> {
    spec_decode(spec_opcode(s), spec_fetch_prefixed(s))
}

/// The machine state after one whole step: the executed state with the
/// next PC stored into the register file.
pub open spec fn spec_step(s: MachineState) -> MachineState
    recommends
        spec_decoded(s) is Some,
{
    let (s2, npc) = spec_execute(s, spec_decoded(s).unwrap());
    MachineState { regs: Registers { pc: npc, ..s2.regs }, mem: s2.mem }
}

/// Idempotence of the bit test: BIT b,r never mutates the register it
/// tests or any other register but the flags, and executing it twice in
/// a row leaves the machine exactly as the first execution left it — in
/// particular the flags of the two executions agree.
pub proof fn lemma_bit_test_idempotent(s: MachineState, t: ArithmeticTarget, b: BitPosition)
    ensures
        ({
            let s1 = spec_execute(s, Instruction::BIT(t, b)).0;
            let s2 = spec_execute(s1, Instruction::BIT(t, b)).0;
            &&& s2 == s1
            &&& reg8(s1.regs, t) == reg8(s.regs, t)
            &&& s1.mem == s.mem
            &&& s1.regs == (Registers { f: s1.regs.f, ..s.regs })
        }),
{
}


} // verus!