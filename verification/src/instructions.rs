//! Typed instruction values and the opcode decoder. The decoder has two
//! states: *normal*, for a byte fetched directly, and *extended*, for the
//! byte following the 0xCB prefix. Each state maps a byte either to one
//! instruction value or to a decode failure; no undefined opcode ever
//! silently produces a default instruction.

use vstd::prelude::*;

verus! {

/// An 8-bit register operand of an arithmetic, logic, rotate or bit
/// instruction.
#[derive(Clone, Copy, Debug, PartialEq, Eq, Structural)]
pub enum ArithmeticTarget {
    A,
    B,
    C,
    D,
    E,
    H,
    L,
}

/// A 16-bit register-pair operand of the HL-accumulating add.
#[derive(Clone, Copy, Debug, PartialEq, Eq, Structural)]
pub enum GroupedArithmeticTarget {
    BC,
    DE,
    HL,
}

/// An 8-bit register or 16-bit pair operand of INC and DEC.
#[derive(Clone, Copy, Debug, PartialEq, Eq, Structural)]
pub enum IncDecTarget {
    A,
    B,
    C,
    D,
    E,
    H,
    L,
    BC,
    DE,
    HL,
}

/// A bit position (0 through 7) for the bit-test, set and reset
/// instructions.
#[derive(Clone, Copy, Debug, PartialEq, Eq, Structural)]
pub enum BitPosition {
    B0,
    B1,
    B2,
    B3,
    B4,
    B5,
    B6,
    B7,
}

/// The condition of a jump: always, or one of the four flag tests.
#[derive(Clone, Copy, Debug, PartialEq, Eq, Structural)]
pub enum JumpCondition {
    NotZero,
    Zero,
    NotCarry,
    Carry,
    Always,
}

/// The destination of a byte load: a register or the byte addressed by HL.
#[derive(Clone, Copy, Debug, PartialEq, Eq, Structural)]
pub enum LoadByteTarget {
    A,
    B,
    C,
    D,
    E,
    H,
    L,
    HLI,
}

/// The source of a byte load: a register, the immediate byte following the
/// opcode, or the byte addressed by HL.
#[derive(Clone, Copy, Debug, PartialEq, Eq, Structural)]
pub enum LoadByteSrc {
    A,
    B,
    C,
    D,
    E,
    H,
    L,
    D8,
    HLI,
}

/// The pair loaded by a 16-bit immediate load.
#[derive(Clone, Copy, Debug, PartialEq, Eq, Structural)]
pub enum LoadWordTarget {
    BC,
    DE,
    HL,
}

/// The address of an indirect accumulator load: a pair, HL with
/// post-decrement or post-increment, an immediate word, or the high I/O
/// page at 0xFF00 + C.
#[derive(Clone, Copy, Debug, PartialEq, Eq, Structural)]
pub enum IndirectSrc {
    BC,
    DE,
    HLMinus,
    HLPlus,
    D8,
    IOPortC,
}

/// The addressing-mode descriptor of a load instruction.
#[derive(Clone, Copy, Debug, PartialEq, Eq, Structural)]
pub enum LoadType {
    /// A byte copy between registers, an immediate byte, or the byte
    /// addressed by HL.
    Byte(LoadByteTarget, LoadByteSrc),
    /// A 16-bit immediate load (little-endian: low byte first) into a pair.
    Word(LoadWordTarget),
    /// A ← the byte at the indirect address.
    AFromIndirect(IndirectSrc),
    /// The byte at the indirect address ← A.
    IndirectFromA(IndirectSrc),
    /// A ← the byte at 0xFF00 + the immediate byte.
    AFromByteAddress,
    /// The byte at 0xFF00 + the immediate byte ← A.
    ByteAddressFromA,
}

/// One decoded instruction: an operation together with its operands.
#[derive(Clone, Copy, Debug, PartialEq, Eq, Structural)]
pub enum Instruction {
    ADDHL(GroupedArithmeticTarget),
    ADD(ArithmeticTarget),
    ADC(ArithmeticTarget),
    SUB(ArithmeticTarget),
    SBC(ArithmeticTarget),
    AND(ArithmeticTarget),
    OR(ArithmeticTarget),
    XOR(ArithmeticTarget),
    CP(ArithmeticTarget),
    SRL(ArithmeticTarget),
    RR(ArithmeticTarget),
    RL(ArithmeticTarget),
    RRC(ArithmeticTarget),
    RLC(ArithmeticTarget),
    SRA(ArithmeticTarget),
    SLA(ArithmeticTarget),
    SWAP(ArithmeticTarget),
    INC(IncDecTarget),
    DEC(IncDecTarget),
    CCF,
    SCF,
    RRA,
    RLA,
    RRCA,
    RLCA,
    CPL,
    BIT(ArithmeticTarget, BitPosition),
    RESET(ArithmeticTarget, BitPosition),
    SET(ArithmeticTarget, BitPosition),
    JP(JumpCondition),
    JR(JumpCondition),
    JPI,
    LD(LoadType),
}

/// The bit index (0 through 7) a bit-position operand stands for.
pub open spec fn spec_bit_index(b: BitPosition) -> u8 {
    match b {
        BitPosition::B0 => 0,
        BitPosition::B1 => 1,
        BitPosition::B2 => 2,
        BitPosition::B3 => 3,
        BitPosition::B4 => 4,
        BitPosition::B5 => 5,
        BitPosition::B6 => 6,
        BitPosition::B7 => 7,
    }
}

impl BitPosition {
    /// The bit index this operand stands for; always below 8.
    pub fn index(self) -> (r: u8)
        ensures
            r == spec_bit_index(self),
            r < 8,
    {
        match self {
            BitPosition::B0 => 0,
            BitPosition::B1 => 1,
            BitPosition::B2 => 2,
            BitPosition::B3 => 3,
            BitPosition::B4 => 4,
            BitPosition::B5 => 5,
            BitPosition::B6 => 6,
            BitPosition::B7 => 7,
        }
    }
}

/// The bit-position operand for an index 0 through 7 (the bits 5..3 of an
/// extended opcode).
pub open spec fn spec_bit_position(idx: u8) -> BitPosition
    recommends
        idx < 8,
{
    if idx == 0 {
        BitPosition::B0
    } else if idx == 1 {
        BitPosition::B1
    } else if idx == 2 {
        BitPosition::B2
    } else if idx == 3 {
        BitPosition::B3
    } else if idx == 4 {
        BitPosition::B4
    } else if idx == 5 {
        BitPosition::B5
    } else if idx == 6 {
        BitPosition::B6
    } else {
        BitPosition::B7
    }
}

/// The register operand encoded by the low three bits of an opcode, in the
/// fixed hardware order B, C, D, E, H, L, (HL), A. Index 6 is the memory
/// form `(HL)`, which this instruction set does not carry as an arithmetic
/// operand, so it decodes to nothing.
pub open spec fn spec_register_operand(idx: u8) -> Option<ArithmeticTarget>
    recommends
        idx < 8,
{
    if idx == 0 {
        Some(ArithmeticTarget::B)
    } else if idx == 1 {
        Some(ArithmeticTarget::C)
    } else if idx == 2 {
        Some(ArithmeticTarget::D)
    } else if idx == 3 {
        Some(ArithmeticTarget::E)
    } else if idx == 4 {
        Some(ArithmeticTarget::H)
    } else if idx == 5 {
        Some(ArithmeticTarget::L)
    } else if idx == 6 {
        None
    } else {
        Some(ArithmeticTarget::A)
    }
}

/// The load destination encoded by bits 5..3 of a register-to-register
/// load opcode, in the order B, C, D, E, H, L, (HL), A.
pub open spec fn spec_load_target(idx: u8) -> LoadByteTarget
    recommends
        idx < 8,
{
    if idx == 0 {
        LoadByteTarget::B
    } else if idx == 1 {
        LoadByteTarget::C
    } else if idx == 2 {
        LoadByteTarget::D
    } else if idx == 3 {
        LoadByteTarget::E
    } else if idx == 4 {
        LoadByteTarget::H
    } else if idx == 5 {
        LoadByteTarget::L
    } else if idx == 6 {
        LoadByteTarget::HLI
    } else {
        LoadByteTarget::A
    }
}

/// The load source encoded by the low three bits of a register-to-register
/// load opcode, in the order B, C, D, E, H, L, (HL), A.
pub open spec fn spec_load_src(idx: u8) -> LoadByteSrc
    recommends
        idx < 8,
{
    if idx == 0 {
        LoadByteSrc::B
    } else if idx == 1 {
        LoadByteSrc::C
    } else if idx == 2 {
        LoadByteSrc::D
    } else if idx == 3 {
        LoadByteSrc::E
    } else if idx == 4 {
        LoadByteSrc::H
    } else if idx == 5 {
        LoadByteSrc::L
    } else if idx == 6 {
        LoadByteSrc::HLI
    } else {
        LoadByteSrc::A
    }
}

/// The extended (0xCB-prefixed) opcode map. The space is fully regular:
/// bits 7..6 select the group (rotate/shift, bit test, reset, set), bits
/// 5..3 the sub-operation or bit position, bits 2..0 the register. The
/// `(HL)` register form (index 6) is outside this instruction set and
/// decodes to nothing.
pub open spec fn spec_decode_extended(byte: u8) -> Option<Instruction> {
    match spec_register_operand(byte % 8) {
        None => None,
        Some(t) => {
            let group = byte / 64;
            let sub = (byte / 8) % 8;
            if group == 0 {
                if sub == 0 {
                    Some(Instruction::RLC(t))
                } else if sub == 1 {
                    Some(Instruction::RRC(t))
                } else if sub == 2 {
                    Some(Instruction::RL(t))
                } else if sub == 3 {
                    Some(Instruction::RR(t))
                } else if sub == 4 {
                    Some(Instruction::SLA(t))
                } else if sub == 5 {
                    Some(Instruction::SRA(t))
                } else if sub == 6 {
                    Some(Instruction::SWAP(t))
                } else {
                    Some(Instruction::SRL(t))
                }
            } else if group == 1 {
                Some(Instruction::BIT(t, spec_bit_position(sub)))
            } else if group == 2 {
                Some(Instruction::RESET(t, spec_bit_position(sub)))
            } else {
                Some(Instruction::SET(t, spec_bit_position(sub)))
            }
        },
    }
}

/// The normal-state opcode map over the instructions this core defines.
/// The two regular blocks (register-to-register loads at 0x40..0x7F and
/// the accumulator arithmetic/logic block at 0x80..0xBF) are decoded by
/// their bit fields; the rest is an explicit table. A byte outside the
/// defined set decodes to nothing.
pub open spec fn spec_decode_normal(byte: u8) -> Option<Instruction> {
    if 0x40 <= byte && byte < 0x80 {
        // LD r, r' block; 0x76 is the halt slot, not a load, and is
        // outside this instruction set.
        if byte == 0x76 {
            None
        } else {
            Some(
                Instruction::LD(
                    LoadType::Byte(spec_load_target((((byte - 0x40) / 8) as u8)), spec_load_src(byte % 8)),
                ),
            )
        }
    } else if 0x80 <= byte && byte < 0xC0 {
        // Accumulator arithmetic/logic block: bits 5..3 select the
        // operation, bits 2..0 the register operand.
        match spec_register_operand(byte % 8) {
            None => None,
            Some(t) => {
                let op = (byte - 0x80) / 8;
                if op == 0 {
                    Some(Instruction::ADD(t))
                } else if op == 1 {
                    Some(Instruction::ADC(t))
                } else if op == 2 {
                    Some(Instruction::SUB(t))
                } else if op == 3 {
                    Some(Instruction::SBC(t))
                } else if op == 4 {
                    Some(Instruction::AND(t))
                } else if op == 5 {
                    Some(Instruction::XOR(t))
                } else if op == 6 {
                    Some(Instruction::OR(t))
                } else {
                    Some(Instruction::CP(t))
                }
            },
        }
    } else {
        match byte {
            0x01 => Some(Instruction::LD(LoadType::Word(LoadWordTarget::BC))),
            0x11 => Some(Instruction::LD(LoadType::Word(LoadWordTarget::DE))),
            0x21 => Some(Instruction::LD(LoadType::Word(LoadWordTarget::HL))),
            0x02 => Some(Instruction::LD(LoadType::IndirectFromA(IndirectSrc::BC))),
            0x12 => Some(Instruction::LD(LoadType::IndirectFromA(IndirectSrc::DE))),
            0x22 => Some(Instruction::LD(LoadType::IndirectFromA(IndirectSrc::HLPlus))),
            0x32 => Some(Instruction::LD(LoadType::IndirectFromA(IndirectSrc::HLMinus))),
            0x0A => Some(Instruction::LD(LoadType::AFromIndirect(IndirectSrc::BC))),
            0x1A => Some(Instruction::LD(LoadType::AFromIndirect(IndirectSrc::DE))),
            0x2A => Some(Instruction::LD(LoadType::AFromIndirect(IndirectSrc::HLPlus))),
            0x3A => Some(Instruction::LD(LoadType::AFromIndirect(IndirectSrc::HLMinus))),
            0x03 => Some(Instruction::INC(IncDecTarget::BC)),
            0x13 => Some(Instruction::INC(IncDecTarget::DE)),
            0x23 => Some(Instruction::INC(IncDecTarget::HL)),
            0x0B => Some(Instruction::DEC(IncDecTarget::BC)),
            0x1B => Some(Instruction::DEC(IncDecTarget::DE)),
            0x2B => Some(Instruction::DEC(IncDecTarget::HL)),
            0x04 => Some(Instruction::INC(IncDecTarget::B)),
            0x0C => Some(Instruction::INC(IncDecTarget::C)),
            0x14 => Some(Instruction::INC(IncDecTarget::D)),
            0x1C => Some(Instruction::INC(IncDecTarget::E)),
            0x24 => Some(Instruction::INC(IncDecTarget::H)),
            0x2C => Some(Instruction::INC(IncDecTarget::L)),
            0x3C => Some(Instruction::INC(IncDecTarget::A)),
            0x05 => Some(Instruction::DEC(IncDecTarget::B)),
            0x0D => Some(Instruction::DEC(IncDecTarget::C)),
            0x15 => Some(Instruction::DEC(IncDecTarget::D)),
            0x1D => Some(Instruction::DEC(IncDecTarget::E)),
            0x25 => Some(Instruction::DEC(IncDecTarget::H)),
            0x2D => Some(Instruction::DEC(IncDecTarget::L)),
            0x3D => Some(Instruction::DEC(IncDecTarget::A)),
            0x06 => Some(Instruction::LD(LoadType::Byte(LoadByteTarget::B, LoadByteSrc::D8))),
            0x0E => Some(Instruction::LD(LoadType::Byte(LoadByteTarget::C, LoadByteSrc::D8))),
            0x16 => Some(Instruction::LD(LoadType::Byte(LoadByteTarget::D, LoadByteSrc::D8))),
            0x1E => Some(Instruction::LD(LoadType::Byte(LoadByteTarget::E, LoadByteSrc::D8))),
            0x26 => Some(Instruction::LD(LoadType::Byte(LoadByteTarget::H, LoadByteSrc::D8))),
            0x2E => Some(Instruction::LD(LoadType::Byte(LoadByteTarget::L, LoadByteSrc::D8))),
            0x36 => Some(Instruction::LD(LoadType::Byte(LoadByteTarget::HLI, LoadByteSrc::D8))),
            0x3E => Some(Instruction::LD(LoadType::Byte(LoadByteTarget::A, LoadByteSrc::D8))),
            0x07 => Some(Instruction::RLCA),
            0x0F => Some(Instruction::RRCA),
            0x17 => Some(Instruction::RLA),
            0x1F => Some(Instruction::RRA),
            0x09 => Some(Instruction::ADDHL(GroupedArithmeticTarget::BC)),
            0x19 => Some(Instruction::ADDHL(GroupedArithmeticTarget::DE)),
            0x29 => Some(Instruction::ADDHL(GroupedArithmeticTarget::HL)),
            0x18 => Some(Instruction::JR(JumpCondition::Always)),
            0x20 => Some(Instruction::JR(JumpCondition::NotZero)),
            0x28 => Some(Instruction::JR(JumpCondition::Zero)),
            0x30 => Some(Instruction::JR(JumpCondition::NotCarry)),
            0x38 => Some(Instruction::JR(JumpCondition::Carry)),
            0x2F => Some(Instruction::CPL),
            0x37 => Some(Instruction::SCF),
            0x3F => Some(Instruction::CCF),
            0xC2 => Some(Instruction::JP(JumpCondition::NotZero)),
            0xC3 => Some(Instruction::JP(JumpCondition::Always)),
            0xCA => Some(Instruction::JP(JumpCondition::Zero)),
            0xD2 => Some(Instruction::JP(JumpCondition::NotCarry)),
            0xDA => Some(Instruction::JP(JumpCondition::Carry)),
            0xE2 => Some(Instruction::LD(LoadType::IndirectFromA(IndirectSrc::IOPortC))),
            0xF2 => Some(Instruction::LD(LoadType::AFromIndirect(IndirectSrc::IOPortC))),
            0xE0 => Some(Instruction::LD(LoadType::ByteAddressFromA)),
            0xF0 => Some(Instruction::LD(LoadType::AFromByteAddress)),
            0xEA => Some(Instruction::LD(LoadType::IndirectFromA(IndirectSrc::D8))),
            0xFA => Some(Instruction::LD(LoadType::AFromIndirect(IndirectSrc::D8))),
            0xE9 => Some(Instruction::JPI),
            _ => None,
        }
    }
}

/// The complete decoder map: the extended table when the byte followed the
/// 0xCB prefix, the normal table otherwise.
pub open spec fn spec_decode(byte: u8, prefixed: bool) -> Option<Instruction> {
    if prefixed {
        spec_decode_extended(byte)
    } else {
        spec_decode_normal(byte)
    }
}

/// Decodes the register operand in the low three bits of an opcode.
fn register_operand(idx: u8) -> (r: Option<ArithmeticTarget>)
    requires
        idx < 8,
    ensures
        r == spec_register_operand(idx),
{
    if idx == 0 {
        Some(ArithmeticTarget::B)
    } else if idx == 1 {
        Some(ArithmeticTarget::C)
    } else if idx == 2 {
        Some(ArithmeticTarget::D)
    } else if idx == 3 {
        Some(ArithmeticTarget::E)
    } else if idx == 4 {
        Some(ArithmeticTarget::H)
    } else if idx == 5 {
        Some(ArithmeticTarget::L)
    } else if idx == 6 {
        None
    } else {
        Some(ArithmeticTarget::A)
    }
}

/// Decodes the bit position in bits 5..3 of an extended opcode.
fn bit_position(idx: u8) -> (r: BitPosition)
    requires
        idx < 8,
    ensures
        r == spec_bit_position(idx),
{
    if idx == 0 {
        BitPosition::B0
    } else if idx == 1 {
        BitPosition::B1
    } else if idx == 2 {
        BitPosition::B2
    } else if idx == 3 {
        BitPosition::B3
    } else if idx == 4 {
        BitPosition::B4
    } else if idx == 5 {
        BitPosition::B5
    } else if idx == 6 {
        BitPosition::B6
    } else {
        BitPosition::B7
    }
}

/// Decodes the load destination in bits 5..3 of a load opcode.
fn load_target(idx: u8) -> (r: LoadByteTarget)
    requires
        idx < 8,
    ensures
        r == spec_load_target(idx),
{
    if idx == 0 {
        LoadByteTarget::B
    } else if idx == 1 {
        LoadByteTarget::C
    } else if idx == 2 {
        LoadByteTarget::D
    } else if idx == 3 {
        LoadByteTarget::E
    } else if idx == 4 {
        LoadByteTarget::H
    } else if idx == 5 {
        LoadByteTarget::L
    } else if idx == 6 {
        LoadByteTarget::HLI
    } else {
        LoadByteTarget::A
    }
}

/// Decodes the load source in the low three bits of a load opcode.
fn load_src(idx: u8) -> (r: LoadByteSrc)
    requires
        idx < 8,
    ensures
        r == spec_load_src(idx),
{
    if idx == 0 {
        LoadByteSrc::B
    } else if idx == 1 {
        LoadByteSrc::C
    } else if idx == 2 {
        LoadByteSrc::D
    } else if idx == 3 {
        LoadByteSrc::E
    } else if idx == 4 {
        LoadByteSrc::H
    } else if idx == 5 {
        LoadByteSrc::L
    } else if idx == 6 {
        LoadByteSrc::HLI
    } else {
        LoadByteSrc::A
    }
}

/// Decodes a byte of the extended (0xCB-prefixed) opcode space.
fn decode_extended(byte: u8) -> (r: Option<Instruction>)
    ensures
        r == spec_decode_extended(byte),
{
    match register_operand(byte % 8) {
        None => None,
        Some(t) => {
            let group = byte / 64;
            let sub = (byte / 8) % 8;
            if group == 0 {
                if sub == 0 {
                    Some(Instruction::RLC(t))
                } else if sub == 1 {
                    Some(Instruction::RRC(t))
                } else if sub == 2 {
                    Some(Instruction::RL(t))
                } else if sub == 3 {
                    Some(Instruction::RR(t))
                } else if sub == 4 {
                    Some(Instruction::SLA(t))
                } else if sub == 5 {
                    Some(Instruction::SRA(t))
                } else if sub == 6 {
                    Some(Instruction::SWAP(t))
                } else {
                    Some(Instruction::SRL(t))
                }
            } else if group == 1 {
                Some(Instruction::BIT(t, bit_position(sub)))
            } else if group == 2 {
                Some(Instruction::RESET(t, bit_position(sub)))
            } else {
                Some(Instruction::SET(t, bit_position(sub)))
            }
        },
    }
}

/// Decodes a byte of the normal opcode space.
fn decode_normal(byte: u8) -> (r: Option<Instruction>)
    ensures
        r == spec_decode_normal(byte),
{
    if 0x40 <= byte && byte < 0x80 {
        if byte == 0x76 {
            None
        } else {
            Some(Instruction::LD(LoadType::Byte(load_target((byte - 0x40) / 8), load_src(byte % 8))))
        }
    } else if 0x80 <= byte && byte < 0xC0 {
        match register_operand(byte % 8) {
            None => None,
            Some(t) => {
                let op = (byte - 0x80) / 8;
                if op == 0 {
                    Some(Instruction::ADD(t))
                } else if op == 1 {
                    Some(Instruction::ADC(t))
                } else if op == 2 {
                    Some(Instruction::SUB(t))
                } else if op == 3 {
                    Some(Instruction::SBC(t))
                } else if op == 4 {
                    Some(Instruction::AND(t))
                } else if op == 5 {
                    Some(Instruction::XOR(t))
                } else if op == 6 {
                    Some(Instruction::OR(t))
                } else {
                    Some(Instruction::CP(t))
                }
            },
        }
    } else {
        match byte {
            0x01 => Some(Instruction::LD(LoadType::Word(LoadWordTarget::BC))),
            0x11 => Some(Instruction::LD(LoadType::Word(LoadWordTarget::DE))),
            0x21 => Some(Instruction::LD(LoadType::Word(LoadWordTarget::HL))),
            0x02 => Some(Instruction::LD(LoadType::IndirectFromA(IndirectSrc::BC))),
            0x12 => Some(Instruction::LD(LoadType::IndirectFromA(IndirectSrc::DE))),
            0x22 => Some(Instruction::LD(LoadType::IndirectFromA(IndirectSrc::HLPlus))),
            0x32 => Some(Instruction::LD(LoadType::IndirectFromA(IndirectSrc::HLMinus))),
            0x0A => Some(Instruction::LD(LoadType::AFromIndirect(IndirectSrc::BC))),
            0x1A => Some(Instruction::LD(LoadType::AFromIndirect(IndirectSrc::DE))),
            0x2A => Some(Instruction::LD(LoadType::AFromIndirect(IndirectSrc::HLPlus))),
            0x3A => Some(Instruction::LD(LoadType::AFromIndirect(IndirectSrc::HLMinus))),
            0x03 => Some(Instruction::INC(IncDecTarget::BC)),
            0x13 => Some(Instruction::INC(IncDecTarget::DE)),
            0x23 => Some(Instruction::INC(IncDecTarget::HL)),
            0x0B => Some(Instruction::DEC(IncDecTarget::BC)),
            0x1B => Some(Instruction::DEC(IncDecTarget::DE)),
            0x2B => Some(Instruction::DEC(IncDecTarget::HL)),
            0x04 => Some(Instruction::INC(IncDecTarget::B)),
            0x0C => Some(Instruction::INC(IncDecTarget::C)),
            0x14 => Some(Instruction::INC(IncDecTarget::D)),
            0x1C => Some(Instruction::INC(IncDecTarget::E)),
            0x24 => Some(Instruction::INC(IncDecTarget::H)),
            0x2C => Some(Instruction::INC(IncDecTarget::L)),
            0x3C => Some(Instruction::INC(IncDecTarget::A)),
            0x05 => Some(Instruction::DEC(IncDecTarget::B)),
            0x0D => Some(Instruction::DEC(IncDecTarget::C)),
            0x15 => Some(Instruction::DEC(IncDecTarget::D)),
            0x1D => Some(Instruction::DEC(IncDecTarget::E)),
            0x25 => Some(Instruction::DEC(IncDecTarget::H)),
            0x2D => Some(Instruction::DEC(IncDecTarget::L)),
            0x3D => Some(Instruction::DEC(IncDecTarget::A)),
            0x06 => Some(Instruction::LD(LoadType::Byte(LoadByteTarget::B, LoadByteSrc::D8))),
            0x0E => Some(Instruction::LD(LoadType::Byte(LoadByteTarget::C, LoadByteSrc::D8))),
            0x16 => Some(Instruction::LD(LoadType::Byte(LoadByteTarget::D, LoadByteSrc::D8))),
            0x1E => Some(Instruction::LD(LoadType::Byte(LoadByteTarget::E, LoadByteSrc::D8))),
            0x26 => Some(Instruction::LD(LoadType::Byte(LoadByteTarget::H, LoadByteSrc::D8))),
            0x2E => Some(Instruction::LD(LoadType::Byte(LoadByteTarget::L, LoadByteSrc::D8))),
            0x36 => Some(Instruction::LD(LoadType::Byte(LoadByteTarget::HLI, LoadByteSrc::D8))),
            0x3E => Some(Instruction::LD(LoadType::Byte(LoadByteTarget::A, LoadByteSrc::D8))),
            0x07 => Some(Instruction::RLCA),
            0x0F => Some(Instruction::RRCA),
            0x17 => Some(Instruction::RLA),
            0x1F => Some(Instruction::RRA),
            0x09 => Some(Instruction::ADDHL(GroupedArithmeticTarget::BC)),
            0x19 => Some(Instruction::ADDHL(GroupedArithmeticTarget::DE)),
            0x29 => Some(Instruction::ADDHL(GroupedArithmeticTarget::HL)),
            0x18 => Some(Instruction::JR(JumpCondition::Always)),
            0x20 => Some(Instruction::JR(JumpCondition::NotZero)),
            0x28 => Some(Instruction::JR(JumpCondition::Zero)),
            0x30 => Some(Instruction::JR(JumpCondition::NotCarry)),
            0x38 => Some(Instruction::JR(JumpCondition::Carry)),
            0x2F => Some(Instruction::CPL),
            0x37 => Some(Instruction::SCF),
            0x3F => Some(Instruction::CCF),
            0xC2 => Some(Instruction::JP(JumpCondition::NotZero)),
            0xC3 => Some(Instruction::JP(JumpCondition::Always)),
            0xCA => Some(Instruction::JP(JumpCondition::Zero)),
            0xD2 => Some(Instruction::JP(JumpCondition::NotCarry)),
            0xDA => Some(Instruction::JP(JumpCondition::Carry)),
            0xE2 => Some(Instruction::LD(LoadType::IndirectFromA(IndirectSrc::IOPortC))),
            0xF2 => Some(Instruction::LD(LoadType::AFromIndirect(IndirectSrc::IOPortC))),
            0xE0 => Some(Instruction::LD(LoadType::ByteAddressFromA)),
            0xF0 => Some(Instruction::LD(LoadType::AFromByteAddress)),
            0xEA => Some(Instruction::LD(LoadType::IndirectFromA(IndirectSrc::D8))),
            0xFA => Some(Instruction::LD(LoadType::AFromIndirect(IndirectSrc::D8))),
            0xE9 => Some(Instruction::JPI),
            _ => None,
        }
    }
}

impl Instruction {
    /// Decodes one opcode byte: in the extended state (the byte followed
    /// the 0xCB prefix) through the extended table, otherwise through the
    /// normal table. Returns nothing exactly on the byte values outside
    /// the defined instruction set.
    pub fn from_byte(byte: u8, prefixed: bool) -> (r: Option<Instruction>)
        ensures
            r == spec_decode(byte, prefixed),
    {
        if prefixed {
            decode_extended(byte)
        } else {
            decode_normal(byte)
        }
    }
}

} // verus!
