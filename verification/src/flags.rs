//! Flags codec: the four CPU status flags and their packing into the high
//! nibble of a byte (Z = bit 7, N = bit 6, H = bit 5, C = bit 4; the low
//! nibble is always zero on encode and ignored on decode).

use vstd::prelude::*;

verus! {

/// The four independently addressable status flags of the CPU.
#[derive(Clone, Copy, Debug, PartialEq, Eq, Structural)]
pub struct FlagsRegister {
    pub zero: bool,
    pub subtraction: bool,
    pub half_carry: bool,
    pub carry: bool,
}

/// The byte a flags value packs into: each flag occupies one fixed bit of
/// the high nibble, and the low nibble is zero.
pub open spec fn flags_to_byte(f: FlagsRegister) -> u8 {
    (if f.zero { 0x80u8 } else { 0u8 })
        | (if f.subtraction { 0x40u8 } else { 0u8 })
        | (if f.half_carry { 0x20u8 } else { 0u8 })
        | (if f.carry { 0x10u8 } else { 0u8 })
}

/// The flags a byte unpacks into: each flag is its fixed bit of the high
/// nibble; the low nibble is ignored.
pub open spec fn byte_to_flags(b: u8) -> FlagsRegister {
    FlagsRegister {
        zero: b & 0x80 != 0,
        subtraction: b & 0x40 != 0,
        half_carry: b & 0x20 != 0,
        carry: b & 0x10 != 0,
    }
}

impl FlagsRegister {
    /// Packs the four flags into the high nibble of a byte.
    pub fn encode(self) -> (r: u8)
        ensures
            r == flags_to_byte(self),
    {
        (if self.zero { 0x80u8 } else { 0u8 })
            | (if self.subtraction { 0x40u8 } else { 0u8 })
            | (if self.half_carry { 0x20u8 } else { 0u8 })
            | (if self.carry { 0x10u8 } else { 0u8 })
    }

    /// Unpacks a byte into the four flags, ignoring the low nibble.
    pub fn decode(byte: u8) -> (r: FlagsRegister)
        ensures
            r == byte_to_flags(byte),
    {
        FlagsRegister {
            zero: byte & 0x80 != 0,
            subtraction: byte & 0x40 != 0,
            half_carry: byte & 0x20 != 0,
            carry: byte & 0x10 != 0,
        }
    }
}

/// Round-trip law: decoding the byte produced by encoding a flags value
/// reproduces the same four booleans, for every combination of them.
pub proof fn lemma_flags_round_trip(f: FlagsRegister)
    ensures
        byte_to_flags(flags_to_byte(f)) == f,
{
    let zb: u8 = if f.zero { 0x80u8 } else { 0u8 };
    let nb: u8 = if f.subtraction { 0x40u8 } else { 0u8 };
    let hb: u8 = if f.half_carry { 0x20u8 } else { 0u8 };
    let cb: u8 = if f.carry { 0x10u8 } else { 0u8 };
    assert((zb | nb | hb | cb) & 0x80 == zb && (zb | nb | hb | cb) & 0x40 == nb
        && (zb | nb | hb | cb) & 0x20 == hb && (zb | nb | hb | cb) & 0x10 == cb)
        by (bit_vector)
        requires
            zb == 0x80u8 || zb == 0u8,
            nb == 0x40u8 || nb == 0u8,
            hb == 0x20u8 || hb == 0u8,
            cb == 0x10u8 || cb == 0u8,
    ;
}

/// The low nibble of an encoded flags byte is always zero.
pub proof fn lemma_encode_low_nibble_zero(f: FlagsRegister)
    ensures
        flags_to_byte(f) & 0x0F == 0,
{
    let zb: u8 = if f.zero { 0x80u8 } else { 0u8 };
    let nb: u8 = if f.subtraction { 0x40u8 } else { 0u8 };
    let hb: u8 = if f.half_carry { 0x20u8 } else { 0u8 };
    let cb: u8 = if f.carry { 0x10u8 } else { 0u8 };
    assert((zb | nb | hb | cb) & 0x0F == 0) by (bit_vector)
        requires
            zb == 0x80u8 || zb == 0u8,
            nb == 0x40u8 || nb == 0u8,
            hb == 0x20u8 || hb == 0u8,
            cb == 0x10u8 || cb == 0u8,
    ;
}

} // verus!
