//! Register file: the seven 8-bit registers, the flags, the program counter
//! and the stack pointer, with the paired 16-bit views BC, DE, HL and AF.
//! A pair is a view, not separate storage: reading one always composes the
//! two live 8-bit halves, and writing one decomposes into them.

use vstd::prelude::*;

use crate::flags::{byte_to_flags, flags_to_byte, FlagsRegister};

verus! {

/// The CPU register file.
#[derive(Clone, Copy, Debug, PartialEq, Eq, Structural)]
pub struct Registers {
    pub a: u8,
    pub b: u8,
    pub c: u8,
    pub d: u8,
    pub e: u8,
    pub f: FlagsRegister,
    pub h: u8,
    pub l: u8,
    pub pc: u16,
    pub sp: u16,
}

/// The 16-bit composition of a register pair: the high register in bits
/// 15..8, the low register in bits 7..0.
pub open spec fn word_of(hi: u8, lo: u8) -> u16 {
    ((hi as u16) << 8) | (lo as u16)
}

/// The high byte of a 16-bit value.
pub open spec fn hi_byte(w: u16) -> u8 {
    ((w & 0xFF00) >> 8) as u8
}

/// The low byte of a 16-bit value.
pub open spec fn lo_byte(w: u16) -> u8 {
    (w & 0x00FF) as u8
}

/// Composing two bytes into a word and taking the word apart are mutually
/// inverse: the halves of `word_of(hi, lo)` are exactly `hi` and `lo`, and
/// recomposing the halves of any word yields that word.
pub proof fn lemma_word_round_trip(hi: u8, lo: u8, w: u16)
    ensures
        hi_byte(word_of(hi, lo)) == hi,
        lo_byte(word_of(hi, lo)) == lo,
        word_of(hi_byte(w), lo_byte(w)) == w,
{
    assert(((((hi as u16) << 8) | (lo as u16)) & 0xFF00) >> 8 == hi as u16) by (bit_vector);
    assert((((hi as u16) << 8) | (lo as u16)) & 0x00FF == lo as u16) by (bit_vector);
    assert(((((w & 0xFF00) >> 8) as u8) as u16) << 8 | (((w & 0x00FF) as u8) as u16) == w)
        by (bit_vector);
}

/// Register-pair composition law: after storing `word_of(hi, lo)` into a
/// pair, the high register holds `hi`, the low register holds `lo`, and the
/// pair reads back as `word_of(hi, lo)` — there is no cached 16-bit copy to
/// drift from the live halves.
pub proof fn lemma_pair_round_trip(r: Registers, hi: u8, lo: u8)
    ensures
        ({
            let v = word_of(hi, lo);
            let r2 = Registers { b: hi_byte(v), c: lo_byte(v), ..r };
            r2.b == hi && r2.c == lo && word_of(r2.b, r2.c) == v
        }),
{
    lemma_word_round_trip(hi, lo, word_of(hi, lo));
}

impl Registers {
    /// The power-on state: every register zero, all flags clear, PC at
    /// the entry address 0x0100, SP at the initial stack address 0xFFFE.
    pub open spec fn power_on_spec() -> Registers {
        Registers {
            a: 0,
            b: 0,
            c: 0,
            d: 0,
            e: 0,
            f: FlagsRegister { zero: false, subtraction: false, half_carry: false, carry: false },
            h: 0,
            l: 0,
            pc: 0x0100,
            sp: 0xFFFE,
        }
    }

    /// Builds the power-on register file.
    pub fn power_on() -> (r: Registers)
        ensures
            r == Registers::power_on_spec(),
    {
        Registers {
            a: 0,
            b: 0,
            c: 0,
            d: 0,
            e: 0,
            f: FlagsRegister { zero: false, subtraction: false, half_carry: false, carry: false },
            h: 0,
            l: 0,
            pc: 0x0100,
            sp: 0xFFFE,
        }
    }

    /// AF view: A in the high byte, the encoded flags in the low byte.
    pub fn get_af(&self) -> (r: u16)
        ensures
            r == word_of(self.a, flags_to_byte(self.f)),
    {
        ((self.a as u16) << 8) | (self.f.encode() as u16)
    }

    /// BC view.
    pub fn get_bc(&self) -> (r: u16)
        ensures
            r == word_of(self.b, self.c),
    {
        ((self.b as u16) << 8) | (self.c as u16)
    }

    /// DE view.
    pub fn get_de(&self) -> (r: u16)
        ensures
            r == word_of(self.d, self.e),
    {
        ((self.d as u16) << 8) | (self.e as u16)
    }

    /// HL view.
    pub fn get_hl(&self) -> (r: u16)
        ensures
            r == word_of(self.h, self.l),
    {
        ((self.h as u16) << 8) | (self.l as u16)
    }

    /// Writes the AF view: the high byte into A, the low byte decoded into
    /// the flags (its low nibble is ignored by the codec).
    pub fn set_af(&mut self, value: u16)
        ensures
            final(self).a == hi_byte(value),
            final(self).f == byte_to_flags(lo_byte(value)),
            *final(self) == (Registers { a: final(self).a, f: final(self).f, ..*old(self) }),
    {
        proof {
            lemma_word_parts_bounded(value);
        }
        self.a = ((value & 0xFF00) >> 8) as u8;
        self.f = FlagsRegister::decode((value & 0x00FF) as u8);
    }

    /// Writes the BC view: the high byte into B, the low byte into C.
    pub fn set_bc(&mut self, value: u16)
        ensures
            final(self).b == hi_byte(value),
            final(self).c == lo_byte(value),
            *final(self) == (Registers { b: hi_byte(value), c: lo_byte(value), ..*old(self) }),
    {
        proof {
            lemma_word_parts_bounded(value);
        }
        self.b = ((value & 0xFF00) >> 8) as u8;
        self.c = (value & 0x00FF) as u8;
    }

    /// Writes the DE view: the high byte into D, the low byte into E.
    pub fn set_de(&mut self, value: u16)
        ensures
            final(self).d == hi_byte(value),
            final(self).e == lo_byte(value),
            *final(self) == (Registers { d: hi_byte(value), e: lo_byte(value), ..*old(self) }),
    {
        proof {
            lemma_word_parts_bounded(value);
        }
        self.d = ((value & 0xFF00) >> 8) as u8;
        self.e = (value & 0x00FF) as u8;
    }

    /// Writes the HL view: the high byte into H, the low byte into L.
    pub fn set_hl(&mut self, value: u16)
        ensures
            final(self).h == hi_byte(value),
            final(self).l == lo_byte(value),
            *final(self) == (Registers { h: hi_byte(value), l: lo_byte(value), ..*old(self) }),
    {
        proof {
            lemma_word_parts_bounded(value);
        }
        self.h = ((value & 0xFF00) >> 8) as u8;
        self.l = (value & 0x00FF) as u8;
    }
}

/// Both halves of a 16-bit value fit in a byte.
proof fn lemma_word_parts_bounded(w: u16)
    ensures
        (w & 0xFF00) >> 8 <= 0xFF,
        w & 0x00FF <= 0xFF,
{
    assert((w & 0xFF00) >> 8 <= 0xFF && w & 0x00FF <= 0xFF) by (bit_vector);
}

} // verus!
