//! Natural indexes: the packed signed offsets that EBC uses to address
//! memory relative to a register.
//!
//! A natural index of width `W` (16, 32 or 64 bits) is read in natural bit
//! order: bit 0 is the sign, bits 1 to 3 give the width of the natural
//! field in units of `W / 8` bits, the natural field sits in the low bits
//! and the constant field fills the bits between the header and it.
use vstd::prelude::*;
use vstd::arithmetic::power2::{pow2, lemma2_to64};
use crate::text::{decimal, decimal_string};
use crate::theme::{Emit, Options, color_index};
use crate::bits::{
    bits16, bits32, bits64, bits_value, bits_u16, bits_u32, bits_u64, bits_to_byte_u16,
    bits_to_byte_u32, bits_to_byte_u64, lemma_bits_value_bound, lemma_pow2_mono,
};

verus! {

/// Size in bytes of the unit that the natural field counts.
pub const SIZE_OF_VOID_PTR: u64 = 8;

/// Bits taken by the sign and the width field.
pub const HEADER_SIZE: usize = 4;

/// Sign of a packed index: bit 0 set means negative.
pub open spec fn index_sign(bits: Seq<bool>) -> int {
    if bits[0] { -1 } else { 1 }
}

/// Width in bits of the natural field, where `scale` is the encoding's
/// size in bytes.
pub open spec fn index_width(bits: Seq<bool>, scale: nat) -> nat {
    bits_value(bits.subrange(1, 4)) * scale
}

/// The natural field: the low `index_width` bits.
pub open spec fn index_natural(bits: Seq<bool>, scale: nat) -> nat {
    bits_value(bits.subrange(bits.len() - index_width(bits, scale), bits.len() as int))
}

/// The constant field: the bits between the header and the natural field
/// (none when the natural field reaches into the header).
pub open spec fn index_constant(bits: Seq<bool>, scale: nat) -> nat {
    if HEADER_SIZE + index_width(bits, scale) <= bits.len() {
        bits_value(bits.subrange(HEADER_SIZE as int, bits.len() - index_width(bits, scale)))
    } else {
        0
    }
}

/// Byte offset denoted by a sign, a constant and a natural unit count.
pub open spec fn index_offset(sign: int, constant: nat, natural: nat) -> int {
    sign * (constant + natural * SIZE_OF_VOID_PTR)
}

/// A decoded natural index.
pub struct NaturalIndex {
    /// The packed bits, widened to 64 bits.
    pub value: u64,
    /// `1` or `-1`.
    pub sign: i8,
    pub constant: u64,
    pub natural: u64,
    /// `sign * (constant + natural * 8)`.
    pub offset: i64,
}

impl NaturalIndex {
    /// The sign is a unit and the offset agrees with the other fields.
    pub open spec fn wf(&self) -> bool {
        &&& (self.sign == 1 || self.sign == -1)
        &&& self.offset == index_offset(self.sign as int, self.constant as nat, self.natural as nat)
    }

    /// This index is the decoding of the bits `bits` at scale `scale`.
    pub open spec fn decodes(&self, bits: Seq<bool>, scale: nat) -> bool {
        &&& self.sign == index_sign(bits)
        &&& self.constant == index_constant(bits, scale)
        &&& self.natural == index_natural(bits, scale)
        &&& self.wf()
    }

    /// Decodes a 16-bit natural index.
    /// It is critical that the right method be selected per index size.
    pub fn from_u16(value: u16) -> (r: Self)
        ensures
            r.value == value,
            r.decodes(bits16(value), 2),
            r.offset == r.sign * (r.constant + r.natural * 8),
    {
        let bits = bits_u16(value);
        let sign: i64 = if bits[0] { -1 } else { 1 };
        let width_base = bits_to_byte_u16(&bits[1..4]);
        proof {
            lemma_bits_value_bound(bits@.subrange(1, 4));
            lemma2_to64();
            assert(width_base < 8);
        }
        let actual_width: usize = width_base as usize * 2;
        let natural = bits_to_byte_u16(&bits[16 - actual_width..16]);
        let constant = if HEADER_SIZE + actual_width <= 16 {
            bits_to_byte_u16(&bits[HEADER_SIZE..16 - actual_width])
        } else {
            0
        };
        let magnitude: i64 = constant as i64 + natural as i64 * SIZE_OF_VOID_PTR as i64;
        let offset: i64 = sign * magnitude;
        NaturalIndex {
            value: value as u64,
            sign: sign as i8,
            constant: constant as u64,
            natural: natural as u64,
            offset,
        }
    }

    /// Decodes a 32-bit natural index.
    /// It is critical that the right method be selected per index size.
    pub fn from_u32(value: u32) -> (r: Self)
        ensures
            r.value == value,
            r.decodes(bits32(value), 4),
            r.offset == r.sign * (r.constant + r.natural * 8),
    {
        let bits = bits_u32(value);
        let sign: i64 = if bits[0] { -1 } else { 1 };
        let width_base = bits_to_byte_u32(&bits[1..4]);
        proof {
            lemma_bits_value_bound(bits@.subrange(1, 4));
            lemma2_to64();
            assert(width_base < 8);
        }
        let actual_width: usize = width_base as usize * 4;
        let natural = bits_to_byte_u32(&bits[32 - actual_width..32]);
        let constant = bits_to_byte_u32(&bits[HEADER_SIZE..32 - actual_width]);
        let magnitude: i64 = constant as i64 + natural as i64 * SIZE_OF_VOID_PTR as i64;
        let offset: i64 = sign * magnitude;
        NaturalIndex {
            value: value as u64,
            sign: sign as i8,
            constant: constant as u64,
            natural: natural as u64,
            offset,
        }
    }

    /// Decodes a 64-bit natural index.
    /// It is critical that the right method be selected per index size.
    pub fn from_u64(value: u64) -> (r: Self)
        ensures
            r.value == value,
            r.decodes(bits64(value), 8),
            r.offset == r.sign * (r.constant + r.natural * 8),
    {
        let bits = bits_u64(value);
        let sign: i64 = if bits[0] { -1 } else { 1 };
        let width_base = bits_to_byte_u64(&bits[1..4]);
        proof {
            lemma_bits_value_bound(bits@.subrange(1, 4));
            lemma2_to64();
            assert(width_base < 8);
        }
        let actual_width: usize = width_base as usize * 8;
        let natural = bits_to_byte_u64(&bits[64 - actual_width..64]);
        let constant = bits_to_byte_u64(&bits[HEADER_SIZE..64 - actual_width]);
        proof {
            lemma_bits_value_bound(bits@.subrange(64 - actual_width, 64));
            lemma_bits_value_bound(bits@.subrange(HEADER_SIZE as int, 64 - actual_width));
            lemma_pow2_mono(actual_width as nat, 56);
            lemma_pow2_mono((60 - actual_width) as nat, 60);
            vstd::arithmetic::power2::lemma2_to64_rest();
        }
        let magnitude: i64 = constant as i64 + natural as i64 * SIZE_OF_VOID_PTR as i64;
        let offset: i64 = sign * magnitude;
        NaturalIndex { value, sign: sign as i8, constant, natural, offset }
    }
}

/// Text of a natural index: `(<sign><natural>, <sign><constant>)`, where the
/// sign is '-' for a negative index and '+' otherwise.
pub open spec fn index_text(sign: int, natural: nat, constant: nat) -> Seq<char> {
    let s = if sign < 0 { "-"@ } else { "+"@ };
    "("@ + s + decimal(natural) + ", "@ + s + decimal(constant) + ")"@
}

impl Emit for NaturalIndex {
    open spec fn plain(&self) -> Seq<char> {
        index_text(self.sign as int, self.natural as nat, self.constant as nat)
    }

    fn emit(&self, options: &Options) -> (out: String) {
        let sign = if self.sign < 0 { "-" } else { "+" };
        let mut out = String::from_str("(");
        out.append(sign);
        let natural = color_index(decimal_string(self.natural), options);
        out.append(natural.as_str());
        out.append(", ");
        out.append(sign);
        let constant = color_index(decimal_string(self.constant), options);
        out.append(constant.as_str());
        out.append(")");
        out
    }
}

} // verus!
