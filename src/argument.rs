//! Values that follow an operand: natural indexes and immediates.
use vstd::prelude::*;
use crate::bits::{bits16, bits32, bits64};
use crate::natural_index::{NaturalIndex, index_text, index_sign, index_natural, index_constant};
use crate::text::{decimal, decimal_string, signed_decimal, signed_decimal_string};
use crate::theme::{Emit, Options, color_immediate};

verus! {

/// The data an instruction carries for an operand.
#[derive(Debug, Clone, Copy, PartialEq, Eq, Structural)]
pub enum Argument {
    Index16(u16),
    Index32(u32),
    Index64(u64),
    ImmediateU16(u16),
    ImmediateU32(u32),
    ImmediateI16(i16),
    ImmediateI32(i32),
    ImmediateI64(i64),
}

/// Text of the natural index packed in `bits` at scale `scale`.
pub open spec fn packed_index_text(bits: Seq<bool>, scale: nat) -> Seq<char> {
    index_text(index_sign(bits), index_natural(bits, scale), index_constant(bits, scale))
}

impl Argument {
    /// The argument is a natural index rather than an immediate.
    pub open spec fn spec_is_index(self) -> bool {
        self is Index16 || self is Index32 || self is Index64
    }

    #[verifier::when_used_as_spec(spec_is_index)]
    pub fn is_index(self) -> (r: bool)
        ensures
            r == self.spec_is_index(),
    {
        match self {
            Argument::Index16(_) | Argument::Index32(_) | Argument::Index64(_) => true,
            _ => false,
        }
    }
}

impl Emit for Argument {
    open spec fn plain(&self) -> Seq<char> {
        match *self {
            Argument::Index16(v) => packed_index_text(bits16(v), 2),
            Argument::Index32(v) => packed_index_text(bits32(v), 4),
            Argument::Index64(v) => packed_index_text(bits64(v), 8),
            Argument::ImmediateU16(v) => decimal(v as nat),
            Argument::ImmediateU32(v) => decimal(v as nat),
            Argument::ImmediateI16(v) => signed_decimal(v as int),
            Argument::ImmediateI32(v) => signed_decimal(v as int),
            Argument::ImmediateI64(v) => signed_decimal(v as int),
        }
    }

    fn emit(&self, options: &Options) -> (out: String) {
        match *self {
            Argument::Index16(v) => NaturalIndex::from_u16(v).emit(options),
            Argument::Index32(v) => NaturalIndex::from_u32(v).emit(options),
            Argument::Index64(v) => NaturalIndex::from_u64(v).emit(options),
            Argument::ImmediateU16(v) => color_immediate(decimal_string(v as u64), options),
            Argument::ImmediateU32(v) => color_immediate(decimal_string(v as u64), options),
            Argument::ImmediateI16(v) => color_immediate(signed_decimal_string(v as i64), options),
            Argument::ImmediateI32(v) => color_immediate(signed_decimal_string(v as i64), options),
            Argument::ImmediateI64(v) => color_immediate(signed_decimal_string(v), options),
        }
    }
}

} // verus!
