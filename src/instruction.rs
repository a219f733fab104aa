//! Decoding of single instructions.
//!
//! Every instruction starts with a byte whose low six bits (flag order)
//! select the operation and whose bits 6 and 7 carry flags. The operation
//! decides which of seven layouts follows: a second byte of operand fields
//! and flags, then zero or more little-endian words.
use vstd::prelude::*;
use arrayvec::ArrayVec;
use vstd::arithmetic::power2::{pow2, lemma2_to64};
use crate::argument::Argument;
use crate::bits::{flag_bits, bits_value_rev, bits_rev, bits_to_byte_rev, lemma_bits_value_rev_bound};
use crate::opcode::{OpCode, opcode_of};
use crate::operand::Operand;
use crate::stream::{ByteStream, DecodeError, read_value, le16, le32, le64, u16_from_le_bytes,
    u32_from_le_bytes, u64_from_le_bytes};

verus! {

/// The most bytes one instruction takes: two bytes and two 64-bit words.
pub const MAX_INSTRUCTION_LEN: usize = 18;

#[verifier::external_type_specification]
#[verifier::external_body]
#[verifier::reject_recursive_types(T)]
pub struct ExArrayVec<T, const CAP: usize>(ArrayVec<T, CAP>);

/// The bytes held by an instruction's byte buffer, in order.
pub uninterp spec fn buffer_items(v: ArrayVec<u8, 18>) -> Seq<u8>;

/// Relies on `ArrayVec::new`: the new vector holds nothing.
#[verifier::external_body]
fn buffer_new() -> (v: ArrayVec<u8, 18>)
    ensures
        buffer_items(v) == Seq::<u8>::empty(),
{
    ArrayVec::new()
}

/// Relies on `ArrayVec::push`: the byte goes after the others. It panics
/// only on a full vector, which `requires` rules out.
#[verifier::external_body]
fn buffer_push(v: &mut ArrayVec<u8, 18>, b: u8)
    requires
        buffer_items(*old(v)).len() < 18,
    ensures
        buffer_items(*final(v)) == buffer_items(*old(v)).push(b),
{
    v.push(b)
}

/// Relies on `ArrayVec::as_slice`: the slice holds the items in order.
#[verifier::external_body]
pub(crate) fn buffer_slice(v: &ArrayVec<u8, 18>) -> (s: &[u8])
    ensures
        s@ == buffer_items(*v),
{
    v.as_slice()
}

/// Appends every byte of `bytes` to `buf`.
fn buffer_extend(buf: &mut ArrayVec<u8, 18>, bytes: &Vec<u8>)
    requires
        buffer_items(*old(buf)).len() + bytes@.len() <= 18,
    ensures
        buffer_items(*final(buf)) == buffer_items(*old(buf)) + bytes@,
{
    let mut i: usize = 0;
    while i < bytes.len()
        invariant
            i <= bytes@.len(),
            buffer_items(*old(buf)).len() + bytes@.len() <= 18,
            buffer_items(*buf) == buffer_items(*old(buf)) + bytes@.take(i as int),
        decreases bytes@.len() - i,
    {
        buffer_push(buf, bytes[i]);
        i = i + 1;
        assert(buffer_items(*buf) =~= buffer_items(*old(buf)) + bytes@.take(i as int));
    }
    assert(bytes@.take(bytes@.len() as int) =~= bytes@);
}

/// A letter or word appended to an operation's stem.
#[derive(Debug, Clone, Copy, PartialEq, Eq, Structural)]
pub enum Postfix {
    /// `32`: 32-bit operation.
    Bits32,
    /// `64`: 64-bit operation.
    Bits64,
    /// `EX`: call to native code.
    Native,
    /// `a`: absolute address.
    Absolute,
    /// `cc`: taken when the condition flag is clear.
    ConditionClear,
    /// `cs`: taken when the condition flag is set.
    ConditionSet,
    /// `b`: 8 bits.
    Byte,
    /// `w`: 16 bits.
    Word,
    /// `d`: 32 bits.
    Dword,
    /// `q`: 64 bits.
    Qword,
    Eq,
    Lte,
    Gte,
    Ulte,
    Ugte,
}

/// The note printed after a jump.
#[derive(Debug, Clone, Copy, PartialEq, Eq, Structural)]
pub enum Comment {
    RelativeAddress,
    AbsoluteAddress,
}

/// One decoded instruction.
pub struct Instruction {
    /// The bytes the instruction was decoded from.
    pub bytecode: ArrayVec<u8, 18>,
    pub op: OpCode,
    /// What follows the operation's stem in the mnemonic.
    pub postfixes: Vec<Postfix>,
    pub operand1: Option<Operand>,
    pub argument1: Option<Argument>,
    pub operand2: Option<Operand>,
    pub argument2: Option<Argument>,
    pub comment: Option<Comment>,
}

/// The mathematical content of an `Instruction`.
pub struct InstructionView {
    pub bytecode: Seq<u8>,
    pub op: OpCode,
    pub postfixes: Seq<Postfix>,
    pub operand1: Option<Operand>,
    pub argument1: Option<Argument>,
    pub operand2: Option<Operand>,
    pub argument2: Option<Argument>,
    pub comment: Option<Comment>,
}

impl View for Instruction {
    type V = InstructionView;

    open spec fn view(&self) -> InstructionView {
        InstructionView {
            bytecode: buffer_items(self.bytecode),
            op: self.op,
            postfixes: self.postfixes@,
            operand1: self.operand1,
            argument1: self.argument1,
            operand2: self.operand2,
            argument2: self.argument2,
            comment: self.comment,
        }
    }
}

/// Unsigned integer formed by bits `lo` to `hi - 1` of a flag-order bit
/// sequence.
pub open spec fn field(bits: Seq<bool>, lo: int, hi: int) -> nat {
    bits_value_rev(bits.subrange(lo, hi))
}

/// Bit `k` of `b`.
pub open spec fn flag(b: u8, k: int) -> bool {
    flag_bits(b)[k]
}

/// The general-purpose register named by the three bits of `b` from `lo`.
pub open spec fn gp_operand(b: u8, lo: int, indirect: bool) -> Operand {
    Operand::GeneralPurpose { register_index: field(flag_bits(b), lo, lo + 3) as u8, indirect }
}

/// The dedicated register named by bit `k` of `b`.
pub open spec fn dedicated_operand(b: u8, k: int) -> Operand {
    Operand::Dedicated { register_index: if flag(b, k) { 1 } else { 0 }, indirect: false }
}

/// How the bytes of an argument are read.
#[derive(Clone, Copy, PartialEq, Eq, Structural)]
pub enum ArgKind {
    Index,
    Signed,
    Unsigned,
}

/// The argument of kind `kind` held in the `width` bytes of `b` from `at`.
pub open spec fn arg_of(kind: ArgKind, width: nat, b: Seq<u8>, at: int) -> Argument {
    match kind {
        ArgKind::Index => if width == 2 {
            Argument::Index16(le16(b, at) as u16)
        } else if width == 4 {
            Argument::Index32(le32(b, at) as u32)
        } else {
            Argument::Index64(le64(b, at) as u64)
        },
        ArgKind::Signed => if width == 2 {
            Argument::ImmediateI16((le16(b, at) as u16) as i16)
        } else if width == 4 {
            Argument::ImmediateI32((le32(b, at) as u32) as i32)
        } else {
            Argument::ImmediateI64((le64(b, at) as u64) as i64)
        },
        ArgKind::Unsigned => if width == 2 {
            Argument::ImmediateU16(le16(b, at) as u16)
        } else {
            Argument::ImmediateU32(le32(b, at) as u32)
        },
    }
}

/// An instruction with no operands or arguments yet.
pub open spec fn bare(op: OpCode, byte0: u8, rest: Seq<u8>, n: nat) -> InstructionView {
    InstructionView {
        bytecode: seq![byte0] + rest.take(n as int),
        op,
        postfixes: seq![],
        operand1: None,
        argument1: None,
        operand2: None,
        argument2: None,
        comment: None,
    }
}

/// What an instruction of the given operation decodes to, given its first
/// byte and the bytes after it: the instruction and how many of those
/// bytes it takes, or the error.
pub type Decoded = Result<(InstructionView, nat), DecodeError>;

/// `RET`: one byte, nothing else.
pub open spec fn shape1(op: OpCode, byte0: u8, rest: Seq<u8>) -> Decoded {
    Ok((bare(op, byte0, rest, 0), 0))
}

/// `JMP8` and `BREAK`: one byte of data.
pub open spec fn shape2(op: OpCode, byte0: u8, rest: Seq<u8>) -> Decoded {
    if rest.len() < 1 {
        Err(DecodeError::UnexpectedEnd)
    } else if op == OpCode::BREAK {
        if rest[0] == 0 {
            Err(DecodeError::RunawayBreak)
        } else {
            Ok((InstructionView { argument1: Some(Argument::ImmediateU16(rest[0] as u16)), ..bare(op, byte0, rest, 1) }, 1))
        }
    } else {
        let postfixes = if flag(byte0, 7) {
            seq![if flag(byte0, 6) { Postfix::ConditionSet } else { Postfix::ConditionClear }]
        } else {
            seq![]
        };
        Ok((InstructionView {
            postfixes,
            argument1: Some(Argument::ImmediateI16((rest[0] as i8) as i16)),
            ..bare(op, byte0, rest, 1)
        }, 1))
    }
}

/// `STORESP` and `LOADSP`: a general-purpose and a dedicated register.
pub open spec fn shape4(op: OpCode, byte0: u8, rest: Seq<u8>) -> Decoded {
    if rest.len() < 1 {
        Err(DecodeError::UnexpectedEnd)
    } else if op == OpCode::STORESP {
        Ok((InstructionView {
            operand1: Some(gp_operand(rest[0], 0, false)),
            operand2: Some(dedicated_operand(rest[0], 4)),
            ..bare(op, byte0, rest, 1)
        }, 1))
    } else {
        Ok((InstructionView {
            operand1: Some(dedicated_operand(rest[0], 0)),
            operand2: Some(gp_operand(rest[0], 4, false)),
            ..bare(op, byte0, rest, 1)
        }, 1))
    }
}

/// The 32 or 64 bit width postfix.
pub open spec fn width_postfix(is_64_bit: bool) -> Postfix {
    if is_64_bit { Postfix::Bits64 } else { Postfix::Bits32 }
}

/// Two-register arithmetic and comparison: an optional 16-bit index or
/// immediate for the second operand.
pub open spec fn shape6(op: OpCode, byte0: u8, rest: Seq<u8>) -> Decoded {
    if rest.len() < 1 {
        Err(DecodeError::UnexpectedEnd)
    } else {
        let b1 = rest[0];
        let n: nat = if flag(byte0, 7) { 3 } else { 1 };
        if rest.len() < n {
            Err(DecodeError::UnexpectedEnd)
        } else {
            let kind = if flag(b1, 7) { ArgKind::Index } else { ArgKind::Signed };
            Ok((InstructionView {
                postfixes: seq![width_postfix(flag(byte0, 6))],
                operand1: Some(gp_operand(b1, 0, flag(b1, 3))),
                operand2: Some(gp_operand(b1, 4, flag(b1, 7))),
                argument2: if flag(byte0, 7) { Some(arg_of(kind, 2, rest, 1)) } else { None },
                ..bare(op, byte0, rest, n)
            }, n))
        }
    }
}

/// Calls, jumps, pushes and pops: one register and an optional word.
pub open spec fn shape3(op: OpCode, byte0: u8, rest: Seq<u8>) -> Decoded {
    if rest.len() < 1 {
        Err(DecodeError::UnexpectedEnd)
    } else {
        let b1 = rest[0];
        let immediate = flag(byte0, 7);
        let is_64_bit = flag(byte0, 6);
        let indirect = flag(b1, 3);
        let width = if op == OpCode::PUSHn || op == OpCode::POPn {
            seq![]
        } else {
            seq![width_postfix(is_64_bit)]
        };
        if op == OpCode::CALL || op == OpCode::JMP {
            let n: nat = if is_64_bit { 9 } else if immediate { 5 } else { 1 };
            if rest.len() < n {
                Err(DecodeError::UnexpectedEnd)
            } else {
                let postfixes = if op == OpCode::CALL {
                    width + (if flag(b1, 5) { seq![Postfix::Native] } else { seq![] }) + (if is_64_bit
                        || !flag(b1, 4) {
                        seq![Postfix::Absolute]
                    } else {
                        seq![]
                    })
                } else {
                    width + (if flag(b1, 7) {
                        seq![if flag(b1, 6) { Postfix::ConditionSet } else { Postfix::ConditionClear }]
                    } else {
                        seq![]
                    })
                };
                let kind = if indirect { ArgKind::Index } else { ArgKind::Signed };
                Ok((InstructionView {
                    postfixes,
                    operand1: if is_64_bit { None } else { Some(gp_operand(b1, 0, indirect)) },
                    argument1: if is_64_bit {
                        Some(arg_of(ArgKind::Signed, 8, rest, 1))
                    } else if immediate {
                        Some(arg_of(kind, 4, rest, 1))
                    } else {
                        None
                    },
                    comment: if op == OpCode::JMP {
                        Some(if flag(b1, 4) { Comment::RelativeAddress } else { Comment::AbsoluteAddress })
                    } else {
                        None
                    },
                    ..bare(op, byte0, rest, n)
                }, n))
            }
        } else {
            let n: nat = if immediate { 3 } else { 1 };
            if rest.len() < n {
                Err(DecodeError::UnexpectedEnd)
            } else {
                let kind = if indirect { ArgKind::Index } else { ArgKind::Signed };
                Ok((InstructionView {
                    postfixes: width,
                    operand1: Some(gp_operand(b1, 0, indirect)),
                    argument1: if immediate { Some(arg_of(kind, 2, rest, 1)) } else { None },
                    ..bare(op, byte0, rest, n)
                }, n))
            }
        }
    }
}

/// The letter for a width code: 0 is 8 bits, 1 is 16, 2 is 32, 3 is 64.
pub open spec fn width_letter(code: nat) -> Postfix {
    if code == 0 {
        Postfix::Byte
    } else if code == 1 {
        Postfix::Word
    } else if code == 2 {
        Postfix::Dword
    } else {
        Postfix::Qword
    }
}

/// Bytes of data for a non-zero width code.
pub open spec fn code_bytes(code: nat) -> nat {
    if code == 1 {
        2
    } else if code == 2 {
        4
    } else {
        8
    }
}

/// The operation is one of the `CMPI` comparisons.
pub open spec fn is_compare_immediate(op: OpCode) -> bool {
    op == OpCode::CMPIeq || op == OpCode::CMPIlte || op == OpCode::CMPIgte || op == OpCode::CMPIulte
        || op == OpCode::CMPIugte
}

/// The kind of comparison a `CMPI` operation makes.
pub open spec fn comparison_postfix(op: OpCode) -> Postfix {
    match op {
        OpCode::CMPIeq => Postfix::Eq,
        OpCode::CMPIlte => Postfix::Lte,
        OpCode::CMPIgte => Postfix::Gte,
        OpCode::CMPIulte => Postfix::Ulte,
        _ => Postfix::Ugte,
    }
}

/// Immediate operations: one register with an optional 16-bit index, then
/// an immediate or index whose width the first byte gives.
pub open spec fn shape5(op: OpCode, byte0: u8, rest: Seq<u8>) -> Decoded {
    if rest.len() < 1 {
        Err(DecodeError::UnexpectedEnd)
    } else {
        let b1 = rest[0];
        let compare = is_compare_immediate(op);
        let code = field(flag_bits(byte0), 6, 8);
        if !compare && code == 0 {
            Err(DecodeError::ReservedWidth(op))
        } else {
            let index_present = if compare { flag(b1, 4) } else { flag(b1, 6) };
            let indirect = flag(b1, 3);
            let a1: nat = if index_present { 2 } else { 0 };
            let w2: nat = if compare {
                if flag(byte0, 7) { 4 } else { 2 }
            } else {
                code_bytes(code)
            };
            if rest.len() < 1 + a1 {
                Err(DecodeError::UnexpectedEnd)
            } else if index_present && !indirect {
                Err(DecodeError::ImmediateNotSupported(op))
            } else if rest.len() < 1 + a1 + w2 {
                Err(DecodeError::UnexpectedEnd)
            } else {
                let postfixes = if op == OpCode::MOVI {
                    seq![width_letter(field(flag_bits(b1), 4, 6)), width_letter(code)]
                } else if compare {
                    seq![
                        width_postfix(flag(byte0, 6)),
                        if flag(byte0, 7) { Postfix::Dword } else { Postfix::Word },
                        comparison_postfix(op),
                    ]
                } else {
                    seq![width_letter(code)]
                };
                let kind2 = if op == OpCode::MOVIn {
                    ArgKind::Index
                } else if op == OpCode::CMPIulte || op == OpCode::CMPIugte {
                    ArgKind::Unsigned
                } else {
                    ArgKind::Signed
                };
                Ok((InstructionView {
                    postfixes,
                    operand1: Some(gp_operand(b1, 0, indirect)),
                    argument1: if index_present { Some(arg_of(ArgKind::Index, 2, rest, 1)) } else { None },
                    argument2: Some(arg_of(kind2, w2, rest, (1 + a1) as int)),
                    ..bare(op, byte0, rest, 1 + a1 + w2)
                }, 1 + a1 + w2))
            }
        }
    }
}

/// The operation is `MOVnw`, `MOVnd`, `MOVsnw` or `MOVsnd`.
pub open spec fn is_natural_move(op: OpCode) -> bool {
    op == OpCode::MOVnw || op == OpCode::MOVnd || op == OpCode::MOVsnw || op == OpCode::MOVsnd
}

/// Bytes in each index of a move.
pub open spec fn move_index_bytes(op: OpCode) -> nat {
    match op {
        OpCode::MOVbw | OpCode::MOVww | OpCode::MOVdw | OpCode::MOVqw | OpCode::MOVnw | OpCode::MOVsnw => 2,
        OpCode::MOVqq => 8,
        _ => 4,
    }
}

/// The letter for the width moved by a `MOVxy` operation.
pub open spec fn move_width_postfix(op: OpCode) -> Postfix {
    match op {
        OpCode::MOVbw | OpCode::MOVbd => Postfix::Byte,
        OpCode::MOVww | OpCode::MOVwd => Postfix::Word,
        OpCode::MOVdw | OpCode::MOVdd => Postfix::Dword,
        _ => Postfix::Qword,
    }
}

/// The letter for an index of `bytes` bytes.
pub open spec fn index_width_postfix(bytes: nat) -> Postfix {
    if bytes == 2 {
        Postfix::Word
    } else if bytes == 4 {
        Postfix::Dword
    } else {
        Postfix::Qword
    }
}

/// Moves: two registers, each with an optional index; the index letter
/// shows only when an index is present.
pub open spec fn shape7(op: OpCode, byte0: u8, rest: Seq<u8>) -> Decoded {
    if rest.len() < 1 {
        Err(DecodeError::UnexpectedEnd)
    } else {
        let b1 = rest[0];
        let ip1 = flag(byte0, 7);
        let ip2 = flag(byte0, 6);
        let w = move_index_bytes(op);
        let a1: nat = if ip1 { w } else { 0 };
        let a2: nat = if ip2 { w } else { 0 };
        if rest.len() < 1 + a1 + a2 {
            Err(DecodeError::UnexpectedEnd)
        } else {
            let index_letter = if ip1 || ip2 { seq![index_width_postfix(w)] } else { seq![] };
            let postfixes = if is_natural_move(op) {
                index_letter
            } else {
                seq![move_width_postfix(op)] + index_letter
            };
            let kind2 = if is_natural_move(op) && !flag(b1, 7) { ArgKind::Signed } else { ArgKind::Index };
            Ok((InstructionView {
                postfixes,
                operand1: Some(gp_operand(b1, 0, flag(b1, 3))),
                argument1: if ip1 { Some(arg_of(ArgKind::Index, w, rest, 1)) } else { None },
                operand2: Some(gp_operand(b1, 4, flag(b1, 7))),
                argument2: if ip2 { Some(arg_of(kind2, w, rest, (1 + a1) as int)) } else { None },
                ..bare(op, byte0, rest, 1 + a1 + a2)
            }, 1 + a1 + a2))
        }
    }
}

/// The relation between a decoder's result and the expected outcome.
pub open spec fn decodes_as(r: Result<Instruction, DecodeError>, expected: Decoded, before: Seq<u8>, after: Seq<u8>) -> bool {
    match expected {
        Ok((v, n)) => r matches Ok(i) && i@ == v && after == before.skip(n as int),
        Err(e) => r matches Err(f) && f == e,
    }
}

proof fn lemma_field_bound(bits: Seq<bool>, lo: int, hi: int)
    requires
        0 <= lo <= hi <= bits.len(),
        hi - lo <= 3,
    ensures
        field(bits, lo, hi) < 8,
{
    lemma_bits_value_rev_bound(bits.subrange(lo, hi));
    lemma2_to64();
    crate::bits::lemma_pow2_mono((hi - lo) as nat, 3);
}

/// The register index in the three bits from `lo`.
fn register_field(bits: &[bool; 8], lo: usize) -> (r: u8)
    requires
        lo + 3 <= 8,
    ensures
        r == field(bits@, lo as int, lo + 3),
        r <= 7,
{
    proof {
        lemma_field_bound(bits@, lo as int, lo + 3);
    }
    bits_to_byte_rev(&bits[lo..lo + 3])
}

/// Reads an argument of `width` bytes into `buf`.
fn read_argument(bytes: &mut ByteStream, buf: &mut ArrayVec<u8, 18>, width: usize, kind: ArgKind) -> (r: Result<Argument, DecodeError>)
    requires
        width == 2 || width == 4 || width == 8,
        kind == ArgKind::Unsigned ==> width != 8,
        buffer_items(*old(buf)).len() + width <= 18,
    ensures
        old(bytes).remaining().len() >= width <==> r is Ok,
        r matches Err(e) ==> e == DecodeError::UnexpectedEnd,
        r matches Ok(a) ==> a == arg_of(kind, width as nat, old(bytes).remaining(), 0)
            && final(bytes).remaining() == old(bytes).remaining().skip(width as int)
            && buffer_items(*final(buf)) == buffer_items(*old(buf)) + old(bytes).remaining().take(width as int),
{
    let value = read_value(bytes, width)?;
    buffer_extend(buf, &value);
    let ghost rem = old(bytes).remaining();
    assert(value@[0] == rem[0] && value@[1] == rem[1]);
    if width == 2 {
        let v = u16_from_le_bytes(&value);
        match kind {
            ArgKind::Index => Ok(Argument::Index16(v)),
            ArgKind::Signed => Ok(Argument::ImmediateI16(v as i16)),
            ArgKind::Unsigned => Ok(Argument::ImmediateU16(v)),
        }
    } else if width == 4 {
        assert(value@[2] == rem[2] && value@[3] == rem[3]);
        let v = u32_from_le_bytes(&value);
        match kind {
            ArgKind::Index => Ok(Argument::Index32(v)),
            ArgKind::Signed => Ok(Argument::ImmediateI32(v as i32)),
            ArgKind::Unsigned => Ok(Argument::ImmediateU32(v)),
        }
    } else {
        assert(value@[2] == rem[2] && value@[3] == rem[3]);
        assert(value@[4] == rem[4] && value@[5] == rem[5]);
        assert(value@[6] == rem[6] && value@[7] == rem[7]);
        let v = u64_from_le_bytes(&value);
        match kind {
            ArgKind::Index => Ok(Argument::Index64(v)),
            _ => Ok(Argument::ImmediateI64(v as i64)),
        }
    }
}

/// Reads the second byte of an instruction into `buf`.
fn read_byte1(bytes: &mut ByteStream, buf: &mut ArrayVec<u8, 18>) -> (r: Result<u8, DecodeError>)
    requires
        buffer_items(*old(buf)).len() < 18,
    ensures
        old(bytes).remaining().len() >= 1 <==> r is Ok,
        r matches Err(e) ==> e == DecodeError::UnexpectedEnd,
        r matches Ok(b) ==> b == old(bytes).remaining()[0]
            && final(bytes).remaining() == old(bytes).remaining().skip(1)
            && buffer_items(*final(buf)) == buffer_items(*old(buf)).push(b),
{
    match bytes.next() {
        Some(b) => {
            buffer_push(buf, b);
            Ok(b)
        },
        None => Err(DecodeError::UnexpectedEnd),
    }
}

/// Decodes `RET`.
pub fn parse_instruction1(bytes: &mut ByteStream, byte0: u8, byte0_bits: [bool; 8], op: OpCode) -> (r: Result<Instruction, DecodeError>)
    requires
        byte0_bits@ == flag_bits(byte0),
        op.shape() == 1,
    ensures
        decodes_as(r, shape1(op, byte0, old(bytes).remaining()), old(bytes).remaining(), final(bytes).remaining()),
{
    let mut bytecode = buffer_new();
    buffer_push(&mut bytecode, byte0);
    assert(buffer_items(bytecode) =~= seq![byte0] + old(bytes).remaining().take(0));
    assert(old(bytes).remaining().skip(0) =~= old(bytes).remaining());
    Ok(Instruction {
        bytecode,
        op,
        postfixes: Vec::new(),
        operand1: None,
        argument1: None,
        operand2: None,
        argument2: None,
        comment: None,
    })
}

/// Decodes `JMP8` and `BREAK`.
pub fn parse_instruction2(bytes: &mut ByteStream, byte0: u8, byte0_bits: [bool; 8], op: OpCode) -> (r: Result<Instruction, DecodeError>)
    requires
        byte0_bits@ == flag_bits(byte0),
        op.shape() == 2,
    ensures
        decodes_as(r, shape2(op, byte0, old(bytes).remaining()), old(bytes).remaining(), final(bytes).remaining()),
{
    let ghost rest = old(bytes).remaining();
    let mut bytecode = buffer_new();
    buffer_push(&mut bytecode, byte0);
    let byte1 = read_byte1(bytes, &mut bytecode)?;
    assert(buffer_items(bytecode) =~= seq![byte0] + rest.take(1));
    let mut postfixes: Vec<Postfix> = Vec::new();
    let argument1 = match op {
        OpCode::BREAK => {
            if byte1 == 0 {
                return Err(DecodeError::RunawayBreak);
            }
            Argument::ImmediateU16(byte1 as u16)
        },
        _ => {
            if byte0_bits[7] {
                postfixes.push(if byte0_bits[6] { Postfix::ConditionSet } else { Postfix::ConditionClear });
            }
            Argument::ImmediateI16((byte1 as i8) as i16)
        },
    };
    let r = Instruction {
        bytecode,
        op,
        postfixes,
        operand1: None,
        argument1: Some(argument1),
        operand2: None,
        argument2: None,
        comment: None,
    };
    assert(r@.postfixes =~= shape2(op, byte0, rest)->Ok_0.0.postfixes);
    Ok(r)
}

/// Decodes `STORESP` and `LOADSP`.
pub fn parse_instruction4(bytes: &mut ByteStream, byte0: u8, byte0_bits: [bool; 8], op: OpCode) -> (r: Result<Instruction, DecodeError>)
    requires
        byte0_bits@ == flag_bits(byte0),
        op.shape() == 4,
    ensures
        decodes_as(r, shape4(op, byte0, old(bytes).remaining()), old(bytes).remaining(), final(bytes).remaining()),
{
    let ghost rest = old(bytes).remaining();
    let mut bytecode = buffer_new();
    buffer_push(&mut bytecode, byte0);
    let byte1 = read_byte1(bytes, &mut bytecode)?;
    assert(buffer_items(bytecode) =~= seq![byte0] + rest.take(1));
    let byte1_bits = bits_rev(byte1);
    let (operand1, operand2) = match op {
        OpCode::STORESP => (
            Operand::new_general_purpose(register_field(&byte1_bits, 0), false),
            Operand::new_dedicated(if byte1_bits[4] { 1 } else { 0 }, false),
        ),
        _ => (
            Operand::new_dedicated(if byte1_bits[0] { 1 } else { 0 }, false),
            Operand::new_general_purpose(register_field(&byte1_bits, 4), false),
        ),
    };
    Ok(Instruction {
        bytecode,
        op,
        postfixes: Vec::new(),
        operand1: Some(operand1),
        argument1: None,
        operand2: Some(operand2),
        argument2: None,
        comment: None,
    })
}

/// Decodes the two-register arithmetic and comparison operations.
pub fn parse_instruction6(bytes: &mut ByteStream, byte0: u8, byte0_bits: [bool; 8], op: OpCode) -> (r: Result<Instruction, DecodeError>)
    requires
        byte0_bits@ == flag_bits(byte0),
        op.shape() == 6,
    ensures
        decodes_as(r, shape6(op, byte0, old(bytes).remaining()), old(bytes).remaining(), final(bytes).remaining()),
{
    let ghost rest = old(bytes).remaining();
    let immediate_data_present = byte0_bits[7];
    let is_64_bit = byte0_bits[6];
    let mut postfixes: Vec<Postfix> = Vec::new();
    postfixes.push(if is_64_bit { Postfix::Bits64 } else { Postfix::Bits32 });
    let mut bytecode = buffer_new();
    buffer_push(&mut bytecode, byte0);
    let byte1 = read_byte1(bytes, &mut bytecode)?;
    let byte1_bits = bits_rev(byte1);
    let operand1 = Operand::new_general_purpose(register_field(&byte1_bits, 0), byte1_bits[3]);
    let operand2_is_indirect = byte1_bits[7];
    let operand2 = Operand::new_general_purpose(register_field(&byte1_bits, 4), operand2_is_indirect);
    let argument2 = if immediate_data_present {
        let kind = if operand2_is_indirect { ArgKind::Index } else { ArgKind::Signed };
        let arg = read_argument(bytes, &mut bytecode, 2, kind)?;
        assert(rest.skip(1).take(2) =~= rest.subrange(1, 3));
        assert(buffer_items(bytecode) =~= seq![byte0] + rest.take(3));
        assert(bytes.remaining() =~= rest.skip(3));
        Some(arg)
    } else {
        assert(buffer_items(bytecode) =~= seq![byte0] + rest.take(1));
        None
    };
    let r = Instruction {
        bytecode,
        op,
        postfixes,
        operand1: Some(operand1),
        argument1: None,
        operand2: Some(operand2),
        argument2,
        comment: None,
    };
    assert(r@.postfixes =~= shape6(op, byte0, rest)->Ok_0.0.postfixes);
    Ok(r)
}

proof fn lemma_consumed(byte0: u8, rest: Seq<u8>, k: int, w: int)
    requires
        0 <= k,
        0 <= w,
        k + w <= rest.len(),
    ensures
        (seq![byte0] + rest.take(k)) + rest.skip(k).take(w) == seq![byte0] + rest.take(k + w),
        rest.skip(k).skip(w) == rest.skip(k + w),
{
    assert((seq![byte0] + rest.take(k)) + rest.skip(k).take(w) =~= seq![byte0] + rest.take(k + w));
    assert(rest.skip(k).skip(w) =~= rest.skip(k + w));
}

proof fn lemma_first_byte(byte0: u8, rest: Seq<u8>)
    requires
        rest.len() >= 1,
    ensures
        seq![byte0].push(rest[0]) == seq![byte0] + rest.take(1),
{
    assert(seq![byte0].push(rest[0]) =~= seq![byte0] + rest.take(1));
}

/// Decodes calls, jumps, pushes and pops.
pub fn parse_instruction3(bytes: &mut ByteStream, byte0: u8, byte0_bits: [bool; 8], op: OpCode) -> (r: Result<Instruction, DecodeError>)
    requires
        byte0_bits@ == flag_bits(byte0),
        op.shape() == 3,
    ensures
        decodes_as(r, shape3(op, byte0, old(bytes).remaining()), old(bytes).remaining(), final(bytes).remaining()),
{
    let ghost rest = old(bytes).remaining();
    let immediate_data_present = byte0_bits[7];
    let is_64_bit = byte0_bits[6];
    let mut bytecode = buffer_new();
    buffer_push(&mut bytecode, byte0);
    let byte1 = read_byte1(bytes, &mut bytecode)?;
    proof {
        lemma_first_byte(byte0, rest);
    }
    let byte1_bits = bits_rev(byte1);
    let mut postfixes: Vec<Postfix> = Vec::new();
    match op {
        OpCode::PUSHn | OpCode::POPn => {},
        _ => postfixes.push(if is_64_bit { Postfix::Bits64 } else { Postfix::Bits32 }),
    }
    let operand1_is_indirect = byte1_bits[3];
    let operand1 = Operand::new_general_purpose(register_field(&byte1_bits, 0), operand1_is_indirect);
    let kind = if operand1_is_indirect { ArgKind::Index } else { ArgKind::Signed };
    match op {
        OpCode::CALL | OpCode::JMP => {
            match op {
                OpCode::CALL => {
                    if byte1_bits[5] {
                        postfixes.push(Postfix::Native);
                    }
                    if is_64_bit || !byte1_bits[4] {
                        postfixes.push(Postfix::Absolute);
                    }
                },
                _ => {
                    if byte1_bits[7] {
                        postfixes.push(if byte1_bits[6] { Postfix::ConditionSet } else { Postfix::ConditionClear });
                    }
                },
            }
            let argument1 = if is_64_bit {
                let arg = read_argument(bytes, &mut bytecode, 8, ArgKind::Signed)?;
                proof {
                    lemma_consumed(byte0, rest, 1, 8);
                }
                Some(arg)
            } else if immediate_data_present {
                let arg = read_argument(bytes, &mut bytecode, 4, kind)?;
                proof {
                    lemma_consumed(byte0, rest, 1, 4);
                }
                Some(arg)
            } else {
                None
            };
            let comment = match op {
                OpCode::JMP => Some(if byte1_bits[4] { Comment::RelativeAddress } else { Comment::AbsoluteAddress }),
                _ => None,
            };
            let r = Instruction {
                bytecode,
                op,
                postfixes,
                operand1: if is_64_bit { None } else { Some(operand1) },
                argument1,
                operand2: None,
                argument2: None,
                comment,
            };
            assert(r@.postfixes =~= shape3(op, byte0, rest)->Ok_0.0.postfixes);
            Ok(r)
        },
        _ => {
            let argument1 = if immediate_data_present {
                let arg = read_argument(bytes, &mut bytecode, 2, kind)?;
                proof {
                    lemma_consumed(byte0, rest, 1, 2);
                }
                Some(arg)
            } else {
                None
            };
            let r = Instruction {
                bytecode,
                op,
                postfixes,
                operand1: Some(operand1),
                argument1,
                operand2: None,
                argument2: None,
                comment: None,
            };
            assert(r@.postfixes =~= shape3(op, byte0, rest)->Ok_0.0.postfixes);
            Ok(r)
        },
    }
}

/// The letter for a width code below 4.
fn width_letter_of(code: u8) -> (p: Postfix)
    requires
        code < 4,
    ensures
        p == width_letter(code as nat),
{
    if code == 0 {
        Postfix::Byte
    } else if code == 1 {
        Postfix::Word
    } else if code == 2 {
        Postfix::Dword
    } else {
        Postfix::Qword
    }
}

/// Decodes the immediate operations `CMPI`, `MOVI`, `MOVIn` and `MOVREL`.
pub fn parse_instruction5(bytes: &mut ByteStream, byte0: u8, byte0_bits: [bool; 8], op: OpCode) -> (r: Result<Instruction, DecodeError>)
    requires
        byte0_bits@ == flag_bits(byte0),
        op.shape() == 5,
    ensures
        decodes_as(r, shape5(op, byte0, old(bytes).remaining()), old(bytes).remaining(), final(bytes).remaining()),
{
    let ghost rest = old(bytes).remaining();
    let mut bytecode = buffer_new();
    buffer_push(&mut bytecode, byte0);
    let byte1 = read_byte1(bytes, &mut bytecode)?;
    proof {
        lemma_first_byte(byte0, rest);
        lemma_bits_value_rev_bound(byte0_bits@.subrange(6, 8));
        lemma2_to64();
    }
    let byte1_bits = bits_rev(byte1);
    let compare = match op {
        OpCode::MOVI | OpCode::MOVIn | OpCode::MOVREL => false,
        _ => true,
    };
    let code = bits_to_byte_rev(&byte0_bits[6..8]);
    if !compare && code == 0 {
        return Err(DecodeError::ReservedWidth(op));
    }
    let mut postfixes: Vec<Postfix> = Vec::new();
    match op {
        OpCode::MOVI => {
            proof {
                lemma_bits_value_rev_bound(byte1_bits@.subrange(4, 6));
            }
            let move_width = bits_to_byte_rev(&byte1_bits[4..6]);
            postfixes.push(width_letter_of(move_width));
            postfixes.push(width_letter_of(code));
        },
        OpCode::MOVIn | OpCode::MOVREL => {
            postfixes.push(width_letter_of(code));
        },
        _ => {
            postfixes.push(if byte0_bits[6] { Postfix::Bits64 } else { Postfix::Bits32 });
            postfixes.push(if byte0_bits[7] { Postfix::Dword } else { Postfix::Word });
            postfixes.push(
                match op {
                    OpCode::CMPIeq => Postfix::Eq,
                    OpCode::CMPIlte => Postfix::Lte,
                    OpCode::CMPIgte => Postfix::Gte,
                    OpCode::CMPIulte => Postfix::Ulte,
                    _ => Postfix::Ugte,
                },
            );
        },
    }
    let operand1_index_present = if compare { byte1_bits[4] } else { byte1_bits[6] };
    let operand1_is_indirect = byte1_bits[3];
    let operand1 = Operand::new_general_purpose(register_field(&byte1_bits, 0), operand1_is_indirect);
    let argument1 = if operand1_index_present {
        let arg = read_argument(bytes, &mut bytecode, 2, ArgKind::Index)?;
        proof {
            lemma_consumed(byte0, rest, 1, 2);
        }
        if !operand1_is_indirect {
            return Err(DecodeError::ImmediateNotSupported(op));
        }
        Some(arg)
    } else {
        None
    };
    let ghost a1: int = if operand1_index_present { 2 } else { 0 };
    let width: usize = if compare {
        if byte0_bits[7] { 4 } else { 2 }
    } else if code == 1 {
        2
    } else if code == 2 {
        4
    } else {
        8
    };
    let kind = match op {
        OpCode::MOVIn => ArgKind::Index,
        OpCode::CMPIulte | OpCode::CMPIugte => ArgKind::Unsigned,
        _ => ArgKind::Signed,
    };
    let argument2 = read_argument(bytes, &mut bytecode, width, kind)?;
    proof {
        lemma_consumed(byte0, rest, 1 + a1, width as int);
    }
    let r = Instruction {
        bytecode,
        op,
        postfixes,
        operand1: Some(operand1),
        argument1,
        operand2: None,
        argument2: Some(argument2),
        comment: None,
    };
    assert(r@.postfixes =~= shape5(op, byte0, rest)->Ok_0.0.postfixes);
    Ok(r)
}

/// Decodes the moves between registers and memory.
pub fn parse_instruction7(bytes: &mut ByteStream, byte0: u8, byte0_bits: [bool; 8], op: OpCode) -> (r: Result<Instruction, DecodeError>)
    requires
        byte0_bits@ == flag_bits(byte0),
        op.shape() == 7,
    ensures
        decodes_as(r, shape7(op, byte0, old(bytes).remaining()), old(bytes).remaining(), final(bytes).remaining()),
{
    let ghost rest = old(bytes).remaining();
    let operand1_index_present = byte0_bits[7];
    let operand2_index_present = byte0_bits[6];
    let mut bytecode = buffer_new();
    buffer_push(&mut bytecode, byte0);
    let byte1 = read_byte1(bytes, &mut bytecode)?;
    proof {
        lemma_first_byte(byte0, rest);
    }
    let byte1_bits = bits_rev(byte1);
    let operand1 = Operand::new_general_purpose(register_field(&byte1_bits, 0), byte1_bits[3]);
    let operand2_is_indirect = byte1_bits[7];
    let operand2 = Operand::new_general_purpose(register_field(&byte1_bits, 4), operand2_is_indirect);
    let width: usize = match op {
        OpCode::MOVbw | OpCode::MOVww | OpCode::MOVdw | OpCode::MOVqw | OpCode::MOVnw | OpCode::MOVsnw => 2,
        OpCode::MOVqq => 8,
        _ => 4,
    };
    let natural = match op {
        OpCode::MOVnw | OpCode::MOVnd | OpCode::MOVsnw | OpCode::MOVsnd => true,
        _ => false,
    };
    let argument1 = if operand1_index_present {
        let arg = read_argument(bytes, &mut bytecode, width, ArgKind::Index)?;
        proof {
            lemma_consumed(byte0, rest, 1, width as int);
        }
        Some(arg)
    } else {
        None
    };
    let ghost a1: int = if operand1_index_present { width as int } else { 0 };
    let argument2 = if operand2_index_present {
        let kind = if natural && !operand2_is_indirect { ArgKind::Signed } else { ArgKind::Index };
        let arg = read_argument(bytes, &mut bytecode, width, kind)?;
        proof {
            lemma_consumed(byte0, rest, 1 + a1, width as int);
        }
        Some(arg)
    } else {
        None
    };
    let mut postfixes: Vec<Postfix> = Vec::new();
    if !natural {
        postfixes.push(
            match op {
                OpCode::MOVbw | OpCode::MOVbd => Postfix::Byte,
                OpCode::MOVww | OpCode::MOVwd => Postfix::Word,
                OpCode::MOVdw | OpCode::MOVdd => Postfix::Dword,
                _ => Postfix::Qword,
            },
        );
    }
    if operand1_index_present || operand2_index_present {
        postfixes.push(
            if width == 2 {
                Postfix::Word
            } else if width == 4 {
                Postfix::Dword
            } else {
                Postfix::Qword
            },
        );
    }
    let r = Instruction {
        bytecode,
        op,
        postfixes,
        operand1: Some(operand1),
        argument1,
        operand2: Some(operand2),
        argument2,
        comment: None,
    };
    assert(r@.postfixes =~= shape7(op, byte0, rest)->Ok_0.0.postfixes);
    Ok(r)
}

/// What an instruction of operation `op` decodes to, by its layout.
pub open spec fn decode_shape(op: OpCode, byte0: u8, rest: Seq<u8>) -> Decoded {
    match op.shape() {
        1 => shape1(op, byte0, rest),
        2 => shape2(op, byte0, rest),
        3 => shape3(op, byte0, rest),
        4 => shape4(op, byte0, rest),
        5 => shape5(op, byte0, rest),
        6 => shape6(op, byte0, rest),
        _ => shape7(op, byte0, rest),
    }
}

/// The opcode field of a first byte: its low six bits.
pub open spec fn opcode_field(byte0: u8) -> u8 {
    field(flag_bits(byte0), 0, 6) as u8
}

/// What the instruction at the front of `bytes` decodes to, with the
/// number of bytes it takes.
pub open spec fn decode_spec(bytes: Seq<u8>) -> Decoded {
    if bytes.len() == 0 {
        Err(DecodeError::Completed)
    } else {
        let byte0 = bytes[0];
        match opcode_of(opcode_field(byte0)) {
            Err(_) => Err(DecodeError::InvalidOpCode(opcode_field(byte0))),
            Ok(op) => match decode_shape(op, byte0, bytes.drop_first()) {
                Ok((v, n)) => Ok((v, n + 1)),
                Err(e) => Err(e),
            },
        }
    }
}

/// Every instruction takes its first byte, and at most 18 bytes in all.
pub proof fn lemma_decode_progress(bytes: Seq<u8>)
    ensures
        decode_spec(bytes) matches Ok((v, n)) ==> 1 <= n <= bytes.len() && n <= MAX_INSTRUCTION_LEN
            && v.bytecode == bytes.take(n as int),
{
    if bytes.len() > 0 {
        let rest = bytes.drop_first();
        assert(seq![bytes[0]] + rest == bytes);
        if let Ok((v, n)) = decode_spec(bytes) {
            assert(v.bytecode =~= bytes.take(n as int));
        }
    }
}

/// Decodes the instruction at the front of `bytes`.
pub fn decode_instruction(bytes: &mut ByteStream) -> (r: Result<Instruction, DecodeError>)
    ensures
        decodes_as(r, decode_spec(old(bytes).remaining()), old(bytes).remaining(), final(bytes).remaining()),
{
    let ghost all = old(bytes).remaining();
    let byte0 = match bytes.next() {
        Some(b) => b,
        None => {
            return Err(DecodeError::Completed);
        },
    };
    let byte0_bits = bits_rev(byte0);
    proof {
        lemma_bits_value_rev_bound(byte0_bits@.subrange(0, 6));
        lemma2_to64();
    }
    let op_value = bits_to_byte_rev(&byte0_bits[0..6]);
    let op = match OpCode::try_from(op_value) {
        Ok(op) => op,
        Err(_) => {
            return Err(DecodeError::InvalidOpCode(op_value));
        },
    };
    let ghost rest = bytes.remaining();
    let r = match op {
        OpCode::RET => parse_instruction1(bytes, byte0, byte0_bits, op),
        OpCode::JMP8 | OpCode::BREAK => parse_instruction2(bytes, byte0, byte0_bits, op),
        OpCode::CALL | OpCode::JMP | OpCode::PUSH | OpCode::PUSHn | OpCode::POP | OpCode::POPn => {
            parse_instruction3(bytes, byte0, byte0_bits, op)
        },
        OpCode::LOADSP | OpCode::STORESP => parse_instruction4(bytes, byte0, byte0_bits, op),
        OpCode::CMPIeq | OpCode::CMPIlte | OpCode::CMPIgte | OpCode::CMPIulte | OpCode::CMPIugte
        | OpCode::MOVI | OpCode::MOVIn | OpCode::MOVREL => parse_instruction5(bytes, byte0, byte0_bits, op),
        OpCode::MOVnw | OpCode::MOVnd | OpCode::MOVbw | OpCode::MOVww | OpCode::MOVdw | OpCode::MOVqw
        | OpCode::MOVbd | OpCode::MOVwd | OpCode::MOVdd | OpCode::MOVqd | OpCode::MOVqq | OpCode::MOVsnw
        | OpCode::MOVsnd => parse_instruction7(bytes, byte0, byte0_bits, op),
        _ => parse_instruction6(bytes, byte0, byte0_bits, op),
    };
    proof {
        if let Ok((v, n)) = decode_shape(op, byte0, rest) {
            assert(rest.skip(n as int) =~= all.skip(n + 1 as int));
        }
    }
    r
}

} // verus!
