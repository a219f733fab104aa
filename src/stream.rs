//! The byte source that instructions are decoded from.
use vstd::prelude::*;

verus! {

/// Why decoding stopped.
#[derive(Debug, Clone, Copy, PartialEq, Eq, Structural)]
pub enum DecodeError {
    /// The stream ended cleanly, between two instructions.
    Completed,
    /// The stream ended inside an instruction.
    UnexpectedEnd,
    /// The opcode field holds no known operation.
    InvalidOpCode(u8),
    /// An operand that must be indirect to carry data is direct.
    ImmediateNotSupported(crate::opcode::OpCode),
    /// The width field of an immediate holds the reserved value 0.
    ReservedWidth(crate::opcode::OpCode),
    /// `BREAK 0`: two zero bytes in a row, a program running into zeroed memory.
    RunawayBreak,
}

/// A sequence of bytes read front to back, never seeking backwards.
pub struct ByteStream {
    data: Vec<u8>,
    pos: usize,
}

impl ByteStream {
    #[verifier::type_invariant]
    spec fn inv(&self) -> bool {
        self.pos <= self.data@.len()
    }

    /// The bytes not read yet.
    pub closed spec fn remaining(&self) -> Seq<u8> {
        self.data@.subrange(self.pos as int, self.data@.len() as int)
    }

    /// A stream over `data`, positioned at its first byte.
    pub fn new(data: Vec<u8>) -> (s: Self)
        ensures
            s.remaining() == data@,
    {
        let s = ByteStream { data, pos: 0 };
        assert(s.remaining() =~= s.data@);
        s
    }

    /// Whether every byte has been read.
    pub fn is_empty(&self) -> (r: bool)
        ensures
            r == (self.remaining().len() == 0),
    {
        proof {
            use_type_invariant(self);
        }
        self.pos >= self.data.len()
    }

    /// Reads the next byte, if there is one.
    pub fn next(&mut self) -> (r: Option<u8>)
        ensures
            old(self).remaining().len() == 0 ==> r is None && final(self).remaining() == old(self).remaining(),
            old(self).remaining().len() > 0 ==> r == Some(old(self).remaining()[0])
                && final(self).remaining() == old(self).remaining().drop_first(),
    {
        proof {
            use_type_invariant(&*self);
        }
        if self.pos < self.data.len() {
            let b = self.data[self.pos];
            self.pos = self.pos + 1;
            assert(self.remaining() =~= old(self).remaining().drop_first());
            Some(b)
        } else {
            None
        }
    }
}

/// Reads the next `width` bytes; fails if fewer remain.
pub fn read_value(bytes: &mut ByteStream, width: usize) -> (r: Result<Vec<u8>, DecodeError>)
    ensures
        old(bytes).remaining().len() >= width <==> r is Ok,
        r is Err ==> r == Err::<Vec<u8>, DecodeError>(DecodeError::UnexpectedEnd),
        r matches Ok(v) ==> v@ == old(bytes).remaining().take(width as int)
            && final(bytes).remaining() == old(bytes).remaining().skip(width as int),
{
    let mut value: Vec<u8> = Vec::new();
    let mut i: usize = 0;
    while i < width
        invariant
            i <= width,
            i <= old(bytes).remaining().len(),
            value@ == old(bytes).remaining().take(i as int),
            bytes.remaining() == old(bytes).remaining().skip(i as int),
        decreases width - i,
    {
        match bytes.next() {
            Some(b) => {
                value.push(b);
                i = i + 1;
                assert(value@ =~= old(bytes).remaining().take(i as int));
                assert(bytes.remaining() =~= old(bytes).remaining().skip(i as int));
            },
            None => {
                return Err(DecodeError::UnexpectedEnd);
            },
        }
    }
    Ok(value)
}

/// Little-endian value of two bytes starting at `at`.
pub open spec fn le16(b: Seq<u8>, at: int) -> int {
    b[at] + 256 * b[at + 1]
}

/// Little-endian value of four bytes starting at `at`.
pub open spec fn le32(b: Seq<u8>, at: int) -> int {
    le16(b, at) + 65536 * le16(b, at + 2)
}

/// Little-endian value of eight bytes starting at `at`.
pub open spec fn le64(b: Seq<u8>, at: int) -> int {
    le32(b, at) + 4294967296 * le32(b, at + 4)
}

pub fn u16_from_le_bytes(b: &Vec<u8>) -> (r: u16)
    requires
        b@.len() == 2,
    ensures
        r == le16(b@, 0),
{
    b[0] as u16 + 256 * b[1] as u16
}

pub fn u32_from_le_bytes(b: &Vec<u8>) -> (r: u32)
    requires
        b@.len() == 4,
    ensures
        r == le32(b@, 0),
{
    b[0] as u32 + 256 * b[1] as u32 + 65536 * b[2] as u32 + 16777216 * b[3] as u32
}

pub fn u64_from_le_bytes(b: &Vec<u8>) -> (r: u64)
    requires
        b@.len() == 8,
    ensures
        r == le64(b@, 0),
{
    let low = b[0] as u64 + 256 * b[1] as u64 + 65536 * b[2] as u64 + 16777216 * b[3] as u64;
    let high = b[4] as u64 + 256 * b[5] as u64 + 65536 * b[6] as u64 + 16777216 * b[7] as u64;
    low + 4294967296 * high
}

} // verus!
