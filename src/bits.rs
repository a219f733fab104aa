//! Bit-level views of fixed-width integers.
//!
//! Two orders are used: natural order, where index 0 is the most
//! significant bit, and flag order, where index 0 is the least significant
//! bit (so that index `k` is the bit that the instruction set calls bit `k`).
use vstd::prelude::*;
use vstd::arithmetic::power2::{pow2, lemma2_to64, lemma_pow2_strictly_increases, lemma_pow2_unfold, lemma_pow2_pos};

verus! {

/// Integer formed by `bits`, most significant bit first.
pub open spec fn bits_value(bits: Seq<bool>) -> nat
    decreases bits.len(),
{
    if bits.len() == 0 {
        0
    } else {
        2 * bits_value(bits.drop_last()) + (if bits.last() { 1nat } else { 0nat })
    }
}

/// Integer formed by `bits`, least significant bit first.
pub open spec fn bits_value_rev(bits: Seq<bool>) -> nat
    decreases bits.len(),
{
    if bits.len() == 0 {
        0
    } else {
        (if bits[0] { 1nat } else { 0nat }) + 2 * bits_value_rev(bits.drop_first())
    }
}

/// The 16 bits of `x` in natural order.
pub open spec fn bits16(x: u16) -> Seq<bool> {
    Seq::new(16, |i: int| (x >> ((15 - i) as u16)) & 1u16 == 1u16)
}

/// The 32 bits of `x` in natural order.
pub open spec fn bits32(x: u32) -> Seq<bool> {
    Seq::new(32, |i: int| (x >> ((31 - i) as u32)) & 1u32 == 1u32)
}

/// The 64 bits of `x` in natural order.
pub open spec fn bits64(x: u64) -> Seq<bool> {
    Seq::new(64, |i: int| (x >> ((63 - i) as u64)) & 1u64 == 1u64)
}

/// The 8 bits of `x` in flag order.
pub open spec fn flag_bits(x: u8) -> Seq<bool> {
    Seq::new(8, |i: int| (x >> (i as u8)) & 1u8 == 1u8)
}

/// A sequence of `n` bits is worth less than `2^n`.
pub proof fn lemma_bits_value_bound(bits: Seq<bool>)
    ensures
        bits_value(bits) < pow2(bits.len()),
    decreases bits.len(),
{
    if bits.len() > 0 {
        lemma_bits_value_bound(bits.drop_last());
        lemma_pow2_unfold(bits.len());
    } else {
        lemma_pow2_pos(0);
    }
}

/// A sequence of `n` bits in flag order is worth less than `2^n`.
pub proof fn lemma_bits_value_rev_bound(bits: Seq<bool>)
    ensures
        bits_value_rev(bits) < pow2(bits.len()),
    decreases bits.len(),
{
    if bits.len() > 0 {
        lemma_bits_value_rev_bound(bits.drop_first());
        lemma_pow2_unfold(bits.len());
    } else {
        lemma_pow2_pos(0);
    }
}

proof fn lemma_bits_value_step(bits: Seq<bool>, i: int)
    requires
        0 <= i < bits.len(),
    ensures
        bits_value(bits.take(i + 1)) == 2 * bits_value(bits.take(i)) + (if bits[i] { 1nat } else { 0nat }),
{
    assert(bits.take(i + 1).drop_last() =~= bits.take(i));
}

proof fn lemma_bits_value_rev_step(bits: Seq<bool>, i: int)
    requires
        0 <= i < bits.len(),
    ensures
        bits_value_rev(bits.skip(i)) == (if bits[i] { 1nat } else { 0nat }) + 2 * bits_value_rev(bits.skip(i + 1)),
{
    assert(bits.skip(i).drop_first() =~= bits.skip(i + 1));
}

/// Powers of two grow with the exponent.
pub proof fn lemma_pow2_mono(a: nat, b: nat)
    requires
        a <= b,
    ensures
        pow2(a) <= pow2(b),
{
    if a < b {
        lemma_pow2_strictly_increases(a, b);
    }
}

/// Splits `byte` into its 16 bits, most significant first.
pub fn bits_u16(byte: u16) -> (bits: [bool; 16])
    ensures
        bits@ == bits16(byte),
{
    let mut bits = [false; 16];
    let mut i: usize = 0;
    while i < 16
        invariant
            i <= 16,
            bits@.len() == 16,
            forall|j: int| 0 <= j < i ==> bits@[j] == bits16(byte)[j],
        decreases 16 - i,
    {
        let shift: u16 = 15 - i as u16;
        bits[i] = (byte >> shift) & 1u16 == 1u16;
        i = i + 1;
    }
    assert(bits@ =~= bits16(byte));
    bits
}

/// Integer formed by at most 16 bits, most significant first.
pub fn bits_to_byte_u16(bits: &[bool]) -> (byte: u16)
    requires
        bits@.len() <= 16,
    ensures
        byte == bits_value(bits@),
{
    let mut byte: u16 = 0;
    let mut i: usize = 0;
    while i < bits.len()
        invariant
            i <= bits@.len() <= 16,
            byte == bits_value(bits@.take(i as int)),
        decreases bits@.len() - i,
    {
        proof {
            lemma_bits_value_step(bits@, i as int);
            lemma_bits_value_bound(bits@.take(i as int + 1));
            lemma_pow2_mono((i + 1) as nat, 16);
            lemma2_to64();
        }
        byte = 2 * byte + if bits[i] { 1u16 } else { 0u16 };
        i = i + 1;
    }
    assert(bits@.take(bits@.len() as int) =~= bits@);
    byte
}

/// Splits `byte` into its 32 bits, most significant first.
pub fn bits_u32(byte: u32) -> (bits: [bool; 32])
    ensures
        bits@ == bits32(byte),
{
    let mut bits = [false; 32];
    let mut i: usize = 0;
    while i < 32
        invariant
            i <= 32,
            bits@.len() == 32,
            forall|j: int| 0 <= j < i ==> bits@[j] == bits32(byte)[j],
        decreases 32 - i,
    {
        let shift: u32 = 31 - i as u32;
        bits[i] = (byte >> shift) & 1u32 == 1u32;
        i = i + 1;
    }
    assert(bits@ =~= bits32(byte));
    bits
}

/// Integer formed by at most 32 bits, most significant first.
pub fn bits_to_byte_u32(bits: &[bool]) -> (byte: u32)
    requires
        bits@.len() <= 32,
    ensures
        byte == bits_value(bits@),
{
    let mut byte: u32 = 0;
    let mut i: usize = 0;
    while i < bits.len()
        invariant
            i <= bits@.len() <= 32,
            byte == bits_value(bits@.take(i as int)),
        decreases bits@.len() - i,
    {
        proof {
            lemma_bits_value_step(bits@, i as int);
            lemma_bits_value_bound(bits@.take(i as int + 1));
            lemma_pow2_mono((i + 1) as nat, 32);
            lemma2_to64();
        }
        byte = 2 * byte + if bits[i] { 1u32 } else { 0u32 };
        i = i + 1;
    }
    assert(bits@.take(bits@.len() as int) =~= bits@);
    byte
}

/// Splits `byte` into its 64 bits, most significant first.
pub fn bits_u64(byte: u64) -> (bits: [bool; 64])
    ensures
        bits@ == bits64(byte),
{
    let mut bits = [false; 64];
    let mut i: usize = 0;
    while i < 64
        invariant
            i <= 64,
            bits@.len() == 64,
            forall|j: int| 0 <= j < i ==> bits@[j] == bits64(byte)[j],
        decreases 64 - i,
    {
        let shift: u64 = 63 - i as u64;
        bits[i] = (byte >> shift) & 1u64 == 1u64;
        i = i + 1;
    }
    assert(bits@ =~= bits64(byte));
    bits
}

/// Integer formed by at most 64 bits, most significant first.
pub fn bits_to_byte_u64(bits: &[bool]) -> (byte: u64)
    requires
        bits@.len() <= 64,
    ensures
        byte == bits_value(bits@),
{
    let mut byte: u64 = 0;
    let mut i: usize = 0;
    while i < bits.len()
        invariant
            i <= bits@.len() <= 64,
            byte == bits_value(bits@.take(i as int)),
        decreases bits@.len() - i,
    {
        proof {
            lemma_bits_value_step(bits@, i as int);
            lemma_bits_value_bound(bits@.take(i as int + 1));
            lemma_pow2_mono((i + 1) as nat, 64);
            lemma2_to64();
        }
        byte = 2 * byte + if bits[i] { 1u64 } else { 0u64 };
        i = i + 1;
    }
    assert(bits@.take(bits@.len() as int) =~= bits@);
    byte
}

/// Splits `byte` into its 8 bits in flag order: index `k` holds bit `k`.
pub fn bits_rev(byte: u8) -> (bits: [bool; 8])
    ensures
        bits@ == flag_bits(byte),
{
    let mut bits = [false; 8];
    let mut i: usize = 0;
    while i < 8
        invariant
            i <= 8,
            bits@.len() == 8,
            forall|j: int| 0 <= j < i ==> bits@[j] == flag_bits(byte)[j],
        decreases 8 - i,
    {
        let shift: u8 = i as u8;
        bits[i] = (byte >> shift) & 1u8 == 1u8;
        i = i + 1;
    }
    assert(bits@ =~= flag_bits(byte));
    bits
}

/// Integer formed by at most 8 bits given in flag order.
pub fn bits_to_byte_rev(bits: &[bool]) -> (byte: u8)
    requires
        bits@.len() <= 8,
    ensures
        byte == bits_value_rev(bits@),
{
    let mut byte: u8 = 0;
    let mut i: usize = bits.len();
    while i > 0
        invariant
            i <= bits@.len() <= 8,
            byte == bits_value_rev(bits@.skip(i as int)),
        decreases i,
    {
        proof {
            lemma_bits_value_rev_step(bits@, i - 1);
            lemma_bits_value_rev_bound(bits@.skip(i - 1));
            lemma_pow2_mono((bits@.len() - (i - 1)) as nat, 8);
            lemma2_to64();
        }
        byte = 2 * byte + if bits[i - 1] { 1u8 } else { 0u8 };
        i = i - 1;
    }
    assert(bits@.skip(0) =~= bits@);
    byte
}

} // verus!
