//! One buffer element: three 32-bit floats, tightly packed.
//!
//! A float is held as its IEEE-754 single-precision bit pattern, so that an
//! element is compared bit for bit. The kernel only ever stores small
//! non-negative integers, and those have an exact pattern, which
//! [`index_bits`] computes.

use vstd::prelude::*;
use vstd::pervasive::runtime_assert;
use vstd::arithmetic::power2::{pow2, lemma_pow2_unfold, lemma_pow2_pos, lemma2_to64};

verus! {

/// Bytes in one element.
pub const RECORD_BYTES: usize = 12;

/// Integers below this are exact in single precision: the mantissa has 24 bits.
pub const EXACT_LIMIT: u32 = 0x100_0000;

/// The position of the highest set bit of `n`; 0 for 0 and 1.
pub open spec fn floor_log2(n: nat) -> nat
    decreases n,
{
    if n <= 1 {
        0
    } else {
        1 + floor_log2(n / 2)
    }
}

/// The single-precision bit pattern of the integer `n`, for `n < 2^24`.
///
/// Zero is all zero bits. Otherwise `n` lies in `[2^e, 2^(e+1))`; the sign is
/// 0, the biased exponent is `127 + e`, and the 23 mantissa bits hold
/// `n - 2^e` moved up to the top.
pub open spec fn float_bits(n: nat) -> nat {
    if n == 0 {
        0
    } else {
        let e = floor_log2(n);
        ((127 + e) * pow2(23) + (n - pow2(e)) * pow2((23 - e) as nat)) as nat
    }
}

/// The integer that a bit pattern denotes, where it denotes one: the inverse
/// of [`float_bits`] on its range.
pub open spec fn float_integer(bits: nat) -> nat {
    if bits == 0 {
        0
    } else {
        let e = (bits / pow2(23) - 127) as nat;
        let mantissa = bits % pow2(23);
        pow2(e) + mantissa / pow2((23 - e) as nat)
    }
}

/// `floor_log2(n)` is the one exponent `e` with `2^e <= n < 2^(e+1)`.
pub proof fn floor_log2_unique(n: nat, e: nat)
    requires
        pow2(e) <= n < pow2(e + 1),
    ensures
        floor_log2(n) == e,
    decreases e,
{
    lemma_pow2_unfold(e + 1);
    lemma_pow2_pos(e);
    if e == 0 {
        lemma2_to64();
    } else {
        lemma_pow2_unfold(e);
        floor_log2_unique(n / 2, (e - 1) as nat);
    }
}

/// A positive `n` lies between the power of two at `floor_log2(n)` and the next.
pub proof fn floor_log2_bounds(n: nat)
    requires
        n >= 1,
    ensures
        pow2(floor_log2(n)) <= n < pow2(floor_log2(n) + 1),
    decreases n,
{
    if n <= 1 {
        lemma2_to64();
    } else {
        floor_log2_bounds(n / 2);
        lemma_pow2_unfold(floor_log2(n / 2) + 1);
        lemma_pow2_unfold(floor_log2(n / 2) + 2);
    }
}

/// The bit pattern of a small integer reads back as that integer.
pub proof fn float_bits_round_trip(n: nat)
    requires
        n < pow2(24),
    ensures
        float_integer(float_bits(n)) == n,
        float_bits(n) < pow2(32),
{
    lemma2_to64();
    if n > 0 {
        let e = floor_log2(n);
        floor_log2_bounds(n);
        assert(e <= 23) by {
            if e >= 24 {
                pow2_monotone(24, e);
            }
        }
        let scale = pow2((23 - e) as nat);
        let low = (n - pow2(e)) as nat;
        lemma_pow2_unfold(e + 1);
        lemma_pow2_pos((23 - e) as nat);
        vstd::arithmetic::power2::lemma_pow2_adds(e, (23 - e) as nat);
        assert(low * scale < pow2(23)) by (nonlinear_arith)
            requires
                low < pow2(e),
                scale > 0,
                pow2(e) * scale == pow2(23),
        ;
        let bits = float_bits(n);
        assert(bits == (127 + e) * pow2(23) + low * scale);
        vstd::arithmetic::div_mod::lemma_fundamental_div_mod_converse(
            bits as int,
            pow2(23) as int,
            (127 + e) as int,
            (low * scale) as int,
        );
        assert(bits / pow2(23) == 127 + e);
        assert(bits % pow2(23) == low * scale);
        vstd::arithmetic::div_mod::lemma_div_multiples_vanish(low as int, scale as int);
        assert((low * scale) / scale == low);
        assert((127 + e) * pow2(23) + low * scale < pow2(32)) by (nonlinear_arith)
            requires
                e <= 23,
                low * scale < pow2(23),
                pow2(23) == 0x800000,
                pow2(32) == 0x100000000,
        ;
    }
}

proof fn pow2_monotone(a: nat, b: nat)
    requires
        a <= b,
    ensures
        pow2(a) <= pow2(b),
    decreases b - a,
{
    if a < b {
        pow2_monotone(a, (b - 1) as nat);
        lemma_pow2_unfold(b);
    }
}

/// The bit pattern of `n` as a float.
pub fn index_bits(n: u32) -> (bits: u32)
    requires
        n < EXACT_LIMIT,
    ensures
        bits == float_bits(n as nat),
{
    runtime_assert(n < EXACT_LIMIT);
    if n == 0 {
        return 0;
    }
    let mut e: u32 = 0;
    let mut top: u32 = 1;
    let mut scale: u32 = 0x80_0000;
    proof {
        lemma2_to64();
    }
    while n - top >= top
        invariant
            1 <= top <= n < 0x100_0000,
            e <= 23,
            top == pow2(e as nat),
            scale == pow2((23 - e) as nat),
            top * scale == 0x80_0000,
        decreases n - top,
    {
        proof {
            lemma2_to64();
            assert(e < 23);
            lemma_pow2_unfold((e + 1) as nat);
            lemma_pow2_unfold((23 - e) as nat);
            lemma_pow2_pos((23 - e) as nat);
            assert((2 * top) * (scale / 2) == 0x80_0000) by (nonlinear_arith)
                requires
                    top * scale == 0x80_0000,
                    scale % 2 == 0,
            ;
        }
        top = top * 2;
        scale = scale / 2;
        e = e + 1;
    }
    proof {
        lemma_pow2_unfold((e + 1) as nat);
        floor_log2_unique(n as nat, e as nat);
        assert((n - top) * scale < 0x80_0000) by (nonlinear_arith)
            requires
                n - top < top,
                scale > 0,
                top * scale == 0x80_0000,
                top <= n,
        ;
        assert((127 + e) * 0x80_0000 <= 150 * 0x80_0000) by (nonlinear_arith)
            requires
                e <= 23,
        ;
    }
    (127 + e) * 0x80_0000 + (n - top) * scale
}

/// The four bytes of a word, least significant first.
pub open spec fn word_bytes(w: u32) -> Seq<u8> {
    seq![
        (w % 256) as u8,
        ((w / 256) % 256) as u8,
        ((w / 65536) % 256) as u8,
        (w / 16777216) as u8,
    ]
}

/// The word that four bytes hold, least significant first.
pub open spec fn bytes_word(b: Seq<u8>) -> u32 {
    (b[0] + 256 * b[1] + 65536 * b[2] + 16777216 * b[3]) as u32
}

/// Four bytes hold one word, and that word's bytes are those four.
pub proof fn bytes_word_round_trip(b: Seq<u8>)
    requires
        b.len() == 4,
    ensures
        word_bytes(bytes_word(b)) == b,
{
    let sum = b[0] + 256 * b[1] + 65536 * b[2] + 16777216 * b[3];
    assert(0 <= sum < 0x1_0000_0000);
    let w = bytes_word(b);
    assert(w == sum);
    assert(w % 256 == b[0]);
    assert((w / 256) % 256 == b[1]);
    assert((w / 65536) % 256 == b[2]);
    assert(w / 16777216 == b[3]);
    assert(word_bytes(w) =~= b);
}

/// A word's four bytes hold that word.
pub proof fn word_bytes_round_trip(w: u32)
    ensures
        word_bytes(w).len() == 4,
        bytes_word(word_bytes(w)) == w,
{
}

/// An element of the buffer: the bit patterns of its three floats.
#[derive(Debug, Clone, Copy, PartialEq, Eq, Structural)]
pub struct Record {
    pub x: u32,
    pub y: u32,
    pub z: u32,
}

impl Record {
    /// The twelve bytes of the element as the device holds them.
    pub open spec fn spec_encode(self) -> Seq<u8> {
        word_bytes(self.x) + word_bytes(self.y) + word_bytes(self.z)
    }

    /// The element that twelve bytes hold.
    pub open spec fn spec_decode(bytes: Seq<u8>) -> Record {
        Record {
            x: bytes_word(bytes.subrange(0, 4)),
            y: bytes_word(bytes.subrange(4, 8)),
            z: bytes_word(bytes.subrange(8, 12)),
        }
    }

    /// The element whose three floats all equal the integer `n`.
    pub open spec fn spec_of_index(n: nat) -> Record {
        Record { x: float_bits(n) as u32, y: float_bits(n) as u32, z: float_bits(n) as u32 }
    }

    /// Decoding what was encoded gives the element back, and the encoding is
    /// always twelve bytes long.
    pub proof fn encode_round_trip(self)
        ensures
            self.spec_encode().len() == RECORD_BYTES,
            Record::spec_decode(self.spec_encode()) == self,
    {
        let b = self.spec_encode();
        word_bytes_round_trip(self.x);
        word_bytes_round_trip(self.y);
        word_bytes_round_trip(self.z);
        assert(b.subrange(0, 4) =~= word_bytes(self.x));
        assert(b.subrange(4, 8) =~= word_bytes(self.y));
        assert(b.subrange(8, 12) =~= word_bytes(self.z));
    }

    /// Encoding what was decoded gives the twelve bytes back.
    pub proof fn decode_round_trip(bytes: Seq<u8>)
        requires
            bytes.len() == RECORD_BYTES,
        ensures
            Record::spec_decode(bytes).spec_encode() == bytes,
    {
        bytes_word_round_trip(bytes.subrange(0, 4));
        bytes_word_round_trip(bytes.subrange(4, 8));
        bytes_word_round_trip(bytes.subrange(8, 12));
        assert(bytes.subrange(0, 4) + bytes.subrange(4, 8) + bytes.subrange(8, 12) =~= bytes);
    }

    /// The element with all three floats zero.
    pub fn zero() -> (record: Record)
        ensures
            record == Record::spec_of_index(0),
    {
        Record { x: 0, y: 0, z: 0 }
    }

    /// The element that the kernel stores at index `n`.
    pub fn of_index(n: u32) -> (record: Record)
        requires
            n < EXACT_LIMIT,
        ensures
            record == Record::spec_of_index(n as nat),
    {
        let bits = index_bits(n);
        Record { x: bits, y: bits, z: bits }
    }

    /// The twelve bytes of the element.
    pub fn encode(&self) -> (bytes: Vec<u8>)
        ensures
            bytes@ == self.spec_encode(),
    {
        let mut bytes: Vec<u8> = Vec::new();
        push_word(&mut bytes, self.x);
        push_word(&mut bytes, self.y);
        push_word(&mut bytes, self.z);
        proof {
            assert(bytes@ =~= self.spec_encode());
        }
        bytes
    }

    /// Reads the element that starts at byte `at`.
    pub fn decode_at(bytes: &[u8], at: usize) -> (record: Record)
        requires
            at + RECORD_BYTES <= bytes@.len(),
        ensures
            record == Record::spec_decode(bytes@.subrange(at as int, at + RECORD_BYTES)),
    {
        let total: usize = bytes.len();
        runtime_assert(at <= total && total - at >= RECORD_BYTES);
        proof {
            let part = bytes@.subrange(at as int, at + RECORD_BYTES);
            assert(part.subrange(0, 4) =~= bytes@.subrange(at as int, at + 4));
            assert(part.subrange(4, 8) =~= bytes@.subrange(at + 4, at + 8));
            assert(part.subrange(8, 12) =~= bytes@.subrange(at + 8, at + 12));
        }
        Record { x: word_at(bytes, at), y: word_at(bytes, at + 4), z: word_at(bytes, at + 8) }
    }

    /// Reads an element from exactly twelve bytes; any other length holds none.
    pub fn decode(bytes: &[u8]) -> (record: Option<Record>)
        ensures
            bytes@.len() == RECORD_BYTES ==> record == Some(Record::spec_decode(bytes@)),
            bytes@.len() != RECORD_BYTES ==> record is None,
    {
        if bytes.len() != RECORD_BYTES {
            return None;
        }
        assert(bytes@.subrange(0, 12) =~= bytes@);
        Some(Record::decode_at(bytes, 0))
    }
}

fn push_word(bytes: &mut Vec<u8>, w: u32)
    ensures
        final(bytes)@ == old(bytes)@ + word_bytes(w),
{
    bytes.push((w % 256) as u8);
    bytes.push(((w / 256) % 256) as u8);
    bytes.push(((w / 65536) % 256) as u8);
    bytes.push((w / 16777216) as u8);
    proof {
        assert(bytes@ =~= old(bytes)@ + word_bytes(w));
    }
}

fn word_at(bytes: &[u8], at: usize) -> (w: u32)
    requires
        at + 4 <= bytes@.len(),
    ensures
        w == bytes_word(bytes@.subrange(at as int, at + 4)),
{
    let b0: u32 = bytes[at] as u32;
    let b1: u32 = bytes[at + 1] as u32;
    let b2: u32 = bytes[at + 2] as u32;
    let b3: u32 = bytes[at + 3] as u32;
    b0 + 256 * b1 + 65536 * b2 + 16777216 * b3
}

} // verus!
