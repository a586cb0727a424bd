//! LEB128: integers as groups of seven bits, least significant group first.
//! Every byte but the last carries the continuation flag in bit 7.

use vstd::prelude::*;

verus! {

/// The unsigned LEB128 encoding of `n`.
///
/// A value below 128 is its own single byte. Any other value gives its low
/// seven bits with the continuation flag, followed by the encoding of the
/// remaining bits.
pub open spec fn unsigned_leb128(n: nat) -> Seq<u8>
    decreases n,
{
    if n < 128 {
        seq![n as u8]
    } else {
        seq![(128 + n % 128) as u8] + unsigned_leb128(n / 128)
    }
}

/// The signed LEB128 encoding of `i`.
///
/// A value in `-64..64` is one byte: its seven-bit two's complement form, whose
/// bit 6 carries the sign. Any other value gives its low seven bits with the
/// continuation flag, followed by the encoding of the value shifted right
/// arithmetically by seven bits (the floor of `i / 128`).
pub open spec fn signed_leb128(i: int) -> Seq<u8>
    decreases (if i < 0 { -i } else { i }),
{
    if -64 <= i < 64 {
        seq![(i % 128) as u8]
    } else {
        seq![(128 + i % 128) as u8] + signed_leb128(i / 128)
    }
}

/// Reads one unsigned LEB128 integer from the front of `bytes`: its value and
/// the number of bytes it takes, or `None` where `bytes` ends before a byte
/// without the continuation flag.
pub open spec fn read_unsigned_leb128(bytes: Seq<u8>) -> Option<(nat, nat)>
    decreases bytes.len(),
{
    if bytes.len() == 0 {
        None
    } else if bytes[0] < 128 {
        Some((bytes[0] as nat, 1nat))
    } else {
        match read_unsigned_leb128(bytes.skip(1)) {
            Some((high, taken)) => Some(((bytes[0] - 128) as nat + 128 * high, taken + 1)),
            None => None,
        }
    }
}

/// Reads one signed LEB128 integer from the front of `bytes`, as
/// [`read_unsigned_leb128`] does; bit 6 of the last byte is the sign.
pub open spec fn read_signed_leb128(bytes: Seq<u8>) -> Option<(int, nat)>
    decreases bytes.len(),
{
    if bytes.len() == 0 {
        None
    } else if bytes[0] < 64 {
        Some((bytes[0] as int, 1nat))
    } else if bytes[0] < 128 {
        Some((bytes[0] - 128, 1nat))
    } else {
        match read_signed_leb128(bytes.skip(1)) {
            Some((high, taken)) => Some((bytes[0] - 128 + 128 * high, taken + 1)),
            None => None,
        }
    }
}

/// Reading gives back what was encoded: from the encoding of `n`, whatever
/// bytes follow it, a reader gets `n` and stops right behind it.
pub proof fn lemma_unsigned_leb128_round_trip(n: nat, tail: Seq<u8>)
    ensures
        read_unsigned_leb128(unsigned_leb128(n) + tail) == Some(
            (n, unsigned_leb128(n).len()),
        ),
    decreases n,
{
    let bytes = unsigned_leb128(n) + tail;
    if n < 128 {
        assert(bytes[0] == n);
    } else {
        lemma_unsigned_leb128_round_trip(n / 128, tail);
        assert(bytes[0] == 128 + n % 128);
        assert(bytes.skip(1) =~= unsigned_leb128(n / 128) + tail);
    }
}

/// Reading gives back what was encoded: from the encoding of `i`, whatever
/// bytes follow it, a reader gets `i` and stops right behind it.
pub proof fn lemma_signed_leb128_round_trip(i: int, tail: Seq<u8>)
    ensures
        read_signed_leb128(signed_leb128(i) + tail) == Some((i, signed_leb128(i).len())),
    decreases (if i < 0 { -i } else { i }),
{
    let bytes = signed_leb128(i) + tail;
    if -64 <= i < 64 {
        assert(bytes[0] == i % 128);
    } else {
        lemma_signed_leb128_round_trip(i / 128, tail);
        assert(bytes[0] == 128 + i % 128);
        assert(bytes.skip(1) =~= signed_leb128(i / 128) + tail);
    }
}

/// A 64-bit value takes at least one byte and at most ten.
pub proof fn lemma_unsigned_leb128_len(n: u64)
    ensures
        1 <= unsigned_leb128(n as nat).len() <= 10,
{
    reveal_with_fuel(unsigned_leb128, 10);
}

/// A 64-bit value takes at least one byte and at most ten.
pub proof fn lemma_signed_leb128_len(i: i64)
    ensures
        1 <= signed_leb128(i as int).len() <= 10,
{
    reveal_with_fuel(signed_leb128, 10);
}

/// What one round of the unsigned encoder computes with bit operations, as
/// arithmetic: the emitted byte and the bits that remain.
pub proof fn lemma_unsigned_group(rest: u64)
    ensures
        128u8 | (127u8 & (rest as u8)) == 128 + rest % 128,
        rest >> 7 == rest / 128,
        rest <= 127 ==> rest as u8 == rest,
{
    assert((128u8 | (127u8 & (rest as u8))) as u64 == 128u64 + rest % 128u64) by (bit_vector);
    assert(rest >> 7u64 == rest / 128u64) by (bit_vector);
    assert(rest <= 127u64 ==> (rest as u8) as u64 == rest) by (bit_vector);
}

/// What one round of the signed encoder computes with bit operations, as
/// arithmetic. The shift is arithmetic: it rounds towards negative infinity.
pub proof fn lemma_signed_group(rest: i64)
    ensures
        128u8 | (127u8 & (rest as u8)) == 128 + rest % 128,
        rest >> 7 == rest / 128,
        (rest as u8) & 127u8 == rest % 128,
{
    assert((128u8 | (127u8 & (rest as u8))) as i64 == 128i64 + rest % 128i64) by (bit_vector);
    assert(rest >> 7i64 == rest / 128i64) by (bit_vector);
    assert(((rest as u8) & 127u8) as i64 == rest % 128i64) by (bit_vector);
}

} // verus!
