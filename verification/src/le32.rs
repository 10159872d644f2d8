//! 32-bit little-endian fields inside byte buffers.

use byteorder::{ByteOrder, LittleEndian};
use vstd::prelude::*;

verus! {

/// Width in bytes of every integer field of the format.
pub const FIELD_LEN: usize = 4;

/// The four bytes that encode `value`, least significant byte first.
pub open spec fn le_bytes(value: u32) -> Seq<u8> {
    seq![
        (value % 0x100) as u8,
        ((value / 0x100) % 0x100) as u8,
        ((value / 0x1_0000) % 0x100) as u8,
        ((value / 0x100_0000) % 0x100) as u8,
    ]
}

/// The number that the first four bytes of `bytes` encode, least significant
/// byte first.
pub open spec fn le_value(bytes: Seq<u8>) -> int
    recommends
        bytes.len() >= 4,
{
    bytes[0] + 0x100 * bytes[1] + 0x1_0000 * bytes[2] + 0x100_0000 * bytes[3]
}

/// `buf` with `bytes` written over it from offset `at` on. A buffer that is
/// too short to hold them is first extended with zero bytes.
pub open spec fn write_at(buf: Seq<u8>, at: int, bytes: Seq<u8>) -> Seq<u8>
    recommends
        0 <= at,
{
    Seq::new(
        if buf.len() >= at + bytes.len() {
            buf.len()
        } else {
            (at + bytes.len()) as nat
        },
        |i: int|
            if at <= i < at + bytes.len() {
                bytes[i - at]
            } else if i < buf.len() {
                buf[i]
            } else {
                0u8
            },
    )
}

/// The number held by the field of `buf` that starts at offset `at`.
pub open spec fn field_at(buf: Seq<u8>, at: int) -> int
    recommends
        0 <= at,
        at + 4 <= buf.len(),
{
    le_value(buf.subrange(at, at + 4))
}

/// Decoding undoes encoding.
pub proof fn lemma_value_of_bytes(value: u32)
    ensures
        le_bytes(value).len() == 4,
        le_value(le_bytes(value)) == value,
{
}

/// A number below 256 with a multiple of 256 added splits back into the two.
proof fn lemma_split_byte(low: int, high: int)
    requires
        0 <= low < 0x100,
        0 <= high,
    ensures
        (low + 0x100 * high) % 0x100 == low,
        (low + 0x100 * high) / 0x100 == high,
{
    assert((low + 0x100 * high) % 0x100 == low && (low + 0x100 * high) / 0x100 == high)
        by (nonlinear_arith)
        requires
            0 <= low < 0x100,
            0 <= high,
    ;
}

/// Encoding undoes decoding.
pub proof fn lemma_bytes_of_value(bytes: Seq<u8>)
    requires
        bytes.len() == 4,
    ensures
        0 <= le_value(bytes) <= u32::MAX,
        le_bytes(le_value(bytes) as u32) == bytes,
{
    let b0 = bytes[0] as int;
    let b1 = bytes[1] as int;
    let b2 = bytes[2] as int;
    let b3 = bytes[3] as int;
    let v = le_value(bytes);
    assert(v == b0 + 0x100 * (b1 + 0x100 * (b2 + 0x100 * b3)));
    lemma_split_byte(b0, b1 + 0x100 * (b2 + 0x100 * b3));
    lemma_split_byte(b1, b2 + 0x100 * b3);
    lemma_split_byte(b2, b3);
    lemma_split_byte(b3, 0);
    assert(v / 0x100 == b1 + 0x100 * (b2 + 0x100 * b3));
    assert(v / 0x1_0000 == b2 + 0x100 * b3) by {
        assert(v / 0x1_0000 == (v / 0x100) / 0x100);
    }
    assert(v / 0x100_0000 == b3) by {
        assert(v / 0x100_0000 == (v / 0x1_0000) / 0x100);
    }
    let w = v as u32;
    assert(le_bytes(w)[0] == bytes[0]);
    assert(le_bytes(w)[1] == bytes[1]);
    assert(le_bytes(w)[2] == bytes[2]);
    assert(le_bytes(w)[3] == bytes[3]);
    assert(le_bytes(w) =~= bytes);
}

/// A field written with `write_at` reads back as the number written, and the
/// buffer is as long as before unless it had to grow to hold the field.
pub proof fn lemma_field_written(buf: Seq<u8>, at: int, value: u32)
    requires
        0 <= at,
    ensures
        write_at(buf, at, le_bytes(value)).len() == if buf.len() >= at + 4 {
            buf.len() as int
        } else {
            at + 4
        },
        field_at(write_at(buf, at, le_bytes(value)), at) == value,
{
    lemma_value_of_bytes(value);
    assert(write_at(buf, at, le_bytes(value)).subrange(at, at + 4) =~= le_bytes(value));
}

/// A write leaves every field that it does not overlap as it was.
pub proof fn lemma_field_kept(buf: Seq<u8>, at: int, bytes: Seq<u8>, other: int)
    requires
        0 <= at,
        0 <= other,
        other + 4 <= buf.len(),
        other + 4 <= at || at + bytes.len() <= other,
    ensures
        field_at(write_at(buf, at, bytes), other) == field_at(buf, other),
{
    assert(write_at(buf, at, bytes).subrange(other, other + 4) =~= buf.subrange(
        other,
        other + 4,
    ));
}

/// Decodes the first four bytes of `buf` with byteorder's
/// `LittleEndian::read_u32`: the result is the number that those bytes encode,
/// least significant byte first. The call panics on fewer than four bytes,
/// which the precondition excludes.
#[verifier::external_body]
fn read_u32_le(buf: &[u8]) -> (value: u32)
    requires
        buf@.len() >= 4,
    ensures
        value == le_value(buf@),
{
    LittleEndian::read_u32(buf)
}

/// Encodes `value` over the first four bytes of `buf` with byteorder's
/// `LittleEndian::write_u32`: those bytes become the encoding of `value`,
/// least significant byte first, and the rest of `buf` stays as it was. The
/// call panics on fewer than four bytes, which the precondition excludes.
#[verifier::external_body]
fn write_u32_le(buf: &mut Vec<u8>, value: u32)
    requires
        old(buf)@.len() >= 4,
    ensures
        final(buf)@ == le_bytes(value) + old(buf)@.subrange(4, old(buf)@.len() as int),
{
    LittleEndian::write_u32(buf, value)
}

/// The encoding of `value` as a buffer of its own.
pub fn encode(value: u32) -> (bytes: Vec<u8>)
    ensures
        bytes@ == le_bytes(value),
{
    let mut bytes: Vec<u8> = Vec::new();
    bytes.resize(FIELD_LEN, 0u8);
    write_u32_le(&mut bytes, value);
    bytes
}

/// Reads the field of `buf` that starts at offset `at`.
pub fn get_u32(buf: &[u8], at: usize) -> (value: u32)
    requires
        at + 4 <= buf.len(),
    ensures
        value == field_at(buf@, at as int),
{
    read_u32_le(vstd::slice::slice_subrange(buf, at, at + FIELD_LEN))
}

/// Writes `value` as the field of `buf` that starts at offset `at`, zero
/// extending `buf` first where it is too short to hold the field.
pub fn put_u32(buf: &mut Vec<u8>, at: usize, value: u32)
    requires
        at + 4 <= usize::MAX,
    ensures
        final(buf)@ == write_at(old(buf)@, at as int, le_bytes(value)),
{
    let bytes = encode(value);
    if buf.len() < at + FIELD_LEN {
        buf.resize(at + FIELD_LEN, 0u8);
    }
    let ghost grown = buf@;
    let mut i: usize = 0;
    while i < FIELD_LEN
        invariant
            i <= FIELD_LEN,
            at + FIELD_LEN <= buf.len(),
            buf@.len() == grown.len(),
            bytes@ == le_bytes(value),
            forall|j: int| 0 <= j < buf@.len() ==> buf@[j] == if at <= j < at + i {
                bytes@[j - at]
            } else {
                grown[j]
            },
        decreases FIELD_LEN - i,
    {
        buf[at + i] = bytes[i];
        i += 1;
    }
    assert(buf@ =~= write_at(old(buf)@, at as int, le_bytes(value)));
}

} // verus!
