//! Big-endian scalars at fixed positions of a byte sequence.
//!
//! Every multi-byte field of the font container is stored most significant
//! byte first. The spec functions here say which number a run of bytes
//! spells; the executable readers compute it, and the writers produce the
//! run of bytes for a number.
use vstd::prelude::*;

verus! {

/// The number spelled by the two bytes at `at`, most significant first.
pub open spec fn u16_be(bytes: Seq<u8>, at: int) -> u16 {
    (bytes[at] as int * 0x100 + bytes[at + 1] as int) as u16
}

/// The number spelled by the four bytes at `at`, most significant first.
pub open spec fn u32_be(bytes: Seq<u8>, at: int) -> u32 {
    (bytes[at] as int * 0x100_0000 + bytes[at + 1] as int * 0x1_0000 + bytes[at + 2] as int * 0x100
        + bytes[at + 3] as int) as u32
}

/// The number spelled by the eight bytes at `at`, most significant first.
pub open spec fn u64_be(bytes: Seq<u8>, at: int) -> u64 {
    (u32_be(bytes, at) as int * 0x1_0000_0000 + u32_be(bytes, at + 4) as int) as u64
}

/// The signed reading of a byte in two's complement.
pub open spec fn i8_of(raw: u8) -> i8 {
    if raw < 0x80 {
        raw as i8
    } else {
        (raw as int - 0x100) as i8
    }
}

/// The signed reading of a 16-bit word in two's complement.
pub open spec fn i16_of(raw: u16) -> i16 {
    if raw < 0x8000 {
        raw as i16
    } else {
        (raw as int - 0x1_0000) as i16
    }
}

/// The signed reading of a 32-bit word in two's complement.
pub open spec fn i32_of(raw: u32) -> i32 {
    if raw < 0x8000_0000 {
        raw as i32
    } else {
        (raw as int - 0x1_0000_0000) as i32
    }
}

/// The signed reading of a 64-bit word in two's complement.
pub open spec fn i64_of(raw: u64) -> i64 {
    if raw < 0x8000_0000_0000_0000 {
        raw as i64
    } else {
        (raw as int - 0x1_0000_0000_0000_0000) as i64
    }
}

/// The signed 16-bit number spelled by the two bytes at `at`.
pub open spec fn i16_be(bytes: Seq<u8>, at: int) -> i16 {
    i16_of(u16_be(bytes, at))
}

/// The signed 32-bit number spelled by the four bytes at `at`.
pub open spec fn i32_be(bytes: Seq<u8>, at: int) -> i32 {
    i32_of(u32_be(bytes, at))
}

/// The signed 64-bit number spelled by the eight bytes at `at`.
pub open spec fn i64_be(bytes: Seq<u8>, at: int) -> i64 {
    i64_of(u64_be(bytes, at))
}

/// Reads the unsigned 16-bit field that starts at `at`.
pub(crate) fn read_u16_be(bytes: &[u8], at: usize) -> (value: u16)
    requires
        at + 2 <= bytes@.len(),
    ensures
        value == u16_be(bytes@, at as int),
{
    let high: u16 = bytes[at] as u16;
    let low: u16 = bytes[at + 1] as u16;
    high * 0x100 + low
}

/// Reads the unsigned 32-bit field that starts at `at`.
pub(crate) fn read_u32_be(bytes: &[u8], at: usize) -> (value: u32)
    requires
        at + 4 <= bytes@.len(),
    ensures
        value == u32_be(bytes@, at as int),
{
    let b0: u32 = bytes[at] as u32;
    let b1: u32 = bytes[at + 1] as u32;
    let b2: u32 = bytes[at + 2] as u32;
    let b3: u32 = bytes[at + 3] as u32;
    b0 * 0x100_0000 + b1 * 0x1_0000 + b2 * 0x100 + b3
}

/// Reads the unsigned 64-bit field that starts at `at`.
pub(crate) fn read_u64_be(bytes: &[u8], at: usize) -> (value: u64)
    requires
        at + 8 <= bytes@.len(),
    ensures
        value == u64_be(bytes@, at as int),
{
    assert(bytes@.len() == bytes.len());
    let high: u64 = read_u32_be(bytes, at) as u64;
    let low: u64 = read_u32_be(bytes, at + 4) as u64;
    high * 0x1_0000_0000 + low
}

/// Reinterprets a byte as a signed number.
pub fn to_i8(raw: u8) -> (value: i8)
    ensures
        value == i8_of(raw),
{
    if raw < 0x80 {
        raw as i8
    } else {
        (raw as i16 - 0x100) as i8
    }
}

/// Reinterprets a 16-bit word as a signed number.
pub fn to_i16(raw: u16) -> (value: i16)
    ensures
        value == i16_of(raw),
{
    if raw < 0x8000 {
        raw as i16
    } else {
        (raw as i32 - 0x1_0000) as i16
    }
}

/// Reinterprets a 32-bit word as a signed number.
pub fn to_i32(raw: u32) -> (value: i32)
    ensures
        value == i32_of(raw),
{
    if raw < 0x8000_0000 {
        raw as i32
    } else {
        (raw as i64 - 0x1_0000_0000) as i32
    }
}

/// Reinterprets a 64-bit word as a signed number.
pub fn to_i64(raw: u64) -> (value: i64)
    ensures
        value == i64_of(raw),
{
    if raw < 0x8000_0000_0000_0000 {
        raw as i64
    } else {
        (raw as i128 - 0x1_0000_0000_0000_0000) as i64
    }
}

/// Reads the signed 16-bit field that starts at `at`.
pub(crate) fn read_i16_be(bytes: &[u8], at: usize) -> (value: i16)
    requires
        at + 2 <= bytes@.len(),
    ensures
        value == i16_be(bytes@, at as int),
{
    to_i16(read_u16_be(bytes, at))
}

/// Reads the signed 32-bit field that starts at `at`.
pub(crate) fn read_i32_be(bytes: &[u8], at: usize) -> (value: i32)
    requires
        at + 4 <= bytes@.len(),
    ensures
        value == i32_be(bytes@, at as int),
{
    to_i32(read_u32_be(bytes, at))
}

/// Reads the signed 64-bit field that starts at `at`.
pub(crate) fn read_i64_be(bytes: &[u8], at: usize) -> (value: i64)
    requires
        at + 8 <= bytes@.len(),
    ensures
        value == i64_be(bytes@, at as int),
{
    to_i64(read_u64_be(bytes, at))
}

/// The two bytes that spell `value`, most significant first.
pub open spec fn u16_be_bytes(value: u16) -> Seq<u8> {
    seq![(value / 0x100) as u8, (value % 0x100) as u8]
}

/// The four bytes that spell `value`, most significant first.
pub open spec fn u32_be_bytes(value: u32) -> Seq<u8> {
    seq![
        (value / 0x100_0000) as u8,
        (value / 0x1_0000 % 0x100) as u8,
        (value / 0x100 % 0x100) as u8,
        (value % 0x100) as u8,
    ]
}

/// Appends the two bytes that spell `value` to `out`.
pub fn push_u16_be(out: &mut Vec<u8>, value: u16)
    ensures
        final(out)@ == old(out)@ + u16_be_bytes(value),
{
    out.push((value / 0x100) as u8);
    out.push((value % 0x100) as u8);
    assert(out@ =~= old(out)@ + u16_be_bytes(value));
}

/// Appends the four bytes that spell `value` to `out`.
pub fn push_u32_be(out: &mut Vec<u8>, value: u32)
    ensures
        final(out)@ == old(out)@ + u32_be_bytes(value),
{
    out.push((value / 0x100_0000) as u8);
    out.push((value / 0x1_0000 % 0x100) as u8);
    out.push((value / 0x100 % 0x100) as u8);
    out.push((value % 0x100) as u8);
    assert(out@ =~= old(out)@ + u32_be_bytes(value));
}

/// Reading back the bytes written for a 16-bit number gives the number.
pub proof fn lemma_u16_be_of_bytes(value: u16)
    ensures
        u16_be_bytes(value).len() == 2,
        u16_be(u16_be_bytes(value), 0) == value,
{
}

/// Writing the number read from two bytes gives those two bytes.
pub proof fn lemma_u16_be_bytes_of_read(bytes: Seq<u8>, at: int)
    requires
        0 <= at,
        at + 2 <= bytes.len(),
    ensures
        u16_be_bytes(u16_be(bytes, at)) == bytes.subrange(at, at + 2),
{
    assert(u16_be_bytes(u16_be(bytes, at)) =~= bytes.subrange(at, at + 2));
}

/// Reading back the bytes written for a 32-bit number gives the number.
pub proof fn lemma_u32_be_of_bytes(value: u32)
    ensures
        u32_be_bytes(value).len() == 4,
        u32_be(u32_be_bytes(value), 0) == value,
{
    let v = value as int;
    let top = v / 0x100_0000;
    let upper = v / 0x1_0000;
    let lower = v / 0x100;
    assert(upper / 0x100 == top);
    assert(lower / 0x100 == upper);
    assert(upper == top * 0x100 + upper % 0x100);
    assert(lower == upper * 0x100 + lower % 0x100);
    assert(v == lower * 0x100 + v % 0x100);
}

/// Writing the number read from four bytes gives those four bytes.
pub proof fn lemma_u32_be_bytes_of_read(bytes: Seq<u8>, at: int)
    requires
        0 <= at,
        at + 4 <= bytes.len(),
    ensures
        u32_be_bytes(u32_be(bytes, at)) == bytes.subrange(at, at + 4),
{
    let b0 = bytes[at] as int;
    let b1 = bytes[at + 1] as int;
    let b2 = bytes[at + 2] as int;
    let b3 = bytes[at + 3] as int;
    let upper = b0 * 0x100 + b1;
    let lower = upper * 0x100 + b2;
    let v = lower * 0x100 + b3;
    assert(v == u32_be(bytes, at));
    assert(v / 0x100 == lower && v % 0x100 == b3);
    assert(lower / 0x100 == upper && lower % 0x100 == b2);
    assert(upper / 0x100 == b0 && upper % 0x100 == b1);
    assert(v / 0x1_0000 == upper) by {
        assert(v == upper * 0x1_0000 + (b2 * 0x100 + b3));
    }
    assert(v / 0x100_0000 == b0) by {
        assert(v == b0 * 0x100_0000 + (b1 * 0x1_0000 + b2 * 0x100 + b3));
    }
    assert(u32_be_bytes(u32_be(bytes, at)) =~= bytes.subrange(at, at + 4));
}

/// A copy of the bytes of `bytes` from place `from` up to, not including,
/// place `to`.
pub(crate) fn copy_range(bytes: &[u8], from: usize, to: usize) -> (copy: Vec<u8>)
    requires
        from <= to <= bytes@.len(),
    ensures
        copy@ == bytes@.subrange(from as int, to as int),
{
    let mut copy: Vec<u8> = Vec::with_capacity(to - from);
    let mut at: usize = from;
    while at < to
        invariant
            from <= at <= to <= bytes@.len(),
            copy@ == bytes@.subrange(from as int, at as int),
        decreases to - at,
    {
        copy.push(bytes[at]);
        assert(copy@ =~= bytes@.subrange(from as int, at + 1));
        at = at + 1;
    }
    copy
}

} // verus!
