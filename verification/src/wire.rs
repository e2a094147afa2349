//! Little-endian scalar encodings shared by every field kind.
//!
//! Multi-byte integers travel least-significant byte first; 8-bit values are
//! endian-irrelevant. Signed values use the two's-complement reinterpretation
//! of the unsigned value of the same width. Booleans occupy one byte: any
//! nonzero byte decodes to `true`, and `true` always encodes canonically as 1.

use vstd::prelude::*;

verus! {

// ---------------------------------------------------------------------------
// Specification: what each scalar's bytes mean.
// ---------------------------------------------------------------------------

/// The unsigned 16-bit value stored as the little-endian bytes `b0, b1`.
pub open spec fn u16_le_of(b0: u8, b1: u8) -> u16 {
    (b0 + b1 * 0x100) as u16
}

/// The unsigned 32-bit value stored as the little-endian bytes `b0..b3`.
pub open spec fn u32_le_of(b0: u8, b1: u8, b2: u8, b3: u8) -> u32 {
    (b0 + b1 * 0x100 + b2 * 0x10000 + b3 * 0x1000000) as u32
}

/// Two's-complement reading of a 8-bit unsigned value.
pub open spec fn i8_of_u8(b: u8) -> i8 {
    if b < 0x80 {
        b as i8
    } else {
        (b - 0x100) as i8
    }
}

/// Two's-complement reading of a 16-bit unsigned value.
pub open spec fn i16_of_u16(v: u16) -> i16 {
    if v < 0x8000 {
        v as i16
    } else {
        (v - 0x10000) as i16
    }
}

/// Two's-complement reading of a 32-bit unsigned value.
pub open spec fn i32_of_u32(v: u32) -> i32 {
    if v < 0x80000000 {
        v as i32
    } else {
        (v - 0x100000000) as i32
    }
}

/// The unsigned carrier of a signed 8-bit value.
pub open spec fn u8_of_i8(v: i8) -> u8 {
    if v >= 0 {
        v as u8
    } else {
        (v + 0x100) as u8
    }
}

/// The unsigned carrier of a signed 16-bit value.
pub open spec fn u16_of_i16(v: i16) -> u16 {
    if v >= 0 {
        v as u16
    } else {
        (v + 0x10000) as u16
    }
}

/// The unsigned carrier of a signed 32-bit value.
pub open spec fn u32_of_i32(v: i32) -> u32 {
    if v >= 0 {
        v as u32
    } else {
        (v + 0x100000000) as u32
    }
}

/// The low byte of a 16-bit value.
pub open spec fn u16_lo(v: u16) -> u8 {
    (v % 0x100) as u8
}

/// The high byte of a 16-bit value.
pub open spec fn u16_hi(v: u16) -> u8 {
    (v / 0x100) as u8
}

/// Byte `k` (0 = least significant) of a 32-bit value.
pub open spec fn u32_byte(v: u32, k: int) -> u8 {
    if k == 0 {
        (v % 0x100) as u8
    } else if k == 1 {
        ((v / 0x100) % 0x100) as u8
    } else if k == 2 {
        ((v / 0x10000) % 0x100) as u8
    } else {
        (v / 0x1000000) as u8
    }
}

/// Little-endian encoding of an unsigned 16-bit value.
pub open spec fn enc_u16(v: u16) -> Seq<u8> {
    seq![u16_lo(v), u16_hi(v)]
}

/// Little-endian encoding of an unsigned 32-bit value.
pub open spec fn enc_u32(v: u32) -> Seq<u8> {
    seq![u32_byte(v, 0), u32_byte(v, 1), u32_byte(v, 2), u32_byte(v, 3)]
}

/// One-byte encoding of a signed 8-bit value.
pub open spec fn enc_i8(v: i8) -> Seq<u8> {
    seq![u8_of_i8(v)]
}

/// Little-endian encoding of a signed 16-bit value.
pub open spec fn enc_i16(v: i16) -> Seq<u8> {
    enc_u16(u16_of_i16(v))
}

/// Little-endian encoding of a signed 32-bit value.
pub open spec fn enc_i32(v: i32) -> Seq<u8> {
    enc_u32(u32_of_i32(v))
}

/// Canonical one-byte encoding of a boolean: 1 for true, 0 for false.
pub open spec fn enc_bool(v: bool) -> Seq<u8> {
    seq![if v { 1u8 } else { 0u8 }]
}

// ---------------------------------------------------------------------------
// Round-trip lemmas: decoding an encoding yields the value back.
// ---------------------------------------------------------------------------

/// Reassembling a 16-bit value from its low and high bytes is the identity.
pub proof fn lemma_u16_round_trip(v: u16)
    ensures
        u16_le_of(u16_lo(v), u16_hi(v)) == v,
{
    assert(v % 0x100 + (v / 0x100) * 0x100 == v) by (bit_vector);
}

/// Reassembling a 32-bit value from its four bytes is the identity.
pub proof fn lemma_u32_round_trip(v: u32)
    ensures
        u32_le_of(u32_byte(v, 0), u32_byte(v, 1), u32_byte(v, 2), u32_byte(v, 3)) == v,
{
    assert(v % 0x100 + ((v / 0x100) % 0x100) * 0x100 + ((v / 0x10000) % 0x100) * 0x10000 + (v
        / 0x1000000) * 0x1000000 == v) by (bit_vector);
}

/// The signed reading of a signed value's unsigned carrier is the identity.
pub proof fn lemma_i8_round_trip(v: i8)
    ensures
        i8_of_u8(u8_of_i8(v)) == v,
{
}

/// The signed reading of a signed value's unsigned carrier is the identity.
pub proof fn lemma_i16_round_trip(v: i16)
    ensures
        i16_of_u16(u16_of_i16(v)) == v,
{
}

/// The signed reading of a signed value's unsigned carrier is the identity.
pub proof fn lemma_i32_round_trip(v: i32)
    ensures
        i32_of_u32(u32_of_i32(v)) == v,
{
}

// ---------------------------------------------------------------------------
// Executable readers. Each reads at a fixed offset of the buffer.
// ---------------------------------------------------------------------------

/// Reads the unsigned 16-bit value stored little-endian at `pos`.
pub fn read_u16_le(b: &[u8], pos: usize) -> (v: u16)
    requires
        pos + 2 <= b@.len(),
    ensures
        v == u16_le_of(b@[pos as int], b@[pos + 1]),
{
    let b0: u8 = b[pos];
    let b1: u8 = b[pos + 1];
    b0 as u16 + (b1 as u16) * 0x100
}

/// Reads the unsigned 32-bit value stored little-endian at `pos`.
pub fn read_u32_le(b: &[u8], pos: usize) -> (v: u32)
    requires
        pos + 4 <= b@.len(),
    ensures
        v == u32_le_of(b@[pos as int], b@[pos + 1], b@[pos + 2], b@[pos + 3]),
{
    let b0: u8 = b[pos];
    let b1: u8 = b[pos + 1];
    let b2: u8 = b[pos + 2];
    let b3: u8 = b[pos + 3];
    b0 as u32 + (b1 as u32) * 0x100 + (b2 as u32) * 0x10000 + (b3 as u32) * 0x1000000
}

/// Reads the signed 8-bit value stored at `pos`.
pub fn read_i8(b: &[u8], pos: usize) -> (v: i8)
    requires
        pos < b@.len(),
    ensures
        v == i8_of_u8(b@[pos as int]),
{
    let raw: u8 = b[pos];
    if raw < 0x80 {
        raw as i8
    } else {
        ((raw as i16) - 0x100) as i8
    }
}

/// Reads the signed 16-bit value stored little-endian at `pos`.
pub fn read_i16_le(b: &[u8], pos: usize) -> (v: i16)
    requires
        pos + 2 <= b@.len(),
    ensures
        v == i16_of_u16(u16_le_of(b@[pos as int], b@[pos + 1])),
{
    let raw: u16 = read_u16_le(b, pos);
    if raw < 0x8000 {
        raw as i16
    } else {
        ((raw as i32) - 0x10000) as i16
    }
}

/// Reads the signed 32-bit value stored little-endian at `pos`.
pub fn read_i32_le(b: &[u8], pos: usize) -> (v: i32)
    requires
        pos + 4 <= b@.len(),
    ensures
        v == i32_of_u32(u32_le_of(b@[pos as int], b@[pos + 1], b@[pos + 2], b@[pos + 3])),
{
    let raw: u32 = read_u32_le(b, pos);
    if raw < 0x80000000 {
        raw as i32
    } else {
        ((raw as i64) - 0x100000000) as i32
    }
}

// ---------------------------------------------------------------------------
// Executable writers. Each appends an encoding to the output buffer.
// ---------------------------------------------------------------------------

/// Appends the little-endian encoding of an unsigned 16-bit value.
pub fn push_u16_le(out: &mut Vec<u8>, v: u16)
    ensures
        final(out)@ == old(out)@ + enc_u16(v),
{
    out.push((v % 0x100) as u8);
    out.push((v / 0x100) as u8);
    assert(final(out)@ =~= old(out)@ + enc_u16(v));
}

/// Appends the little-endian encoding of an unsigned 32-bit value.
pub fn push_u32_le(out: &mut Vec<u8>, v: u32)
    ensures
        final(out)@ == old(out)@ + enc_u32(v),
{
    out.push((v % 0x100) as u8);
    out.push(((v / 0x100) % 0x100) as u8);
    out.push(((v / 0x10000) % 0x100) as u8);
    out.push((v / 0x1000000) as u8);
    assert(final(out)@ =~= old(out)@ + enc_u32(v));
}

/// Appends the one-byte encoding of a signed 8-bit value.
pub fn push_i8(out: &mut Vec<u8>, v: i8)
    ensures
        final(out)@ == old(out)@ + enc_i8(v),
{
    let raw: u8 = if v >= 0 {
        v as u8
    } else {
        ((v as i16) + 0x100) as u8
    };
    out.push(raw);
    assert(final(out)@ =~= old(out)@ + enc_i8(v));
}

/// Appends the little-endian encoding of a signed 16-bit value.
pub fn push_i16_le(out: &mut Vec<u8>, v: i16)
    ensures
        final(out)@ == old(out)@ + enc_i16(v),
{
    let raw: u16 = if v >= 0 {
        v as u16
    } else {
        ((v as i32) + 0x10000) as u16
    };
    push_u16_le(out, raw);
}

/// Appends the little-endian encoding of a signed 32-bit value.
pub fn push_i32_le(out: &mut Vec<u8>, v: i32)
    ensures
        final(out)@ == old(out)@ + enc_i32(v),
{
    let raw: u32 = if v >= 0 {
        v as u32
    } else {
        ((v as i64) + 0x100000000) as u32
    };
    push_u32_le(out, raw);
}

/// Appends the canonical one-byte encoding of a boolean.
pub fn push_bool(out: &mut Vec<u8>, v: bool)
    ensures
        final(out)@ == old(out)@ + enc_bool(v),
{
    out.push(if v { 1u8 } else { 0u8 });
    assert(final(out)@ =~= old(out)@ + enc_bool(v));
}

/// Reads `N` raw bytes starting at `pos` into a fixed-size array.
pub fn read_array<const N: usize>(b: &[u8], pos: usize) -> (arr: [u8; N])
    requires
        pos + N <= b@.len(),
    ensures
        arr@ == b@.subrange(pos as int, pos + N),
{
    let n: usize = b.len();
    let mut arr: [u8; N] = [0u8; N];
    let mut j: usize = 0;
    while j < N
        invariant
            j <= N,
            pos + N <= n,
            n == b@.len(),
            arr@.len() == N,
            forall|k: int| 0 <= k < j ==> arr@[k] == b@[pos + k],
        decreases N - j,
    {
        arr[j] = b[pos + j];
        j += 1;
    }
    assert(arr@ =~= b@.subrange(pos as int, pos + N));
    arr
}

/// Appends `N` raw bytes verbatim.
pub fn push_array<const N: usize>(out: &mut Vec<u8>, arr: &[u8; N])
    ensures
        final(out)@ == old(out)@ + arr@,
{
    let mut j: usize = 0;
    while j < N
        invariant
            j <= N,
            out@ == old(out)@ + arr@.subrange(0, j as int),
        decreases N - j,
    {
        out.push(arr[j]);
        assert(out@ =~= old(out)@ + arr@.subrange(0, j + 1));
        j += 1;
    }
    assert(out@ =~= old(out)@ + arr@);
}

} // verus!
