//! The message framing layer: a versioned envelope around one payload.
//!
//! A frame is `[version][cmd][len][header checksum][payload][payload
//! checksum]`. The version byte is 0x3E for protocol v1 and 0x24 for v2; the
//! header checksum is `(cmd + len) mod 256` in both versions; the payload
//! checksum is the 8-bit additive sum of the payload in v1, and in v2 the
//! CRC-16/ARC (polynomial 0x8005, reflected, initial value 0, no final XOR)
//! of the payload, stored little-endian.
//!
//! On any parse failure the caller's buffer is untouched — parsing never
//! consumes bytes — so a caller that got `InsufficientData` can retry with
//! more input.

use crate::board_info::BoardInfo;
use crate::commands::{
    IncomingCommand, OutgoingCommand, CMD_BOARD_INFO, CMD_BOARD_INFO_3, CMD_CONTROL,
    CMD_GET_ANGLES, CMD_GET_ANGLES_EXT, CMD_MOTORS_OFF, CMD_MOTORS_ON, CMD_READ_PARAMS,
    CMD_READ_PARAMS_3, CMD_READ_PARAMS_EXT, CMD_READ_PARAMS_EXT2, CMD_READ_PARAMS_EXT3,
    CMD_WRITE_PARAMS, CMD_WRITE_PARAMS_3,
};
use crate::control::ControlData;
use crate::get_angles::AngleInfo;
use crate::motors_off::MotorsOffMode;
use crate::payload::{invalid_enum, Payload, PayloadParseError};
use crate::read_params::{Params3Data, ParamsQuery};
use crate::rpy::RollPitchYaw;
use crate::wire;
use vstd::arithmetic::div_mod::lemma_add_mod_noop;
use vstd::prelude::*;
use vstd::slice::slice_to_vec;

verus! {

/// The start byte of a protocol v1 frame.
pub const VERSION_BYTE_V1: u8 = 0x3E;

/// The start byte of a protocol v2 frame.
pub const VERSION_BYTE_V2: u8 = 0x24;

/// Why a frame failed to parse.
#[derive(Clone, Debug, PartialEq)]
pub enum MessageParseError {
    /// The first byte is neither version marker.
    BadVersionCode,
    /// The command id is zero (reserved), or no command table entry exists
    /// for it.
    BadCommandId { id: u8 },
    /// The stored header checksum does not match `(cmd + len) mod 256`.
    BadHeaderChecksum { expected: u8, actual: u8 },
    /// The stored payload checksum does not match the recomputed one.
    BadPayloadChecksum { expected: u16, actual: u16 },
    /// The buffer does not yet hold the whole frame.
    InsufficientData,
    /// The frame was sound but its payload was not.
    PayloadParse(PayloadParseError),
}

// ---------------------------------------------------------------------------
// Checksums.
// ---------------------------------------------------------------------------

/// The integer sum of a byte sequence.
pub open spec fn sum_int(s: Seq<u8>) -> int
    decreases s.len(),
{
    if s.len() == 0 {
        0
    } else {
        sum_int(s.drop_last()) + s.last()
    }
}

/// The v1 payload checksum: the sum of the bytes, modulo 256.
pub open spec fn sum8(s: Seq<u8>) -> u8 {
    (sum_int(s) % 256) as u8
}

/// The byte sum is never negative.
proof fn lemma_sum_int_nonneg(s: Seq<u8>)
    ensures
        sum_int(s) >= 0,
    decreases s.len(),
{
    if s.len() > 0 {
        lemma_sum_int_nonneg(s.drop_last());
    }
}

/// Replacing one byte shifts the sum by the bytes' difference.
proof fn lemma_sum_int_update(s: Seq<u8>, j: int, v: u8)
    requires
        0 <= j < s.len(),
    ensures
        sum_int(s.update(j, v)) == sum_int(s) - s[j] + v,
    decreases s.len(),
{
    let t = s.update(j, v);
    if j == s.len() - 1 {
        assert(t.drop_last() =~= s.drop_last());
    } else {
        assert(t.drop_last() =~= s.drop_last().update(j, v));
        lemma_sum_int_update(s.drop_last(), j, v);
    }
}

/// Changing one payload byte always changes the v1 checksum.
pub proof fn lemma_sum8_corrupt(s: Seq<u8>, j: int, v: u8)
    requires
        0 <= j < s.len(),
        v != s[j],
    ensures
        sum8(s.update(j, v)) != sum8(s),
{
    lemma_sum_int_update(s, j, v);
    lemma_sum_int_nonneg(s);
    let a = sum_int(s);
    let b = sum_int(s.update(j, v));
    assert(b == a - s[j] + v);
    assert(a % 256 != b % 256) by (nonlinear_arith)
        requires
            a >= 0,
            b == a - s[j] + v,
            0 <= s[j] < 256,
            0 <= v < 256,
            v != s[j],
    ;
}

/// Computes the v1 payload checksum: the 8-bit additive sum of the buffer.
pub fn checksum_bgc_v1(buf: &[u8]) -> (r: u8)
    ensures
        r == sum8(buf@),
{
    let n: usize = buf.len();
    let mut acc: u8 = 0;
    let mut i: usize = 0;
    while i < n
        invariant
            i <= n,
            n == buf@.len(),
            acc == sum8(buf@.take(i as int)),
        decreases n - i,
    {
        proof {
            lemma_sum_int_nonneg(buf@.take(i as int));
            lemma_add_mod_noop(sum_int(buf@.take(i as int)), buf@[i as int] as int, 256);
            assert(buf@.take(i + 1).drop_last() =~= buf@.take(i as int));
        }
        acc = ((acc as u16 + buf[i] as u16) % 256) as u8;
        i += 1;
    }
    proof {
        assert(buf@.take(n as int) =~= buf@);
    }
    acc
}

/// One CRC-16/ARC register step. The ARC parameters are reflected, so the
/// register shifts right and the reflected polynomial 0xA001 (0x8005 read
/// bit-reversed) applies when the incoming data bit differs from the
/// outgoing low bit.
pub open spec fn crc_step(c: u16, bit: bool) -> u16 {
    if bit != ((c & 1) != 0) {
        (c >> 1) ^ 0xA001
    } else {
        c >> 1
    }
}

/// Feeds the low `k` bits of `rem` into the register, least significant
/// first.
pub open spec fn crc_bits(c: u16, rem: u8, k: nat) -> u16
    decreases k,
{
    if k == 0 {
        c
    } else {
        crc_bits(crc_step(c, rem & 1 != 0), rem >> 1, (k - 1) as nat)
    }
}

/// Feeds one byte into the register, least significant bit first.
pub open spec fn crc_byte(c: u16, b: u8) -> u16 {
    crc_bits(c, b, 8)
}

/// Feeds a byte sequence into the register, in order.
pub open spec fn crc_seq(c: u16, s: Seq<u8>) -> u16
    decreases s.len(),
{
    if s.len() == 0 {
        c
    } else {
        crc_byte(crc_seq(c, s.drop_last()), s.last())
    }
}

/// The v2 payload checksum: CRC-16/ARC of the byte sequence, from a zero
/// register.
pub open spec fn crc16_arc(s: Seq<u8>) -> u16 {
    crc_seq(0, s)
}

/// Computes the v2 payload checksum: CRC-16/ARC with polynomial 0x8005,
/// reflected bit order, initial value 0 and no final XOR.
pub fn checksum_bgc_v2(buf: &[u8]) -> (r: u16)
    ensures
        r == crc16_arc(buf@),
{
    let n: usize = buf.len();
    let mut crc: u16 = 0;
    let mut i: usize = 0;
    while i < n
        invariant
            i <= n,
            n == buf@.len(),
            crc == crc_seq(0, buf@.take(i as int)),
        decreases n - i,
    {
        let byte: u8 = buf[i];
        let ghost c0 = crc;
        let mut rem: u8 = byte;
        let mut k: usize = 0;
        while k < 8
            invariant
                k <= 8,
                crc_bits(crc, rem, (8 - k) as nat) == crc_byte(c0, byte),
            decreases 8 - k,
        {
            let data_bit: bool = rem & 1 != 0;
            let crc_bit: bool = (crc & 1) != 0;
            crc = crc >> 1;
            if data_bit != crc_bit {
                crc = crc ^ 0xA001;
            }
            rem = rem >> 1;
            k += 1;
        }
        proof {
            assert(buf@.take(i + 1).drop_last() =~= buf@.take(i as int));
        }
        i += 1;
    }
    proof {
        assert(buf@.take(n as int) =~= buf@);
    }
    crc
}

// ---------------------------------------------------------------------------
// Frame layout.
// ---------------------------------------------------------------------------

/// The header checksum both versions use: `(cmd + len) mod 256`.
pub open spec fn header_checksum(cmd: u8, len: int) -> u8 {
    ((cmd + len) % 256) as u8
}

/// A complete v1 frame for the given command id and payload.
pub open spec fn frame_v1(cmd: u8, payload: Seq<u8>) -> Seq<u8> {
    seq![VERSION_BYTE_V1, cmd, payload.len() as u8, header_checksum(cmd, payload.len() as int)]
        + payload + seq![sum8(payload)]
}

/// A complete v2 frame for the given command id and payload.
pub open spec fn frame_v2(cmd: u8, payload: Seq<u8>) -> Seq<u8> {
    let crc = crc16_arc(payload);
    seq![VERSION_BYTE_V2, cmd, payload.len() as u8, header_checksum(cmd, payload.len() as int)]
        + payload + seq![wire::u16_lo(crc), wire::u16_hi(crc)]
}

/// What parsing a v1 frame yields: the command id, the payload bytes, and
/// the number of bytes consumed. The version byte is taken as already
/// checked.
pub open spec fn spec_parse_v1(bs: Seq<u8>) -> Result<(u8, Seq<u8>, int), MessageParseError> {
    if bs.len() < 4 {
        Err(MessageParseError::InsufficientData)
    } else if bs[1] == 0 {
        Err(MessageParseError::BadCommandId { id: 0 })
    } else {
        let cmd = bs[1];
        let len = bs[2] as int;
        let actual = header_checksum(cmd, len);
        if bs[3] != actual {
            Err(MessageParseError::BadHeaderChecksum { expected: bs[3], actual })
        } else if bs.len() < 5 + len {
            Err(MessageParseError::InsufficientData)
        } else {
            let payload = bs.subrange(4, 4 + len);
            let stored = bs[4 + len];
            let computed = sum8(payload);
            if stored != computed {
                Err(
                    MessageParseError::BadPayloadChecksum {
                        expected: stored as u16,
                        actual: computed as u16,
                    },
                )
            } else {
                Ok((cmd, payload, 5 + len))
            }
        }
    }
}

/// What parsing a v2 frame yields: the command id, the payload bytes, and
/// the number of bytes consumed. The version byte is taken as already
/// checked.
pub open spec fn spec_parse_v2(bs: Seq<u8>) -> Result<(u8, Seq<u8>, int), MessageParseError> {
    if bs.len() < 4 {
        Err(MessageParseError::InsufficientData)
    } else if bs[1] == 0 {
        Err(MessageParseError::BadCommandId { id: 0 })
    } else {
        let cmd = bs[1];
        let len = bs[2] as int;
        let actual = header_checksum(cmd, len);
        if bs[3] != actual {
            Err(MessageParseError::BadHeaderChecksum { expected: bs[3], actual })
        } else if bs.len() < 6 + len {
            Err(MessageParseError::InsufficientData)
        } else {
            let payload = bs.subrange(4, 4 + len);
            let stored = wire::u16_le_of(bs[4 + len], bs[5 + len]);
            let computed = crc16_arc(payload);
            if stored != computed {
                Err(MessageParseError::BadPayloadChecksum { expected: stored, actual: computed })
            } else {
                Ok((cmd, payload, 6 + len))
            }
        }
    }
}

/// What parsing a buffer yields once the version byte selects the frame
/// format.
pub open spec fn spec_parse_frame(bs: Seq<u8>) -> Result<(u8, Seq<u8>, int), MessageParseError> {
    if bs.len() == 0 {
        Err(MessageParseError::InsufficientData)
    } else if bs[0] == VERSION_BYTE_V1 {
        spec_parse_v1(bs)
    } else if bs[0] == VERSION_BYTE_V2 {
        spec_parse_v2(bs)
    } else {
        Err(MessageParseError::BadVersionCode)
    }
}

/// Builds a v1 frame around a payload.
pub fn encode_frame_v1(cmd: u8, payload: &[u8]) -> (r: Vec<u8>)
    requires
        payload@.len() <= 255,
    ensures
        r@ == frame_v1(cmd, payload@),
{
    let len: usize = payload.len();
    let mut out: Vec<u8> = Vec::new();
    out.push(VERSION_BYTE_V1);
    out.push(cmd);
    out.push(len as u8);
    out.push(((cmd as u16 + len as u16) % 256) as u8);
    out.extend_from_slice(payload);
    out.push(checksum_bgc_v1(payload));
    assert(out@ =~= frame_v1(cmd, payload@));
    out
}

/// Builds a v2 frame around a payload.
pub fn encode_frame_v2(cmd: u8, payload: &[u8]) -> (r: Vec<u8>)
    requires
        payload@.len() <= 255,
    ensures
        r@ == frame_v2(cmd, payload@),
{
    let len: usize = payload.len();
    let crc: u16 = checksum_bgc_v2(payload);
    let mut out: Vec<u8> = Vec::new();
    out.push(VERSION_BYTE_V2);
    out.push(cmd);
    out.push(len as u8);
    out.push(((cmd as u16 + len as u16) % 256) as u8);
    out.extend_from_slice(payload);
    wire::push_u16_le(&mut out, crc);
    assert(out@ =~= frame_v2(cmd, payload@));
    out
}

/// Parses the envelope of a v1 frame, returning the command id, the payload
/// and the number of bytes consumed. No bytes of the caller's buffer are
/// consumed on failure.
pub fn parse_frame_v1(buf: &[u8]) -> (r: Result<(u8, Vec<u8>, usize), MessageParseError>)
    ensures
        r is Ok <==> spec_parse_v1(buf@) is Ok,
        (r matches Ok((cmd, payload, used)) ==> (spec_parse_v1(buf@) matches Ok(t) && t.0 == cmd
            && t.1 == payload@ && t.2 == used)),
        (r matches Err(e) ==> spec_parse_v1(buf@) == Err::<(u8, Seq<u8>, int),
            MessageParseError,
        >(e)),
{
    let n: usize = buf.len();
    if n < 4 {
        return Err(MessageParseError::InsufficientData);
    }
    let cmd: u8 = buf[1];
    if cmd == 0 {
        return Err(MessageParseError::BadCommandId { id: 0 });
    }
    let len: usize = buf[2] as usize;
    let expected_header: u8 = buf[3];
    let actual_header: u8 = ((cmd as u16 + len as u16) % 256) as u8;
    if expected_header != actual_header {
        return Err(
            MessageParseError::BadHeaderChecksum { expected: expected_header, actual: actual_header },
        );
    }
    if n < 5 + len {
        return Err(MessageParseError::InsufficientData);
    }
    let payload: Vec<u8> = slice_to_vec(&buf[4..4 + len]);
    let stored: u8 = buf[4 + len];
    let computed: u8 = checksum_bgc_v1(payload.as_slice());
    if stored != computed {
        return Err(
            MessageParseError::BadPayloadChecksum {
                expected: stored as u16,
                actual: computed as u16,
            },
        );
    }
    Ok((cmd, payload, 5 + len))
}

/// Parses the envelope of a v2 frame, returning the command id, the payload
/// and the number of bytes consumed. No bytes of the caller's buffer are
/// consumed on failure.
pub fn parse_frame_v2(buf: &[u8]) -> (r: Result<(u8, Vec<u8>, usize), MessageParseError>)
    ensures
        r is Ok <==> spec_parse_v2(buf@) is Ok,
        (r matches Ok((cmd, payload, used)) ==> (spec_parse_v2(buf@) matches Ok(t) && t.0 == cmd
            && t.1 == payload@ && t.2 == used)),
        (r matches Err(e) ==> spec_parse_v2(buf@) == Err::<(u8, Seq<u8>, int),
            MessageParseError,
        >(e)),
{
    let n: usize = buf.len();
    if n < 4 {
        return Err(MessageParseError::InsufficientData);
    }
    let cmd: u8 = buf[1];
    if cmd == 0 {
        return Err(MessageParseError::BadCommandId { id: 0 });
    }
    let len: usize = buf[2] as usize;
    let expected_header: u8 = buf[3];
    let actual_header: u8 = ((cmd as u16 + len as u16) % 256) as u8;
    if expected_header != actual_header {
        return Err(
            MessageParseError::BadHeaderChecksum { expected: expected_header, actual: actual_header },
        );
    }
    if n < 6 + len {
        return Err(MessageParseError::InsufficientData);
    }
    let payload: Vec<u8> = slice_to_vec(&buf[4..4 + len]);
    let stored: u16 = wire::read_u16_le(buf, 4 + len);
    let computed: u16 = checksum_bgc_v2(payload.as_slice());
    if stored != computed {
        return Err(MessageParseError::BadPayloadChecksum { expected: stored, actual: computed });
    }
    Ok((cmd, payload, 6 + len))
}

// ---------------------------------------------------------------------------
// Frame laws.
// ---------------------------------------------------------------------------

/// Round trip: parsing a built v1 frame yields the command id and payload
/// back and consumes the whole frame.
pub proof fn lemma_frame_v1_round_trip(cmd: u8, payload: Seq<u8>)
    requires
        cmd != 0,
        payload.len() <= 255,
    ensures
        frame_v1(cmd, payload).len() == payload.len() + 5,
        spec_parse_frame(frame_v1(cmd, payload)) == Ok::<_, MessageParseError>(
            (cmd, payload, payload.len() + 5 as int),
        ),
{
    let f = frame_v1(cmd, payload);
    assert(f.subrange(4, 4 + payload.len() as int) =~= payload);
}

/// Round trip: parsing a built v2 frame yields the command id and payload
/// back and consumes the whole frame.
pub proof fn lemma_frame_v2_round_trip(cmd: u8, payload: Seq<u8>)
    requires
        cmd != 0,
        payload.len() <= 255,
    ensures
        frame_v2(cmd, payload).len() == payload.len() + 6,
        spec_parse_frame(frame_v2(cmd, payload)) == Ok::<_, MessageParseError>(
            (cmd, payload, payload.len() + 6 as int),
        ),
{
    let f = frame_v2(cmd, payload);
    let crc = crc16_arc(payload);
    assert(f.subrange(4, 4 + payload.len() as int) =~= payload);
    wire::lemma_u16_round_trip(crc);
}

// ---------------------------------------------------------------------------
// The CRC detects any single corrupted byte.
//
// The register map is XOR-linear in (state, bits), so the CRC of a corrupted
// message is the CRC of the original XORed with the CRC of the pure error
// pattern; and the CRC of a single nonzero byte amid zeroes is never zero.
// ---------------------------------------------------------------------------

/// The bytewise XOR of two equal-length sequences.
pub open spec fn xor_seq(s1: Seq<u8>, s2: Seq<u8>) -> Seq<u8> {
    Seq::new(s1.len(), |i: int| s1[i] ^ s2[i])
}

/// Any prefix of register input is XOR-linear, bit by bit.
proof fn lemma_crc_bits_linear(c1: u16, c2: u16, r1: u8, r2: u8, k: nat)
    ensures
        crc_bits(c1 ^ c2, r1 ^ r2, k) == crc_bits(c1, r1, k) ^ crc_bits(c2, r2, k),
    decreases k,
{
    if k > 0 {
        assert((r1 ^ r2) >> 1 == (r1 >> 1) ^ (r2 >> 1)) by (bit_vector);
        assert(crc_step(c1 ^ c2, (r1 ^ r2) & 1 != 0) == crc_step(c1, r1 & 1 != 0) ^ crc_step(
            c2,
            r2 & 1 != 0,
        )) by (bit_vector);
        lemma_crc_bits_linear(
            crc_step(c1, r1 & 1 != 0),
            crc_step(c2, r2 & 1 != 0),
            r1 >> 1,
            r2 >> 1,
            (k - 1) as nat,
        );
    }
}

/// One byte of register input is XOR-linear.
proof fn lemma_crc_byte_linear(c1: u16, c2: u16, b1: u8, b2: u8)
    ensures
        crc_byte(c1 ^ c2, b1 ^ b2) == crc_byte(c1, b1) ^ crc_byte(c2, b2),
{
    lemma_crc_bits_linear(c1, c2, b1, b2, 8);
}

/// The zero byte from the zero state leaves the register at zero.
proof fn lemma_crc_byte_zero()
    ensures
        crc_byte(0, 0) == 0,
{
    assert(crc_bits(0u16, 0u8, 8) == 0) by (bit_vector);
}

/// A nonzero byte from the zero state leaves the register nonzero.
proof fn lemma_crc_byte_nonzero(d: u8)
    requires
        d != 0,
    ensures
        crc_byte(0, d) != 0,
{
    assert(d != 0 ==> crc_bits(0u16, d, 8) != 0) by (bit_vector);
}

/// The zero byte keeps a nonzero register nonzero.
proof fn lemma_crc_byte_keeps_nonzero(c: u16)
    requires
        c != 0,
    ensures
        crc_byte(c, 0) != 0,
{
    assert(c != 0 ==> crc_bits(c, 0u8, 8) != 0) by (bit_vector);
}

/// A byte sequence of register input is XOR-linear.
proof fn lemma_crc_seq_linear(c1: u16, c2: u16, s1: Seq<u8>, s2: Seq<u8>)
    requires
        s1.len() == s2.len(),
    ensures
        crc_seq(c1 ^ c2, xor_seq(s1, s2)) == crc_seq(c1, s1) ^ crc_seq(c2, s2),
    decreases s1.len(),
{
    if s1.len() == 0 {
        assert(xor_seq(s1, s2) =~= Seq::<u8>::empty());
    } else {
        assert(xor_seq(s1, s2).drop_last() =~= xor_seq(s1.drop_last(), s2.drop_last()));
        lemma_crc_seq_linear(c1, c2, s1.drop_last(), s2.drop_last());
        lemma_crc_byte_linear(crc_seq(c1, s1.drop_last()), crc_seq(c2, s2.drop_last()), s1.last(),
            s2.last());
    }
}

/// Splitting the input splits the register run.
proof fn lemma_crc_seq_append(c: u16, a: Seq<u8>, b: Seq<u8>)
    ensures
        crc_seq(c, a + b) == crc_seq(crc_seq(c, a), b),
    decreases b.len(),
{
    if b.len() == 0 {
        assert(a + b =~= a);
    } else {
        assert((a + b).drop_last() =~= a + b.drop_last());
        lemma_crc_seq_append(c, a, b.drop_last());
        assert((a + b).last() == b.last());
    }
}

/// All-zero input from the zero state leaves the register at zero.
proof fn lemma_crc_seq_all_zero(s: Seq<u8>)
    requires
        forall|i: int| 0 <= i < s.len() ==> s[i] == 0,
    ensures
        crc_seq(0, s) == 0,
    decreases s.len(),
{
    if s.len() > 0 {
        lemma_crc_seq_all_zero(s.drop_last());
        lemma_crc_byte_zero();
    }
}

/// All-zero input keeps a nonzero register nonzero.
proof fn lemma_crc_seq_zero_keeps_nonzero(c: u16, s: Seq<u8>)
    requires
        c != 0,
        forall|i: int| 0 <= i < s.len() ==> s[i] == 0,
    ensures
        crc_seq(c, s) != 0,
    decreases s.len(),
{
    if s.len() > 0 {
        lemma_crc_seq_zero_keeps_nonzero(c, s.drop_last());
        lemma_crc_byte_keeps_nonzero(crc_seq(c, s.drop_last()));
    }
}

/// The CRC of a single nonzero byte amid zeroes is nonzero.
proof fn lemma_crc_error_pattern(e: Seq<u8>, j: int)
    requires
        0 <= j < e.len(),
        e[j] != 0,
        forall|i: int| 0 <= i < e.len() && i != j ==> e[i] == 0,
    ensures
        crc_seq(0, e) != 0,
{
    let head = e.subrange(0, j);
    let mid = seq![e[j]];
    let tail = e.subrange(j + 1, e.len() as int);
    assert(e =~= head + mid + tail);
    lemma_crc_seq_append(0, head + mid, tail);
    lemma_crc_seq_append(0, head, mid);
    lemma_crc_seq_all_zero(head);
    assert(mid.drop_last() =~= Seq::<u8>::empty());
    assert(crc_seq(0, Seq::<u8>::empty()) == 0);
    assert(mid.len() == 1 && mid.last() == e[j]);
    assert(crc_seq(0, mid) == crc_byte(crc_seq(0, mid.drop_last()), mid.last()));
    assert(crc_seq(0, mid) == crc_byte(0, e[j]));
    assert(crc_seq(0, head + mid) == crc_byte(0, e[j]));
    lemma_crc_byte_nonzero(e[j]);
    lemma_crc_seq_zero_keeps_nonzero(crc_byte(0, e[j]), tail);
}

/// Changing one byte of the input always changes the CRC.
pub proof fn lemma_crc16_corrupt(s: Seq<u8>, j: int, v: u8)
    requires
        0 <= j < s.len(),
        v != s[j],
    ensures
        crc16_arc(s.update(j, v)) != crc16_arc(s),
{
    let t = s.update(j, v);
    let e = xor_seq(s, t);
    lemma_crc_seq_linear(0, 0, s, t);
    assert(0u16 ^ 0u16 == 0u16) by (bit_vector);
    assert(forall|i: int| 0 <= i < s.len() && i != j ==> e[i] == (s[i] ^ s[i]));
    assert(forall|b: u8| b ^ b == 0) by (bit_vector);
    let d = s[j];
    assert(d ^ v != 0) by (bit_vector)
        requires
            d != v,
    ;
    lemma_crc_error_pattern(e, j);
    let x = crc_seq(0u16, s);
    let y = crc_seq(0u16, t);
    let z = crc_seq(0u16, e);
    assert(z == x ^ y);
    assert(z != 0 && z == x ^ y ==> x != y) by (bit_vector);
}

// ---------------------------------------------------------------------------
// Corruption and truncation laws.
// ---------------------------------------------------------------------------

/// Changing any single byte of a v1 frame's payload makes parsing fail with
/// a bad payload checksum.
pub proof fn lemma_v1_payload_corruption(cmd: u8, payload: Seq<u8>, i: int, v: u8)
    requires
        cmd != 0,
        payload.len() <= 255,
        4 <= i < 4 + payload.len(),
        v != frame_v1(cmd, payload)[i],
    ensures
        (spec_parse_frame(frame_v1(cmd, payload).update(i, v)) matches Err(e) && e
            is BadPayloadChecksum),
{
    let f = frame_v1(cmd, payload);
    let g = f.update(i, v);
    assert(f.subrange(4, 4 + payload.len() as int) =~= payload);
    assert(g.subrange(4, 4 + payload.len() as int) =~= payload.update(i - 4, v));
    lemma_sum8_corrupt(payload, i - 4, v);
}

/// Changing any single byte of a v2 frame's payload makes parsing fail with
/// a bad payload checksum.
pub proof fn lemma_v2_payload_corruption(cmd: u8, payload: Seq<u8>, i: int, v: u8)
    requires
        cmd != 0,
        payload.len() <= 255,
        4 <= i < 4 + payload.len(),
        v != frame_v2(cmd, payload)[i],
    ensures
        (spec_parse_frame(frame_v2(cmd, payload).update(i, v)) matches Err(e) && e
            is BadPayloadChecksum),
{
    let f = frame_v2(cmd, payload);
    let g = f.update(i, v);
    let crc = crc16_arc(payload);
    wire::lemma_u16_round_trip(crc);
    assert(f.subrange(4, 4 + payload.len() as int) =~= payload);
    assert(g.subrange(4, 4 + payload.len() as int) =~= payload.update(i - 4, v));
    lemma_crc16_corrupt(payload, i - 4, v);
}

/// Changing the command-id byte (to another nonzero id) or the length byte
/// of a v2 frame makes parsing fail with a bad header checksum. A flip that
/// zeroes the command id fails too, but with the reserved-id error instead.
pub proof fn lemma_v2_header_corruption(cmd: u8, payload: Seq<u8>, i: int, v: u8)
    requires
        cmd != 0,
        payload.len() <= 255,
        i == 1 || i == 2,
        v != frame_v2(cmd, payload)[i],
        i == 1 ==> v != 0,
    ensures
        (spec_parse_frame(frame_v2(cmd, payload).update(i, v)) matches Err(e) && e
            is BadHeaderChecksum),
{
    let f = frame_v2(cmd, payload);
    let g = f.update(i, v);
    let len = payload.len() as int;
    if i == 1 {
        assert(header_checksum(v, len) != header_checksum(cmd, len)) by (nonlinear_arith)
            requires
                0 <= v < 256,
                0 <= cmd < 256,
                v != cmd,
                0 <= len < 256,
        ;
    } else {
        assert(header_checksum(cmd, v as int) != header_checksum(cmd, len)) by (nonlinear_arith)
            requires
                0 <= v < 256,
                0 <= cmd < 256,
                0 <= len < 256,
                v != len,
        ;
    }
}

/// Truncating a v1 frame anywhere short of its full length makes parsing
/// fail with the retry-safe insufficient-data error.
pub proof fn lemma_frame_v1_truncation(cmd: u8, payload: Seq<u8>, n: int)
    requires
        cmd != 0,
        payload.len() <= 255,
        0 <= n < frame_v1(cmd, payload).len(),
    ensures
        spec_parse_frame(frame_v1(cmd, payload).take(n)) == Err::<(u8, Seq<u8>, int),
            MessageParseError,
        >(MessageParseError::InsufficientData),
{
}

/// Truncating a v2 frame anywhere short of its full length makes parsing
/// fail with the retry-safe insufficient-data error.
pub proof fn lemma_frame_v2_truncation(cmd: u8, payload: Seq<u8>, n: int)
    requires
        cmd != 0,
        payload.len() <= 255,
        0 <= n < frame_v2(cmd, payload).len(),
    ensures
        spec_parse_frame(frame_v2(cmd, payload).take(n)) == Err::<(u8, Seq<u8>, int),
            MessageParseError,
        >(MessageParseError::InsufficientData),
{
}

// ---------------------------------------------------------------------------
// Dispatch: the outgoing command table.
// ---------------------------------------------------------------------------

impl OutgoingCommand {
    /// Every payload the command carries is well formed.
    pub open spec fn wf(&self) -> bool {
        match self {
            OutgoingCommand::Control(d) => d.wf(),
            OutgoingCommand::WriteParams(p) => p.wf(),
            OutgoingCommand::WriteParams3(p) => p.wf(),
            _ => true,
        }
    }

    /// The command id this command travels under.
    pub open spec fn spec_command_id(&self) -> u8 {
        match self {
            OutgoingCommand::BoardInfo => CMD_BOARD_INFO,
            OutgoingCommand::BoardInfo3 => CMD_BOARD_INFO_3,
            OutgoingCommand::Control(_) => CMD_CONTROL,
            OutgoingCommand::MotorsOn => CMD_MOTORS_ON,
            OutgoingCommand::MotorsOff { .. } => CMD_MOTORS_OFF,
            OutgoingCommand::ReadParams(_) => CMD_READ_PARAMS,
            OutgoingCommand::ReadParams3(_) => CMD_READ_PARAMS_3,
            OutgoingCommand::ReadParamsExt(_) => CMD_READ_PARAMS_EXT,
            OutgoingCommand::ReadParamsExt2(_) => CMD_READ_PARAMS_EXT2,
            OutgoingCommand::ReadParamsExt3(_) => CMD_READ_PARAMS_EXT3,
            OutgoingCommand::WriteParams(_) => CMD_WRITE_PARAMS,
            OutgoingCommand::WriteParams3(_) => CMD_WRITE_PARAMS_3,
            OutgoingCommand::GetAngles => CMD_GET_ANGLES,
            OutgoingCommand::GetAnglesExt => CMD_GET_ANGLES_EXT,
            OutgoingCommand::Other { id } => *id,
        }
    }

    /// The exact payload bytes this command carries.
    pub open spec fn payload_enc(&self) -> Seq<u8> {
        match self {
            OutgoingCommand::Control(d) => d.enc(),
            OutgoingCommand::MotorsOff { mode } => match mode {
                Some(m) => seq![m.spec_to_u8()],
                None => seq![],
            },
            OutgoingCommand::ReadParams(q) => q.enc(),
            OutgoingCommand::ReadParams3(q) => q.enc(),
            OutgoingCommand::ReadParamsExt(q) => q.enc(),
            OutgoingCommand::ReadParamsExt2(q) => q.enc(),
            OutgoingCommand::ReadParamsExt3(q) => q.enc(),
            OutgoingCommand::WriteParams(p) => p.enc(),
            OutgoingCommand::WriteParams3(p) => p.enc(),
            _ => seq![],
        }
    }

    /// Whether the outgoing command table has an entry for this id.
    pub open spec fn spec_known_id(id: u8) -> bool {
        ||| id == CMD_BOARD_INFO
        ||| id == CMD_BOARD_INFO_3
        ||| id == CMD_CONTROL
        ||| id == CMD_MOTORS_ON
        ||| id == CMD_MOTORS_OFF
        ||| id == CMD_READ_PARAMS
        ||| id == CMD_READ_PARAMS_3
        ||| id == CMD_READ_PARAMS_EXT
        ||| id == CMD_READ_PARAMS_EXT2
        ||| id == CMD_READ_PARAMS_EXT3
        ||| id == CMD_WRITE_PARAMS
        ||| id == CMD_WRITE_PARAMS_3
        ||| id == CMD_GET_ANGLES
        ||| id == CMD_GET_ANGLES_EXT
    }

    /// Whether a payload decodes under the table entry for `id`.
    pub open spec fn spec_dispatch_ok(id: u8, p: Seq<u8>) -> bool {
        if id == CMD_READ_PARAMS || id == CMD_READ_PARAMS_3 || id == CMD_READ_PARAMS_EXT || id
            == CMD_READ_PARAMS_EXT2 || id == CMD_READ_PARAMS_EXT3 {
            ParamsQuery::dec_ok(p)
        } else if id == CMD_WRITE_PARAMS || id == CMD_WRITE_PARAMS_3 {
            Params3Data::dec_ok(p)
        } else if id == CMD_CONTROL {
            ControlData::dec_ok(p)
        } else if id == CMD_MOTORS_OFF {
            p.len() == 0 || (p.len() == 1 && MotorsOffMode::spec_from_u8(p[0]) is Some)
        } else if id == CMD_BOARD_INFO || id == CMD_BOARD_INFO_3 || id == CMD_MOTORS_ON || id
            == CMD_GET_ANGLES || id == CMD_GET_ANGLES_EXT {
            p.len() == 0
        } else {
            false
        }
    }

    /// The command a payload decodes to under the table entry for `id`,
    /// meaningful when `spec_dispatch_ok(id, p)` holds.
    pub open spec fn spec_dispatch_val(id: u8, p: Seq<u8>) -> OutgoingCommand {
        if id == CMD_READ_PARAMS {
            OutgoingCommand::ReadParams(ParamsQuery::dec_val(p))
        } else if id == CMD_READ_PARAMS_3 {
            OutgoingCommand::ReadParams3(ParamsQuery::dec_val(p))
        } else if id == CMD_READ_PARAMS_EXT {
            OutgoingCommand::ReadParamsExt(ParamsQuery::dec_val(p))
        } else if id == CMD_READ_PARAMS_EXT2 {
            OutgoingCommand::ReadParamsExt2(ParamsQuery::dec_val(p))
        } else if id == CMD_READ_PARAMS_EXT3 {
            OutgoingCommand::ReadParamsExt3(ParamsQuery::dec_val(p))
        } else if id == CMD_WRITE_PARAMS {
            OutgoingCommand::WriteParams(Params3Data::dec_val(p))
        } else if id == CMD_WRITE_PARAMS_3 {
            OutgoingCommand::WriteParams3(Params3Data::dec_val(p))
        } else if id == CMD_CONTROL {
            OutgoingCommand::Control(ControlData::dec_val(p))
        } else if id == CMD_MOTORS_OFF {
            OutgoingCommand::MotorsOff {
                mode: if p.len() == 0 {
                    None
                } else {
                    Some(MotorsOffMode::spec_from_u8(p[0]).unwrap())
                },
            }
        } else if id == CMD_BOARD_INFO {
            OutgoingCommand::BoardInfo
        } else if id == CMD_BOARD_INFO_3 {
            OutgoingCommand::BoardInfo3
        } else if id == CMD_MOTORS_ON {
            OutgoingCommand::MotorsOn
        } else if id == CMD_GET_ANGLES {
            OutgoingCommand::GetAngles
        } else {
            OutgoingCommand::GetAnglesExt
        }
    }

    /// Whether `e` is the error dispatching a payload under `id` yields:
    /// the reserved-table error for ids with no entry, else the payload
    /// decoder's own first-field error, wrapped.
    pub open spec fn spec_dispatch_err(id: u8, p: Seq<u8>, e: MessageParseError) -> bool {
        if !Self::spec_known_id(id) {
            e == (MessageParseError::BadCommandId { id })
        } else if id == CMD_READ_PARAMS || id == CMD_READ_PARAMS_3 || id == CMD_READ_PARAMS_EXT
            || id == CMD_READ_PARAMS_EXT2 || id == CMD_READ_PARAMS_EXT3 {
            e matches MessageParseError::PayloadParse(pe) && ParamsQuery::dec_err(p, pe)
        } else if id == CMD_WRITE_PARAMS || id == CMD_WRITE_PARAMS_3 {
            e matches MessageParseError::PayloadParse(pe) && Params3Data::dec_err(p, pe)
        } else if id == CMD_CONTROL {
            e matches MessageParseError::PayloadParse(pe) && ControlData::dec_err(p, pe)
        } else if id == CMD_MOTORS_OFF {
            e matches MessageParseError::PayloadParse(pe) && (if p.len() >= 2 {
                pe == PayloadParseError::InsufficientData
            } else {
                pe matches PayloadParseError::InvalidEnum { name } && name@ == "MODE"@
            })
        } else {
            e matches MessageParseError::PayloadParse(pe) && pe
                == PayloadParseError::InsufficientData
        }
    }

    /// A well-formed command's payload fits a frame's one-byte length field.
    pub proof fn lemma_payload_len(&self)
        requires
            self.wf(),
        ensures
            self.payload_enc().len() <= 255,
    {
        match self {
            OutgoingCommand::Control(d) => {
                d.lemma_enc_size();
            },
            OutgoingCommand::WriteParams(p) => {
                p.lemma_enc_size();
            },
            OutgoingCommand::WriteParams3(p) => {
                p.lemma_enc_size();
            },
            _ => {},
        }
    }

    /// Dispatch round trip: decoding a command's own payload under its own
    /// id yields the command back. The catch-all `Other` variant has no
    /// table entry and is excluded.
    pub proof fn lemma_dispatch_round_trip(&self)
        requires
            self.wf(),
            !(self is Other),
        ensures
            Self::spec_dispatch_ok(self.spec_command_id(), self.payload_enc()),
            Self::spec_dispatch_val(self.spec_command_id(), self.payload_enc()) == *self,
    {
        match self {
            OutgoingCommand::Control(d) => {
                d.lemma_round_trip();
            },
            OutgoingCommand::WriteParams(p) => {
                p.lemma_round_trip();
            },
            OutgoingCommand::WriteParams3(p) => {
                p.lemma_round_trip();
            },
            OutgoingCommand::ReadParams(q) => {
                q.lemma_round_trip();
            },
            OutgoingCommand::ReadParams3(q) => {
                q.lemma_round_trip();
            },
            OutgoingCommand::ReadParamsExt(q) => {
                q.lemma_round_trip();
            },
            OutgoingCommand::ReadParamsExt2(q) => {
                q.lemma_round_trip();
            },
            OutgoingCommand::ReadParamsExt3(q) => {
                q.lemma_round_trip();
            },
            _ => {},
        }
    }

    /// The command id this command travels under.
    pub fn command_id(&self) -> (r: u8)
        ensures
            r == self.spec_command_id(),
    {
        match self {
            OutgoingCommand::BoardInfo => CMD_BOARD_INFO,
            OutgoingCommand::BoardInfo3 => CMD_BOARD_INFO_3,
            OutgoingCommand::Control(_) => CMD_CONTROL,
            OutgoingCommand::MotorsOn => CMD_MOTORS_ON,
            OutgoingCommand::MotorsOff { .. } => CMD_MOTORS_OFF,
            OutgoingCommand::ReadParams(_) => CMD_READ_PARAMS,
            OutgoingCommand::ReadParams3(_) => CMD_READ_PARAMS_3,
            OutgoingCommand::ReadParamsExt(_) => CMD_READ_PARAMS_EXT,
            OutgoingCommand::ReadParamsExt2(_) => CMD_READ_PARAMS_EXT2,
            OutgoingCommand::ReadParamsExt3(_) => CMD_READ_PARAMS_EXT3,
            OutgoingCommand::WriteParams(_) => CMD_WRITE_PARAMS,
            OutgoingCommand::WriteParams3(_) => CMD_WRITE_PARAMS_3,
            OutgoingCommand::GetAngles => CMD_GET_ANGLES,
            OutgoingCommand::GetAnglesExt => CMD_GET_ANGLES_EXT,
            OutgoingCommand::Other { id } => *id,
        }
    }

    /// Serializes the payload this command carries.
    pub fn to_payload_bytes(&self) -> (r: Vec<u8>)
        requires
            self.wf(),
        ensures
            r@ == self.payload_enc(),
    {
        match self {
            OutgoingCommand::Control(d) => d.to_bytes(),
            OutgoingCommand::MotorsOff { mode } => {
                let mut out: Vec<u8> = Vec::new();
                match mode {
                    Some(m) => {
                        out.push(m.to_u8());
                        assert(out@ =~= self.payload_enc());
                    },
                    None => {
                        assert(out@ =~= self.payload_enc());
                    },
                }
                out
            },
            OutgoingCommand::ReadParams(q) => q.to_bytes(),
            OutgoingCommand::ReadParams3(q) => q.to_bytes(),
            OutgoingCommand::ReadParamsExt(q) => q.to_bytes(),
            OutgoingCommand::ReadParamsExt2(q) => q.to_bytes(),
            OutgoingCommand::ReadParamsExt3(q) => q.to_bytes(),
            OutgoingCommand::WriteParams(p) => p.to_bytes(),
            OutgoingCommand::WriteParams3(p) => p.to_bytes(),
            _ => {
                let out: Vec<u8> = Vec::new();
                assert(out@ =~= self.payload_enc());
                out
            },
        }
    }

    /// Looks the command id up in the outgoing table and decodes the payload
    /// under it.
    pub fn from_payload_bytes(id: u8, bytes: &[u8]) -> (r: Result<
        OutgoingCommand,
        MessageParseError,
    >)
        ensures
            r is Ok <==> Self::spec_dispatch_ok(id, bytes@),
            (r matches Ok(c) ==> c == Self::spec_dispatch_val(id, bytes@) && c.wf()),
            (r matches Err(e) ==> Self::spec_dispatch_err(id, bytes@, e)),
    {
        if id == CMD_READ_PARAMS {
            match ParamsQuery::from_bytes(bytes) {
                Ok(q) => Ok(OutgoingCommand::ReadParams(q)),
                Err(e) => Err(MessageParseError::PayloadParse(e)),
            }
        } else if id == CMD_READ_PARAMS_3 {
            match ParamsQuery::from_bytes(bytes) {
                Ok(q) => Ok(OutgoingCommand::ReadParams3(q)),
                Err(e) => Err(MessageParseError::PayloadParse(e)),
            }
        } else if id == CMD_READ_PARAMS_EXT {
            match ParamsQuery::from_bytes(bytes) {
                Ok(q) => Ok(OutgoingCommand::ReadParamsExt(q)),
                Err(e) => Err(MessageParseError::PayloadParse(e)),
            }
        } else if id == CMD_READ_PARAMS_EXT2 {
            match ParamsQuery::from_bytes(bytes) {
                Ok(q) => Ok(OutgoingCommand::ReadParamsExt2(q)),
                Err(e) => Err(MessageParseError::PayloadParse(e)),
            }
        } else if id == CMD_READ_PARAMS_EXT3 {
            match ParamsQuery::from_bytes(bytes) {
                Ok(q) => Ok(OutgoingCommand::ReadParamsExt3(q)),
                Err(e) => Err(MessageParseError::PayloadParse(e)),
            }
        } else if id == CMD_WRITE_PARAMS {
            match Params3Data::from_bytes(bytes) {
                Ok(p) => Ok(OutgoingCommand::WriteParams(p)),
                Err(e) => Err(MessageParseError::PayloadParse(e)),
            }
        } else if id == CMD_WRITE_PARAMS_3 {
            match Params3Data::from_bytes(bytes) {
                Ok(p) => Ok(OutgoingCommand::WriteParams3(p)),
                Err(e) => Err(MessageParseError::PayloadParse(e)),
            }
        } else if id == CMD_CONTROL {
            match ControlData::from_bytes(bytes) {
                Ok(d) => Ok(OutgoingCommand::Control(d)),
                Err(e) => Err(MessageParseError::PayloadParse(e)),
            }
        } else if id == CMD_MOTORS_OFF {
            if bytes.len() == 0 {
                Ok(OutgoingCommand::MotorsOff { mode: None })
            } else if bytes.len() == 1 {
                match MotorsOffMode::from_u8(bytes[0]) {
                    Some(m) => Ok(OutgoingCommand::MotorsOff { mode: Some(m) }),
                    None => Err(MessageParseError::PayloadParse(invalid_enum("MODE"))),
                }
            } else {
                Err(MessageParseError::PayloadParse(PayloadParseError::InsufficientData))
            }
        } else if id == CMD_BOARD_INFO {
            if bytes.len() == 0 {
                Ok(OutgoingCommand::BoardInfo)
            } else {
                Err(MessageParseError::PayloadParse(PayloadParseError::InsufficientData))
            }
        } else if id == CMD_BOARD_INFO_3 {
            if bytes.len() == 0 {
                Ok(OutgoingCommand::BoardInfo3)
            } else {
                Err(MessageParseError::PayloadParse(PayloadParseError::InsufficientData))
            }
        } else if id == CMD_MOTORS_ON {
            if bytes.len() == 0 {
                Ok(OutgoingCommand::MotorsOn)
            } else {
                Err(MessageParseError::PayloadParse(PayloadParseError::InsufficientData))
            }
        } else if id == CMD_GET_ANGLES {
            if bytes.len() == 0 {
                Ok(OutgoingCommand::GetAngles)
            } else {
                Err(MessageParseError::PayloadParse(PayloadParseError::InsufficientData))
            }
        } else if id == CMD_GET_ANGLES_EXT {
            if bytes.len() == 0 {
                Ok(OutgoingCommand::GetAnglesExt)
            } else {
                Err(MessageParseError::PayloadParse(PayloadParseError::InsufficientData))
            }
        } else {
            Err(MessageParseError::BadCommandId { id })
        }
    }

    /// Wraps this command in a protocol v1 frame.
    pub fn to_v1_bytes(&self) -> (r: Vec<u8>)
        requires
            self.wf(),
        ensures
            r@ == frame_v1(self.spec_command_id(), self.payload_enc()),
    {
        proof {
            self.lemma_payload_len();
        }
        let payload: Vec<u8> = self.to_payload_bytes();
        encode_frame_v1(self.command_id(), payload.as_slice())
    }

    /// Wraps this command in a protocol v2 frame.
    pub fn to_v2_bytes(&self) -> (r: Vec<u8>)
        requires
            self.wf(),
        ensures
            r@ == frame_v2(self.spec_command_id(), self.payload_enc()),
    {
        proof {
            self.lemma_payload_len();
        }
        let payload: Vec<u8> = self.to_payload_bytes();
        encode_frame_v2(self.command_id(), payload.as_slice())
    }

    /// Parses a v1 frame and dispatches its payload through the outgoing
    /// table. On success the returned count is the number of bytes the frame
    /// occupied; on failure no bytes are consumed.
    pub fn from_v1_bytes(buf: &[u8]) -> (r: Result<(OutgoingCommand, usize), MessageParseError>)
        ensures
            r is Ok <==> (spec_parse_v1(buf@) matches Ok(t) && Self::spec_dispatch_ok(t.0, t.1)),
            (r matches Ok((c, used)) ==> (spec_parse_v1(buf@) matches Ok(t) && c
                == Self::spec_dispatch_val(t.0, t.1) && c.wf() && used == t.2)),
            (r matches Err(e) ==> (spec_parse_v1(buf@) matches Err(pe) ==> e == pe)),
            (r matches Err(e) ==> (spec_parse_v1(buf@) matches Ok(t) ==> Self::spec_dispatch_err(
                t.0,
                t.1,
                e,
            ))),
    {
        let (cmd, payload, used) = match parse_frame_v1(buf) {
            Ok(t) => t,
            Err(e) => {
                return Err(e);
            },
        };
        match Self::from_payload_bytes(cmd, payload.as_slice()) {
            Ok(c) => Ok((c, used)),
            Err(e) => Err(e),
        }
    }

    /// Parses a v2 frame and dispatches its payload through the outgoing
    /// table. On success the returned count is the number of bytes the frame
    /// occupied; on failure no bytes are consumed.
    pub fn from_v2_bytes(buf: &[u8]) -> (r: Result<(OutgoingCommand, usize), MessageParseError>)
        ensures
            r is Ok <==> (spec_parse_v2(buf@) matches Ok(t) && Self::spec_dispatch_ok(t.0, t.1)),
            (r matches Ok((c, used)) ==> (spec_parse_v2(buf@) matches Ok(t) && c
                == Self::spec_dispatch_val(t.0, t.1) && c.wf() && used == t.2)),
            (r matches Err(e) ==> (spec_parse_v2(buf@) matches Err(pe) ==> e == pe)),
            (r matches Err(e) ==> (spec_parse_v2(buf@) matches Ok(t) ==> Self::spec_dispatch_err(
                t.0,
                t.1,
                e,
            ))),
    {
        let (cmd, payload, used) = match parse_frame_v2(buf) {
            Ok(t) => t,
            Err(e) => {
                return Err(e);
            },
        };
        match Self::from_payload_bytes(cmd, payload.as_slice()) {
            Ok(c) => Ok((c, used)),
            Err(e) => Err(e),
        }
    }

    /// Parses a frame of either protocol version, selected by the first
    /// byte, and dispatches its payload. On success the returned count is
    /// the number of bytes the frame occupied; on failure no bytes are
    /// consumed, so a caller holding a partial frame can retry with more
    /// input after `InsufficientData`.
    pub fn from_bytes(buf: &[u8]) -> (r: Result<(OutgoingCommand, usize), MessageParseError>)
        ensures
            r is Ok <==> (spec_parse_frame(buf@) matches Ok(t) && Self::spec_dispatch_ok(
                t.0,
                t.1,
            )),
            (r matches Ok((c, used)) ==> (spec_parse_frame(buf@) matches Ok(t) && c
                == Self::spec_dispatch_val(t.0, t.1) && c.wf() && used == t.2)),
            (r matches Err(e) ==> (spec_parse_frame(buf@) matches Err(pe) ==> e == pe)),
            (r matches Err(e) ==> (spec_parse_frame(buf@) matches Ok(t)
                ==> Self::spec_dispatch_err(t.0, t.1, e))),
    {
        if buf.len() == 0 {
            return Err(MessageParseError::InsufficientData);
        }
        if buf[0] == VERSION_BYTE_V1 {
            Self::from_v1_bytes(buf)
        } else if buf[0] == VERSION_BYTE_V2 {
            Self::from_v2_bytes(buf)
        } else {
            Err(MessageParseError::BadVersionCode)
        }
    }
}

/// Frame round trip for outgoing commands, protocol v1: parsing an encoded
/// command yields the command back, and the consumed count is the encoded
/// frame's length. The catch-all `Other` variant has no table entry and is
/// excluded.
pub proof fn lemma_outgoing_round_trip_v1(c: OutgoingCommand)
    requires
        c.wf(),
        !(c is Other),
    ensures
        ({
            let f = frame_v1(c.spec_command_id(), c.payload_enc());
            &&& spec_parse_frame(f) matches Ok(t)
            &&& OutgoingCommand::spec_dispatch_ok(t.0, t.1)
            &&& OutgoingCommand::spec_dispatch_val(t.0, t.1) == c
            &&& t.2 == f.len()
        }),
{
    c.lemma_payload_len();
    lemma_frame_v1_round_trip(c.spec_command_id(), c.payload_enc());
    c.lemma_dispatch_round_trip();
}

/// Frame round trip for outgoing commands, protocol v2.
pub proof fn lemma_outgoing_round_trip_v2(c: OutgoingCommand)
    requires
        c.wf(),
        !(c is Other),
    ensures
        ({
            let f = frame_v2(c.spec_command_id(), c.payload_enc());
            &&& spec_parse_frame(f) matches Ok(t)
            &&& OutgoingCommand::spec_dispatch_ok(t.0, t.1)
            &&& OutgoingCommand::spec_dispatch_val(t.0, t.1) == c
            &&& t.2 == f.len()
        }),
{
    c.lemma_payload_len();
    lemma_frame_v2_round_trip(c.spec_command_id(), c.payload_enc());
    c.lemma_dispatch_round_trip();
}

// ---------------------------------------------------------------------------
// Dispatch: the incoming command table.
// ---------------------------------------------------------------------------

impl IncomingCommand {
    /// Every payload the command carries is well formed.
    pub open spec fn wf(&self) -> bool {
        match self {
            IncomingCommand::BoardInfo(i) => i.wf(),
            IncomingCommand::GetAngles(a) => a.wf(),
            IncomingCommand::ReadParams(p) => p.wf(),
            IncomingCommand::ReadParams3(p) => p.wf(),
        }
    }

    /// The command id this response travels under.
    pub open spec fn spec_command_id(&self) -> u8 {
        match self {
            IncomingCommand::BoardInfo(_) => CMD_BOARD_INFO,
            IncomingCommand::GetAngles(_) => CMD_GET_ANGLES,
            IncomingCommand::ReadParams(_) => CMD_READ_PARAMS,
            IncomingCommand::ReadParams3(_) => CMD_READ_PARAMS_3,
        }
    }

    /// The exact payload bytes this response carries.
    pub open spec fn payload_enc(&self) -> Seq<u8> {
        match self {
            IncomingCommand::BoardInfo(i) => i.enc(),
            IncomingCommand::GetAngles(a) => a.enc(),
            IncomingCommand::ReadParams(p) => p.enc(),
            IncomingCommand::ReadParams3(p) => p.enc(),
        }
    }

    /// Whether the incoming command table has an entry for this id.
    pub open spec fn spec_known_id(id: u8) -> bool {
        ||| id == CMD_BOARD_INFO
        ||| id == CMD_GET_ANGLES
        ||| id == CMD_READ_PARAMS
        ||| id == CMD_READ_PARAMS_3
    }

    /// Whether a payload decodes under the table entry for `id`.
    pub open spec fn spec_dispatch_ok(id: u8, p: Seq<u8>) -> bool {
        if id == CMD_BOARD_INFO {
            BoardInfo::dec_ok(p)
        } else if id == CMD_GET_ANGLES {
            RollPitchYaw::<AngleInfo>::dec_ok(p)
        } else if id == CMD_READ_PARAMS || id == CMD_READ_PARAMS_3 {
            Params3Data::dec_ok(p)
        } else {
            false
        }
    }

    /// The response a payload decodes to under the table entry for `id`,
    /// meaningful when `spec_dispatch_ok(id, p)` holds.
    pub open spec fn spec_dispatch_val(id: u8, p: Seq<u8>) -> IncomingCommand {
        if id == CMD_BOARD_INFO {
            IncomingCommand::BoardInfo(BoardInfo::dec_val(p))
        } else if id == CMD_GET_ANGLES {
            IncomingCommand::GetAngles(RollPitchYaw::<AngleInfo>::dec_val(p))
        } else if id == CMD_READ_PARAMS {
            IncomingCommand::ReadParams(Params3Data::dec_val(p))
        } else {
            IncomingCommand::ReadParams3(Params3Data::dec_val(p))
        }
    }

    /// Whether `e` is the error dispatching a payload under `id` yields:
    /// the reserved-table error for ids with no entry, else the payload
    /// decoder's own first-field error, wrapped.
    pub open spec fn spec_dispatch_err(id: u8, p: Seq<u8>, e: MessageParseError) -> bool {
        if !Self::spec_known_id(id) {
            e == (MessageParseError::BadCommandId { id })
        } else if id == CMD_BOARD_INFO {
            e matches MessageParseError::PayloadParse(pe) && BoardInfo::dec_err(p, pe)
        } else if id == CMD_GET_ANGLES {
            e matches MessageParseError::PayloadParse(pe) && RollPitchYaw::<AngleInfo>::dec_err(
                p,
                pe,
            )
        } else {
            e matches MessageParseError::PayloadParse(pe) && Params3Data::dec_err(p, pe)
        }
    }

    /// A well-formed response's payload fits a frame's one-byte length
    /// field.
    pub proof fn lemma_payload_len(&self)
        requires
            self.wf(),
        ensures
            self.payload_enc().len() <= 255,
    {
        match self {
            IncomingCommand::BoardInfo(i) => {
                i.lemma_enc_size();
            },
            IncomingCommand::GetAngles(a) => {
                a.lemma_enc_size();
            },
            IncomingCommand::ReadParams(p) => {
                p.lemma_enc_size();
            },
            IncomingCommand::ReadParams3(p) => {
                p.lemma_enc_size();
            },
        }
    }

    /// Dispatch round trip: decoding a response's own payload under its own
    /// id yields the response back.
    pub proof fn lemma_dispatch_round_trip(&self)
        requires
            self.wf(),
        ensures
            Self::spec_dispatch_ok(self.spec_command_id(), self.payload_enc()),
            Self::spec_dispatch_val(self.spec_command_id(), self.payload_enc()) == *self,
    {
        match self {
            IncomingCommand::BoardInfo(i) => {
                i.lemma_round_trip();
            },
            IncomingCommand::GetAngles(a) => {
                a.lemma_round_trip();
            },
            IncomingCommand::ReadParams(p) => {
                p.lemma_round_trip();
            },
            IncomingCommand::ReadParams3(p) => {
                p.lemma_round_trip();
            },
        }
    }

    /// The command id this response travels under.
    pub fn command_id(&self) -> (r: u8)
        ensures
            r == self.spec_command_id(),
    {
        match self {
            IncomingCommand::BoardInfo(_) => CMD_BOARD_INFO,
            IncomingCommand::GetAngles(_) => CMD_GET_ANGLES,
            IncomingCommand::ReadParams(_) => CMD_READ_PARAMS,
            IncomingCommand::ReadParams3(_) => CMD_READ_PARAMS_3,
        }
    }

    /// Serializes the payload this response carries.
    pub fn to_payload_bytes(&self) -> (r: Vec<u8>)
        requires
            self.wf(),
        ensures
            r@ == self.payload_enc(),
    {
        match self {
            IncomingCommand::BoardInfo(i) => i.to_bytes(),
            IncomingCommand::GetAngles(a) => a.to_bytes(),
            IncomingCommand::ReadParams(p) => p.to_bytes(),
            IncomingCommand::ReadParams3(p) => p.to_bytes(),
        }
    }

    /// Looks the command id up in the incoming table and decodes the payload
    /// under it.
    pub fn from_payload_bytes(id: u8, bytes: &[u8]) -> (r: Result<
        IncomingCommand,
        MessageParseError,
    >)
        ensures
            r is Ok <==> Self::spec_dispatch_ok(id, bytes@),
            (r matches Ok(c) ==> c == Self::spec_dispatch_val(id, bytes@) && c.wf()),
            (r matches Err(e) ==> Self::spec_dispatch_err(id, bytes@, e)),
    {
        if id == CMD_BOARD_INFO {
            match BoardInfo::from_bytes(bytes) {
                Ok(i) => Ok(IncomingCommand::BoardInfo(i)),
                Err(e) => Err(MessageParseError::PayloadParse(e)),
            }
        } else if id == CMD_GET_ANGLES {
            match RollPitchYaw::<AngleInfo>::from_bytes(bytes) {
                Ok(a) => Ok(IncomingCommand::GetAngles(a)),
                Err(e) => Err(MessageParseError::PayloadParse(e)),
            }
        } else if id == CMD_READ_PARAMS {
            match Params3Data::from_bytes(bytes) {
                Ok(p) => Ok(IncomingCommand::ReadParams(p)),
                Err(e) => Err(MessageParseError::PayloadParse(e)),
            }
        } else if id == CMD_READ_PARAMS_3 {
            match Params3Data::from_bytes(bytes) {
                Ok(p) => Ok(IncomingCommand::ReadParams3(p)),
                Err(e) => Err(MessageParseError::PayloadParse(e)),
            }
        } else {
            Err(MessageParseError::BadCommandId { id })
        }
    }

    /// Wraps this response in a protocol v1 frame.
    pub fn to_v1_bytes(&self) -> (r: Vec<u8>)
        requires
            self.wf(),
        ensures
            r@ == frame_v1(self.spec_command_id(), self.payload_enc()),
    {
        proof {
            self.lemma_payload_len();
        }
        let payload: Vec<u8> = self.to_payload_bytes();
        encode_frame_v1(self.command_id(), payload.as_slice())
    }

    /// Wraps this response in a protocol v2 frame.
    pub fn to_v2_bytes(&self) -> (r: Vec<u8>)
        requires
            self.wf(),
        ensures
            r@ == frame_v2(self.spec_command_id(), self.payload_enc()),
    {
        proof {
            self.lemma_payload_len();
        }
        let payload: Vec<u8> = self.to_payload_bytes();
        encode_frame_v2(self.command_id(), payload.as_slice())
    }

    /// Parses a v1 frame and dispatches its payload through the incoming
    /// table. On success the returned count is the number of bytes the frame
    /// occupied; on failure no bytes are consumed.
    pub fn from_v1_bytes(buf: &[u8]) -> (r: Result<(IncomingCommand, usize), MessageParseError>)
        ensures
            r is Ok <==> (spec_parse_v1(buf@) matches Ok(t) && Self::spec_dispatch_ok(t.0, t.1)),
            (r matches Ok((c, used)) ==> (spec_parse_v1(buf@) matches Ok(t) && c
                == Self::spec_dispatch_val(t.0, t.1) && c.wf() && used == t.2)),
            (r matches Err(e) ==> (spec_parse_v1(buf@) matches Err(pe) ==> e == pe)),
            (r matches Err(e) ==> (spec_parse_v1(buf@) matches Ok(t) ==> Self::spec_dispatch_err(
                t.0,
                t.1,
                e,
            ))),
    {
        let (cmd, payload, used) = match parse_frame_v1(buf) {
            Ok(t) => t,
            Err(e) => {
                return Err(e);
            },
        };
        match Self::from_payload_bytes(cmd, payload.as_slice()) {
            Ok(c) => Ok((c, used)),
            Err(e) => Err(e),
        }
    }

    /// Parses a v2 frame and dispatches its payload through the incoming
    /// table. On success the returned count is the number of bytes the frame
    /// occupied; on failure no bytes are consumed.
    pub fn from_v2_bytes(buf: &[u8]) -> (r: Result<(IncomingCommand, usize), MessageParseError>)
        ensures
            r is Ok <==> (spec_parse_v2(buf@) matches Ok(t) && Self::spec_dispatch_ok(t.0, t.1)),
            (r matches Ok((c, used)) ==> (spec_parse_v2(buf@) matches Ok(t) && c
                == Self::spec_dispatch_val(t.0, t.1) && c.wf() && used == t.2)),
            (r matches Err(e) ==> (spec_parse_v2(buf@) matches Err(pe) ==> e == pe)),
            (r matches Err(e) ==> (spec_parse_v2(buf@) matches Ok(t) ==> Self::spec_dispatch_err(
                t.0,
                t.1,
                e,
            ))),
    {
        let (cmd, payload, used) = match parse_frame_v2(buf) {
            Ok(t) => t,
            Err(e) => {
                return Err(e);
            },
        };
        match Self::from_payload_bytes(cmd, payload.as_slice()) {
            Ok(c) => Ok((c, used)),
            Err(e) => Err(e),
        }
    }

    /// Parses a frame of either protocol version, selected by the first
    /// byte, and dispatches its payload. On success the returned count is
    /// the number of bytes the frame occupied; on failure no bytes are
    /// consumed, so a caller holding a partial frame can retry with more
    /// input after `InsufficientData`.
    pub fn from_bytes(buf: &[u8]) -> (r: Result<(IncomingCommand, usize), MessageParseError>)
        ensures
            r is Ok <==> (spec_parse_frame(buf@) matches Ok(t) && Self::spec_dispatch_ok(
                t.0,
                t.1,
            )),
            (r matches Ok((c, used)) ==> (spec_parse_frame(buf@) matches Ok(t) && c
                == Self::spec_dispatch_val(t.0, t.1) && c.wf() && used == t.2)),
            (r matches Err(e) ==> (spec_parse_frame(buf@) matches Err(pe) ==> e == pe)),
            (r matches Err(e) ==> (spec_parse_frame(buf@) matches Ok(t)
                ==> Self::spec_dispatch_err(t.0, t.1, e))),
    {
        if buf.len() == 0 {
            return Err(MessageParseError::InsufficientData);
        }
        if buf[0] == VERSION_BYTE_V1 {
            Self::from_v1_bytes(buf)
        } else if buf[0] == VERSION_BYTE_V2 {
            Self::from_v2_bytes(buf)
        } else {
            Err(MessageParseError::BadVersionCode)
        }
    }
}

/// Frame round trip for incoming commands, protocol v1: parsing an encoded
/// response yields the response back, and the consumed count is the encoded
/// frame's length.
pub proof fn lemma_incoming_round_trip_v1(c: IncomingCommand)
    requires
        c.wf(),
    ensures
        ({
            let f = frame_v1(c.spec_command_id(), c.payload_enc());
            &&& spec_parse_frame(f) matches Ok(t)
            &&& IncomingCommand::spec_dispatch_ok(t.0, t.1)
            &&& IncomingCommand::spec_dispatch_val(t.0, t.1) == c
            &&& t.2 == f.len()
        }),
{
    c.lemma_payload_len();
    lemma_frame_v1_round_trip(c.spec_command_id(), c.payload_enc());
    c.lemma_dispatch_round_trip();
}

/// Frame round trip for incoming commands, protocol v2.
pub proof fn lemma_incoming_round_trip_v2(c: IncomingCommand)
    requires
        c.wf(),
    ensures
        ({
            let f = frame_v2(c.spec_command_id(), c.payload_enc());
            &&& spec_parse_frame(f) matches Ok(t)
            &&& IncomingCommand::spec_dispatch_ok(t.0, t.1)
            &&& IncomingCommand::spec_dispatch_val(t.0, t.1) == c
            &&& t.2 == f.len()
        }),
{
    c.lemma_payload_len();
    lemma_frame_v2_round_trip(c.spec_command_id(), c.payload_enc());
    c.lemma_dispatch_round_trip();
}

} // verus!
