//! The per-axis angle report: IMU angle, target angle and target speed.

use crate::payload::{Payload, PayloadParseError};
use crate::wire;
use vstd::prelude::*;

verus! {

/// Angle data for one axis.
///
/// Angles are in 14-bit-per-full-turn resolution (0.02197265625 degree
/// units); speeds are in 0.1220740379 degree/second units.
#[derive(Copy, Clone, Debug, PartialEq)]
pub struct AngleInfo {
    pub imu_angle: i32,
    pub target_angle: i32,
    pub target_speed: i32,
}

impl Payload for AngleInfo {
    open spec fn wf(&self) -> bool {
        true
    }

    open spec fn spec_size() -> nat {
        12
    }

    open spec fn enc(&self) -> Seq<u8> {
        wire::enc_i32(self.imu_angle) + wire::enc_i32(self.target_angle) + wire::enc_i32(
            self.target_speed,
        )
    }

    open spec fn dec_ok(bs: Seq<u8>) -> bool {
        bs.len() == 12
    }

    open spec fn dec_val(bs: Seq<u8>) -> Self {
        AngleInfo {
            imu_angle: wire::i32_of_u32(wire::u32_le_of(bs[0], bs[1], bs[2], bs[3])),
            target_angle: wire::i32_of_u32(wire::u32_le_of(bs[4], bs[5], bs[6], bs[7])),
            target_speed: wire::i32_of_u32(wire::u32_le_of(bs[8], bs[9], bs[10], bs[11])),
        }
    }

    open spec fn dec_err(bs: Seq<u8>, e: PayloadParseError) -> bool {
        bs.len() != 12 && e == PayloadParseError::InsufficientData
    }

    proof fn lemma_dec_ok_len(bs: Seq<u8>) {
    }

    proof fn lemma_enc_size(&self) {
    }

    proof fn lemma_round_trip(&self) {
        wire::lemma_u32_round_trip(wire::u32_of_i32(self.imu_angle));
        wire::lemma_u32_round_trip(wire::u32_of_i32(self.target_angle));
        wire::lemma_u32_round_trip(wire::u32_of_i32(self.target_speed));
        wire::lemma_i32_round_trip(self.imu_angle);
        wire::lemma_i32_round_trip(self.target_angle);
        wire::lemma_i32_round_trip(self.target_speed);
    }

    fn from_bytes(b: &[u8]) -> (r: Result<Self, PayloadParseError>) {
        if b.len() != 12 {
            return Err(PayloadParseError::InsufficientData);
        }
        Ok(
            AngleInfo {
                imu_angle: wire::read_i32_le(b, 0),
                target_angle: wire::read_i32_le(b, 4),
                target_speed: wire::read_i32_le(b, 8),
            },
        )
    }

    fn to_bytes(&self) -> (r: Vec<u8>) {
        let mut out: Vec<u8> = Vec::new();
        wire::push_i32_le(&mut out, self.imu_angle);
        wire::push_i32_le(&mut out, self.target_angle);
        wire::push_i32_le(&mut out, self.target_speed);
        assert(out@ =~= self.enc());
        out
    }
}

} // verus!
