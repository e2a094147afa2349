//! Realtime telemetry payloads: per-axis sensor data plus board counters.

use crate::payload::{check_flags_u8, Payload, PayloadParseError};
use crate::rpy::RollPitchYaw;
use crate::wire;
use vstd::prelude::*;

verus! {

broadcast use vstd::array::group_array_axioms;

/// One axis's accelerometer and gyroscope sample.
#[derive(Copy, Clone, Debug, PartialEq)]
pub struct AccGyroData {
    pub acc_data: i16,
    pub gyro_data: i16,
}

impl Payload for AccGyroData {
    open spec fn wf(&self) -> bool {
        true
    }

    open spec fn spec_size() -> nat {
        4
    }

    open spec fn enc(&self) -> Seq<u8> {
        wire::enc_i16(self.acc_data) + wire::enc_i16(self.gyro_data)
    }

    open spec fn dec_ok(bs: Seq<u8>) -> bool {
        bs.len() == 4
    }

    open spec fn dec_val(bs: Seq<u8>) -> Self {
        AccGyroData {
            acc_data: wire::i16_of_u16(wire::u16_le_of(bs[0], bs[1])),
            gyro_data: wire::i16_of_u16(wire::u16_le_of(bs[2], bs[3])),
        }
    }

    open spec fn dec_err(bs: Seq<u8>, e: PayloadParseError) -> bool {
        bs.len() != 4 && e == PayloadParseError::InsufficientData
    }

    proof fn lemma_dec_ok_len(bs: Seq<u8>) {
    }

    proof fn lemma_enc_size(&self) {
    }

    proof fn lemma_round_trip(&self) {
        wire::lemma_u16_round_trip(wire::u16_of_i16(self.acc_data));
        wire::lemma_u16_round_trip(wire::u16_of_i16(self.gyro_data));
        wire::lemma_i16_round_trip(self.acc_data);
        wire::lemma_i16_round_trip(self.gyro_data);
    }

    fn from_bytes(b: &[u8]) -> (r: Result<Self, PayloadParseError>) {
        if b.len() != 4 {
            return Err(PayloadParseError::InsufficientData);
        }
        Ok(AccGyroData { acc_data: wire::read_i16_le(b, 0), gyro_data: wire::read_i16_le(b, 2) })
    }

    fn to_bytes(&self) -> (r: Vec<u8>) {
        let mut out: Vec<u8> = Vec::new();
        wire::push_i16_le(&mut out, self.acc_data);
        wire::push_i16_le(&mut out, self.gyro_data);
        assert(out@ =~= self.enc());
        out
    }
}

/// One axis's RC channel value.
#[derive(Copy, Clone, Debug, PartialEq)]
pub struct RcRPY(pub i16);

/// One axis's IMU angle, in 0.02197265625 degree units.
#[derive(Copy, Clone, Debug, PartialEq)]
pub struct ImuAngle(pub i16);

/// One axis's frame IMU angle, in 0.02197265625 degree units.
#[derive(Copy, Clone, Debug, PartialEq)]
pub struct FrameImuAngle(pub i16);

/// One axis's target angle, in 0.02197265625 degree units.
#[derive(Copy, Clone, Debug, PartialEq)]
pub struct TargetAngle(pub i16);

/// One axis's motor power.
#[derive(Copy, Clone, Debug, PartialEq)]
pub struct MotorPower(pub u8);

impl Payload for RcRPY {
    open spec fn wf(&self) -> bool {
        true
    }

    open spec fn spec_size() -> nat {
        2
    }

    open spec fn enc(&self) -> Seq<u8> {
        wire::enc_i16(self.0)
    }

    open spec fn dec_ok(bs: Seq<u8>) -> bool {
        bs.len() == 2
    }

    open spec fn dec_val(bs: Seq<u8>) -> Self {
        RcRPY(wire::i16_of_u16(wire::u16_le_of(bs[0], bs[1])))
    }

    open spec fn dec_err(bs: Seq<u8>, e: PayloadParseError) -> bool {
        bs.len() != 2 && e == PayloadParseError::InsufficientData
    }

    proof fn lemma_dec_ok_len(bs: Seq<u8>) {
    }

    proof fn lemma_enc_size(&self) {
    }

    proof fn lemma_round_trip(&self) {
        wire::lemma_u16_round_trip(wire::u16_of_i16(self.0));
        wire::lemma_i16_round_trip(self.0);
    }

    fn from_bytes(b: &[u8]) -> (r: Result<Self, PayloadParseError>) {
        if b.len() != 2 {
            return Err(PayloadParseError::InsufficientData);
        }
        Ok(RcRPY(wire::read_i16_le(b, 0)))
    }

    fn to_bytes(&self) -> (r: Vec<u8>) {
        let mut out: Vec<u8> = Vec::new();
        wire::push_i16_le(&mut out, self.0);
        out
    }
}

impl Payload for ImuAngle {
    open spec fn wf(&self) -> bool {
        true
    }

    open spec fn spec_size() -> nat {
        2
    }

    open spec fn enc(&self) -> Seq<u8> {
        wire::enc_i16(self.0)
    }

    open spec fn dec_ok(bs: Seq<u8>) -> bool {
        bs.len() == 2
    }

    open spec fn dec_val(bs: Seq<u8>) -> Self {
        ImuAngle(wire::i16_of_u16(wire::u16_le_of(bs[0], bs[1])))
    }

    open spec fn dec_err(bs: Seq<u8>, e: PayloadParseError) -> bool {
        bs.len() != 2 && e == PayloadParseError::InsufficientData
    }

    proof fn lemma_dec_ok_len(bs: Seq<u8>) {
    }

    proof fn lemma_enc_size(&self) {
    }

    proof fn lemma_round_trip(&self) {
        wire::lemma_u16_round_trip(wire::u16_of_i16(self.0));
        wire::lemma_i16_round_trip(self.0);
    }

    fn from_bytes(b: &[u8]) -> (r: Result<Self, PayloadParseError>) {
        if b.len() != 2 {
            return Err(PayloadParseError::InsufficientData);
        }
        Ok(ImuAngle(wire::read_i16_le(b, 0)))
    }

    fn to_bytes(&self) -> (r: Vec<u8>) {
        let mut out: Vec<u8> = Vec::new();
        wire::push_i16_le(&mut out, self.0);
        out
    }
}

impl Payload for FrameImuAngle {
    open spec fn wf(&self) -> bool {
        true
    }

    open spec fn spec_size() -> nat {
        2
    }

    open spec fn enc(&self) -> Seq<u8> {
        wire::enc_i16(self.0)
    }

    open spec fn dec_ok(bs: Seq<u8>) -> bool {
        bs.len() == 2
    }

    open spec fn dec_val(bs: Seq<u8>) -> Self {
        FrameImuAngle(wire::i16_of_u16(wire::u16_le_of(bs[0], bs[1])))
    }

    open spec fn dec_err(bs: Seq<u8>, e: PayloadParseError) -> bool {
        bs.len() != 2 && e == PayloadParseError::InsufficientData
    }

    proof fn lemma_dec_ok_len(bs: Seq<u8>) {
    }

    proof fn lemma_enc_size(&self) {
    }

    proof fn lemma_round_trip(&self) {
        wire::lemma_u16_round_trip(wire::u16_of_i16(self.0));
        wire::lemma_i16_round_trip(self.0);
    }

    fn from_bytes(b: &[u8]) -> (r: Result<Self, PayloadParseError>) {
        if b.len() != 2 {
            return Err(PayloadParseError::InsufficientData);
        }
        Ok(FrameImuAngle(wire::read_i16_le(b, 0)))
    }

    fn to_bytes(&self) -> (r: Vec<u8>) {
        let mut out: Vec<u8> = Vec::new();
        wire::push_i16_le(&mut out, self.0);
        out
    }
}

impl Payload for TargetAngle {
    open spec fn wf(&self) -> bool {
        true
    }

    open spec fn spec_size() -> nat {
        2
    }

    open spec fn enc(&self) -> Seq<u8> {
        wire::enc_i16(self.0)
    }

    open spec fn dec_ok(bs: Seq<u8>) -> bool {
        bs.len() == 2
    }

    open spec fn dec_val(bs: Seq<u8>) -> Self {
        TargetAngle(wire::i16_of_u16(wire::u16_le_of(bs[0], bs[1])))
    }

    open spec fn dec_err(bs: Seq<u8>, e: PayloadParseError) -> bool {
        bs.len() != 2 && e == PayloadParseError::InsufficientData
    }

    proof fn lemma_dec_ok_len(bs: Seq<u8>) {
    }

    proof fn lemma_enc_size(&self) {
    }

    proof fn lemma_round_trip(&self) {
        wire::lemma_u16_round_trip(wire::u16_of_i16(self.0));
        wire::lemma_i16_round_trip(self.0);
    }

    fn from_bytes(b: &[u8]) -> (r: Result<Self, PayloadParseError>) {
        if b.len() != 2 {
            return Err(PayloadParseError::InsufficientData);
        }
        Ok(TargetAngle(wire::read_i16_le(b, 0)))
    }

    fn to_bytes(&self) -> (r: Vec<u8>) {
        let mut out: Vec<u8> = Vec::new();
        wire::push_i16_le(&mut out, self.0);
        out
    }
}

impl Payload for MotorPower {
    open spec fn wf(&self) -> bool {
        true
    }

    open spec fn spec_size() -> nat {
        1
    }

    open spec fn enc(&self) -> Seq<u8> {
        seq![self.0]
    }

    open spec fn dec_ok(bs: Seq<u8>) -> bool {
        bs.len() == 1
    }

    open spec fn dec_val(bs: Seq<u8>) -> Self {
        MotorPower(bs[0])
    }

    open spec fn dec_err(bs: Seq<u8>, e: PayloadParseError) -> bool {
        bs.len() != 1 && e == PayloadParseError::InsufficientData
    }

    proof fn lemma_dec_ok_len(bs: Seq<u8>) {
    }

    proof fn lemma_enc_size(&self) {
    }

    proof fn lemma_round_trip(&self) {
    }

    fn from_bytes(b: &[u8]) -> (r: Result<Self, PayloadParseError>) {
        if b.len() != 1 {
            return Err(PayloadParseError::InsufficientData);
        }
        Ok(MotorPower(b[0]))
    }

    fn to_bytes(&self) -> (r: Vec<u8>) {
        let mut out: Vec<u8> = Vec::new();
        out.push(self.0);
        assert(out@ =~= self.enc());
        out
    }
}

/// All bits that [`RTDataFlags`] defines.
pub const RT_DATA_FLAGS_MASK: u8 = 0x01;

/// Single-bit flags of the realtime report.
#[derive(Copy, Clone, Debug, PartialEq)]
pub enum RTDataFlags {
    MotorsOn,
}

impl RTDataFlags {
    /// The wire bit of this flag.
    pub open spec fn spec_bit(self) -> u8 {
        0x01
    }

    /// The wire bit of this flag.
    pub fn bit(self) -> (b: u8)
        ensures
            b == self.spec_bit(),
    {
        0x01
    }
}

/// The realtime telemetry report.
#[derive(Copy, Clone, Debug, PartialEq)]
pub struct RealtimeData3 {
    pub acc_gyro_data: RollPitchYaw<AccGyroData>,
    pub serial_err_cnt: u16,
    pub system_error: u16,
    pub system_sub_error: u8,
    pub reserved: [u8; 3],
    pub rc_rpy: RollPitchYaw<RcRPY>,
    pub rc_cmd: i16,
    pub ext_fc_roll: i16,
    pub ext_fc_pitch: i16,
    pub imu_angle: RollPitchYaw<ImuAngle>,
    pub frame_imu_angle: RollPitchYaw<FrameImuAngle>,
    pub target_angle: RollPitchYaw<TargetAngle>,
    pub cycle_time: u16,
    pub i2c_error_count: u16,
    pub error_code: u8,
    pub bat_level: u16,
    /// Bit set over [`RTDataFlags`].
    pub rt_data_flags: u8,
    pub cur_imu: u8,
    pub cur_profile: u8,
    pub motor_power: RollPitchYaw<MotorPower>,
}

impl Payload for RealtimeData3 {
    open spec fn wf(&self) -> bool {
        self.rt_data_flags & !RT_DATA_FLAGS_MASK == 0
    }

    open spec fn spec_size() -> nat {
        63
    }

    open spec fn enc(&self) -> Seq<u8> {
        self.acc_gyro_data.enc() + wire::enc_u16(self.serial_err_cnt) + wire::enc_u16(
            self.system_error,
        ) + seq![self.system_sub_error] + self.reserved@ + self.rc_rpy.enc() + wire::enc_i16(
            self.rc_cmd,
        ) + wire::enc_i16(self.ext_fc_roll) + wire::enc_i16(self.ext_fc_pitch)
            + self.imu_angle.enc() + self.frame_imu_angle.enc() + self.target_angle.enc()
            + wire::enc_u16(self.cycle_time) + wire::enc_u16(self.i2c_error_count) + seq![
            self.error_code,
        ] + wire::enc_u16(self.bat_level) + seq![self.rt_data_flags, self.cur_imu, self.cur_profile]
            + self.motor_power.enc()
    }

    open spec fn dec_ok(bs: Seq<u8>) -> bool {
        &&& bs.len() == 63
        &&& bs[57] & !RT_DATA_FLAGS_MASK == 0
    }

    open spec fn dec_val(bs: Seq<u8>) -> Self {
        RealtimeData3 {
            acc_gyro_data: RollPitchYaw::<AccGyroData>::dec_val(bs.subrange(0, 12)),
            serial_err_cnt: wire::u16_le_of(bs[12], bs[13]),
            system_error: wire::u16_le_of(bs[14], bs[15]),
            system_sub_error: bs[16],
            reserved: (choose|a: [u8; 3]| a@ == bs.subrange(17, 20)),
            rc_rpy: RollPitchYaw::<RcRPY>::dec_val(bs.subrange(20, 26)),
            rc_cmd: wire::i16_of_u16(wire::u16_le_of(bs[26], bs[27])),
            ext_fc_roll: wire::i16_of_u16(wire::u16_le_of(bs[28], bs[29])),
            ext_fc_pitch: wire::i16_of_u16(wire::u16_le_of(bs[30], bs[31])),
            imu_angle: RollPitchYaw::<ImuAngle>::dec_val(bs.subrange(32, 38)),
            frame_imu_angle: RollPitchYaw::<FrameImuAngle>::dec_val(bs.subrange(38, 44)),
            target_angle: RollPitchYaw::<TargetAngle>::dec_val(bs.subrange(44, 50)),
            cycle_time: wire::u16_le_of(bs[50], bs[51]),
            i2c_error_count: wire::u16_le_of(bs[52], bs[53]),
            error_code: bs[54],
            bat_level: wire::u16_le_of(bs[55], bs[56]),
            rt_data_flags: bs[57],
            cur_imu: bs[58],
            cur_profile: bs[59],
            motor_power: RollPitchYaw::<MotorPower>::dec_val(bs.subrange(60, 63)),
        }
    }

    open spec fn dec_err(bs: Seq<u8>, e: PayloadParseError) -> bool {
        if bs.len() != 63 {
            e == PayloadParseError::InsufficientData
        } else if bs[57] & !RT_DATA_FLAGS_MASK != 0 {
            e matches PayloadParseError::InvalidFlags { name } && name@ == "RT_DATA_FLAGS"@
        } else {
            false
        }
    }

    proof fn lemma_dec_ok_len(bs: Seq<u8>) {
    }

    proof fn lemma_enc_size(&self) {
        self.acc_gyro_data.lemma_enc_size();
        self.rc_rpy.lemma_enc_size();
        self.imu_angle.lemma_enc_size();
        self.frame_imu_angle.lemma_enc_size();
        self.target_angle.lemma_enc_size();
        self.motor_power.lemma_enc_size();
    }

    proof fn lemma_round_trip(&self) {
        self.lemma_enc_size();
        self.acc_gyro_data.lemma_round_trip();
        self.rc_rpy.lemma_round_trip();
        self.imu_angle.lemma_round_trip();
        self.frame_imu_angle.lemma_round_trip();
        self.target_angle.lemma_round_trip();
        self.motor_power.lemma_round_trip();
        wire::lemma_u16_round_trip(self.serial_err_cnt);
        wire::lemma_u16_round_trip(self.system_error);
        wire::lemma_u16_round_trip(wire::u16_of_i16(self.rc_cmd));
        wire::lemma_i16_round_trip(self.rc_cmd);
        wire::lemma_u16_round_trip(wire::u16_of_i16(self.ext_fc_roll));
        wire::lemma_i16_round_trip(self.ext_fc_roll);
        wire::lemma_u16_round_trip(wire::u16_of_i16(self.ext_fc_pitch));
        wire::lemma_i16_round_trip(self.ext_fc_pitch);
        wire::lemma_u16_round_trip(self.cycle_time);
        wire::lemma_u16_round_trip(self.i2c_error_count);
        wire::lemma_u16_round_trip(self.bat_level);
        let e = self.enc();
        assert(e.subrange(0, 12) =~= self.acc_gyro_data.enc());
        assert(e.subrange(17, 20) =~= self.reserved@);
        assert(e.subrange(20, 26) =~= self.rc_rpy.enc());
        assert(e.subrange(32, 38) =~= self.imu_angle.enc());
        assert(e.subrange(38, 44) =~= self.frame_imu_angle.enc());
        assert(e.subrange(44, 50) =~= self.target_angle.enc());
        assert(e.subrange(60, 63) =~= self.motor_power.enc());
        let c = choose|a: [u8; 3]| a@ == e.subrange(17, 20);
        assert(c@ =~= self.reserved@);
        assert(c == self.reserved);
    }

    fn from_bytes(b: &[u8]) -> (r: Result<Self, PayloadParseError>) {
        if b.len() != 63 {
            return Err(PayloadParseError::InsufficientData);
        }
        let acc_gyro_data: RollPitchYaw<AccGyroData> = match RollPitchYaw::<
            AccGyroData,
        >::from_bytes(&b[0..12]) {
            Ok(v) => v,
            Err(e) => {
                return Err(e);
            },
        };
        let serial_err_cnt: u16 = wire::read_u16_le(b, 12);
        let system_error: u16 = wire::read_u16_le(b, 14);
        let system_sub_error: u8 = b[16];
        let reserved: [u8; 3] = wire::read_array::<3>(b, 17);
        let rc_rpy: RollPitchYaw<RcRPY> = match RollPitchYaw::<RcRPY>::from_bytes(&b[20..26]) {
            Ok(v) => v,
            Err(e) => {
                return Err(e);
            },
        };
        let rc_cmd: i16 = wire::read_i16_le(b, 26);
        let ext_fc_roll: i16 = wire::read_i16_le(b, 28);
        let ext_fc_pitch: i16 = wire::read_i16_le(b, 30);
        let imu_angle: RollPitchYaw<ImuAngle> = match RollPitchYaw::<ImuAngle>::from_bytes(
            &b[32..38],
        ) {
            Ok(v) => v,
            Err(e) => {
                return Err(e);
            },
        };
        let frame_imu_angle: RollPitchYaw<FrameImuAngle> = match RollPitchYaw::<
            FrameImuAngle,
        >::from_bytes(&b[38..44]) {
            Ok(v) => v,
            Err(e) => {
                return Err(e);
            },
        };
        let target_angle: RollPitchYaw<TargetAngle> = match RollPitchYaw::<
            TargetAngle,
        >::from_bytes(&b[44..50]) {
            Ok(v) => v,
            Err(e) => {
                return Err(e);
            },
        };
        let cycle_time: u16 = wire::read_u16_le(b, 50);
        let i2c_error_count: u16 = wire::read_u16_le(b, 52);
        let error_code: u8 = b[54];
        let bat_level: u16 = wire::read_u16_le(b, 55);
        let rt_data_flags: u8 = match check_flags_u8(b[57], RT_DATA_FLAGS_MASK, "RT_DATA_FLAGS") {
            Ok(v) => v,
            Err(e) => {
                return Err(e);
            },
        };
        let cur_imu: u8 = b[58];
        let cur_profile: u8 = b[59];
        let motor_power: RollPitchYaw<MotorPower> = match RollPitchYaw::<MotorPower>::from_bytes(
            &b[60..63],
        ) {
            Ok(v) => v,
            Err(e) => {
                return Err(e);
            },
        };
        proof {
            let c = choose|a: [u8; 3]| a@ == b@.subrange(17, 20);
            assert(c@ =~= reserved@);
            assert(c == reserved);
        }
        Ok(
            RealtimeData3 {
                acc_gyro_data,
                serial_err_cnt,
                system_error,
                system_sub_error,
                reserved,
                rc_rpy,
                rc_cmd,
                ext_fc_roll,
                ext_fc_pitch,
                imu_angle,
                frame_imu_angle,
                target_angle,
                cycle_time,
                i2c_error_count,
                error_code,
                bat_level,
                rt_data_flags,
                cur_imu,
                cur_profile,
                motor_power,
            },
        )
    }

    fn to_bytes(&self) -> (r: Vec<u8>) {
        let mut out: Vec<u8> = self.acc_gyro_data.to_bytes();
        wire::push_u16_le(&mut out, self.serial_err_cnt);
        wire::push_u16_le(&mut out, self.system_error);
        out.push(self.system_sub_error);
        wire::push_array::<3>(&mut out, &self.reserved);
        let mut part: Vec<u8> = self.rc_rpy.to_bytes();
        out.append(&mut part);
        wire::push_i16_le(&mut out, self.rc_cmd);
        wire::push_i16_le(&mut out, self.ext_fc_roll);
        wire::push_i16_le(&mut out, self.ext_fc_pitch);
        let mut part: Vec<u8> = self.imu_angle.to_bytes();
        out.append(&mut part);
        let mut part: Vec<u8> = self.frame_imu_angle.to_bytes();
        out.append(&mut part);
        let mut part: Vec<u8> = self.target_angle.to_bytes();
        out.append(&mut part);
        wire::push_u16_le(&mut out, self.cycle_time);
        wire::push_u16_le(&mut out, self.i2c_error_count);
        out.push(self.error_code);
        wire::push_u16_le(&mut out, self.bat_level);
        out.push(self.rt_data_flags);
        out.push(self.cur_imu);
        out.push(self.cur_profile);
        let mut part: Vec<u8> = self.motor_power.to_bytes();
        out.append(&mut part);
        assert(out@ =~= self.enc());
        out
    }
}

} // verus!
