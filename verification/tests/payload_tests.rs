use simplebgc::{
    encode_frame_v2, AccGyroData, AdaptivePid, AxisControl, AxisControlFlags, AxisControlMode, AxisOrder, AxisPidParams,
    AxisRcMode, AxisRcParams, BeeperMode, Confirm, ControlAxisParams, ControlData, ControlMode,
    DataStreamInterval, DataType, Error, EulerOrder, FollowMode, FrameImuAngle, FrameImuPos,
    GeneralFlags, GyroCalibrationMode, ImuAngle, ImuType, IncomingCommand, MessageParseError, MotorPower,
    Orientation, OutgoingCommand, Params3Data, ParamsQuery, Payload, PayloadParseError,
    ProfileFlags, PwmFrequency, RTDataFlags, RcMap, RcMapAnalogChannel, RcMapPwmSource, RcMaps,
    RcMix, RcMixChannel, RcMixRate, RcMixes, RcRPY, RcVirtMode, RealtimeData3, RollPitchYaw,
    SerialSpeed, SpektrumMode, SpektrumModeBits, SpektrumModeDSM, SpektrumModeTime, SyncToData,
    TargetAngle,
};

fn sample_params() -> Params3Data {
    let pid = |p: u8| AxisPidParams { p, i: 2, d: 3, power: 120, invert: p == 2, poles: 14 };
    let rc = |lo: i16| AxisRcParams {
        rc_min_angle: lo,
        rc_max_angle: -lo,
        rc_mode: AxisRcMode::Angle.bit() | AxisRcMode::Inverted.bit(),
        rc_lpf: 4,
        rc_speed: 80,
        rc_follow: -7,
    };
    Params3Data {
        profile_id: 255,
        pid: RollPitchYaw { roll: pid(1), pitch: pid(2), yaw: pid(3) },
        acc_limiter_all: 9,
        ext_fc_gain: (-5, 6),
        rc: RollPitchYaw { roll: rc(-45), pitch: rc(-90), yaw: rc(-180) },
        gyro_trust: 100,
        use_model: true,
        pwm_freq: PwmFrequency::High,
        serial_speed: SerialSpeed::B115200,
        rc_trim: RollPitchYaw { roll: -1, pitch: 0, yaw: 1 },
        rc_deadband: 2,
        rc_expo_rate: 50,
        rc_virt_mode: RcVirtMode::API,
        rc_map: RcMaps {
            roll: RcMap::PWM { source: RcMapPwmSource::Pitch },
            pitch: RcMap::Analog { channel: RcMapAnalogChannel::ADC2 },
            yaw: RcMap::Serial { channel: 5 },
            cmd: RcMap::Virtual { channel: 31 },
            fc_roll: RcMap::Step { channel: 0 },
            fc_pitch: RcMap::Disabled,
        },
        rc_mix: RcMixes {
            fc_roll: RcMix { rc_mix_rate: 31, rc_mix_channel: RcMixChannel::Roll },
            fc_pitch: RcMix { rc_mix_rate: 0, rc_mix_channel: RcMixChannel::Disabled },
        },
        follow_mode: FollowMode::Fc,
        follow_deadband: 10,
        follow_expo_rate: 20,
        axis_top: Orientation::PosZ,
        axis_right: Orientation::NegX,
        frame_axis_top: Orientation::PosY,
        frame_axis_right: Orientation::NegZ,
        frame_imu_pos: FrameImuPos::BelowYaw,
        gyro_deadband: 3,
        gyro_sens: 110,
        i2c_speed_fast: false,
        skip_gyro_calib: GyroCalibrationMode::Attempt,
        rc_cmd: [1, 2, 3, 4, 5, 6, 7, 8, 9],
        motor_output: RollPitchYaw { roll: 1, pitch: 2, yaw: 3 },
        bat_threshold_alarm: -1,
        bat_threshold_motors: 1480,
        bat_comp_ref: -1260,
        beeper_mode: BeeperMode::Motors,
        follow_roll_mix_start: 6,
        follow_roll_mix_range: 12,
        booster_power: RollPitchYaw { roll: 0, pitch: 40, yaw: 80 },
        follow_speed: RollPitchYaw { roll: 30, pitch: 60, yaw: 90 },
        frame_angle_from_motors: true,
        servo_out: [0, 1, 16, 32],
        servo_rate: 5,
        adaptive_pid_enabled: AdaptivePid::Roll.bit() | AdaptivePid::Yaw.bit(),
        adaptive_pid_threshold: 30,
        adaptive_pid_rate: 15,
        adaptive_pid_recovery_factor: 6,
        general_flags: GeneralFlags::RememberLastUsedProfile.bit()
            | GeneralFlags::EmergencyStop.bit()
            | GeneralFlags::IsUpsideDown.bit(),
        profile_flags: ProfileFlags::Adc1AutoDetection.bit()
            | ProfileFlags::EulerOrderAuto.bit(),
        spektrum_mode: SpektrumMode::Mode(
            SpektrumModeDSM::DSMX,
            SpektrumModeTime::Short,
            SpektrumModeBits::Long,
        ),
        order_of_axes: AxisOrder::RollPitchYaw,
        euler_order: EulerOrder::YawPitchRoll,
        cur_imu: ImuType::Frame,
        cur_profile_id: 4,
    }
}

#[test]
fn write_params3_frame_round_trip() {
    let cmd = OutgoingCommand::WriteParams3(sample_params());
    let v2 = cmd.to_v2_bytes();
    let (back, read) = OutgoingCommand::from_bytes(&v2[..]).unwrap();
    assert_eq!(back, cmd);
    assert_eq!(read, v2.len());
    assert_eq!(read, 122 + 6);

    let reply = IncomingCommand::ReadParams3(sample_params());
    let v1 = reply.to_v1_bytes();
    let (back, read) = IncomingCommand::from_bytes(&v1[..]).unwrap();
    assert_eq!(back, reply);
    assert_eq!(read, 122 + 5);
}

#[test]
fn realtime_data_round_trip_and_flags() {
    let data = RealtimeData3 {
        acc_gyro_data: RollPitchYaw {
            roll: AccGyroData { acc_data: -1, gyro_data: 2 },
            pitch: AccGyroData { acc_data: 300, gyro_data: -400 },
            yaw: AccGyroData { acc_data: 0, gyro_data: 32767 },
        },
        serial_err_cnt: 1,
        system_error: 2,
        system_sub_error: 3,
        reserved: [0; 3],
        rc_rpy: RollPitchYaw { roll: RcRPY(-500), pitch: RcRPY(0), yaw: RcRPY(500) },
        rc_cmd: -12,
        ext_fc_roll: 34,
        ext_fc_pitch: -56,
        imu_angle: RollPitchYaw { roll: ImuAngle(1), pitch: ImuAngle(-2), yaw: ImuAngle(3) },
        frame_imu_angle: RollPitchYaw {
            roll: FrameImuAngle(-4),
            pitch: FrameImuAngle(5),
            yaw: FrameImuAngle(-6),
        },
        target_angle: RollPitchYaw {
            roll: TargetAngle(7),
            pitch: TargetAngle(-8),
            yaw: TargetAngle(9),
        },
        cycle_time: 800,
        i2c_error_count: 0,
        error_code: 0,
        bat_level: 1260,
        rt_data_flags: RTDataFlags::MotorsOn.bit(),
        cur_imu: 1,
        cur_profile: 2,
        motor_power: RollPitchYaw { roll: MotorPower(10), pitch: MotorPower(20), yaw: MotorPower(
            30,
        ) },
    };
    let bytes = data.to_bytes();
    assert_eq!(bytes.len(), 63);
    assert_eq!(RealtimeData3::from_bytes(&bytes[..]).unwrap(), data);

    let mut bad = bytes.clone();
    bad[57] = 0x02;
    assert_eq!(
        RealtimeData3::from_bytes(&bad[..]).unwrap_err(),
        PayloadParseError::InvalidFlags { name: "RT_DATA_FLAGS".to_string() }
    );
}

#[test]
fn params3_first_failing_field_in_declared_order() {
    // With two invalid fields, the error names the one earlier in the
    // declared field order; fixing it surfaces the later one.
    let params = sample_params();
    let mut bytes = params.to_bytes();
    bytes[49] = 6;
    bytes[119] = 6;
    let err = Params3Data::from_bytes(&bytes[..]).unwrap_err();
    assert_eq!(err, PayloadParseError::InvalidEnum { name: "SERIAL_SPEED".to_string() });
    bytes[49] = 0;
    let err = Params3Data::from_bytes(&bytes[..]).unwrap_err();
    assert_eq!(err, PayloadParseError::InvalidEnum { name: "EULER_ORDER".to_string() });
}

#[test]
fn params3_error_name_travels_through_frame() {
    let params = sample_params();
    let mut payload = params.to_bytes();
    payload[48] = 17;
    let frame = encode_frame_v2(82, &payload[..]);
    let err = IncomingCommand::from_bytes(&frame[..]).unwrap_err();
    assert_eq!(
        err,
        MessageParseError::PayloadParse(PayloadParseError::InvalidEnum {
            name: "PWM_FREQ".to_string()
        })
    );
}

#[test]
fn rc_maps_first_invalid_field_is_named() {
    // Kind bits 011 are unassigned; the third mapping is the first bad one.
    let bytes = [0u8, 0, 0x61, 0x61, 0, 0];
    let err = RcMaps::from_bytes(&bytes[..]).unwrap_err();
    assert_eq!(err, PayloadParseError::InvalidEnum { name: "RC_MAP_YAW".to_string() });
}

#[test]
fn params3_round_trip() {
    let params = sample_params();
    let bytes = params.to_bytes();
    assert_eq!(bytes.len(), 122);
    let back = Params3Data::from_bytes(&bytes[..]).unwrap();
    assert_eq!(back, params);
}

#[test]
fn params3_wrong_length_rejected() {
    let params = sample_params();
    let bytes = params.to_bytes();
    let err = Params3Data::from_bytes(&bytes[..121]).unwrap_err();
    assert_eq!(err, PayloadParseError::InsufficientData);
}

#[test]
fn params3_bad_enum_reported_with_field_name() {
    let params = sample_params();
    let mut bytes = params.to_bytes();
    bytes[48] = 17;
    let err = Params3Data::from_bytes(&bytes[..]).unwrap_err();
    assert_eq!(err, PayloadParseError::InvalidEnum { name: "PWM_FREQ".to_string() });
}

#[test]
fn params3_bad_flags_reported_with_field_name() {
    let params = sample_params();
    let mut bytes = params.to_bytes();
    bytes[109] = 0x09;
    let err = Params3Data::from_bytes(&bytes[..]).unwrap_err();
    assert_eq!(err, PayloadParseError::InvalidFlags { name: "ADAPTIVE_PID_ENABLED".to_string() });
}

#[test]
fn axis_pid_bool_decoding_is_loose_encoding_canonical() {
    // Any nonzero stored byte reads as true; a zero byte reads as false.
    let loose = [1u8, 2, 3, 4, 0x5A, 14];
    let decoded = AxisPidParams::from_bytes(&loose[..]).unwrap();
    assert!(decoded.invert);
    // Encoding true always emits the canonical 0x01, not the original byte.
    let encoded = decoded.to_bytes();
    assert_eq!(encoded, vec![1u8, 2, 3, 4, 0x01, 14]);

    let zero = [1u8, 2, 3, 4, 0x00, 14];
    let decoded = AxisPidParams::from_bytes(&zero[..]).unwrap();
    assert!(!decoded.invert);
    assert_eq!(decoded.to_bytes(), zero.to_vec());
}

#[test]
fn axis_rc_params_strict_flags() {
    // Bit 3 is outside the declared RC-mode set.
    let bytes = [0u8, 0, 0, 0, 0x08, 0, 0, 0];
    let err = AxisRcParams::from_bytes(&bytes[..]).unwrap_err();
    assert_eq!(err, PayloadParseError::InvalidFlags { name: "RC_MODE".to_string() });
}

#[test]
fn rc_map_round_trips_every_defined_combination() {
    let mut values = vec![RcMap::Disabled];
    for source in [
        RcMapPwmSource::Pitch,
        RcMapPwmSource::ExtFcRoll,
        RcMapPwmSource::ExtFcPitch,
        RcMapPwmSource::Yaw,
    ] {
        values.push(RcMap::PWM { source });
    }
    for channel in [RcMapAnalogChannel::ADC1, RcMapAnalogChannel::ADC2, RcMapAnalogChannel::ADC3] {
        values.push(RcMap::Analog { channel });
    }
    for channel in 0..32 {
        values.push(RcMap::Serial { channel });
        values.push(RcMap::Virtual { channel });
        values.push(RcMap::Step { channel });
    }
    for m in values {
        assert_eq!(RcMap::from_u8(m.to_u8()), Some(m));
    }
    // The PWM roll source packs to the all-zero byte, which reads back as
    // "no mapping".
    assert_eq!((RcMap::PWM { source: RcMapPwmSource::Roll }).to_u8(), 0);
    assert_eq!(RcMap::from_u8(0), Some(RcMap::Disabled));
}

#[test]
fn rc_map_decoding_is_canonical_and_rejects_undefined_kinds() {
    for b in 0..=255u8 {
        match RcMap::from_u8(b) {
            Some(m) => assert_eq!(m.to_u8(), b),
            None => {
                let kind = b >> 5;
                let channel = b & 0x1F;
                // Failures come only from undefined kind bits or from a PWM
                // or analog channel outside its table.
                assert!(
                    kind == 3 || kind == 6 || kind == 7
                        || (kind == 0 && channel > 4)
                        || (kind == 1 && !(channel == 1 || channel == 2 || channel == 4))
                );
            }
        }
    }
}

#[test]
fn rc_mix_round_trip_and_rejection() {
    let mix = RcMix { rc_mix_rate: 17, rc_mix_channel: RcMixChannel::Yaw };
    let bytes = mix.to_bytes();
    assert_eq!(bytes, vec![17 | (3 << 5)]);
    assert_eq!(RcMix::from_bytes(&bytes[..]).unwrap(), mix);

    // Channel value 4 (bits 100 in the top three bits) is not in the table.
    let err = RcMix::from_bytes(&[0x80][..]).unwrap_err();
    assert_eq!(err, PayloadParseError::InvalidEnum { name: "RC_MIX_CHANNEL".to_string() });
}

#[test]
fn rc_mix_rate_levels() {
    assert_eq!(RcMixRate::FullRc.to_u8(), 0);
    assert_eq!(RcMixRate::HalfHalf.to_u8(), 32);
    assert_eq!(RcMixRate::FullFc.to_u8(), 63);
    assert_eq!(RcMixRate::from_u8(32), Some(RcMixRate::HalfHalf));
    assert_eq!(RcMixRate::from_u8(33), None);
}

#[test]
fn control_data_round_trip_legacy_and_extended() {
    let axes = (
        ControlAxisParams { speed: -100, angle: 200 },
        ControlAxisParams { speed: 0, angle: -32768 },
        ControlAxisParams { speed: 32767, angle: -1 },
    );
    let legacy = ControlData {
        mode: ControlMode::Legacy(AxisControl(AxisControlMode::Angle, 0)),
        axes,
    };
    let bytes = legacy.to_bytes();
    assert_eq!(bytes.len(), 13);
    assert_eq!(ControlData::from_bytes(&bytes[..]).unwrap(), legacy);

    let extended = ControlData {
        mode: ControlMode::Extended(
            AxisControl(AxisControlMode::Speed, AxisControlFlags::AutoTask.bit()),
            AxisControl(AxisControlMode::NoControl, 0),
            AxisControl(AxisControlMode::HighRes, AxisControlFlags::HighResSpeed.bit()),
        ),
        axes,
    };
    let bytes = extended.to_bytes();
    assert_eq!(bytes.len(), 15);
    assert_eq!(ControlData::from_bytes(&bytes[..]).unwrap(), extended);
}

#[test]
fn control_data_bad_mode_rejected() {
    // Mode 7 is not in the table (flag bits are ignored for this check).
    let mut bytes = vec![7u8];
    bytes.extend_from_slice(&[0; 12]);
    let err = ControlData::from_bytes(&bytes[..]).unwrap_err();
    assert_eq!(err, PayloadParseError::InvalidEnum { name: "CONTROL_MODE".to_string() });
}

#[test]
fn control_mode_byte_drops_unknown_flag_bits() {
    // 0x3A = mode 2 in the low six bits plus the undeclared bit 0x38 region;
    // the truncating decode keeps the mode and drops everything outside the
    // two declared flag bits.
    let c = AxisControl::from_u8(0x02 | 0x40).unwrap();
    assert_eq!(c, AxisControl(AxisControlMode::Angle, 0x40));
    assert_eq!(c.to_u8(), 0x42);
}

#[test]
fn confirm_round_trips_and_little_endian_data() {
    let plain = Confirm { cmd_id: 67, data: None };
    assert_eq!(plain.to_bytes(), vec![67]);
    assert_eq!(Confirm::from_bytes(&[67][..]).unwrap(), plain);

    let byte = Confirm { cmd_id: 67, data: Some(DataType::DataU8(9)) };
    assert_eq!(byte.to_bytes(), vec![67, 9]);
    assert_eq!(Confirm::from_bytes(&[67, 9][..]).unwrap(), byte);

    let word = Confirm { cmd_id: 67, data: Some(DataType::DataU16(0x1234)) };
    assert_eq!(word.to_bytes(), vec![67, 0x34, 0x12]);
    assert_eq!(Confirm::from_bytes(&[67, 0x34, 0x12][..]).unwrap(), word);

    assert_eq!(Confirm::from_bytes(&[][..]).unwrap_err(), PayloadParseError::InsufficientData);
    assert_eq!(
        Confirm::from_bytes(&[1, 2, 3, 4][..]).unwrap_err(),
        PayloadParseError::InsufficientData
    );
}

#[test]
fn error_payload_round_trip() {
    let e = Error { error_code: 3, error_data: [1, 2, 3, 4] };
    let bytes = e.to_bytes();
    assert_eq!(bytes, vec![3, 1, 2, 3, 4]);
    assert_eq!(Error::from_bytes(&bytes[..]).unwrap(), e);
}

#[test]
fn data_stream_interval_round_trip_and_rejection() {
    let d = DataStreamInterval {
        cmd_id: 68,
        interval_ms: 500,
        config: [1, 0, 0, 0, 0, 0, 0, 0],
        sync_to_data: SyncToData::ImuAttitude,
        reserved: [0; 9],
    };
    let bytes = d.to_bytes();
    assert_eq!(bytes.len(), 21);
    assert_eq!(DataStreamInterval::from_bytes(&bytes[..]).unwrap(), d);

    let mut bad = bytes.clone();
    bad[11] = 0;
    assert_eq!(
        DataStreamInterval::from_bytes(&bad[..]).unwrap_err(),
        PayloadParseError::InvalidEnum { name: "SYNC_TO_DATA".to_string() }
    );
}

#[test]
fn spektrum_mode_round_trips_all_wire_values() {
    for v in 0..=8u8 {
        let m = SpektrumMode::from_u8(v).unwrap();
        assert_eq!(m.to_u8(), v);
    }
    assert_eq!(SpektrumMode::from_u8(9), None);
    assert_eq!(SpektrumMode::from_u8(0), Some(SpektrumMode::Auto));
    assert_eq!(
        SpektrumMode::from_u8(8),
        Some(SpektrumMode::Mode(
            SpektrumModeDSM::DSMX,
            SpektrumModeTime::Long,
            SpektrumModeBits::Long
        ))
    );
}

#[test]
fn orientation_signed_wire_values() {
    assert_eq!(Orientation::NegY.to_i8(), -2);
    assert_eq!(Orientation::from_i8(-2), Some(Orientation::NegY));
    assert_eq!(Orientation::from_i8(0), None);
    assert_eq!(Orientation::from_i8(4), None);
}

#[test]
fn params_query_round_trip() {
    let q = ParamsQuery { profile_id: 3 };
    let bytes = q.to_bytes();
    assert_eq!(bytes, vec![3]);
    assert_eq!(ParamsQuery::from_bytes(&bytes[..]).unwrap(), q);
}

#[test]
fn rpy_combine_and_map() {
    let a = RollPitchYaw { roll: 1u8, pitch: 2, yaw: 3 };
    let b = RollPitchYaw { roll: 4u8, pitch: 5, yaw: 6 };
    let both = a.combine(b);
    assert_eq!(both.roll, (1, 4));
    assert_eq!(both.pitch, (2, 5));
    assert_eq!(both.yaw, (3, 6));

    let paired = a.combine_ref(&b);
    assert_eq!(*paired.yaw.0, 3);
    assert_eq!(*paired.yaw.1, 6);

    let doubled = a.map(|v: u8| v.wrapping_add(v));
    assert_eq!(doubled, RollPitchYaw { roll: 2, pitch: 4, yaw: 6 });

    let made: RollPitchYaw<u8> = RollPitchYaw::from((7, 8, 9));
    assert_eq!(made, RollPitchYaw { roll: 7, pitch: 8, yaw: 9 });
}

#[test]
fn rpy_combine_mut_and_update() {
    let mut a = RollPitchYaw { roll: 1u8, pitch: 2, yaw: 3 };
    let mut b = RollPitchYaw { roll: 4u8, pitch: 5, yaw: 6 };
    {
        let paired = a.combine_mut(&mut b);
        *paired.roll.0 = 10;
        *paired.yaw.1 = 60;
    }
    assert_eq!(a, RollPitchYaw { roll: 10, pitch: 2, yaw: 3 });
    assert_eq!(b, RollPitchYaw { roll: 4, pitch: 5, yaw: 60 });

    let seen = a.update(|v: &mut u8| {
        *v = v.wrapping_add(1);
        *v
    });
    assert_eq!(seen, RollPitchYaw { roll: 11, pitch: 3, yaw: 4 });
    assert_eq!(a, RollPitchYaw { roll: 11, pitch: 3, yaw: 4 });

    a.exec(|v: &u8| *v);
    assert_eq!(a, RollPitchYaw { roll: 11, pitch: 3, yaw: 4 });
}

#[test]
fn rpy_payload_round_trip() {
    let trio: RollPitchYaw<i8> = RollPitchYaw { roll: -1, pitch: 0, yaw: 127 };
    let bytes = trio.to_bytes();
    assert_eq!(bytes, vec![0xFF, 0x00, 0x7F]);
    assert_eq!(RollPitchYaw::<i8>::from_bytes(&bytes[..]).unwrap(), trio);
}
