use simplebgc::{
    encode_frame_v1, encode_frame_v2, AngleInfo, BoardFeatures, BoardInfo, ConnectionFlag,
    IncomingCommand, MessageParseError, MotorsOffMode, OutgoingCommand, ParamsQuery,
    PayloadParseError, RollPitchYaw, StateFlags1,
};

#[test]
fn sanity() {
    let packet = [0x3E, 0x52, 0x01, 0x53, 0x01, 0x01];
    let (msg, read) = OutgoingCommand::from_bytes(&packet[..]).unwrap();

    assert_eq!(read, 6, "should have read 6 bytes");
    assert_eq!(msg, OutgoingCommand::ReadParams(ParamsQuery { profile_id: 1 }));
}

#[test]
fn message_sanity() {
    let packet = [0x3E, 0x52, 0x01, 0x53, 0x01, 0x01];
    let (msg, read) = OutgoingCommand::from_bytes(&packet[..]).unwrap();

    assert_eq!(read, 6, "should have read 6 bytes");
    assert_eq!(msg, OutgoingCommand::ReadParams(ParamsQuery { profile_id: 1 }));

    let packet = [0x24, 0x52, 0x01, 0x53, 0x01, 0xC1, 0xC0];
    let (msg, read) = OutgoingCommand::from_bytes(&packet[..]).unwrap();

    assert_eq!(read, 7, "should have read 6 bytes");
    assert_eq!(msg, OutgoingCommand::ReadParams(ParamsQuery { profile_id: 1 }));
}

#[test]
fn encode_read_params_v1_exact_bytes() {
    let cmd = OutgoingCommand::ReadParams(ParamsQuery { profile_id: 1 });
    let frame = cmd.to_v1_bytes();
    assert_eq!(frame, vec![0x3E, 0x52, 0x01, 0x53, 0x01, 0x01]);
}

#[test]
fn encode_read_params_v2_exact_bytes() {
    let cmd = OutgoingCommand::ReadParams(ParamsQuery { profile_id: 1 });
    let frame = cmd.to_v2_bytes();
    assert_eq!(frame, vec![0x24, 0x52, 0x01, 0x53, 0x01, 0xC1, 0xC0]);
}

#[test]
fn outgoing_round_trip_both_versions() {
    let commands = vec![
        OutgoingCommand::BoardInfo,
        OutgoingCommand::BoardInfo3,
        OutgoingCommand::MotorsOn,
        OutgoingCommand::MotorsOff { mode: None },
        OutgoingCommand::MotorsOff { mode: Some(MotorsOffMode::SafeStop) },
        OutgoingCommand::ReadParams(ParamsQuery { profile_id: 255 }),
        OutgoingCommand::ReadParams3(ParamsQuery { profile_id: 0 }),
        OutgoingCommand::ReadParamsExt(ParamsQuery { profile_id: 2 }),
        OutgoingCommand::ReadParamsExt2(ParamsQuery { profile_id: 3 }),
        OutgoingCommand::ReadParamsExt3(ParamsQuery { profile_id: 4 }),
        OutgoingCommand::GetAngles,
        OutgoingCommand::GetAnglesExt,
    ];
    for cmd in commands {
        let v1 = cmd.to_v1_bytes();
        let (back, read) = OutgoingCommand::from_bytes(&v1[..]).unwrap();
        assert_eq!(back, cmd);
        assert_eq!(read, v1.len());

        let v2 = cmd.to_v2_bytes();
        let (back, read) = OutgoingCommand::from_bytes(&v2[..]).unwrap();
        assert_eq!(back, cmd);
        assert_eq!(read, v2.len());
    }
}

#[test]
fn bad_version_code() {
    let packet = [0x55, 0x52, 0x01, 0x53, 0x01, 0x01];
    let err = OutgoingCommand::from_bytes(&packet[..]).unwrap_err();
    assert_eq!(err, MessageParseError::BadVersionCode);
}

#[test]
fn bad_command_id_zero() {
    // Header checksum matches (0 + 1 = 1), but the id 0 is reserved.
    let packet = [0x3E, 0x00, 0x01, 0x01, 0x01, 0x01];
    let err = OutgoingCommand::from_bytes(&packet[..]).unwrap_err();
    assert_eq!(err, MessageParseError::BadCommandId { id: 0 });
}

#[test]
fn bad_command_id_unknown() {
    // A frame sound in itself whose id has no table entry: id 0x11 = 17.
    let frame = encode_frame_v1(0x11, &[]);
    let err = OutgoingCommand::from_bytes(&frame[..]).unwrap_err();
    assert_eq!(err, MessageParseError::BadCommandId { id: 0x11 });
}

#[test]
fn bad_header_checksum() {
    let packet = [0x3E, 0x52, 0x01, 0x54, 0x01, 0x01];
    let err = OutgoingCommand::from_bytes(&packet[..]).unwrap_err();
    assert_eq!(err, MessageParseError::BadHeaderChecksum { expected: 0x54, actual: 0x53 });
}

#[test]
fn bad_payload_checksum_v1() {
    let packet = [0x3E, 0x52, 0x01, 0x53, 0x01, 0x02];
    let err = OutgoingCommand::from_bytes(&packet[..]).unwrap_err();
    assert_eq!(err, MessageParseError::BadPayloadChecksum { expected: 0x02, actual: 0x01 });
}

#[test]
fn truncation_always_insufficient_data_v1() {
    let cmd = OutgoingCommand::ReadParams3(ParamsQuery { profile_id: 1 });
    let frame = cmd.to_v1_bytes();
    for n in 0..frame.len() {
        let err = OutgoingCommand::from_bytes(&frame[..n]).unwrap_err();
        assert_eq!(err, MessageParseError::InsufficientData);
    }
}

#[test]
fn truncation_always_insufficient_data_v2() {
    let cmd = OutgoingCommand::MotorsOff { mode: Some(MotorsOffMode::Break) };
    let frame = cmd.to_v2_bytes();
    for n in 0..frame.len() {
        let err = OutgoingCommand::from_bytes(&frame[..n]).unwrap_err();
        assert_eq!(err, MessageParseError::InsufficientData);
    }
}

#[test]
fn v1_payload_byte_flip_rejected() {
    let payload = [7u8, 11, 13, 17];
    let frame = encode_frame_v1(0x52, &payload);
    for i in 4..4 + payload.len() {
        for k in 0..8 {
            let mut bad = frame.clone();
            bad[i] ^= 1 << k;
            let err = OutgoingCommand::from_bytes(&bad[..]).unwrap_err();
            assert!(matches!(err, MessageParseError::BadPayloadChecksum { .. }));
        }
    }
}

#[test]
fn v2_payload_bit_flip_rejected() {
    let payload = [0xDEu8, 0xAD, 0xBE, 0xEF, 0x00];
    let frame = encode_frame_v2(0x52, &payload);
    for i in 4..4 + payload.len() {
        for k in 0..8 {
            let mut bad = frame.clone();
            bad[i] ^= 1 << k;
            let err = OutgoingCommand::from_bytes(&bad[..]).unwrap_err();
            assert!(matches!(err, MessageParseError::BadPayloadChecksum { .. }));
        }
    }
}

#[test]
fn v2_header_bit_flip_rejected() {
    let payload = [0x01u8];
    let frame = encode_frame_v2(0x52, &payload);
    // Flipping any bit of the command-id byte (0x52 has more than one bit
    // set, so no flip can zero it) or of the length byte must be caught by
    // the header checksum.
    for i in 1..3 {
        for k in 0..8 {
            let mut bad = frame.clone();
            bad[i] ^= 1 << k;
            let err = OutgoingCommand::from_bytes(&bad[..]).unwrap_err();
            assert!(matches!(err, MessageParseError::BadHeaderChecksum { .. }));
        }
    }
}

#[test]
fn motors_off_bad_mode_rejected() {
    let frame = encode_frame_v1(109, &[3]);
    let err = OutgoingCommand::from_bytes(&frame[..]).unwrap_err();
    assert_eq!(
        err,
        MessageParseError::PayloadParse(PayloadParseError::InvalidEnum {
            name: "MODE".to_string()
        })
    );
}

#[test]
fn incoming_get_angles_round_trip() {
    let angles = RollPitchYaw {
        roll: AngleInfo { imu_angle: -1, target_angle: 2, target_speed: -300000 },
        pitch: AngleInfo { imu_angle: 0, target_angle: -40000, target_speed: 5 },
        yaw: AngleInfo { imu_angle: 123456, target_angle: 7, target_speed: -8 },
    };
    let cmd = IncomingCommand::GetAngles(angles);
    let v1 = cmd.to_v1_bytes();
    let (back, read) = IncomingCommand::from_bytes(&v1[..]).unwrap();
    assert_eq!(back, cmd);
    assert_eq!(read, v1.len());
    // 36 payload bytes plus 5 bytes of envelope.
    assert_eq!(v1.len(), 41);

    let v2 = cmd.to_v2_bytes();
    let (back, read) = IncomingCommand::from_bytes(&v2[..]).unwrap();
    assert_eq!(back, cmd);
    assert_eq!(read, v2.len());
    assert_eq!(v2.len(), 42);
}

#[test]
fn incoming_board_info_round_trip() {
    let info = BoardInfo {
        board_version: 30,
        firmware_version: 2688,
        state: StateFlags1::DebugMode.bit() | StateFlags1::InitStep1Done.bit(),
        board_features: BoardFeatures::ThreeAxis.bit() | BoardFeatures::BatMonitoring.bit(),
        connection_flag: ConnectionFlag::USB.bit(),
        frw_extra_id: 0xDEADBEEF,
        reserved: [0; 7],
    };
    let cmd = IncomingCommand::BoardInfo(info);
    let v2 = cmd.to_v2_bytes();
    let (back, read) = IncomingCommand::from_bytes(&v2[..]).unwrap();
    assert_eq!(back, cmd);
    assert_eq!(read, v2.len());
}

#[test]
fn incoming_bad_flags_reported_with_field_name() {
    // A BoardInfo payload whose state byte sets an undeclared bit.
    let mut payload = [0u8; 18];
    payload[3] = 0xFF;
    let frame = encode_frame_v1(86, &payload);
    let err = IncomingCommand::from_bytes(&frame[..]).unwrap_err();
    assert_eq!(
        err,
        MessageParseError::PayloadParse(PayloadParseError::InvalidFlags {
            name: "STATE_FLAGS1".to_string()
        })
    );
}
