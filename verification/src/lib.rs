//! Typed codec for the SimpleBGC gimbal-controller serial protocol.
//!
//! The crate has two layers. The payload codec turns a byte buffer into one
//! typed record (and back), field by field: raw scalars are little-endian,
//! flags fields must stay inside their declared bit set, enumeration fields
//! must hit a value from the closed table, nested payloads are decoded from a
//! size-delimited slice. The message framing wraps a payload into a versioned
//! frame with a header checksum and a version-dependent payload checksum
//! (8-bit additive sum for protocol v1, CRC-16/ARC for protocol v2).

pub mod board_info;
pub mod cmd_response;
pub mod commands;
pub mod control;
pub mod data_stream;
pub mod get_angles;
pub mod message;
pub mod motors_off;
pub mod payload;
pub mod read_params;
pub mod realtime;
pub mod rpy;
pub mod wire;

pub use board_info::BoardFeatures;
pub use board_info::BoardInfo;
pub use board_info::ConnectionFlag;
pub use board_info::StateFlags1;
pub use cmd_response::Confirm;
pub use commands::IncomingCommand;
pub use commands::OutgoingCommand;
pub use commands::Version;
pub use commands::CMD_BOARD_INFO;
pub use commands::CMD_BOARD_INFO_3;
pub use commands::CMD_CONTROL;
pub use commands::CMD_GET_ANGLES;
pub use commands::CMD_GET_ANGLES_EXT;
pub use commands::CMD_MOTORS_OFF;
pub use commands::CMD_MOTORS_ON;
pub use commands::CMD_READ_PARAMS;
pub use commands::CMD_READ_PARAMS_3;
pub use commands::CMD_READ_PARAMS_EXT;
pub use commands::CMD_READ_PARAMS_EXT2;
pub use commands::CMD_READ_PARAMS_EXT3;
pub use commands::CMD_WRITE_PARAMS;
pub use commands::CMD_WRITE_PARAMS_3;
pub use control::AxisControl;
pub use control::AxisControlFlags;
pub use control::AxisControlMode;
pub use control::ControlAxisParams;
pub use control::ControlData;
pub use control::ControlMode;
pub use control::AXIS_CONTROL_FLAGS_MASK;
pub use cmd_response::DataType;
pub use cmd_response::Error;
pub use data_stream::DataStreamInterval;
pub use data_stream::SyncToData;
pub use get_angles::AngleInfo;
pub use message::checksum_bgc_v1;
pub use message::checksum_bgc_v2;
pub use message::crc16_arc;
pub use message::frame_v1;
pub use message::frame_v2;
pub use message::lemma_crc16_corrupt;
pub use message::lemma_frame_v1_round_trip;
pub use message::lemma_frame_v1_truncation;
pub use message::lemma_frame_v2_round_trip;
pub use message::lemma_frame_v2_truncation;
pub use message::lemma_incoming_round_trip_v1;
pub use message::lemma_incoming_round_trip_v2;
pub use message::lemma_outgoing_round_trip_v1;
pub use message::lemma_outgoing_round_trip_v2;
pub use message::lemma_sum8_corrupt;
pub use message::lemma_v1_payload_corruption;
pub use message::lemma_v2_header_corruption;
pub use message::lemma_v2_payload_corruption;
pub use message::spec_parse_frame;
pub use message::spec_parse_v1;
pub use message::spec_parse_v2;
pub use message::sum8;
pub use message::encode_frame_v1;
pub use message::encode_frame_v2;
pub use message::parse_frame_v1;
pub use message::parse_frame_v2;
pub use message::MessageParseError;
pub use message::VERSION_BYTE_V1;
pub use message::VERSION_BYTE_V2;
pub use motors_off::MotorsOffMode;
pub use payload::Payload;
pub use read_params::AdaptivePid;
pub use read_params::AxisOrder;
pub use read_params::AxisPidParams;
pub use read_params::AxisRcMode;
pub use read_params::AxisRcParams;
pub use read_params::BeeperMode;
pub use read_params::EulerOrder;
pub use read_params::FollowMode;
pub use read_params::FrameImuPos;
pub use read_params::GeneralFlags;
pub use read_params::GyroCalibrationMode;
pub use read_params::ImuType;
pub use read_params::MotorOutput;
pub use read_params::Orientation;
pub use read_params::Params3Data;
pub use read_params::ParamsQuery;
pub use read_params::ProfileFlags;
pub use read_params::PwmFrequency;
pub use read_params::RcMap;
pub use read_params::RcMapAnalogChannel;
pub use read_params::RcMapPwmSource;
pub use read_params::RcMaps;
pub use read_params::RcMix;
pub use read_params::RcMixChannel;
pub use read_params::RcMixRate;
pub use read_params::RcMixes;
pub use read_params::RcVirtMode;
pub use read_params::SerialSpeed;
pub use read_params::SpektrumMode;
pub use read_params::SpektrumModeBits;
pub use read_params::SpektrumModeDSM;
pub use read_params::SpektrumModeTime;
pub use read_params::ADAPTIVE_PID_MASK;
pub use read_params::AXIS_RC_MODE_MASK;
pub use read_params::GENERAL_FLAGS_MASK;
pub use read_params::PROFILE_FLAGS_MASK;
pub use payload::PayloadParseError;
pub use realtime::AccGyroData;
pub use realtime::FrameImuAngle;
pub use realtime::ImuAngle;
pub use realtime::MotorPower;
pub use realtime::RTDataFlags;
pub use realtime::RcRPY;
pub use realtime::RealtimeData3;
pub use realtime::TargetAngle;
pub use rpy::RollPitchYaw;
