//! The command tables: the fixed mapping between command ids and payload
//! types, one direction per enum.

use crate::board_info::BoardInfo;
use crate::control::ControlData;
use crate::get_angles::AngleInfo;
use crate::motors_off::MotorsOffMode;
use crate::read_params::{Params3Data, ParamsQuery};
use crate::rpy::RollPitchYaw;
use vstd::prelude::*;

verus! {

/// Command id of the board-information request and response.
pub const CMD_BOARD_INFO: u8 = 86;

/// Command id of the extended board-information request.
pub const CMD_BOARD_INFO_3: u8 = 20;

/// Command id of the realtime control command.
pub const CMD_CONTROL: u8 = 67;

/// Command id of the motors-on command.
pub const CMD_MOTORS_ON: u8 = 77;

/// Command id of the motors-off command.
pub const CMD_MOTORS_OFF: u8 = 109;

/// Command id of the profile-parameters read request and response.
pub const CMD_READ_PARAMS: u8 = 82;

/// Command id of the third-generation profile-parameters read.
pub const CMD_READ_PARAMS_3: u8 = 21;

/// Command id of the first extended profile-parameters read.
pub const CMD_READ_PARAMS_EXT: u8 = 33;

/// Command id of the second extended profile-parameters read.
pub const CMD_READ_PARAMS_EXT2: u8 = 62;

/// Command id of the third extended profile-parameters read.
pub const CMD_READ_PARAMS_EXT3: u8 = 104;

/// Command id of the profile-parameters write.
pub const CMD_WRITE_PARAMS: u8 = 87;

/// Command id of the third-generation profile-parameters write.
pub const CMD_WRITE_PARAMS_3: u8 = 22;

/// Command id of the angles request and response.
pub const CMD_GET_ANGLES: u8 = 73;

/// Command id of the extended angles request.
pub const CMD_GET_ANGLES_EXT: u8 = 61;

/// A firmware version triple.
#[derive(Copy, Clone, Debug, PartialEq)]
pub struct Version {
    pub major: u8,
    pub minor: u8,
    pub beta: u8,
}

/// A message the controller sends to the host.
#[derive(Copy, Clone, Debug, PartialEq)]
pub enum IncomingCommand {
    BoardInfo(BoardInfo),
    GetAngles(RollPitchYaw<AngleInfo>),
    ReadParams(Params3Data),
    ReadParams3(Params3Data),
}

/// A message the host sends to the controller.
#[derive(Copy, Clone, Debug, PartialEq)]
pub enum OutgoingCommand {
    BoardInfo,
    BoardInfo3,
    Control(ControlData),
    MotorsOn,
    MotorsOff { mode: Option<MotorsOffMode> },
    ReadParams(ParamsQuery),
    ReadParams3(ParamsQuery),
    ReadParamsExt(ParamsQuery),
    ReadParamsExt2(ParamsQuery),
    ReadParamsExt3(ParamsQuery),
    WriteParams(Params3Data),
    WriteParams3(Params3Data),
    GetAngles,
    GetAnglesExt,
    Other { id: u8 },
}

} // verus!
