//! The board-information payload: hardware and firmware identity plus three
//! flags fields, all decoded in strict mode.

use crate::payload::{check_flags_u16, check_flags_u8, Payload, PayloadParseError};
use crate::wire;
use vstd::prelude::*;

verus! {

broadcast use vstd::array::group_array_axioms;

/// All bits that [`StateFlags1`] defines.
pub const STATE_FLAGS1_MASK: u8 = 0x1F;

/// All bits that [`BoardFeatures`] defines.
pub const BOARD_FEATURES_MASK: u16 = 0xFFFF;

/// All bits that [`ConnectionFlag`] defines.
pub const CONNECTION_FLAG_MASK: u8 = 0x01;

/// Single-bit state flags of the controller.
#[derive(Copy, Clone, Debug, PartialEq)]
pub enum StateFlags1 {
    DebugMode,
    IsFrameInverted,
    InitStep1Done,
    InitStep2Done,
    StartupAutoRoutineDone,
}

impl StateFlags1 {
    /// The wire bit of this flag.
    pub open spec fn spec_bit(self) -> u8 {
        match self {
            StateFlags1::DebugMode => 0x01,
            StateFlags1::IsFrameInverted => 0x02,
            StateFlags1::InitStep1Done => 0x04,
            StateFlags1::InitStep2Done => 0x08,
            StateFlags1::StartupAutoRoutineDone => 0x10,
        }
    }

    /// The wire bit of this flag.
    pub fn bit(self) -> (b: u8)
        ensures
            b == self.spec_bit(),
    {
        match self {
            StateFlags1::DebugMode => 0x01,
            StateFlags1::IsFrameInverted => 0x02,
            StateFlags1::InitStep1Done => 0x04,
            StateFlags1::InitStep2Done => 0x08,
            StateFlags1::StartupAutoRoutineDone => 0x10,
        }
    }
}

/// Single-bit feature flags reported by the board.
#[derive(Copy, Clone, Debug, PartialEq)]
pub enum BoardFeatures {
    ThreeAxis,
    BatMonitoring,
    Encoders,
    BodeTest,
    Scripting,
    CurrentSensor,
    MagSensor,
    OrderOfAxesLetus,
    ImuEeprom,
    FrameImuEeprom,
    CanPort,
    Momentum,
    CoggingCorrection,
    Motor4Control,
    AccAutoCalib,
    BigFlash,
}

impl BoardFeatures {
    /// The wire bit of this flag.
    pub open spec fn spec_bit(self) -> u16 {
        match self {
            BoardFeatures::ThreeAxis => 0x0001,
            BoardFeatures::BatMonitoring => 0x0002,
            BoardFeatures::Encoders => 0x0004,
            BoardFeatures::BodeTest => 0x0008,
            BoardFeatures::Scripting => 0x0010,
            BoardFeatures::CurrentSensor => 0x0020,
            BoardFeatures::MagSensor => 0x0040,
            BoardFeatures::OrderOfAxesLetus => 0x0080,
            BoardFeatures::ImuEeprom => 0x0100,
            BoardFeatures::FrameImuEeprom => 0x0200,
            BoardFeatures::CanPort => 0x0400,
            BoardFeatures::Momentum => 0x0800,
            BoardFeatures::CoggingCorrection => 0x1000,
            BoardFeatures::Motor4Control => 0x2000,
            BoardFeatures::AccAutoCalib => 0x4000,
            BoardFeatures::BigFlash => 0x8000,
        }
    }

    /// The wire bit of this flag.
    pub fn bit(self) -> (b: u16)
        ensures
            b == self.spec_bit(),
    {
        match self {
            BoardFeatures::ThreeAxis => 0x0001,
            BoardFeatures::BatMonitoring => 0x0002,
            BoardFeatures::Encoders => 0x0004,
            BoardFeatures::BodeTest => 0x0008,
            BoardFeatures::Scripting => 0x0010,
            BoardFeatures::CurrentSensor => 0x0020,
            BoardFeatures::MagSensor => 0x0040,
            BoardFeatures::OrderOfAxesLetus => 0x0080,
            BoardFeatures::ImuEeprom => 0x0100,
            BoardFeatures::FrameImuEeprom => 0x0200,
            BoardFeatures::CanPort => 0x0400,
            BoardFeatures::Momentum => 0x0800,
            BoardFeatures::CoggingCorrection => 0x1000,
            BoardFeatures::Motor4Control => 0x2000,
            BoardFeatures::AccAutoCalib => 0x4000,
            BoardFeatures::BigFlash => 0x8000,
        }
    }
}

/// Single-bit connection flags.
#[derive(Copy, Clone, Debug, PartialEq)]
pub enum ConnectionFlag {
    USB,
}

impl ConnectionFlag {
    /// The wire bit of this flag.
    pub open spec fn spec_bit(self) -> u8 {
        0x01
    }

    /// The wire bit of this flag.
    pub fn bit(self) -> (b: u8)
        ensures
            b == self.spec_bit(),
    {
        0x01
    }
}

/// Response payload of the board-information command.
///
/// The three flags fields hold raw bit sets over [`StateFlags1`],
/// [`BoardFeatures`] and [`ConnectionFlag`]; well-formedness keeps each
/// inside its declared mask.
#[derive(Copy, Clone, Debug, PartialEq)]
pub struct BoardInfo {
    pub board_version: u8,
    pub firmware_version: u16,
    /// Bit set over [`StateFlags1`].
    pub state: u8,
    /// Bit set over [`BoardFeatures`].
    pub board_features: u16,
    /// Bit set over [`ConnectionFlag`].
    pub connection_flag: u8,
    pub frw_extra_id: u32,
    pub reserved: [u8; 7],
}

impl Payload for BoardInfo {
    open spec fn wf(&self) -> bool {
        &&& self.state & !STATE_FLAGS1_MASK == 0
        &&& self.board_features & !BOARD_FEATURES_MASK == 0
        &&& self.connection_flag & !CONNECTION_FLAG_MASK == 0
    }

    open spec fn spec_size() -> nat {
        18
    }

    open spec fn enc(&self) -> Seq<u8> {
        seq![self.board_version] + wire::enc_u16(self.firmware_version) + seq![self.state]
            + wire::enc_u16(self.board_features) + seq![self.connection_flag] + wire::enc_u32(
            self.frw_extra_id,
        ) + self.reserved@
    }

    open spec fn dec_ok(bs: Seq<u8>) -> bool {
        &&& bs.len() == 18
        &&& bs[3] & !STATE_FLAGS1_MASK == 0
        &&& wire::u16_le_of(bs[4], bs[5]) & !BOARD_FEATURES_MASK == 0
        &&& bs[6] & !CONNECTION_FLAG_MASK == 0
    }

    open spec fn dec_val(bs: Seq<u8>) -> Self {
        BoardInfo {
            board_version: bs[0],
            firmware_version: wire::u16_le_of(bs[1], bs[2]),
            state: bs[3],
            board_features: wire::u16_le_of(bs[4], bs[5]),
            connection_flag: bs[6],
            frw_extra_id: wire::u32_le_of(bs[7], bs[8], bs[9], bs[10]),
            reserved: (choose|a: [u8; 7]| a@ == bs.subrange(11, 18)),
        }
    }

    open spec fn dec_err(bs: Seq<u8>, e: PayloadParseError) -> bool {
        if bs.len() != 18 {
            e == PayloadParseError::InsufficientData
        } else if bs[3] & !STATE_FLAGS1_MASK != 0 {
            e matches PayloadParseError::InvalidFlags { name } && name@ == "STATE_FLAGS1"@
        } else if wire::u16_le_of(bs[4], bs[5]) & !BOARD_FEATURES_MASK != 0 {
            e matches PayloadParseError::InvalidFlags { name } && name@ == "BOARD_FEATURES"@
        } else if bs[6] & !CONNECTION_FLAG_MASK != 0 {
            e matches PayloadParseError::InvalidFlags { name } && name@ == "CONNECTION_FLAG"@
        } else {
            false
        }
    }

    proof fn lemma_dec_ok_len(bs: Seq<u8>) {
    }

    proof fn lemma_enc_size(&self) {
    }

    proof fn lemma_round_trip(&self) {
        let e = self.enc();
        wire::lemma_u16_round_trip(self.firmware_version);
        wire::lemma_u16_round_trip(self.board_features);
        wire::lemma_u32_round_trip(self.frw_extra_id);
        assert(e.subrange(11, 18) =~= self.reserved@);
        let chosen = choose|a: [u8; 7]| a@ == e.subrange(11, 18);
        assert(chosen@ =~= self.reserved@);
        assert(chosen == self.reserved);
    }

    fn from_bytes(b: &[u8]) -> (r: Result<Self, PayloadParseError>) {
        if b.len() != 18 {
            return Err(PayloadParseError::InsufficientData);
        }
        let board_version: u8 = b[0];
        let firmware_version: u16 = wire::read_u16_le(b, 1);
        let state: u8 = match check_flags_u8(b[3], STATE_FLAGS1_MASK, "STATE_FLAGS1") {
            Ok(v) => v,
            Err(e) => {
                return Err(e);
            },
        };
        let board_features: u16 = match check_flags_u16(
            wire::read_u16_le(b, 4),
            BOARD_FEATURES_MASK,
            "BOARD_FEATURES",
        ) {
            Ok(v) => v,
            Err(e) => {
                return Err(e);
            },
        };
        let connection_flag: u8 = match check_flags_u8(b[6], CONNECTION_FLAG_MASK, "CONNECTION_FLAG") {
            Ok(v) => v,
            Err(e) => {
                return Err(e);
            },
        };
        let frw_extra_id: u32 = wire::read_u32_le(b, 7);
        let reserved: [u8; 7] = wire::read_array::<7>(b, 11);
        proof {
            let chosen = choose|a: [u8; 7]| a@ == b@.subrange(11, 18);
            assert(chosen@ =~= reserved@);
            assert(chosen == reserved);
        }
        Ok(
            BoardInfo {
                board_version,
                firmware_version,
                state,
                board_features,
                connection_flag,
                frw_extra_id,
                reserved,
            },
        )
    }

    fn to_bytes(&self) -> (r: Vec<u8>) {
        let mut out: Vec<u8> = Vec::new();
        out.push(self.board_version);
        wire::push_u16_le(&mut out, self.firmware_version);
        out.push(self.state);
        wire::push_u16_le(&mut out, self.board_features);
        out.push(self.connection_flag);
        wire::push_u32_le(&mut out, self.frw_extra_id);
        wire::push_array::<7>(&mut out, &self.reserved);
        assert(out@ =~= self.enc());
        out
    }
}

} // verus!
