//! The profile-parameters payloads: the query, the per-axis parameter
//! blocks, and the full profile record with its enumeration, flags and
//! bit-packed fields.

use crate::payload::{check_flags_u16, check_flags_u8, invalid_enum, Payload, PayloadParseError};
use crate::rpy::RollPitchYaw;
use crate::wire;
use vstd::prelude::*;

verus! {

broadcast use vstd::array::group_array_axioms;

/// All bits that [`AxisRcMode`] defines.
pub const AXIS_RC_MODE_MASK: u8 = 0x07;

/// All bits that [`AdaptivePid`] defines.
pub const ADAPTIVE_PID_MASK: u8 = 0x07;

/// All bits that [`GeneralFlags`] defines.
pub const GENERAL_FLAGS_MASK: u16 = 0x3FFF;

/// All bits that [`ProfileFlags`] defines; bit 3 is not assigned.
pub const PROFILE_FLAGS_MASK: u16 = 0x7FF7;

/// Single-bit RC-mode flags of one axis.
#[derive(Copy, Clone, Debug, PartialEq)]
pub enum AxisRcMode {
    Angle,
    Fixed,
    Inverted,
}

impl AxisRcMode {
    /// The wire bit of this flag.
    pub open spec fn spec_bit(self) -> u8 {
        match self {
            AxisRcMode::Angle => 0x01,
            AxisRcMode::Fixed => 0x02,
            AxisRcMode::Inverted => 0x04,
        }
    }

    /// The wire bit of this flag.
    pub fn bit(self) -> (b: u8)
        ensures
            b == self.spec_bit(),
    {
        match self {
            AxisRcMode::Angle => 0x01,
            AxisRcMode::Fixed => 0x02,
            AxisRcMode::Inverted => 0x04,
        }
    }
}

/// Per-axis adaptive-PID enable flags.
#[derive(Copy, Clone, Debug, PartialEq)]
pub enum AdaptivePid {
    Roll,
    Pitch,
    Yaw,
}

impl AdaptivePid {
    /// The wire bit of this flag.
    pub open spec fn spec_bit(self) -> u8 {
        match self {
            AdaptivePid::Roll => 0x01,
            AdaptivePid::Pitch => 0x02,
            AdaptivePid::Yaw => 0x04,
        }
    }

    /// The wire bit of this flag.
    pub fn bit(self) -> (b: u8)
        ensures
            b == self.spec_bit(),
    {
        match self {
            AdaptivePid::Roll => 0x01,
            AdaptivePid::Pitch => 0x02,
            AdaptivePid::Yaw => 0x04,
        }
    }
}

/// Board-wide behaviour flags.
#[derive(Copy, Clone, Debug, PartialEq)]
pub enum GeneralFlags {
    RememberLastUsedProfile,
    UpsideDownAuto,
    SwapFrameMainImu,
    BlinkProfile,
    EmergencyStop,
    MagnetometerPosFrame,
    FrameImuFF,
    OverheatStopMotors,
    CenterYawAtStartup,
    SwapRcSerialUartB,
    UartBSerialApi,
    BlinkBatLevel,
    AdaptiveGyroTrust,
    IsUpsideDown,
}

impl GeneralFlags {
    /// The wire bit of this flag.
    pub open spec fn spec_bit(self) -> u16 {
        match self {
            GeneralFlags::RememberLastUsedProfile => 0x0001,
            GeneralFlags::UpsideDownAuto => 0x0002,
            GeneralFlags::SwapFrameMainImu => 0x0004,
            GeneralFlags::BlinkProfile => 0x0008,
            GeneralFlags::EmergencyStop => 0x0010,
            GeneralFlags::MagnetometerPosFrame => 0x0020,
            GeneralFlags::FrameImuFF => 0x0040,
            GeneralFlags::OverheatStopMotors => 0x0080,
            GeneralFlags::CenterYawAtStartup => 0x0100,
            GeneralFlags::SwapRcSerialUartB => 0x0200,
            GeneralFlags::UartBSerialApi => 0x0400,
            GeneralFlags::BlinkBatLevel => 0x0800,
            GeneralFlags::AdaptiveGyroTrust => 0x1000,
            GeneralFlags::IsUpsideDown => 0x2000,
        }
    }

    /// The wire bit of this flag.
    pub fn bit(self) -> (b: u16)
        ensures
            b == self.spec_bit(),
    {
        match self {
            GeneralFlags::RememberLastUsedProfile => 0x0001,
            GeneralFlags::UpsideDownAuto => 0x0002,
            GeneralFlags::SwapFrameMainImu => 0x0004,
            GeneralFlags::BlinkProfile => 0x0008,
            GeneralFlags::EmergencyStop => 0x0010,
            GeneralFlags::MagnetometerPosFrame => 0x0020,
            GeneralFlags::FrameImuFF => 0x0040,
            GeneralFlags::OverheatStopMotors => 0x0080,
            GeneralFlags::CenterYawAtStartup => 0x0100,
            GeneralFlags::SwapRcSerialUartB => 0x0200,
            GeneralFlags::UartBSerialApi => 0x0400,
            GeneralFlags::BlinkBatLevel => 0x0800,
            GeneralFlags::AdaptiveGyroTrust => 0x1000,
            GeneralFlags::IsUpsideDown => 0x2000,
        }
    }
}

/// Per-profile behaviour flags.
#[derive(Copy, Clone, Debug, PartialEq)]
pub enum ProfileFlags {
    Adc1AutoDetection,
    Adc2AutoDetection,
    Adc3AutoDetection,
    FollowUseFrameImu,
    BriefcaseAutoDetection,
    UpsideDownAutoRotate,
    FollowLockOffsetCorrection,
    StartNeutralPosition,
    MenuButtonDisableFollow,
    TimelapseFrameFixed,
    RcKeepMixRate,
    RcKeepCurPosOnInit,
    OuterMotorLimitFreeRotation,
    EulerOrderAuto,
}

impl ProfileFlags {
    /// The wire bit of this flag.
    pub open spec fn spec_bit(self) -> u16 {
        match self {
            ProfileFlags::Adc1AutoDetection => 0x0001,
            ProfileFlags::Adc2AutoDetection => 0x0002,
            ProfileFlags::Adc3AutoDetection => 0x0004,
            ProfileFlags::FollowUseFrameImu => 0x0010,
            ProfileFlags::BriefcaseAutoDetection => 0x0020,
            ProfileFlags::UpsideDownAutoRotate => 0x0040,
            ProfileFlags::FollowLockOffsetCorrection => 0x0080,
            ProfileFlags::StartNeutralPosition => 0x0100,
            ProfileFlags::MenuButtonDisableFollow => 0x0200,
            ProfileFlags::TimelapseFrameFixed => 0x0400,
            ProfileFlags::RcKeepMixRate => 0x0800,
            ProfileFlags::RcKeepCurPosOnInit => 0x1000,
            ProfileFlags::OuterMotorLimitFreeRotation => 0x2000,
            ProfileFlags::EulerOrderAuto => 0x4000,
        }
    }

    /// The wire bit of this flag.
    pub fn bit(self) -> (b: u16)
        ensures
            b == self.spec_bit(),
    {
        match self {
            ProfileFlags::Adc1AutoDetection => 0x0001,
            ProfileFlags::Adc2AutoDetection => 0x0002,
            ProfileFlags::Adc3AutoDetection => 0x0004,
            ProfileFlags::FollowUseFrameImu => 0x0010,
            ProfileFlags::BriefcaseAutoDetection => 0x0020,
            ProfileFlags::UpsideDownAutoRotate => 0x0040,
            ProfileFlags::FollowLockOffsetCorrection => 0x0080,
            ProfileFlags::StartNeutralPosition => 0x0100,
            ProfileFlags::MenuButtonDisableFollow => 0x0200,
            ProfileFlags::TimelapseFrameFixed => 0x0400,
            ProfileFlags::RcKeepMixRate => 0x0800,
            ProfileFlags::RcKeepCurPosOnInit => 0x1000,
            ProfileFlags::OuterMotorLimitFreeRotation => 0x2000,
            ProfileFlags::EulerOrderAuto => 0x4000,
        }
    }
}

/// PWM frequency of the motor outputs.
#[derive(Copy, Clone, Debug, PartialEq)]
pub enum PwmFrequency {
    Low,
    High,
    UltraHigh,
}

impl PwmFrequency {
    /// The wire value of this choice.
    pub open spec fn spec_to_u8(self) -> u8 {
        match self {
            PwmFrequency::Low => 0,
            PwmFrequency::High => 1,
            PwmFrequency::UltraHigh => 2,
        }
    }

    /// The choice a wire value names, if any.
    pub open spec fn spec_from_u8(v: u8) -> Option<PwmFrequency> {
        if v == 0 {
            Some(PwmFrequency::Low)
        } else if v == 1 {
            Some(PwmFrequency::High)
        } else if v == 2 {
            Some(PwmFrequency::UltraHigh)
        } else {
            None
        }
    }

    /// The wire value of this choice.
    pub fn to_u8(self) -> (r: u8)
        ensures
            r == self.spec_to_u8(),
    {
        match self {
            PwmFrequency::Low => 0,
            PwmFrequency::High => 1,
            PwmFrequency::UltraHigh => 2,
        }
    }

    /// Looks a wire value up in the table.
    pub fn from_u8(v: u8) -> (r: Option<PwmFrequency>)
        ensures
            r == Self::spec_from_u8(v),
    {
        if v == 0 {
            Some(PwmFrequency::Low)
        } else if v == 1 {
            Some(PwmFrequency::High)
        } else if v == 2 {
            Some(PwmFrequency::UltraHigh)
        } else {
            None
        }
    }
}

/// Serial port speed setting.
#[derive(Copy, Clone, Debug, PartialEq)]
pub enum SerialSpeed {
    /// 115200 baud.
    B115200,
    /// 57600 baud.
    B57600,
    /// 38400 baud.
    B38400,
    /// 19200 baud.
    B19200,
    /// 9600 baud.
    B9600,
    /// 256000 baud.
    B25600,
}

impl SerialSpeed {
    /// The wire value of this choice.
    pub open spec fn spec_to_u8(self) -> u8 {
        match self {
            SerialSpeed::B115200 => 0,
            SerialSpeed::B57600 => 1,
            SerialSpeed::B38400 => 2,
            SerialSpeed::B19200 => 3,
            SerialSpeed::B9600 => 4,
            SerialSpeed::B25600 => 5,
        }
    }

    /// The choice a wire value names, if any.
    pub open spec fn spec_from_u8(v: u8) -> Option<SerialSpeed> {
        if v == 0 {
            Some(SerialSpeed::B115200)
        } else if v == 1 {
            Some(SerialSpeed::B57600)
        } else if v == 2 {
            Some(SerialSpeed::B38400)
        } else if v == 3 {
            Some(SerialSpeed::B19200)
        } else if v == 4 {
            Some(SerialSpeed::B9600)
        } else if v == 5 {
            Some(SerialSpeed::B25600)
        } else {
            None
        }
    }

    /// The wire value of this choice.
    pub fn to_u8(self) -> (r: u8)
        ensures
            r == self.spec_to_u8(),
    {
        match self {
            SerialSpeed::B115200 => 0,
            SerialSpeed::B57600 => 1,
            SerialSpeed::B38400 => 2,
            SerialSpeed::B19200 => 3,
            SerialSpeed::B9600 => 4,
            SerialSpeed::B25600 => 5,
        }
    }

    /// Looks a wire value up in the table.
    pub fn from_u8(v: u8) -> (r: Option<SerialSpeed>)
        ensures
            r == Self::spec_from_u8(v),
    {
        if v == 0 {
            Some(SerialSpeed::B115200)
        } else if v == 1 {
            Some(SerialSpeed::B57600)
        } else if v == 2 {
            Some(SerialSpeed::B38400)
        } else if v == 3 {
            Some(SerialSpeed::B19200)
        } else if v == 4 {
            Some(SerialSpeed::B9600)
        } else if v == 5 {
            Some(SerialSpeed::B25600)
        } else {
            None
        }
    }
}

/// Source of virtual RC channels.
///
/// The table is not contiguous: the API source sits at 10.
#[derive(Copy, Clone, Debug, PartialEq)]
pub enum RcVirtMode {
    Normal,
    CPPM,
    SBus,
    Spektrum,
    API,
}

impl RcVirtMode {
    /// The wire value of this choice.
    pub open spec fn spec_to_u8(self) -> u8 {
        match self {
            RcVirtMode::Normal => 0,
            RcVirtMode::CPPM => 1,
            RcVirtMode::SBus => 2,
            RcVirtMode::Spektrum => 3,
            RcVirtMode::API => 10,
        }
    }

    /// The choice a wire value names, if any.
    pub open spec fn spec_from_u8(v: u8) -> Option<RcVirtMode> {
        if v == 0 {
            Some(RcVirtMode::Normal)
        } else if v == 1 {
            Some(RcVirtMode::CPPM)
        } else if v == 2 {
            Some(RcVirtMode::SBus)
        } else if v == 3 {
            Some(RcVirtMode::Spektrum)
        } else if v == 10 {
            Some(RcVirtMode::API)
        } else {
            None
        }
    }

    /// The wire value of this choice.
    pub fn to_u8(self) -> (r: u8)
        ensures
            r == self.spec_to_u8(),
    {
        match self {
            RcVirtMode::Normal => 0,
            RcVirtMode::CPPM => 1,
            RcVirtMode::SBus => 2,
            RcVirtMode::Spektrum => 3,
            RcVirtMode::API => 10,
        }
    }

    /// Looks a wire value up in the table.
    pub fn from_u8(v: u8) -> (r: Option<RcVirtMode>)
        ensures
            r == Self::spec_from_u8(v),
    {
        if v == 0 {
            Some(RcVirtMode::Normal)
        } else if v == 1 {
            Some(RcVirtMode::CPPM)
        } else if v == 2 {
            Some(RcVirtMode::SBus)
        } else if v == 3 {
            Some(RcVirtMode::Spektrum)
        } else if v == 10 {
            Some(RcVirtMode::API)
        } else {
            None
        }
    }
}

/// The PWM input an RC mapping can draw from.
#[derive(Copy, Clone, Debug, PartialEq)]
pub enum RcMapPwmSource {
    Roll,
    Pitch,
    ExtFcRoll,
    ExtFcPitch,
    Yaw,
}

impl RcMapPwmSource {
    /// The wire value of this choice.
    pub open spec fn spec_to_u8(self) -> u8 {
        match self {
            RcMapPwmSource::Roll => 0,
            RcMapPwmSource::Pitch => 1,
            RcMapPwmSource::ExtFcRoll => 2,
            RcMapPwmSource::ExtFcPitch => 3,
            RcMapPwmSource::Yaw => 4,
        }
    }

    /// The choice a wire value names, if any.
    pub open spec fn spec_from_u8(v: u8) -> Option<RcMapPwmSource> {
        if v == 0 {
            Some(RcMapPwmSource::Roll)
        } else if v == 1 {
            Some(RcMapPwmSource::Pitch)
        } else if v == 2 {
            Some(RcMapPwmSource::ExtFcRoll)
        } else if v == 3 {
            Some(RcMapPwmSource::ExtFcPitch)
        } else if v == 4 {
            Some(RcMapPwmSource::Yaw)
        } else {
            None
        }
    }

    /// The wire value of this choice.
    pub fn to_u8(self) -> (r: u8)
        ensures
            r == self.spec_to_u8(),
    {
        match self {
            RcMapPwmSource::Roll => 0,
            RcMapPwmSource::Pitch => 1,
            RcMapPwmSource::ExtFcRoll => 2,
            RcMapPwmSource::ExtFcPitch => 3,
            RcMapPwmSource::Yaw => 4,
        }
    }

    /// Looks a wire value up in the table.
    pub fn from_u8(v: u8) -> (r: Option<RcMapPwmSource>)
        ensures
            r == Self::spec_from_u8(v),
    {
        if v == 0 {
            Some(RcMapPwmSource::Roll)
        } else if v == 1 {
            Some(RcMapPwmSource::Pitch)
        } else if v == 2 {
            Some(RcMapPwmSource::ExtFcRoll)
        } else if v == 3 {
            Some(RcMapPwmSource::ExtFcPitch)
        } else if v == 4 {
            Some(RcMapPwmSource::Yaw)
        } else {
            None
        }
    }
}

/// The ADC input an RC mapping can draw from.
///
/// The table is not contiguous: the values are the ADC bit codes 1, 2 and 4.
#[derive(Copy, Clone, Debug, PartialEq)]
pub enum RcMapAnalogChannel {
    ADC1,
    ADC2,
    ADC3,
}

impl RcMapAnalogChannel {
    /// The wire value of this choice.
    pub open spec fn spec_to_u8(self) -> u8 {
        match self {
            RcMapAnalogChannel::ADC1 => 1,
            RcMapAnalogChannel::ADC2 => 2,
            RcMapAnalogChannel::ADC3 => 4,
        }
    }

    /// The choice a wire value names, if any.
    pub open spec fn spec_from_u8(v: u8) -> Option<RcMapAnalogChannel> {
        if v == 1 {
            Some(RcMapAnalogChannel::ADC1)
        } else if v == 2 {
            Some(RcMapAnalogChannel::ADC2)
        } else if v == 4 {
            Some(RcMapAnalogChannel::ADC3)
        } else {
            None
        }
    }

    /// The wire value of this choice.
    pub fn to_u8(self) -> (r: u8)
        ensures
            r == self.spec_to_u8(),
    {
        match self {
            RcMapAnalogChannel::ADC1 => 1,
            RcMapAnalogChannel::ADC2 => 2,
            RcMapAnalogChannel::ADC3 => 4,
        }
    }

    /// Looks a wire value up in the table.
    pub fn from_u8(v: u8) -> (r: Option<RcMapAnalogChannel>)
        ensures
            r == Self::spec_from_u8(v),
    {
        if v == 1 {
            Some(RcMapAnalogChannel::ADC1)
        } else if v == 2 {
            Some(RcMapAnalogChannel::ADC2)
        } else if v == 4 {
            Some(RcMapAnalogChannel::ADC3)
        } else {
            None
        }
    }
}

/// One RC input mapping, bit-packed as `channel | (kind << 5)`.
///
/// The top three bits select the source kind, the low five bits the channel
/// within it; the all-zero byte means "no mapping".
#[derive(Copy, Clone, Debug, PartialEq)]
pub enum RcMap {
    Disabled,
    PWM { source: RcMapPwmSource },
    Analog { channel: RcMapAnalogChannel },
    Serial { channel: u8 },
    Virtual { channel: u8 },
    Step { channel: u8 },
}

/// Packing facts for the `channel | (kind << 5)` byte layout.
proof fn lemma_rcmap_bits(ch: u8)
    requires
        ch < 32,
    ensures
        ch <= 4 ==> ch >> 5 == 0 && ch & 0x1F == ch,
        (0x20 | ch) >> 5 == 1 && (0x20 | ch) & 0x1F == ch && (0x20 | ch) != 0,
        (0x40 | ch) >> 5 == 2 && (0x40 | ch) & 0x1F == ch && (0x40 | ch) != 0,
        (0x80 | ch) >> 5 == 4 && (0x80 | ch) & 0x1F == ch && (0x80 | ch) != 0,
        (0xA0 | ch) >> 5 == 5 && (0xA0 | ch) & 0x1F == ch && (0xA0 | ch) != 0,
{
    assert(ch < 32 ==> {
        &&& (ch <= 4 ==> ch >> 5 == 0 && ch & 0x1F == ch)
        &&& (0x20 | ch) >> 5 == 1 && (0x20 | ch) & 0x1F == ch && (0x20 | ch) != 0
        &&& (0x40 | ch) >> 5 == 2 && (0x40 | ch) & 0x1F == ch && (0x40 | ch) != 0
        &&& (0x80 | ch) >> 5 == 4 && (0x80 | ch) & 0x1F == ch && (0x80 | ch) != 0
        &&& (0xA0 | ch) >> 5 == 5 && (0xA0 | ch) & 0x1F == ch && (0xA0 | ch) != 0
    }) by (bit_vector);
}

impl RcMap {
    /// Serial, virtual and step channels must fit the five channel bits, and
    /// the PWM mapping of the roll source is excluded: its packed byte is the
    /// all-zero byte of [`RcMap::Disabled`], so the two could not be told
    /// apart on the wire. Decoding never produces it.
    pub open spec fn wf(self) -> bool {
        match self {
            RcMap::Disabled => true,
            RcMap::PWM { source } => source != RcMapPwmSource::Roll,
            RcMap::Analog { .. } => true,
            RcMap::Serial { channel } => channel < 32,
            RcMap::Virtual { channel } => channel < 32,
            RcMap::Step { channel } => channel < 32,
        }
    }

    /// The packed wire byte of this mapping.
    pub open spec fn spec_to_u8(self) -> u8 {
        match self {
            RcMap::Disabled => 0,
            RcMap::PWM { source } => source.spec_to_u8(),
            RcMap::Analog { channel } => 0x20 | channel.spec_to_u8(),
            RcMap::Serial { channel } => 0x40 | channel,
            RcMap::Virtual { channel } => 0x80 | channel,
            RcMap::Step { channel } => 0xA0 | channel,
        }
    }

    /// The mapping a packed wire byte names, if any. Kinds 3, 6 and 7 are
    /// not assigned.
    pub open spec fn spec_from_u8(b: u8) -> Option<RcMap> {
        if b == 0 {
            Some(RcMap::Disabled)
        } else {
            let channel = b & 0x1F;
            let kind = b >> 5;
            if kind == 0 {
                match RcMapPwmSource::spec_from_u8(channel) {
                    Some(source) => Some(RcMap::PWM { source }),
                    None => None,
                }
            } else if kind == 1 {
                match RcMapAnalogChannel::spec_from_u8(channel) {
                    Some(channel) => Some(RcMap::Analog { channel }),
                    None => None,
                }
            } else if kind == 2 {
                Some(RcMap::Serial { channel })
            } else if kind == 4 {
                Some(RcMap::Virtual { channel })
            } else if kind == 5 {
                Some(RcMap::Step { channel })
            } else {
                None
            }
        }
    }

    /// The packed wire byte of this mapping.
    pub fn to_u8(self) -> (r: u8)
        requires
            self.wf(),
        ensures
            r == self.spec_to_u8(),
    {
        match self {
            RcMap::Disabled => 0,
            RcMap::PWM { source } => source.to_u8(),
            RcMap::Analog { channel } => 0x20 | channel.to_u8(),
            RcMap::Serial { channel } => 0x40 | channel,
            RcMap::Virtual { channel } => 0x80 | channel,
            RcMap::Step { channel } => 0xA0 | channel,
        }
    }

    /// Unpacks a wire byte into a mapping, if its kind bits are assigned.
    pub fn from_u8(b: u8) -> (r: Option<RcMap>)
        ensures
            r == Self::spec_from_u8(b),
    {
        if b == 0 {
            return Some(RcMap::Disabled);
        }
        let channel: u8 = b & 0x1F;
        let kind: u8 = b >> 5;
        if kind == 0 {
            match RcMapPwmSource::from_u8(channel) {
                Some(source) => Some(RcMap::PWM { source }),
                None => None,
            }
        } else if kind == 1 {
            match RcMapAnalogChannel::from_u8(channel) {
                Some(channel) => Some(RcMap::Analog { channel }),
                None => None,
            }
        } else if kind == 2 {
            Some(RcMap::Serial { channel })
        } else if kind == 4 {
            Some(RcMap::Virtual { channel })
        } else if kind == 5 {
            Some(RcMap::Step { channel })
        } else {
            None
        }
    }

    /// Whatever unpacks is well formed: channels fit five bits, and the
    /// all-zero byte already went to [`RcMap::Disabled`], so the PWM roll
    /// source never comes out of a decode.
    pub proof fn lemma_from_u8_wf(b: u8)
        ensures
            (Self::spec_from_u8(b) matches Some(m) ==> m.wf()),
    {
        assert(b & 0x1F < 32) by (bit_vector);
        assert(b != 0 && b >> 5 == 0 ==> b & 0x1F != 0) by (bit_vector);
    }

    /// Round trip: every well-formed mapping survives packing and unpacking.
    pub proof fn lemma_round_trip(self)
        requires
            self.wf(),
        ensures
            Self::spec_from_u8(self.spec_to_u8()) == Some(self),
    {
        match self {
            RcMap::Disabled => {},
            RcMap::PWM { source } => {
                lemma_rcmap_bits(source.spec_to_u8());
            },
            RcMap::Analog { channel } => {
                lemma_rcmap_bits(channel.spec_to_u8());
            },
            RcMap::Serial { channel } => {
                lemma_rcmap_bits(channel);
            },
            RcMap::Virtual { channel } => {
                lemma_rcmap_bits(channel);
            },
            RcMap::Step { channel } => {
                lemma_rcmap_bits(channel);
            },
        }
    }
}

/// The axis an RC mixing source feeds.
#[derive(Copy, Clone, Debug, PartialEq)]
pub enum RcMixChannel {
    Disabled,
    Roll,
    Pitch,
    Yaw,
}

impl RcMixChannel {
    /// The wire value of this choice.
    pub open spec fn spec_to_u8(self) -> u8 {
        match self {
            RcMixChannel::Disabled => 0,
            RcMixChannel::Roll => 1,
            RcMixChannel::Pitch => 2,
            RcMixChannel::Yaw => 3,
        }
    }

    /// The choice a wire value names, if any.
    pub open spec fn spec_from_u8(v: u8) -> Option<RcMixChannel> {
        if v == 0 {
            Some(RcMixChannel::Disabled)
        } else if v == 1 {
            Some(RcMixChannel::Roll)
        } else if v == 2 {
            Some(RcMixChannel::Pitch)
        } else if v == 3 {
            Some(RcMixChannel::Yaw)
        } else {
            None
        }
    }

    /// The wire value of this choice.
    pub fn to_u8(self) -> (r: u8)
        ensures
            r == self.spec_to_u8(),
    {
        match self {
            RcMixChannel::Disabled => 0,
            RcMixChannel::Roll => 1,
            RcMixChannel::Pitch => 2,
            RcMixChannel::Yaw => 3,
        }
    }

    /// Looks a wire value up in the table.
    pub fn from_u8(v: u8) -> (r: Option<RcMixChannel>)
        ensures
            r == Self::spec_from_u8(v),
    {
        if v == 0 {
            Some(RcMixChannel::Disabled)
        } else if v == 1 {
            Some(RcMixChannel::Roll)
        } else if v == 2 {
            Some(RcMixChannel::Pitch)
        } else if v == 3 {
            Some(RcMixChannel::Yaw)
        } else {
            None
        }
    }
}

/// Nominal mixing-rate levels.
///
/// The mixing rate travels as the five low bits of the packed mix byte; these
/// named levels are the documented reference points of that range.
#[derive(Copy, Clone, Debug, PartialEq)]
pub enum RcMixRate {
    FullRc,
    HalfHalf,
    FullFc,
}

impl RcMixRate {
    /// The nominal rate value of this level.
    pub open spec fn spec_to_u8(self) -> u8 {
        match self {
            RcMixRate::FullRc => 0,
            RcMixRate::HalfHalf => 32,
            RcMixRate::FullFc => 63,
        }
    }

    /// The level a nominal rate value names, if any.
    pub open spec fn spec_from_u8(v: u8) -> Option<RcMixRate> {
        if v == 0 {
            Some(RcMixRate::FullRc)
        } else if v == 32 {
            Some(RcMixRate::HalfHalf)
        } else if v == 63 {
            Some(RcMixRate::FullFc)
        } else {
            None
        }
    }

    /// The nominal rate value of this level.
    pub fn to_u8(self) -> (r: u8)
        ensures
            r == self.spec_to_u8(),
    {
        match self {
            RcMixRate::FullRc => 0,
            RcMixRate::HalfHalf => 32,
            RcMixRate::FullFc => 63,
        }
    }

    /// The level a nominal rate value names, if any.
    pub fn from_u8(v: u8) -> (r: Option<RcMixRate>)
        ensures
            r == Self::spec_from_u8(v),
    {
        if v == 0 {
            Some(RcMixRate::FullRc)
        } else if v == 32 {
            Some(RcMixRate::HalfHalf)
        } else if v == 63 {
            Some(RcMixRate::FullFc)
        } else {
            None
        }
    }
}

/// Follow-mode selection.
#[derive(Copy, Clone, Debug, PartialEq)]
pub enum FollowMode {
    Disabled,
    Fc,
    Pitch,
}

impl FollowMode {
    /// The wire value of this choice.
    pub open spec fn spec_to_u8(self) -> u8 {
        match self {
            FollowMode::Disabled => 0,
            FollowMode::Fc => 1,
            FollowMode::Pitch => 2,
        }
    }

    /// The choice a wire value names, if any.
    pub open spec fn spec_from_u8(v: u8) -> Option<FollowMode> {
        if v == 0 {
            Some(FollowMode::Disabled)
        } else if v == 1 {
            Some(FollowMode::Fc)
        } else if v == 2 {
            Some(FollowMode::Pitch)
        } else {
            None
        }
    }

    /// The wire value of this choice.
    pub fn to_u8(self) -> (r: u8)
        ensures
            r == self.spec_to_u8(),
    {
        match self {
            FollowMode::Disabled => 0,
            FollowMode::Fc => 1,
            FollowMode::Pitch => 2,
        }
    }

    /// Looks a wire value up in the table.
    pub fn from_u8(v: u8) -> (r: Option<FollowMode>)
        ensures
            r == Self::spec_from_u8(v),
    {
        if v == 0 {
            Some(FollowMode::Disabled)
        } else if v == 1 {
            Some(FollowMode::Fc)
        } else if v == 2 {
            Some(FollowMode::Pitch)
        } else {
            None
        }
    }
}

/// An axis direction, stored as a signed byte.
///
/// The table is signed and not contiguous: positive axes are 1..3, negative
/// axes are -1..-3, and zero is not assigned.
#[derive(Copy, Clone, Debug, PartialEq)]
pub enum Orientation {
    PosX,
    PosY,
    PosZ,
    NegX,
    NegY,
    NegZ,
}

impl Orientation {
    /// The wire value of this choice.
    pub open spec fn spec_to_i8(self) -> i8 {
        match self {
            Orientation::PosX => 1i8,
            Orientation::PosY => 2i8,
            Orientation::PosZ => 3i8,
            Orientation::NegX => -1i8,
            Orientation::NegY => -2i8,
            Orientation::NegZ => -3i8,
        }
    }

    /// The choice a wire value names, if any.
    pub open spec fn spec_from_i8(v: i8) -> Option<Orientation> {
        if v == 1 {
            Some(Orientation::PosX)
        } else if v == 2 {
            Some(Orientation::PosY)
        } else if v == 3 {
            Some(Orientation::PosZ)
        } else if v == -1 {
            Some(Orientation::NegX)
        } else if v == -2 {
            Some(Orientation::NegY)
        } else if v == -3 {
            Some(Orientation::NegZ)
        } else {
            None
        }
    }

    /// The wire value of this choice.
    pub fn to_i8(self) -> (r: i8)
        ensures
            r == self.spec_to_i8(),
    {
        match self {
            Orientation::PosX => 1i8,
            Orientation::PosY => 2i8,
            Orientation::PosZ => 3i8,
            Orientation::NegX => -1i8,
            Orientation::NegY => -2i8,
            Orientation::NegZ => -3i8,
        }
    }

    /// Looks a wire value up in the table.
    pub fn from_i8(v: i8) -> (r: Option<Orientation>)
        ensures
            r == Self::spec_from_i8(v),
    {
        if v == 1 {
            Some(Orientation::PosX)
        } else if v == 2 {
            Some(Orientation::PosY)
        } else if v == 3 {
            Some(Orientation::PosZ)
        } else if v == -1 {
            Some(Orientation::NegX)
        } else if v == -2 {
            Some(Orientation::NegY)
        } else if v == -3 {
            Some(Orientation::NegZ)
        } else {
            None
        }
    }
}

/// Where the frame IMU is mounted.
#[derive(Copy, Clone, Debug, PartialEq)]
pub enum FrameImuPos {
    Disabled,
    BelowYaw,
    AboveYaw,
    BelowYawPIDSource,
}

impl FrameImuPos {
    /// The wire value of this choice.
    pub open spec fn spec_to_u8(self) -> u8 {
        match self {
            FrameImuPos::Disabled => 0,
            FrameImuPos::BelowYaw => 1,
            FrameImuPos::AboveYaw => 2,
            FrameImuPos::BelowYawPIDSource => 3,
        }
    }

    /// The choice a wire value names, if any.
    pub open spec fn spec_from_u8(v: u8) -> Option<FrameImuPos> {
        if v == 0 {
            Some(FrameImuPos::Disabled)
        } else if v == 1 {
            Some(FrameImuPos::BelowYaw)
        } else if v == 2 {
            Some(FrameImuPos::AboveYaw)
        } else if v == 3 {
            Some(FrameImuPos::BelowYawPIDSource)
        } else {
            None
        }
    }

    /// The wire value of this choice.
    pub fn to_u8(self) -> (r: u8)
        ensures
            r == self.spec_to_u8(),
    {
        match self {
            FrameImuPos::Disabled => 0,
            FrameImuPos::BelowYaw => 1,
            FrameImuPos::AboveYaw => 2,
            FrameImuPos::BelowYawPIDSource => 3,
        }
    }

    /// Looks a wire value up in the table.
    pub fn from_u8(v: u8) -> (r: Option<FrameImuPos>)
        ensures
            r == Self::spec_from_u8(v),
    {
        if v == 0 {
            Some(FrameImuPos::Disabled)
        } else if v == 1 {
            Some(FrameImuPos::BelowYaw)
        } else if v == 2 {
            Some(FrameImuPos::AboveYaw)
        } else if v == 3 {
            Some(FrameImuPos::BelowYawPIDSource)
        } else {
            None
        }
    }
}

/// Whether gyro calibration is skipped at startup.
#[derive(Copy, Clone, Debug, PartialEq)]
pub enum GyroCalibrationMode {
    /// Do not skip.
    NoSkip,
    /// Skip always.
    Skip,
    /// Try to calibrate but skip if motion is detected.
    Attempt,
}

impl GyroCalibrationMode {
    /// The wire value of this choice.
    pub open spec fn spec_to_u8(self) -> u8 {
        match self {
            GyroCalibrationMode::NoSkip => 0,
            GyroCalibrationMode::Skip => 1,
            GyroCalibrationMode::Attempt => 2,
        }
    }

    /// The choice a wire value names, if any.
    pub open spec fn spec_from_u8(v: u8) -> Option<GyroCalibrationMode> {
        if v == 0 {
            Some(GyroCalibrationMode::NoSkip)
        } else if v == 1 {
            Some(GyroCalibrationMode::Skip)
        } else if v == 2 {
            Some(GyroCalibrationMode::Attempt)
        } else {
            None
        }
    }

    /// The wire value of this choice.
    pub fn to_u8(self) -> (r: u8)
        ensures
            r == self.spec_to_u8(),
    {
        match self {
            GyroCalibrationMode::NoSkip => 0,
            GyroCalibrationMode::Skip => 1,
            GyroCalibrationMode::Attempt => 2,
        }
    }

    /// Looks a wire value up in the table.
    pub fn from_u8(v: u8) -> (r: Option<GyroCalibrationMode>)
        ensures
            r == Self::spec_from_u8(v),
    {
        if v == 0 {
            Some(GyroCalibrationMode::NoSkip)
        } else if v == 1 {
            Some(GyroCalibrationMode::Skip)
        } else if v == 2 {
            Some(GyroCalibrationMode::Attempt)
        } else {
            None
        }
    }
}

/// What a motor output drives.
#[derive(Copy, Clone, Debug, PartialEq)]
pub enum MotorOutput {
    Disabled,
    Roll,
    Pitch,
    Yaw,
    I2CDrv1,
    I2CDrv2,
    I2CDrv3,
    I2CDrv4,
}

impl MotorOutput {
    /// The wire value of this choice.
    pub open spec fn spec_to_u8(self) -> u8 {
        match self {
            MotorOutput::Disabled => 0,
            MotorOutput::Roll => 1,
            MotorOutput::Pitch => 2,
            MotorOutput::Yaw => 3,
            MotorOutput::I2CDrv1 => 4,
            MotorOutput::I2CDrv2 => 5,
            MotorOutput::I2CDrv3 => 6,
            MotorOutput::I2CDrv4 => 7,
        }
    }

    /// The choice a wire value names, if any.
    pub open spec fn spec_from_u8(v: u8) -> Option<MotorOutput> {
        if v == 0 {
            Some(MotorOutput::Disabled)
        } else if v == 1 {
            Some(MotorOutput::Roll)
        } else if v == 2 {
            Some(MotorOutput::Pitch)
        } else if v == 3 {
            Some(MotorOutput::Yaw)
        } else if v == 4 {
            Some(MotorOutput::I2CDrv1)
        } else if v == 5 {
            Some(MotorOutput::I2CDrv2)
        } else if v == 6 {
            Some(MotorOutput::I2CDrv3)
        } else if v == 7 {
            Some(MotorOutput::I2CDrv4)
        } else {
            None
        }
    }

    /// The wire value of this choice.
    pub fn to_u8(self) -> (r: u8)
        ensures
            r == self.spec_to_u8(),
    {
        match self {
            MotorOutput::Disabled => 0,
            MotorOutput::Roll => 1,
            MotorOutput::Pitch => 2,
            MotorOutput::Yaw => 3,
            MotorOutput::I2CDrv1 => 4,
            MotorOutput::I2CDrv2 => 5,
            MotorOutput::I2CDrv3 => 6,
            MotorOutput::I2CDrv4 => 7,
        }
    }

    /// Looks a wire value up in the table.
    pub fn from_u8(v: u8) -> (r: Option<MotorOutput>)
        ensures
            r == Self::spec_from_u8(v),
    {
        if v == 0 {
            Some(MotorOutput::Disabled)
        } else if v == 1 {
            Some(MotorOutput::Roll)
        } else if v == 2 {
            Some(MotorOutput::Pitch)
        } else if v == 3 {
            Some(MotorOutput::Yaw)
        } else if v == 4 {
            Some(MotorOutput::I2CDrv1)
        } else if v == 5 {
            Some(MotorOutput::I2CDrv2)
        } else if v == 6 {
            Some(MotorOutput::I2CDrv3)
        } else if v == 7 {
            Some(MotorOutput::I2CDrv4)
        } else {
            None
        }
    }
}

/// When the beeper sounds.
///
/// The table is not contiguous: the values are the documented event codes.
#[derive(Copy, Clone, Debug, PartialEq)]
pub enum BeeperMode {
    Calibrate,
    Confirm,
    Error,
    Alarm,
    Motors,
}

impl BeeperMode {
    /// The wire value of this choice.
    pub open spec fn spec_to_u8(self) -> u8 {
        match self {
            BeeperMode::Calibrate => 1,
            BeeperMode::Confirm => 2,
            BeeperMode::Error => 4,
            BeeperMode::Alarm => 8,
            BeeperMode::Motors => 128,
        }
    }

    /// The choice a wire value names, if any.
    pub open spec fn spec_from_u8(v: u8) -> Option<BeeperMode> {
        if v == 1 {
            Some(BeeperMode::Calibrate)
        } else if v == 2 {
            Some(BeeperMode::Confirm)
        } else if v == 4 {
            Some(BeeperMode::Error)
        } else if v == 8 {
            Some(BeeperMode::Alarm)
        } else if v == 128 {
            Some(BeeperMode::Motors)
        } else {
            None
        }
    }

    /// The wire value of this choice.
    pub fn to_u8(self) -> (r: u8)
        ensures
            r == self.spec_to_u8(),
    {
        match self {
            BeeperMode::Calibrate => 1,
            BeeperMode::Confirm => 2,
            BeeperMode::Error => 4,
            BeeperMode::Alarm => 8,
            BeeperMode::Motors => 128,
        }
    }

    /// Looks a wire value up in the table.
    pub fn from_u8(v: u8) -> (r: Option<BeeperMode>)
        ensures
            r == Self::spec_from_u8(v),
    {
        if v == 1 {
            Some(BeeperMode::Calibrate)
        } else if v == 2 {
            Some(BeeperMode::Confirm)
        } else if v == 4 {
            Some(BeeperMode::Error)
        } else if v == 8 {
            Some(BeeperMode::Alarm)
        } else if v == 128 {
            Some(BeeperMode::Motors)
        } else {
            None
        }
    }
}

/// Spektrum satellite DSM generation.
#[derive(Copy, Clone, Debug, PartialEq)]
pub enum SpektrumModeDSM {
    DSM2,
    DSMX,
}

/// Spektrum satellite frame period.
#[derive(Copy, Clone, Debug, PartialEq)]
pub enum SpektrumModeTime {
    /// 11 ms frames.
    Short,
    /// 22 ms frames.
    Long,
}

/// Spektrum satellite channel resolution.
#[derive(Copy, Clone, Debug, PartialEq)]
pub enum SpektrumModeBits {
    /// 10-bit channels.
    Short,
    /// 11-bit channels.
    Long,
}

/// Spektrum satellite mode: automatic, or an explicit combination of DSM
/// generation, frame period and resolution, bit-packed into the values
/// 1 through 8.
#[derive(Copy, Clone, Debug, PartialEq)]
pub enum SpektrumMode {
    Auto,
    Mode(SpektrumModeDSM, SpektrumModeTime, SpektrumModeBits),
}

impl SpektrumMode {
    /// The wire value of this mode: 0 for automatic, else one plus the
    /// packed combination (DSM generation in bit 2, frame period in bit 1,
    /// resolution in bit 0).
    pub open spec fn spec_to_u8(self) -> u8 {
        match self {
            SpektrumMode::Auto => 0,
            SpektrumMode::Mode(d, t, b) => {
                let dv: u8 = if d is DSMX {
                    4
                } else {
                    0
                };
                let tv: u8 = if t is Long {
                    2
                } else {
                    0
                };
                let bv: u8 = if b is Long {
                    1
                } else {
                    0
                };
                (1 + dv + tv + bv) as u8
            },
        }
    }

    /// The mode a wire value names, if any.
    pub open spec fn spec_from_u8(v: u8) -> Option<SpektrumMode> {
        if v == 0 {
            Some(SpektrumMode::Auto)
        } else if v <= 8 {
            let val = (v - 1) as u8;
            Some(
                SpektrumMode::Mode(
                    if val & 4 == 4 {
                        SpektrumModeDSM::DSMX
                    } else {
                        SpektrumModeDSM::DSM2
                    },
                    if val & 2 == 2 {
                        SpektrumModeTime::Long
                    } else {
                        SpektrumModeTime::Short
                    },
                    if val & 1 == 1 {
                        SpektrumModeBits::Long
                    } else {
                        SpektrumModeBits::Short
                    },
                ),
            )
        } else {
            None
        }
    }

    /// The wire value of this mode.
    pub fn to_u8(self) -> (r: u8)
        ensures
            r == self.spec_to_u8(),
    {
        match self {
            SpektrumMode::Auto => 0,
            SpektrumMode::Mode(d, t, b) => {
                let dv: u8 = match d {
                    SpektrumModeDSM::DSMX => 4,
                    SpektrumModeDSM::DSM2 => 0,
                };
                let tv: u8 = match t {
                    SpektrumModeTime::Long => 2,
                    SpektrumModeTime::Short => 0,
                };
                let bv: u8 = match b {
                    SpektrumModeBits::Long => 1,
                    SpektrumModeBits::Short => 0,
                };
                1 + dv + tv + bv
            },
        }
    }

    /// Unpacks a wire value into a mode, if it is in range.
    pub fn from_u8(v: u8) -> (r: Option<SpektrumMode>)
        ensures
            r == Self::spec_from_u8(v),
    {
        if v == 0 {
            Some(SpektrumMode::Auto)
        } else if v <= 8 {
            let val: u8 = v - 1;
            Some(
                SpektrumMode::Mode(
                    if val & 4 == 4 {
                        SpektrumModeDSM::DSMX
                    } else {
                        SpektrumModeDSM::DSM2
                    },
                    if val & 2 == 2 {
                        SpektrumModeTime::Long
                    } else {
                        SpektrumModeTime::Short
                    },
                    if val & 1 == 1 {
                        SpektrumModeBits::Long
                    } else {
                        SpektrumModeBits::Short
                    },
                ),
            )
        } else {
            None
        }
    }

    /// Round trip: every mode survives packing and unpacking.
    pub proof fn lemma_round_trip(self)
        ensures
            Self::spec_from_u8(self.spec_to_u8()) == Some(self),
    {
        match self {
            SpektrumMode::Auto => {},
            SpektrumMode::Mode(d, t, b) => {
                let dv: u8 = if d is DSMX {
                    4
                } else {
                    0
                };
                let tv: u8 = if t is Long {
                    2
                } else {
                    0
                };
                let bv: u8 = if b is Long {
                    1
                } else {
                    0
                };
                let val = (dv + tv + bv) as u8;
                assert((dv == 0 || dv == 4) && (tv == 0 || tv == 2) && (bv == 0 || bv == 1)
                    ==> (val & 4 == dv && val & 2 == tv && val & 1 == bv)) by (bit_vector)
                    requires
                        val == dv + tv + bv,
                ;
            },
        }
    }
}

/// Order of the hardware axes, counting from the camera.
#[derive(Copy, Clone, Debug, PartialEq)]
pub enum AxisOrder {
    PitchRollYaw,
    YawRollPitch,
    RollYawPitch,
    RollPitchYaw,
}

impl AxisOrder {
    /// The wire value of this choice.
    pub open spec fn spec_to_u8(self) -> u8 {
        match self {
            AxisOrder::PitchRollYaw => 0,
            AxisOrder::YawRollPitch => 1,
            AxisOrder::RollYawPitch => 2,
            AxisOrder::RollPitchYaw => 3,
        }
    }

    /// The choice a wire value names, if any.
    pub open spec fn spec_from_u8(v: u8) -> Option<AxisOrder> {
        if v == 0 {
            Some(AxisOrder::PitchRollYaw)
        } else if v == 1 {
            Some(AxisOrder::YawRollPitch)
        } else if v == 2 {
            Some(AxisOrder::RollYawPitch)
        } else if v == 3 {
            Some(AxisOrder::RollPitchYaw)
        } else {
            None
        }
    }

    /// The wire value of this choice.
    pub fn to_u8(self) -> (r: u8)
        ensures
            r == self.spec_to_u8(),
    {
        match self {
            AxisOrder::PitchRollYaw => 0,
            AxisOrder::YawRollPitch => 1,
            AxisOrder::RollYawPitch => 2,
            AxisOrder::RollPitchYaw => 3,
        }
    }

    /// Looks a wire value up in the table.
    pub fn from_u8(v: u8) -> (r: Option<AxisOrder>)
        ensures
            r == Self::spec_from_u8(v),
    {
        if v == 0 {
            Some(AxisOrder::PitchRollYaw)
        } else if v == 1 {
            Some(AxisOrder::YawRollPitch)
        } else if v == 2 {
            Some(AxisOrder::RollYawPitch)
        } else if v == 3 {
            Some(AxisOrder::RollPitchYaw)
        } else {
            None
        }
    }
}

/// Order of the Euler angles representing the camera orientation.
#[derive(Copy, Clone, Debug, PartialEq)]
pub enum EulerOrder {
    PitchRollYaw,
    RollPitchYaw,
    LocalRoll,
    RollLocal,
    YawRollPitch,
    YawPitchRoll,
}

impl EulerOrder {
    /// The wire value of this choice.
    pub open spec fn spec_to_u8(self) -> u8 {
        match self {
            EulerOrder::PitchRollYaw => 0,
            EulerOrder::RollPitchYaw => 1,
            EulerOrder::LocalRoll => 2,
            EulerOrder::RollLocal => 3,
            EulerOrder::YawRollPitch => 4,
            EulerOrder::YawPitchRoll => 5,
        }
    }

    /// The choice a wire value names, if any.
    pub open spec fn spec_from_u8(v: u8) -> Option<EulerOrder> {
        if v == 0 {
            Some(EulerOrder::PitchRollYaw)
        } else if v == 1 {
            Some(EulerOrder::RollPitchYaw)
        } else if v == 2 {
            Some(EulerOrder::LocalRoll)
        } else if v == 3 {
            Some(EulerOrder::RollLocal)
        } else if v == 4 {
            Some(EulerOrder::YawRollPitch)
        } else if v == 5 {
            Some(EulerOrder::YawPitchRoll)
        } else {
            None
        }
    }

    /// The wire value of this choice.
    pub fn to_u8(self) -> (r: u8)
        ensures
            r == self.spec_to_u8(),
    {
        match self {
            EulerOrder::PitchRollYaw => 0,
            EulerOrder::RollPitchYaw => 1,
            EulerOrder::LocalRoll => 2,
            EulerOrder::RollLocal => 3,
            EulerOrder::YawRollPitch => 4,
            EulerOrder::YawPitchRoll => 5,
        }
    }

    /// Looks a wire value up in the table.
    pub fn from_u8(v: u8) -> (r: Option<EulerOrder>)
        ensures
            r == Self::spec_from_u8(v),
    {
        if v == 0 {
            Some(EulerOrder::PitchRollYaw)
        } else if v == 1 {
            Some(EulerOrder::RollPitchYaw)
        } else if v == 2 {
            Some(EulerOrder::LocalRoll)
        } else if v == 3 {
            Some(EulerOrder::RollLocal)
        } else if v == 4 {
            Some(EulerOrder::YawRollPitch)
        } else if v == 5 {
            Some(EulerOrder::YawPitchRoll)
        } else {
            None
        }
    }
}

/// Which IMU is selected.
#[derive(Copy, Clone, Debug, PartialEq)]
pub enum ImuType {
    Main,
    Frame,
}

impl ImuType {
    /// The wire value of this choice.
    pub open spec fn spec_to_u8(self) -> u8 {
        match self {
            ImuType::Main => 1,
            ImuType::Frame => 2,
        }
    }

    /// The choice a wire value names, if any.
    pub open spec fn spec_from_u8(v: u8) -> Option<ImuType> {
        if v == 1 {
            Some(ImuType::Main)
        } else if v == 2 {
            Some(ImuType::Frame)
        } else {
            None
        }
    }

    /// The wire value of this choice.
    pub fn to_u8(self) -> (r: u8)
        ensures
            r == self.spec_to_u8(),
    {
        match self {
            ImuType::Main => 1,
            ImuType::Frame => 2,
        }
    }

    /// Looks a wire value up in the table.
    pub fn from_u8(v: u8) -> (r: Option<ImuType>)
        ensures
            r == Self::spec_from_u8(v),
    {
        if v == 1 {
            Some(ImuType::Main)
        } else if v == 2 {
            Some(ImuType::Frame)
        } else {
            None
        }
    }
}

/// Packing facts for the `rate | (channel << 5)` mix byte layout.
proof fn lemma_rcmix_bits(rate: u8, chv: u8)
    requires
        rate < 32,
        chv <= 7,
    ensures
        (rate | (chv << 5)) & 0x1F == rate,
        (rate | (chv << 5)) >> 5 == chv,
{
    assert(rate < 32 && chv <= 7 ==> {
        &&& (rate | (chv << 5)) & 0x1F == rate
        &&& (rate | (chv << 5)) >> 5 == chv
    }) by (bit_vector);
}

/// One RC mixing source, bit-packed as `rate | (channel << 5)`: the mixing
/// rate in the five low bits, the destination channel in the top three.
#[derive(Copy, Clone, Debug, PartialEq)]
pub struct RcMix {
    pub rc_mix_rate: u8,
    pub rc_mix_channel: RcMixChannel,
}

impl Payload for RcMix {
    open spec fn wf(&self) -> bool {
        self.rc_mix_rate < 32
    }

    open spec fn spec_size() -> nat {
        1
    }

    open spec fn enc(&self) -> Seq<u8> {
        seq![self.rc_mix_rate | (self.rc_mix_channel.spec_to_u8() << 5)]
    }

    open spec fn dec_ok(bs: Seq<u8>) -> bool {
        &&& bs.len() == 1
        &&& RcMixChannel::spec_from_u8(bs[0] >> 5) is Some
    }

    open spec fn dec_val(bs: Seq<u8>) -> Self {
        RcMix {
            rc_mix_rate: bs[0] & 0x1F,
            rc_mix_channel: RcMixChannel::spec_from_u8(bs[0] >> 5).unwrap(),
        }
    }

    open spec fn dec_err(bs: Seq<u8>, e: PayloadParseError) -> bool {
        if bs.len() != 1 {
            e == PayloadParseError::InsufficientData
        } else if RcMixChannel::spec_from_u8(bs[0] >> 5) is None {
            e matches PayloadParseError::InvalidEnum { name } && name@ == "RC_MIX_CHANNEL"@
        } else {
            false
        }
    }

    proof fn lemma_dec_ok_len(bs: Seq<u8>) {
    }

    proof fn lemma_enc_size(&self) {
    }

    proof fn lemma_round_trip(&self) {
        lemma_rcmix_bits(self.rc_mix_rate, self.rc_mix_channel.spec_to_u8());
    }

    fn from_bytes(b: &[u8]) -> (r: Result<Self, PayloadParseError>) {
        if b.len() != 1 {
            return Err(PayloadParseError::InsufficientData);
        }
        let byte: u8 = b[0];
        let rc_mix_channel: RcMixChannel = match RcMixChannel::from_u8(byte >> 5) {
            Some(v) => v,
            None => {
                return Err(invalid_enum("RC_MIX_CHANNEL"));
            },
        };
        let rc_mix_rate: u8 = byte & 0x1F;
        proof {
            assert(byte & 0x1F < 32) by (bit_vector);
        }
        Ok(RcMix { rc_mix_rate, rc_mix_channel })
    }

    fn to_bytes(&self) -> (r: Vec<u8>) {
        let mut out: Vec<u8> = Vec::new();
        out.push(self.rc_mix_rate | (self.rc_mix_channel.to_u8() << 5));
        assert(out@ =~= self.enc());
        out
    }
}

/// The two RC mixing sources, flight-controller roll and pitch.
#[derive(Copy, Clone, Debug, PartialEq)]
pub struct RcMixes {
    pub fc_roll: RcMix,
    pub fc_pitch: RcMix,
}

impl Payload for RcMixes {
    open spec fn wf(&self) -> bool {
        self.fc_roll.wf() && self.fc_pitch.wf()
    }

    open spec fn spec_size() -> nat {
        2
    }

    open spec fn enc(&self) -> Seq<u8> {
        self.fc_roll.enc() + self.fc_pitch.enc()
    }

    open spec fn dec_ok(bs: Seq<u8>) -> bool {
        &&& bs.len() == 2
        &&& RcMix::dec_ok(bs.subrange(0, 1))
        &&& RcMix::dec_ok(bs.subrange(1, 2))
    }

    open spec fn dec_val(bs: Seq<u8>) -> Self {
        RcMixes {
            fc_roll: RcMix::dec_val(bs.subrange(0, 1)),
            fc_pitch: RcMix::dec_val(bs.subrange(1, 2)),
        }
    }

    open spec fn dec_err(bs: Seq<u8>, e: PayloadParseError) -> bool {
        if bs.len() != 2 {
            e == PayloadParseError::InsufficientData
        } else if !RcMix::dec_ok(bs.subrange(0, 1)) {
            RcMix::dec_err(bs.subrange(0, 1), e)
        } else if !RcMix::dec_ok(bs.subrange(1, 2)) {
            RcMix::dec_err(bs.subrange(1, 2), e)
        } else {
            false
        }
    }

    proof fn lemma_dec_ok_len(bs: Seq<u8>) {
    }

    proof fn lemma_enc_size(&self) {
    }

    proof fn lemma_round_trip(&self) {
        self.fc_roll.lemma_round_trip();
        self.fc_pitch.lemma_round_trip();
        let e = self.enc();
        assert(e.subrange(0, 1) =~= self.fc_roll.enc());
        assert(e.subrange(1, 2) =~= self.fc_pitch.enc());
    }

    fn from_bytes(b: &[u8]) -> (r: Result<Self, PayloadParseError>) {
        if b.len() != 2 {
            return Err(PayloadParseError::InsufficientData);
        }
        let fc_roll: RcMix = match RcMix::from_bytes(&b[0..1]) {
            Ok(v) => v,
            Err(e) => {
                return Err(e);
            },
        };
        let fc_pitch: RcMix = match RcMix::from_bytes(&b[1..2]) {
            Ok(v) => v,
            Err(e) => {
                return Err(e);
            },
        };
        Ok(RcMixes { fc_roll, fc_pitch })
    }

    fn to_bytes(&self) -> (r: Vec<u8>) {
        let mut out: Vec<u8> = self.fc_roll.to_bytes();
        let mut tail: Vec<u8> = self.fc_pitch.to_bytes();
        out.append(&mut tail);
        out
    }
}

/// The six RC input mappings of a profile, in wire order.
#[derive(Copy, Clone, Debug, PartialEq)]
pub struct RcMaps {
    pub roll: RcMap,
    pub pitch: RcMap,
    pub yaw: RcMap,
    pub cmd: RcMap,
    pub fc_roll: RcMap,
    pub fc_pitch: RcMap,
}

impl Payload for RcMaps {
    open spec fn wf(&self) -> bool {
        &&& self.roll.wf()
        &&& self.pitch.wf()
        &&& self.yaw.wf()
        &&& self.cmd.wf()
        &&& self.fc_roll.wf()
        &&& self.fc_pitch.wf()
    }

    open spec fn spec_size() -> nat {
        6
    }

    open spec fn enc(&self) -> Seq<u8> {
        seq![
            self.roll.spec_to_u8(),
            self.pitch.spec_to_u8(),
            self.yaw.spec_to_u8(),
            self.cmd.spec_to_u8(),
            self.fc_roll.spec_to_u8(),
            self.fc_pitch.spec_to_u8(),
        ]
    }

    open spec fn dec_ok(bs: Seq<u8>) -> bool {
        &&& bs.len() == 6
        &&& RcMap::spec_from_u8(bs[0]) is Some
        &&& RcMap::spec_from_u8(bs[1]) is Some
        &&& RcMap::spec_from_u8(bs[2]) is Some
        &&& RcMap::spec_from_u8(bs[3]) is Some
        &&& RcMap::spec_from_u8(bs[4]) is Some
        &&& RcMap::spec_from_u8(bs[5]) is Some
    }

    open spec fn dec_val(bs: Seq<u8>) -> Self {
        RcMaps {
            roll: RcMap::spec_from_u8(bs[0]).unwrap(),
            pitch: RcMap::spec_from_u8(bs[1]).unwrap(),
            yaw: RcMap::spec_from_u8(bs[2]).unwrap(),
            cmd: RcMap::spec_from_u8(bs[3]).unwrap(),
            fc_roll: RcMap::spec_from_u8(bs[4]).unwrap(),
            fc_pitch: RcMap::spec_from_u8(bs[5]).unwrap(),
        }
    }

    open spec fn dec_err(bs: Seq<u8>, e: PayloadParseError) -> bool {
        if bs.len() != 6 {
            e == PayloadParseError::InsufficientData
        } else if RcMap::spec_from_u8(bs[0]) is None {
            e matches PayloadParseError::InvalidEnum { name } && name@ == "RC_MAP_ROLL"@
        } else if RcMap::spec_from_u8(bs[1]) is None {
            e matches PayloadParseError::InvalidEnum { name } && name@ == "RC_MAP_PITCH"@
        } else if RcMap::spec_from_u8(bs[2]) is None {
            e matches PayloadParseError::InvalidEnum { name } && name@ == "RC_MAP_YAW"@
        } else if RcMap::spec_from_u8(bs[3]) is None {
            e matches PayloadParseError::InvalidEnum { name } && name@ == "RC_MAP_CMD"@
        } else if RcMap::spec_from_u8(bs[4]) is None {
            e matches PayloadParseError::InvalidEnum { name } && name@ == "RC_MAP_FC_ROLL"@
        } else if RcMap::spec_from_u8(bs[5]) is None {
            e matches PayloadParseError::InvalidEnum { name } && name@ == "RC_MAP_FC_PITCH"@
        } else {
            false
        }
    }

    proof fn lemma_dec_ok_len(bs: Seq<u8>) {
    }

    proof fn lemma_enc_size(&self) {
    }

    proof fn lemma_round_trip(&self) {
        self.roll.lemma_round_trip();
        self.pitch.lemma_round_trip();
        self.yaw.lemma_round_trip();
        self.cmd.lemma_round_trip();
        self.fc_roll.lemma_round_trip();
        self.fc_pitch.lemma_round_trip();
    }

    fn from_bytes(b: &[u8]) -> (r: Result<Self, PayloadParseError>) {
        if b.len() != 6 {
            return Err(PayloadParseError::InsufficientData);
        }
        let roll: RcMap = match RcMap::from_u8(b[0]) {
            Some(v) => v,
            None => {
                return Err(invalid_enum("RC_MAP_ROLL"));
            },
        };
        let pitch: RcMap = match RcMap::from_u8(b[1]) {
            Some(v) => v,
            None => {
                return Err(invalid_enum("RC_MAP_PITCH"));
            },
        };
        let yaw: RcMap = match RcMap::from_u8(b[2]) {
            Some(v) => v,
            None => {
                return Err(invalid_enum("RC_MAP_YAW"));
            },
        };
        let cmd: RcMap = match RcMap::from_u8(b[3]) {
            Some(v) => v,
            None => {
                return Err(invalid_enum("RC_MAP_CMD"));
            },
        };
        let fc_roll: RcMap = match RcMap::from_u8(b[4]) {
            Some(v) => v,
            None => {
                return Err(invalid_enum("RC_MAP_FC_ROLL"));
            },
        };
        let fc_pitch: RcMap = match RcMap::from_u8(b[5]) {
            Some(v) => v,
            None => {
                return Err(invalid_enum("RC_MAP_FC_PITCH"));
            },
        };
        proof {
            RcMap::lemma_from_u8_wf(b@[0]);
            RcMap::lemma_from_u8_wf(b@[1]);
            RcMap::lemma_from_u8_wf(b@[2]);
            RcMap::lemma_from_u8_wf(b@[3]);
            RcMap::lemma_from_u8_wf(b@[4]);
            RcMap::lemma_from_u8_wf(b@[5]);
        }
        Ok(RcMaps { roll, pitch, yaw, cmd, fc_roll, fc_pitch })
    }

    fn to_bytes(&self) -> (r: Vec<u8>) {
        let mut out: Vec<u8> = Vec::new();
        out.push(self.roll.to_u8());
        out.push(self.pitch.to_u8());
        out.push(self.yaw.to_u8());
        out.push(self.cmd.to_u8());
        out.push(self.fc_roll.to_u8());
        out.push(self.fc_pitch.to_u8());
        assert(out@ =~= self.enc());
        out
    }
}

/// One axis's PID loop parameters.
#[derive(Copy, Clone, Debug, PartialEq)]
pub struct AxisPidParams {
    pub p: u8,
    pub i: u8,
    pub d: u8,
    pub power: u8,
    pub invert: bool,
    pub poles: u8,
}

impl Payload for AxisPidParams {
    open spec fn wf(&self) -> bool {
        true
    }

    open spec fn spec_size() -> nat {
        6
    }

    open spec fn enc(&self) -> Seq<u8> {
        seq![
            self.p,
            self.i,
            self.d,
            self.power,
            if self.invert {
                1u8
            } else {
                0u8
            },
            self.poles,
        ]
    }

    open spec fn dec_ok(bs: Seq<u8>) -> bool {
        bs.len() == 6
    }

    open spec fn dec_val(bs: Seq<u8>) -> Self {
        AxisPidParams {
            p: bs[0],
            i: bs[1],
            d: bs[2],
            power: bs[3],
            invert: bs[4] != 0,
            poles: bs[5],
        }
    }

    open spec fn dec_err(bs: Seq<u8>, e: PayloadParseError) -> bool {
        bs.len() != 6 && e == PayloadParseError::InsufficientData
    }

    proof fn lemma_dec_ok_len(bs: Seq<u8>) {
    }

    proof fn lemma_enc_size(&self) {
    }

    proof fn lemma_round_trip(&self) {
    }

    fn from_bytes(b: &[u8]) -> (r: Result<Self, PayloadParseError>) {
        if b.len() != 6 {
            return Err(PayloadParseError::InsufficientData);
        }
        Ok(
            AxisPidParams {
                p: b[0],
                i: b[1],
                d: b[2],
                power: b[3],
                invert: b[4] != 0,
                poles: b[5],
            },
        )
    }

    fn to_bytes(&self) -> (r: Vec<u8>) {
        let mut out: Vec<u8> = Vec::new();
        out.push(self.p);
        out.push(self.i);
        out.push(self.d);
        out.push(self.power);
        wire::push_bool(&mut out, self.invert);
        out.push(self.poles);
        assert(out@ =~= self.enc());
        out
    }
}

/// One axis's RC input parameters.
#[derive(Copy, Clone, Debug, PartialEq)]
pub struct AxisRcParams {
    /// Units: degrees.
    pub rc_min_angle: i16,
    /// Units: degrees.
    pub rc_max_angle: i16,
    /// Bit set over [`AxisRcMode`], decoded in strict mode.
    pub rc_mode: u8,
    pub rc_lpf: u8,
    pub rc_speed: u8,
    /// Roll and pitch: follow rate for the flight controller. Yaw: a nonzero
    /// value enables follow-motor mode.
    pub rc_follow: i8,
}

impl Payload for AxisRcParams {
    open spec fn wf(&self) -> bool {
        self.rc_mode & !AXIS_RC_MODE_MASK == 0
    }

    open spec fn spec_size() -> nat {
        8
    }

    open spec fn enc(&self) -> Seq<u8> {
        wire::enc_i16(self.rc_min_angle) + wire::enc_i16(self.rc_max_angle) + seq![
            self.rc_mode,
            self.rc_lpf,
            self.rc_speed,
        ] + wire::enc_i8(self.rc_follow)
    }

    open spec fn dec_ok(bs: Seq<u8>) -> bool {
        &&& bs.len() == 8
        &&& bs[4] & !AXIS_RC_MODE_MASK == 0
    }

    open spec fn dec_val(bs: Seq<u8>) -> Self {
        AxisRcParams {
            rc_min_angle: wire::i16_of_u16(wire::u16_le_of(bs[0], bs[1])),
            rc_max_angle: wire::i16_of_u16(wire::u16_le_of(bs[2], bs[3])),
            rc_mode: bs[4],
            rc_lpf: bs[5],
            rc_speed: bs[6],
            rc_follow: wire::i8_of_u8(bs[7]),
        }
    }

    open spec fn dec_err(bs: Seq<u8>, e: PayloadParseError) -> bool {
        if bs.len() != 8 {
            e == PayloadParseError::InsufficientData
        } else if bs[4] & !AXIS_RC_MODE_MASK != 0 {
            e matches PayloadParseError::InvalidFlags { name } && name@ == "RC_MODE"@
        } else {
            false
        }
    }

    proof fn lemma_dec_ok_len(bs: Seq<u8>) {
    }

    proof fn lemma_enc_size(&self) {
    }

    proof fn lemma_round_trip(&self) {
        wire::lemma_u16_round_trip(wire::u16_of_i16(self.rc_min_angle));
        wire::lemma_i16_round_trip(self.rc_min_angle);
        wire::lemma_u16_round_trip(wire::u16_of_i16(self.rc_max_angle));
        wire::lemma_i16_round_trip(self.rc_max_angle);
        wire::lemma_i8_round_trip(self.rc_follow);
    }

    fn from_bytes(b: &[u8]) -> (r: Result<Self, PayloadParseError>) {
        if b.len() != 8 {
            return Err(PayloadParseError::InsufficientData);
        }
        let rc_min_angle: i16 = wire::read_i16_le(b, 0);
        let rc_max_angle: i16 = wire::read_i16_le(b, 2);
        let rc_mode: u8 = match check_flags_u8(b[4], AXIS_RC_MODE_MASK, "RC_MODE") {
            Ok(v) => v,
            Err(e) => {
                return Err(e);
            },
        };
        let rc_lpf: u8 = b[5];
        let rc_speed: u8 = b[6];
        let rc_follow: i8 = wire::read_i8(b, 7);
        Ok(AxisRcParams { rc_min_angle, rc_max_angle, rc_mode, rc_lpf, rc_speed, rc_follow })
    }

    fn to_bytes(&self) -> (r: Vec<u8>) {
        let mut out: Vec<u8> = Vec::new();
        wire::push_i16_le(&mut out, self.rc_min_angle);
        wire::push_i16_le(&mut out, self.rc_max_angle);
        out.push(self.rc_mode);
        out.push(self.rc_lpf);
        out.push(self.rc_speed);
        wire::push_i8(&mut out, self.rc_follow);
        assert(out@ =~= self.enc());
        out
    }
}

/// Request payload naming the profile to read: 0 through 4, or 255 for the
/// currently active profile.
#[derive(Copy, Clone, Debug, PartialEq)]
pub struct ParamsQuery {
    pub profile_id: u8,
}

impl Payload for ParamsQuery {
    open spec fn wf(&self) -> bool {
        true
    }

    open spec fn spec_size() -> nat {
        1
    }

    open spec fn enc(&self) -> Seq<u8> {
        seq![self.profile_id]
    }

    open spec fn dec_ok(bs: Seq<u8>) -> bool {
        bs.len() == 1
    }

    open spec fn dec_val(bs: Seq<u8>) -> Self {
        ParamsQuery { profile_id: bs[0] }
    }

    open spec fn dec_err(bs: Seq<u8>, e: PayloadParseError) -> bool {
        bs.len() != 1 && e == PayloadParseError::InsufficientData
    }

    proof fn lemma_dec_ok_len(bs: Seq<u8>) {
    }

    proof fn lemma_enc_size(&self) {
    }

    proof fn lemma_round_trip(&self) {
    }

    fn from_bytes(b: &[u8]) -> (r: Result<Self, PayloadParseError>) {
        if b.len() != 1 {
            return Err(PayloadParseError::InsufficientData);
        }
        Ok(ParamsQuery { profile_id: b[0] })
    }

    fn to_bytes(&self) -> (r: Vec<u8>) {
        let mut out: Vec<u8> = Vec::new();
        out.push(self.profile_id);
        assert(out@ =~= self.enc());
        out
    }
}

/// The full profile-parameters record.
///
/// Field order is the single source of truth for the byte layout: each field
/// is encoded in declaration order, packed without padding, 122 bytes in all.
#[derive(Copy, Clone, Debug, PartialEq)]
pub struct Params3Data {
    /// Profile ID to read or write: 0 through 4, or 255 for the currently
    /// active profile.
    pub profile_id: u8,
    pub pid: RollPitchYaw<AxisPidParams>,
    /// Units: 5 degrees/sec^2; zero disables the limiter.
    pub acc_limiter_all: u8,
    pub ext_fc_gain: (i8, i8),
    pub rc: RollPitchYaw<AxisRcParams>,
    pub gyro_trust: u8,
    pub use_model: bool,
    pub pwm_freq: PwmFrequency,
    pub serial_speed: SerialSpeed,
    pub rc_trim: RollPitchYaw<i8>,
    pub rc_deadband: u8,
    pub rc_expo_rate: u8,
    pub rc_virt_mode: RcVirtMode,
    pub rc_map: RcMaps,
    pub rc_mix: RcMixes,
    pub follow_mode: FollowMode,
    pub follow_deadband: u8,
    pub follow_expo_rate: u8,
    pub axis_top: Orientation,
    pub axis_right: Orientation,
    pub frame_axis_top: Orientation,
    pub frame_axis_right: Orientation,
    pub frame_imu_pos: FrameImuPos,
    pub gyro_deadband: u8,
    pub gyro_sens: u8,
    pub i2c_speed_fast: bool,
    pub skip_gyro_calib: GyroCalibrationMode,
    pub rc_cmd: [u8; 9],
    pub motor_output: RollPitchYaw<u8>,
    /// Negative means the alarm is disabled.
    pub bat_threshold_alarm: i16,
    /// Negative means the function is disabled.
    pub bat_threshold_motors: i16,
    /// Negative means compensation is disabled.
    pub bat_comp_ref: i16,
    pub beeper_mode: BeeperMode,
    pub follow_roll_mix_start: u8,
    pub follow_roll_mix_range: u8,
    pub booster_power: RollPitchYaw<u8>,
    pub follow_speed: RollPitchYaw<u8>,
    pub frame_angle_from_motors: bool,
    /// Zero disables an output; 1 through 32 names the virtual channel
    /// driving it.
    pub servo_out: [u8; 4],
    /// PWM frequency, 10 Hz per unit.
    pub servo_rate: u8,
    /// Bit set over [`AdaptivePid`], decoded in strict mode.
    pub adaptive_pid_enabled: u8,
    pub adaptive_pid_threshold: u8,
    pub adaptive_pid_rate: u8,
    pub adaptive_pid_recovery_factor: u8,
    /// Bit set over [`GeneralFlags`], decoded in strict mode.
    pub general_flags: u16,
    /// Bit set over [`ProfileFlags`], decoded in strict mode.
    pub profile_flags: u16,
    pub spektrum_mode: SpektrumMode,
    /// Order of the hardware axes; honoured by special firmware builds only.
    pub order_of_axes: AxisOrder,
    pub euler_order: EulerOrder,
    /// The currently selected IMU.
    pub cur_imu: ImuType,
    /// The profile currently active in the controller, 0 through 4.
    pub cur_profile_id: u8,
}

impl Params3Data {
    /// Bytes of the identity and per-axis parameter fields, offsets 0
    /// through 49.
    pub open spec fn enc_head(&self) -> Seq<u8> {
        seq![self.profile_id] + self.pid.enc() + seq![self.acc_limiter_all] + wire::enc_i8(
            self.ext_fc_gain.0,
        ) + wire::enc_i8(self.ext_fc_gain.1) + self.rc.enc() + seq![self.gyro_trust]
            + wire::enc_bool(self.use_model) + seq![
            self.pwm_freq.spec_to_u8(),
            self.serial_speed.spec_to_u8(),
        ]
    }

    /// Bytes of the RC trim, mapping and mixing fields, offsets 50
    /// through 63.
    pub open spec fn enc_rc_a(&self) -> Seq<u8> {
        self.rc_trim.enc() + seq![
            self.rc_deadband,
            self.rc_expo_rate,
            self.rc_virt_mode.spec_to_u8(),
        ] + self.rc_map.enc() + self.rc_mix.enc()
    }

    /// Bytes of the follow and orientation fields, offsets 64 through 75.
    pub open spec fn enc_rc_b(&self) -> Seq<u8> {
        seq![
            self.follow_mode.spec_to_u8(),
            self.follow_deadband,
            self.follow_expo_rate,
        ] + wire::enc_i8(self.axis_top.spec_to_i8()) + wire::enc_i8(self.axis_right.spec_to_i8())
            + wire::enc_i8(self.frame_axis_top.spec_to_i8()) + wire::enc_i8(
            self.frame_axis_right.spec_to_i8(),
        ) + seq![self.frame_imu_pos.spec_to_u8(), self.gyro_deadband, self.gyro_sens]
            + wire::enc_bool(self.i2c_speed_fast) + seq![self.skip_gyro_calib.spec_to_u8()]
    }

    /// Bytes of the RC and orientation fields, offsets 50 through 75.
    pub open spec fn enc_rc(&self) -> Seq<u8> {
        self.enc_rc_a() + self.enc_rc_b()
    }

    /// Bytes of the command and motor fields, offsets 76 through 102.
    pub open spec fn enc_motor(&self) -> Seq<u8> {
        self.rc_cmd@ + self.motor_output.enc() + wire::enc_i16(self.bat_threshold_alarm)
            + wire::enc_i16(self.bat_threshold_motors) + wire::enc_i16(self.bat_comp_ref) + seq![
            self.beeper_mode.spec_to_u8(),
            self.follow_roll_mix_start,
            self.follow_roll_mix_range,
        ] + self.booster_power.enc() + self.follow_speed.enc()
    }

    /// Bytes of the servo, flags and trailing fields, offsets 103 through
    /// 121.
    pub open spec fn enc_tail(&self) -> Seq<u8> {
        wire::enc_bool(self.frame_angle_from_motors) + self.servo_out@ + seq![
            self.servo_rate,
            self.adaptive_pid_enabled,
            self.adaptive_pid_threshold,
            self.adaptive_pid_rate,
            self.adaptive_pid_recovery_factor,
        ] + wire::enc_u16(self.general_flags) + wire::enc_u16(self.profile_flags) + seq![
            self.spektrum_mode.spec_to_u8(),
            self.order_of_axes.spec_to_u8(),
            self.euler_order.spec_to_u8(),
            self.cur_imu.spec_to_u8(),
            self.cur_profile_id,
        ]
    }

    /// The four encoding chunks have the fixed sizes 50, 26, 27 and 19.
    proof fn lemma_chunk_sizes(&self)
        requires
            self.wf(),
        ensures
            self.enc_head().len() == 50,
            self.enc_rc_a().len() == 14,
            self.enc_rc_b().len() == 12,
            self.enc_rc().len() == 26,
            self.enc_motor().len() == 27,
            self.enc_tail().len() == 19,
    {
        self.pid.lemma_enc_size();
        self.rc.lemma_enc_size();
        self.rc_trim.lemma_enc_size();
        self.rc_map.lemma_enc_size();
        self.rc_mix.lemma_enc_size();
        self.motor_output.lemma_enc_size();
        self.booster_power.lemma_enc_size();
        self.follow_speed.lemma_enc_size();
    }

    /// Decoding facts for the head chunk of a full encoding.
    #[verifier::rlimit(100)]
    #[verifier::spinoff_prover]
    proof fn lemma_rt_head(&self, e: Seq<u8>)
        requires
            self.wf(),
            e == self.enc(),
        ensures
            e.len() == 122,
            e[0] == self.profile_id,
            RollPitchYaw::<AxisPidParams>::dec_ok(e.subrange(1, 19)),
            RollPitchYaw::<AxisPidParams>::dec_val(e.subrange(1, 19)) == self.pid,
            e[19] == self.acc_limiter_all,
            wire::i8_of_u8(e[20]) == self.ext_fc_gain.0,
            wire::i8_of_u8(e[21]) == self.ext_fc_gain.1,
            RollPitchYaw::<AxisRcParams>::dec_ok(e.subrange(22, 46)),
            RollPitchYaw::<AxisRcParams>::dec_val(e.subrange(22, 46)) == self.rc,
            e[46] == self.gyro_trust,
            (e[47] != 0) == self.use_model,
            PwmFrequency::spec_from_u8(e[48]) == Some(self.pwm_freq),
            SerialSpeed::spec_from_u8(e[49]) == Some(self.serial_speed),
    {
        self.lemma_chunk_sizes();
        self.pid.lemma_round_trip();
        self.pid.lemma_enc_size();
        self.rc.lemma_round_trip();
        self.rc.lemma_enc_size();
        wire::lemma_i8_round_trip(self.ext_fc_gain.0);
        wire::lemma_i8_round_trip(self.ext_fc_gain.1);
        assert(e.subrange(1, 19) =~= self.pid.enc());
        assert(e.subrange(22, 46) =~= self.rc.enc());
    }

    /// Decoding facts for the RC chunk of a full encoding.
    #[verifier::rlimit(100)]
    #[verifier::spinoff_prover]
    proof fn lemma_rt_rc(&self, e: Seq<u8>)
        requires
            self.wf(),
            e == self.enc(),
        ensures
            RollPitchYaw::<i8>::dec_ok(e.subrange(50, 53)),
            RollPitchYaw::<i8>::dec_val(e.subrange(50, 53)) == self.rc_trim,
            e[53] == self.rc_deadband,
            e[54] == self.rc_expo_rate,
            RcVirtMode::spec_from_u8(e[55]) == Some(self.rc_virt_mode),
            RcMaps::dec_ok(e.subrange(56, 62)),
            RcMaps::dec_val(e.subrange(56, 62)) == self.rc_map,
            RcMixes::dec_ok(e.subrange(62, 64)),
            RcMixes::dec_val(e.subrange(62, 64)) == self.rc_mix,
            FollowMode::spec_from_u8(e[64]) == Some(self.follow_mode),
            e[65] == self.follow_deadband,
            e[66] == self.follow_expo_rate,
            Orientation::spec_from_i8(wire::i8_of_u8(e[67])) == Some(self.axis_top),
            Orientation::spec_from_i8(wire::i8_of_u8(e[68])) == Some(self.axis_right),
            Orientation::spec_from_i8(wire::i8_of_u8(e[69])) == Some(self.frame_axis_top),
            Orientation::spec_from_i8(wire::i8_of_u8(e[70])) == Some(self.frame_axis_right),
            FrameImuPos::spec_from_u8(e[71]) == Some(self.frame_imu_pos),
            e[72] == self.gyro_deadband,
            e[73] == self.gyro_sens,
            (e[74] != 0) == self.i2c_speed_fast,
            GyroCalibrationMode::spec_from_u8(e[75]) == Some(self.skip_gyro_calib),
    {
        self.lemma_chunk_sizes();
        self.rc_trim.lemma_round_trip();
        self.rc_trim.lemma_enc_size();
        self.rc_map.lemma_round_trip();
        self.rc_mix.lemma_round_trip();
        wire::lemma_i8_round_trip(self.axis_top.spec_to_i8());
        wire::lemma_i8_round_trip(self.axis_right.spec_to_i8());
        wire::lemma_i8_round_trip(self.frame_axis_top.spec_to_i8());
        wire::lemma_i8_round_trip(self.frame_axis_right.spec_to_i8());
        assert(e.subrange(50, 53) =~= self.rc_trim.enc());
        assert(e.subrange(56, 62) =~= self.rc_map.enc());
        assert(e.subrange(62, 64) =~= self.rc_mix.enc());
    }

    /// Decoding facts for the motor chunk of a full encoding.
    #[verifier::rlimit(100)]
    #[verifier::spinoff_prover]
    proof fn lemma_rt_motor(&self, e: Seq<u8>)
        requires
            self.wf(),
            e == self.enc(),
        ensures
            e.subrange(76, 85) == self.rc_cmd@,
            RollPitchYaw::<u8>::dec_ok(e.subrange(85, 88)),
            RollPitchYaw::<u8>::dec_val(e.subrange(85, 88)) == self.motor_output,
            wire::i16_of_u16(wire::u16_le_of(e[88], e[89])) == self.bat_threshold_alarm,
            wire::i16_of_u16(wire::u16_le_of(e[90], e[91])) == self.bat_threshold_motors,
            wire::i16_of_u16(wire::u16_le_of(e[92], e[93])) == self.bat_comp_ref,
            BeeperMode::spec_from_u8(e[94]) == Some(self.beeper_mode),
            e[95] == self.follow_roll_mix_start,
            e[96] == self.follow_roll_mix_range,
            RollPitchYaw::<u8>::dec_ok(e.subrange(97, 100)),
            RollPitchYaw::<u8>::dec_val(e.subrange(97, 100)) == self.booster_power,
            RollPitchYaw::<u8>::dec_ok(e.subrange(100, 103)),
            RollPitchYaw::<u8>::dec_val(e.subrange(100, 103)) == self.follow_speed,
    {
        self.lemma_chunk_sizes();
        self.motor_output.lemma_round_trip();
        self.motor_output.lemma_enc_size();
        self.booster_power.lemma_round_trip();
        self.booster_power.lemma_enc_size();
        self.follow_speed.lemma_round_trip();
        self.follow_speed.lemma_enc_size();
        wire::lemma_u16_round_trip(wire::u16_of_i16(self.bat_threshold_alarm));
        wire::lemma_i16_round_trip(self.bat_threshold_alarm);
        wire::lemma_u16_round_trip(wire::u16_of_i16(self.bat_threshold_motors));
        wire::lemma_i16_round_trip(self.bat_threshold_motors);
        wire::lemma_u16_round_trip(wire::u16_of_i16(self.bat_comp_ref));
        wire::lemma_i16_round_trip(self.bat_comp_ref);
        assert(e.subrange(76, 85) =~= self.rc_cmd@);
        assert(e.subrange(85, 88) =~= self.motor_output.enc());
        assert(e.subrange(97, 100) =~= self.booster_power.enc());
        assert(e.subrange(100, 103) =~= self.follow_speed.enc());
    }

    /// Decoding facts for the tail chunk of a full encoding.
    #[verifier::rlimit(100)]
    #[verifier::spinoff_prover]
    proof fn lemma_rt_tail(&self, e: Seq<u8>)
        requires
            self.wf(),
            e == self.enc(),
        ensures
            (e[103] != 0) == self.frame_angle_from_motors,
            e.subrange(104, 108) == self.servo_out@,
            e[108] == self.servo_rate,
            e[109] == self.adaptive_pid_enabled,
            e[110] == self.adaptive_pid_threshold,
            e[111] == self.adaptive_pid_rate,
            e[112] == self.adaptive_pid_recovery_factor,
            wire::u16_le_of(e[113], e[114]) == self.general_flags,
            wire::u16_le_of(e[115], e[116]) == self.profile_flags,
            SpektrumMode::spec_from_u8(e[117]) == Some(self.spektrum_mode),
            AxisOrder::spec_from_u8(e[118]) == Some(self.order_of_axes),
            EulerOrder::spec_from_u8(e[119]) == Some(self.euler_order),
            ImuType::spec_from_u8(e[120]) == Some(self.cur_imu),
            e[121] == self.cur_profile_id,
    {
        self.lemma_chunk_sizes();
        wire::lemma_u16_round_trip(self.general_flags);
        wire::lemma_u16_round_trip(self.profile_flags);
        self.spektrum_mode.lemma_round_trip();
        assert(e.subrange(104, 108) =~= self.servo_out@);
    }

    /// Appends the head chunk's bytes.
    #[verifier::rlimit(100)]
    #[verifier::spinoff_prover]
    fn write_head(&self, out: &mut Vec<u8>)
        requires
            self.wf(),
        ensures
            final(out)@ == old(out)@ + self.enc_head(),
    {
        out.push(self.profile_id);
        let mut part: Vec<u8> = self.pid.to_bytes();
        out.append(&mut part);
        out.push(self.acc_limiter_all);
        wire::push_i8(out, self.ext_fc_gain.0);
        wire::push_i8(out, self.ext_fc_gain.1);
        let mut part: Vec<u8> = self.rc.to_bytes();
        out.append(&mut part);
        out.push(self.gyro_trust);
        wire::push_bool(out, self.use_model);
        out.push(self.pwm_freq.to_u8());
        out.push(self.serial_speed.to_u8());
        assert(out@ =~= old(out)@ + self.enc_head());
    }

    /// Appends the RC trim, mapping and mixing bytes.
    #[verifier::rlimit(100)]
    #[verifier::spinoff_prover]
    fn write_rc_a(&self, out: &mut Vec<u8>)
        requires
            self.wf(),
        ensures
            final(out)@ == old(out)@ + self.enc_rc_a(),
    {
        let mut part: Vec<u8> = self.rc_trim.to_bytes();
        out.append(&mut part);
        out.push(self.rc_deadband);
        out.push(self.rc_expo_rate);
        out.push(self.rc_virt_mode.to_u8());
        let mut part: Vec<u8> = self.rc_map.to_bytes();
        out.append(&mut part);
        let mut part: Vec<u8> = self.rc_mix.to_bytes();
        out.append(&mut part);
        assert(out@ =~= old(out)@ + self.enc_rc_a());
    }

    /// Appends the follow and orientation bytes.
    #[verifier::rlimit(100)]
    #[verifier::spinoff_prover]
    fn write_rc_b(&self, out: &mut Vec<u8>)
        requires
            self.wf(),
        ensures
            final(out)@ == old(out)@ + self.enc_rc_b(),
    {
        out.push(self.follow_mode.to_u8());
        out.push(self.follow_deadband);
        out.push(self.follow_expo_rate);
        wire::push_i8(out, self.axis_top.to_i8());
        wire::push_i8(out, self.axis_right.to_i8());
        wire::push_i8(out, self.frame_axis_top.to_i8());
        wire::push_i8(out, self.frame_axis_right.to_i8());
        out.push(self.frame_imu_pos.to_u8());
        out.push(self.gyro_deadband);
        out.push(self.gyro_sens);
        wire::push_bool(out, self.i2c_speed_fast);
        out.push(self.skip_gyro_calib.to_u8());
        assert(out@ =~= old(out)@ + self.enc_rc_b());
    }

    /// Appends the motor chunk's bytes.
    #[verifier::rlimit(100)]
    #[verifier::spinoff_prover]
    fn write_motor(&self, out: &mut Vec<u8>)
        requires
            self.wf(),
        ensures
            final(out)@ == old(out)@ + self.enc_motor(),
    {
        wire::push_array::<9>(out, &self.rc_cmd);
        let mut part: Vec<u8> = self.motor_output.to_bytes();
        out.append(&mut part);
        wire::push_i16_le(out, self.bat_threshold_alarm);
        wire::push_i16_le(out, self.bat_threshold_motors);
        wire::push_i16_le(out, self.bat_comp_ref);
        out.push(self.beeper_mode.to_u8());
        out.push(self.follow_roll_mix_start);
        out.push(self.follow_roll_mix_range);
        let mut part: Vec<u8> = self.booster_power.to_bytes();
        out.append(&mut part);
        let mut part: Vec<u8> = self.follow_speed.to_bytes();
        out.append(&mut part);
        assert(out@ =~= old(out)@ + self.enc_motor());
    }

    /// Appends the tail chunk's bytes.
    #[verifier::rlimit(100)]
    #[verifier::spinoff_prover]
    fn write_tail(&self, out: &mut Vec<u8>)
        requires
            self.wf(),
        ensures
            final(out)@ == old(out)@ + self.enc_tail(),
    {
        wire::push_bool(out, self.frame_angle_from_motors);
        wire::push_array::<4>(out, &self.servo_out);
        out.push(self.servo_rate);
        out.push(self.adaptive_pid_enabled);
        out.push(self.adaptive_pid_threshold);
        out.push(self.adaptive_pid_rate);
        out.push(self.adaptive_pid_recovery_factor);
        wire::push_u16_le(out, self.general_flags);
        wire::push_u16_le(out, self.profile_flags);
        out.push(self.spektrum_mode.to_u8());
        out.push(self.order_of_axes.to_u8());
        out.push(self.euler_order.to_u8());
        out.push(self.cur_imu.to_u8());
        out.push(self.cur_profile_id);
        assert(out@ =~= old(out)@ + self.enc_tail());
    }
}

impl Payload for Params3Data {
    open spec fn wf(&self) -> bool {
        &&& self.rc.wf()
        &&& self.rc_map.wf()
        &&& self.rc_mix.wf()
        &&& self.adaptive_pid_enabled & !ADAPTIVE_PID_MASK == 0
        &&& self.general_flags & !GENERAL_FLAGS_MASK == 0
        &&& self.profile_flags & !PROFILE_FLAGS_MASK == 0
    }

    open spec fn spec_size() -> nat {
        122
    }

    open spec fn enc(&self) -> Seq<u8> {
        self.enc_head() + self.enc_rc() + self.enc_motor() + self.enc_tail()
    }

    open spec fn dec_ok(bs: Seq<u8>) -> bool {
        &&& bs.len() == 122
        &&& RollPitchYaw::<AxisRcParams>::dec_ok(bs.subrange(22, 46))
        &&& PwmFrequency::spec_from_u8(bs[48]) is Some
        &&& SerialSpeed::spec_from_u8(bs[49]) is Some
        &&& RcVirtMode::spec_from_u8(bs[55]) is Some
        &&& RcMaps::dec_ok(bs.subrange(56, 62))
        &&& RcMixes::dec_ok(bs.subrange(62, 64))
        &&& FollowMode::spec_from_u8(bs[64]) is Some
        &&& Orientation::spec_from_i8(wire::i8_of_u8(bs[67])) is Some
        &&& Orientation::spec_from_i8(wire::i8_of_u8(bs[68])) is Some
        &&& Orientation::spec_from_i8(wire::i8_of_u8(bs[69])) is Some
        &&& Orientation::spec_from_i8(wire::i8_of_u8(bs[70])) is Some
        &&& FrameImuPos::spec_from_u8(bs[71]) is Some
        &&& GyroCalibrationMode::spec_from_u8(bs[75]) is Some
        &&& BeeperMode::spec_from_u8(bs[94]) is Some
        &&& bs[109] & !ADAPTIVE_PID_MASK == 0
        &&& wire::u16_le_of(bs[113], bs[114]) & !GENERAL_FLAGS_MASK == 0
        &&& wire::u16_le_of(bs[115], bs[116]) & !PROFILE_FLAGS_MASK == 0
        &&& SpektrumMode::spec_from_u8(bs[117]) is Some
        &&& AxisOrder::spec_from_u8(bs[118]) is Some
        &&& EulerOrder::spec_from_u8(bs[119]) is Some
        &&& ImuType::spec_from_u8(bs[120]) is Some
    }

    open spec fn dec_val(bs: Seq<u8>) -> Self {
        Params3Data {
            profile_id: bs[0],
            pid: RollPitchYaw::<AxisPidParams>::dec_val(bs.subrange(1, 19)),
            acc_limiter_all: bs[19],
            ext_fc_gain: (wire::i8_of_u8(bs[20]), wire::i8_of_u8(bs[21])),
            rc: RollPitchYaw::<AxisRcParams>::dec_val(bs.subrange(22, 46)),
            gyro_trust: bs[46],
            use_model: bs[47] != 0,
            pwm_freq: PwmFrequency::spec_from_u8(bs[48]).unwrap(),
            serial_speed: SerialSpeed::spec_from_u8(bs[49]).unwrap(),
            rc_trim: RollPitchYaw::<i8>::dec_val(bs.subrange(50, 53)),
            rc_deadband: bs[53],
            rc_expo_rate: bs[54],
            rc_virt_mode: RcVirtMode::spec_from_u8(bs[55]).unwrap(),
            rc_map: RcMaps::dec_val(bs.subrange(56, 62)),
            rc_mix: RcMixes::dec_val(bs.subrange(62, 64)),
            follow_mode: FollowMode::spec_from_u8(bs[64]).unwrap(),
            follow_deadband: bs[65],
            follow_expo_rate: bs[66],
            axis_top: Orientation::spec_from_i8(wire::i8_of_u8(bs[67])).unwrap(),
            axis_right: Orientation::spec_from_i8(wire::i8_of_u8(bs[68])).unwrap(),
            frame_axis_top: Orientation::spec_from_i8(wire::i8_of_u8(bs[69])).unwrap(),
            frame_axis_right: Orientation::spec_from_i8(wire::i8_of_u8(bs[70])).unwrap(),
            frame_imu_pos: FrameImuPos::spec_from_u8(bs[71]).unwrap(),
            gyro_deadband: bs[72],
            gyro_sens: bs[73],
            i2c_speed_fast: bs[74] != 0,
            skip_gyro_calib: GyroCalibrationMode::spec_from_u8(bs[75]).unwrap(),
            rc_cmd: (choose|a: [u8; 9]| a@ == bs.subrange(76, 85)),
            motor_output: RollPitchYaw::<u8>::dec_val(bs.subrange(85, 88)),
            bat_threshold_alarm: wire::i16_of_u16(wire::u16_le_of(bs[88], bs[89])),
            bat_threshold_motors: wire::i16_of_u16(wire::u16_le_of(bs[90], bs[91])),
            bat_comp_ref: wire::i16_of_u16(wire::u16_le_of(bs[92], bs[93])),
            beeper_mode: BeeperMode::spec_from_u8(bs[94]).unwrap(),
            follow_roll_mix_start: bs[95],
            follow_roll_mix_range: bs[96],
            booster_power: RollPitchYaw::<u8>::dec_val(bs.subrange(97, 100)),
            follow_speed: RollPitchYaw::<u8>::dec_val(bs.subrange(100, 103)),
            frame_angle_from_motors: bs[103] != 0,
            servo_out: (choose|a: [u8; 4]| a@ == bs.subrange(104, 108)),
            servo_rate: bs[108],
            adaptive_pid_enabled: bs[109],
            adaptive_pid_threshold: bs[110],
            adaptive_pid_rate: bs[111],
            adaptive_pid_recovery_factor: bs[112],
            general_flags: wire::u16_le_of(bs[113], bs[114]),
            profile_flags: wire::u16_le_of(bs[115], bs[116]),
            spektrum_mode: SpektrumMode::spec_from_u8(bs[117]).unwrap(),
            order_of_axes: AxisOrder::spec_from_u8(bs[118]).unwrap(),
            euler_order: EulerOrder::spec_from_u8(bs[119]).unwrap(),
            cur_imu: ImuType::spec_from_u8(bs[120]).unwrap(),
            cur_profile_id: bs[121],
        }
    }

    open spec fn dec_err(bs: Seq<u8>, e: PayloadParseError) -> bool {
        if bs.len() != 122 {
            e == PayloadParseError::InsufficientData
        } else if !RollPitchYaw::<AxisRcParams>::dec_ok(bs.subrange(22, 46)) {
            RollPitchYaw::<AxisRcParams>::dec_err(bs.subrange(22, 46), e)
        } else if PwmFrequency::spec_from_u8(bs[48]) is None {
            e matches PayloadParseError::InvalidEnum { name } && name@ == "PWM_FREQ"@
        } else if SerialSpeed::spec_from_u8(bs[49]) is None {
            e matches PayloadParseError::InvalidEnum { name } && name@ == "SERIAL_SPEED"@
        } else if RcVirtMode::spec_from_u8(bs[55]) is None {
            e matches PayloadParseError::InvalidEnum { name } && name@ == "RC_VIRT_MODE"@
        } else if !RcMaps::dec_ok(bs.subrange(56, 62)) {
            RcMaps::dec_err(bs.subrange(56, 62), e)
        } else if !RcMixes::dec_ok(bs.subrange(62, 64)) {
            RcMixes::dec_err(bs.subrange(62, 64), e)
        } else if FollowMode::spec_from_u8(bs[64]) is None {
            e matches PayloadParseError::InvalidEnum { name } && name@ == "FOLLOW_MODE"@
        } else if Orientation::spec_from_i8(wire::i8_of_u8(bs[67])) is None {
            e matches PayloadParseError::InvalidEnum { name } && name@ == "AXIS_TOP"@
        } else if Orientation::spec_from_i8(wire::i8_of_u8(bs[68])) is None {
            e matches PayloadParseError::InvalidEnum { name } && name@ == "AXIS_RIGHT"@
        } else if Orientation::spec_from_i8(wire::i8_of_u8(bs[69])) is None {
            e matches PayloadParseError::InvalidEnum { name } && name@ == "FRAME_AXIS_TOP"@
        } else if Orientation::spec_from_i8(wire::i8_of_u8(bs[70])) is None {
            e matches PayloadParseError::InvalidEnum { name } && name@ == "FRAME_AXIS_RIGHT"@
        } else if FrameImuPos::spec_from_u8(bs[71]) is None {
            e matches PayloadParseError::InvalidEnum { name } && name@ == "FRAME_IMU_POS"@
        } else if GyroCalibrationMode::spec_from_u8(bs[75]) is None {
            e matches PayloadParseError::InvalidEnum { name } && name@ == "SKIP_GYRO_CALIB"@
        } else if BeeperMode::spec_from_u8(bs[94]) is None {
            e matches PayloadParseError::InvalidEnum { name } && name@ == "BEEPER_MODE"@
        } else if bs[109] & !ADAPTIVE_PID_MASK != 0 {
            e matches PayloadParseError::InvalidFlags { name } && name@ == "ADAPTIVE_PID_ENABLED"@
        } else if wire::u16_le_of(bs[113], bs[114]) & !GENERAL_FLAGS_MASK != 0 {
            e matches PayloadParseError::InvalidFlags { name } && name@ == "GENERAL_FLAGS"@
        } else if wire::u16_le_of(bs[115], bs[116]) & !PROFILE_FLAGS_MASK != 0 {
            e matches PayloadParseError::InvalidFlags { name } && name@ == "PROFILE_FLAGS"@
        } else if SpektrumMode::spec_from_u8(bs[117]) is None {
            e matches PayloadParseError::InvalidEnum { name } && name@ == "SPEKTRUM_MODE"@
        } else if AxisOrder::spec_from_u8(bs[118]) is None {
            e matches PayloadParseError::InvalidEnum { name } && name@ == "ORDER_OF_AXES"@
        } else if EulerOrder::spec_from_u8(bs[119]) is None {
            e matches PayloadParseError::InvalidEnum { name } && name@ == "EULER_ORDER"@
        } else if ImuType::spec_from_u8(bs[120]) is None {
            e matches PayloadParseError::InvalidEnum { name } && name@ == "CUR_IMU"@
        } else {
            false
        }
    }

    proof fn lemma_dec_ok_len(bs: Seq<u8>) {
    }

    proof fn lemma_enc_size(&self) {
        self.lemma_chunk_sizes();
    }

    #[verifier::rlimit(100)]
    #[verifier::spinoff_prover]
    proof fn lemma_round_trip(&self) {
        let e = self.enc();
        self.lemma_rt_head(e);
        self.lemma_rt_rc(e);
        self.lemma_rt_motor(e);
        self.lemma_rt_tail(e);
        let c1 = choose|a: [u8; 9]| a@ == e.subrange(76, 85);
        assert(c1@ =~= self.rc_cmd@);
        assert(c1 == self.rc_cmd);
        let c2 = choose|a: [u8; 4]| a@ == e.subrange(104, 108);
        assert(c2@ =~= self.servo_out@);
        assert(c2 == self.servo_out);
    }

    fn from_bytes(b: &[u8]) -> (r: Result<Self, PayloadParseError>) {
        if b.len() != 122 {
            return Err(PayloadParseError::InsufficientData);
        }
        let profile_id: u8 = b[0];
        let pid: RollPitchYaw<AxisPidParams> = match RollPitchYaw::<AxisPidParams>::from_bytes(
            &b[1..19],
        ) {
            Ok(v) => v,
            Err(e) => {
                return Err(e);
            },
        };
        let acc_limiter_all: u8 = b[19];
        let ext_fc_gain: (i8, i8) = (wire::read_i8(b, 20), wire::read_i8(b, 21));
        let rc: RollPitchYaw<AxisRcParams> = match RollPitchYaw::<AxisRcParams>::from_bytes(
            &b[22..46],
        ) {
            Ok(v) => v,
            Err(e) => {
                return Err(e);
            },
        };
        let gyro_trust: u8 = b[46];
        let use_model: bool = b[47] != 0;
        let pwm_freq: PwmFrequency = match PwmFrequency::from_u8(b[48]) {
            Some(v) => v,
            None => {
                return Err(invalid_enum("PWM_FREQ"));
            },
        };
        let serial_speed: SerialSpeed = match SerialSpeed::from_u8(b[49]) {
            Some(v) => v,
            None => {
                return Err(invalid_enum("SERIAL_SPEED"));
            },
        };
        let rc_trim: RollPitchYaw<i8> = match RollPitchYaw::<i8>::from_bytes(&b[50..53]) {
            Ok(v) => v,
            Err(e) => {
                return Err(e);
            },
        };
        let rc_deadband: u8 = b[53];
        let rc_expo_rate: u8 = b[54];
        let rc_virt_mode: RcVirtMode = match RcVirtMode::from_u8(b[55]) {
            Some(v) => v,
            None => {
                return Err(invalid_enum("RC_VIRT_MODE"));
            },
        };
        let rc_map: RcMaps = match RcMaps::from_bytes(&b[56..62]) {
            Ok(v) => v,
            Err(e) => {
                return Err(e);
            },
        };
        let rc_mix: RcMixes = match RcMixes::from_bytes(&b[62..64]) {
            Ok(v) => v,
            Err(e) => {
                return Err(e);
            },
        };
        let follow_mode: FollowMode = match FollowMode::from_u8(b[64]) {
            Some(v) => v,
            None => {
                return Err(invalid_enum("FOLLOW_MODE"));
            },
        };
        let follow_deadband: u8 = b[65];
        let follow_expo_rate: u8 = b[66];
        let axis_top: Orientation = match Orientation::from_i8(wire::read_i8(b, 67)) {
            Some(v) => v,
            None => {
                return Err(invalid_enum("AXIS_TOP"));
            },
        };
        let axis_right: Orientation = match Orientation::from_i8(wire::read_i8(b, 68)) {
            Some(v) => v,
            None => {
                return Err(invalid_enum("AXIS_RIGHT"));
            },
        };
        let frame_axis_top: Orientation = match Orientation::from_i8(wire::read_i8(b, 69)) {
            Some(v) => v,
            None => {
                return Err(invalid_enum("FRAME_AXIS_TOP"));
            },
        };
        let frame_axis_right: Orientation = match Orientation::from_i8(wire::read_i8(b, 70)) {
            Some(v) => v,
            None => {
                return Err(invalid_enum("FRAME_AXIS_RIGHT"));
            },
        };
        let frame_imu_pos: FrameImuPos = match FrameImuPos::from_u8(b[71]) {
            Some(v) => v,
            None => {
                return Err(invalid_enum("FRAME_IMU_POS"));
            },
        };
        let gyro_deadband: u8 = b[72];
        let gyro_sens: u8 = b[73];
        let i2c_speed_fast: bool = b[74] != 0;
        let skip_gyro_calib: GyroCalibrationMode = match GyroCalibrationMode::from_u8(b[75]) {
            Some(v) => v,
            None => {
                return Err(invalid_enum("SKIP_GYRO_CALIB"));
            },
        };
        let rc_cmd: [u8; 9] = wire::read_array::<9>(b, 76);
        let motor_output: RollPitchYaw<u8> = match RollPitchYaw::<u8>::from_bytes(&b[85..88]) {
            Ok(v) => v,
            Err(e) => {
                return Err(e);
            },
        };
        let bat_threshold_alarm: i16 = wire::read_i16_le(b, 88);
        let bat_threshold_motors: i16 = wire::read_i16_le(b, 90);
        let bat_comp_ref: i16 = wire::read_i16_le(b, 92);
        let beeper_mode: BeeperMode = match BeeperMode::from_u8(b[94]) {
            Some(v) => v,
            None => {
                return Err(invalid_enum("BEEPER_MODE"));
            },
        };
        let follow_roll_mix_start: u8 = b[95];
        let follow_roll_mix_range: u8 = b[96];
        let booster_power: RollPitchYaw<u8> = match RollPitchYaw::<u8>::from_bytes(&b[97..100]) {
            Ok(v) => v,
            Err(e) => {
                return Err(e);
            },
        };
        let follow_speed: RollPitchYaw<u8> = match RollPitchYaw::<u8>::from_bytes(&b[100..103]) {
            Ok(v) => v,
            Err(e) => {
                return Err(e);
            },
        };
        let frame_angle_from_motors: bool = b[103] != 0;
        let servo_out: [u8; 4] = wire::read_array::<4>(b, 104);
        let servo_rate: u8 = b[108];
        let adaptive_pid_enabled: u8 = match check_flags_u8(
            b[109],
            ADAPTIVE_PID_MASK,
            "ADAPTIVE_PID_ENABLED",
        ) {
            Ok(v) => v,
            Err(e) => {
                return Err(e);
            },
        };
        let adaptive_pid_threshold: u8 = b[110];
        let adaptive_pid_rate: u8 = b[111];
        let adaptive_pid_recovery_factor: u8 = b[112];
        let general_flags: u16 = match check_flags_u16(
            wire::read_u16_le(b, 113),
            GENERAL_FLAGS_MASK,
            "GENERAL_FLAGS",
        ) {
            Ok(v) => v,
            Err(e) => {
                return Err(e);
            },
        };
        let profile_flags: u16 = match check_flags_u16(
            wire::read_u16_le(b, 115),
            PROFILE_FLAGS_MASK,
            "PROFILE_FLAGS",
        ) {
            Ok(v) => v,
            Err(e) => {
                return Err(e);
            },
        };
        let spektrum_mode: SpektrumMode = match SpektrumMode::from_u8(b[117]) {
            Some(v) => v,
            None => {
                return Err(invalid_enum("SPEKTRUM_MODE"));
            },
        };
        let order_of_axes: AxisOrder = match AxisOrder::from_u8(b[118]) {
            Some(v) => v,
            None => {
                return Err(invalid_enum("ORDER_OF_AXES"));
            },
        };
        let euler_order: EulerOrder = match EulerOrder::from_u8(b[119]) {
            Some(v) => v,
            None => {
                return Err(invalid_enum("EULER_ORDER"));
            },
        };
        let cur_imu: ImuType = match ImuType::from_u8(b[120]) {
            Some(v) => v,
            None => {
                return Err(invalid_enum("CUR_IMU"));
            },
        };
        let cur_profile_id: u8 = b[121];
        proof {
            let c1 = choose|a: [u8; 9]| a@ == b@.subrange(76, 85);
            assert(c1@ =~= rc_cmd@);
            assert(c1 == rc_cmd);
            let c2 = choose|a: [u8; 4]| a@ == b@.subrange(104, 108);
            assert(c2@ =~= servo_out@);
            assert(c2 == servo_out);
        }
        Ok(
            Params3Data {
                profile_id,
                pid,
                acc_limiter_all,
                ext_fc_gain,
                rc,
                gyro_trust,
                use_model,
                pwm_freq,
                serial_speed,
                rc_trim,
                rc_deadband,
                rc_expo_rate,
                rc_virt_mode,
                rc_map,
                rc_mix,
                follow_mode,
                follow_deadband,
                follow_expo_rate,
                axis_top,
                axis_right,
                frame_axis_top,
                frame_axis_right,
                frame_imu_pos,
                gyro_deadband,
                gyro_sens,
                i2c_speed_fast,
                skip_gyro_calib,
                rc_cmd,
                motor_output,
                bat_threshold_alarm,
                bat_threshold_motors,
                bat_comp_ref,
                beeper_mode,
                follow_roll_mix_start,
                follow_roll_mix_range,
                booster_power,
                follow_speed,
                frame_angle_from_motors,
                servo_out,
                servo_rate,
                adaptive_pid_enabled,
                adaptive_pid_threshold,
                adaptive_pid_rate,
                adaptive_pid_recovery_factor,
                general_flags,
                profile_flags,
                spektrum_mode,
                order_of_axes,
                euler_order,
                cur_imu,
                cur_profile_id,
            },
        )
    }

    #[verifier::rlimit(100)]
    #[verifier::spinoff_prover]
    fn to_bytes(&self) -> (r: Vec<u8>) {
        let mut out: Vec<u8> = Vec::new();
        self.write_head(&mut out);
        self.write_rc_a(&mut out);
        self.write_rc_b(&mut out);
        self.write_motor(&mut out);
        self.write_tail(&mut out);
        assert(out@ =~= self.enc());
        out
    }
}

} // verus!
