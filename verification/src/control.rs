//! The control command payload: a control mode per axis (or one legacy mode
//! for all axes) plus speed and angle for each axis.

use crate::payload::{invalid_enum, Payload, PayloadParseError};
use crate::wire;
use vstd::prelude::*;

verus! {

/// All bits that [`AxisControlFlags`] defines.
pub const AXIS_CONTROL_FLAGS_MASK: u8 = 0xC0;

/// How one axis is controlled.
#[derive(Copy, Clone, Debug, PartialEq)]
pub enum AxisControlMode {
    /// Finish serial control and restore normal RC control when set for all
    /// axes; leave a single axis's mode unchanged otherwise.
    NoControl,
    /// Travel with the given speed until the next control command; the angle
    /// is ignored.
    Speed,
    /// Travel to the given Euler angle with a fixed speed.
    Angle,
    /// Travel with the given speed while an outer loop corrects toward the
    /// given angle.
    SpeedAngle,
    /// The angle parameter carries an RC signal in the range -500..500.
    Rc,
    /// Travel to the given angle relative to the frame's neutral point.
    RelFrame,
    /// Like RC but with -16384..16384 resolution.
    HighRes,
}

impl AxisControlMode {
    /// The wire value of this mode.
    pub open spec fn spec_to_u8(self) -> u8 {
        match self {
            AxisControlMode::NoControl => 0,
            AxisControlMode::Speed => 1,
            AxisControlMode::Angle => 2,
            AxisControlMode::SpeedAngle => 3,
            AxisControlMode::Rc => 4,
            AxisControlMode::RelFrame => 5,
            AxisControlMode::HighRes => 6,
        }
    }

    /// The mode a wire value names, if any.
    pub open spec fn spec_from_u8(v: u8) -> Option<AxisControlMode> {
        if v == 0 {
            Some(AxisControlMode::NoControl)
        } else if v == 1 {
            Some(AxisControlMode::Speed)
        } else if v == 2 {
            Some(AxisControlMode::Angle)
        } else if v == 3 {
            Some(AxisControlMode::SpeedAngle)
        } else if v == 4 {
            Some(AxisControlMode::Rc)
        } else if v == 5 {
            Some(AxisControlMode::RelFrame)
        } else if v == 6 {
            Some(AxisControlMode::HighRes)
        } else {
            None
        }
    }

    /// The wire value of this mode.
    pub fn to_u8(self) -> (r: u8)
        ensures
            r == self.spec_to_u8(),
    {
        match self {
            AxisControlMode::NoControl => 0,
            AxisControlMode::Speed => 1,
            AxisControlMode::Angle => 2,
            AxisControlMode::SpeedAngle => 3,
            AxisControlMode::Rc => 4,
            AxisControlMode::RelFrame => 5,
            AxisControlMode::HighRes => 6,
        }
    }

    /// Looks a wire value up in the table.
    pub fn from_u8(v: u8) -> (r: Option<AxisControlMode>)
        ensures
            r == Self::spec_from_u8(v),
    {
        if v == 0 {
            Some(AxisControlMode::NoControl)
        } else if v == 1 {
            Some(AxisControlMode::Speed)
        } else if v == 2 {
            Some(AxisControlMode::Angle)
        } else if v == 3 {
            Some(AxisControlMode::SpeedAngle)
        } else if v == 4 {
            Some(AxisControlMode::Rc)
        } else if v == 5 {
            Some(AxisControlMode::RelFrame)
        } else if v == 6 {
            Some(AxisControlMode::HighRes)
        } else {
            None
        }
    }
}

/// Modifier flags in the top two bits of the per-axis control byte.
#[derive(Copy, Clone, Debug, PartialEq)]
pub enum AxisControlFlags {
    /// Process the motion with the speed and acceleration configured for
    /// automated tasks and send a confirmation when the target is reached.
    AutoTask,
    /// Speed units change to 0.001 degree/second for extremely slow motion.
    HighResSpeed,
}

impl AxisControlFlags {
    /// The wire bit of this flag.
    pub open spec fn spec_bit(self) -> u8 {
        match self {
            AxisControlFlags::AutoTask => 0x40,
            AxisControlFlags::HighResSpeed => 0x80,
        }
    }

    /// The wire bit of this flag.
    pub fn bit(self) -> (b: u8)
        ensures
            b == self.spec_bit(),
    {
        match self {
            AxisControlFlags::AutoTask => 0x40,
            AxisControlFlags::HighResSpeed => 0x80,
        }
    }
}

/// Packing facts for the `mode | flags` control byte layout.
proof fn lemma_axis_control_bits(m: u8, f: u8)
    requires
        m <= 6,
        f & 0x3F == 0,
    ensures
        (m | f) & 0x3F == m,
        (m | f) & 0xC0 == f,
{
    assert(m <= 6 && f & 0x3F == 0 ==> ((m | f) & 0x3F == m && (m | f) & 0xC0 == f))
        by (bit_vector);
}

/// One axis's control byte: the mode in the low six bits and a bit set over
/// [`AxisControlFlags`] in the top two. Unknown flag bits are dropped on
/// decode (the truncating flags mode).
#[derive(Copy, Clone, Debug, PartialEq)]
pub struct AxisControl(pub AxisControlMode, pub u8);

impl AxisControl {
    /// The flag bits stay inside the two flag positions.
    pub open spec fn wf(self) -> bool {
        self.1 & !AXIS_CONTROL_FLAGS_MASK == 0
    }

    /// The packed wire byte of this control.
    pub open spec fn spec_to_u8(self) -> u8 {
        self.0.spec_to_u8() | self.1
    }

    /// The control a packed wire byte names, if its mode is in the table.
    /// Flag bits outside the declared set are silently dropped.
    pub open spec fn spec_from_u8(v: u8) -> Option<AxisControl> {
        match AxisControlMode::spec_from_u8(v & !AXIS_CONTROL_FLAGS_MASK) {
            Some(mode) => Some(AxisControl(mode, v & AXIS_CONTROL_FLAGS_MASK)),
            None => None,
        }
    }

    /// The packed wire byte of this control.
    pub fn to_u8(self) -> (r: u8)
        ensures
            r == self.spec_to_u8(),
    {
        self.0.to_u8() | self.1
    }

    /// Unpacks a wire byte, keeping only the declared flag bits.
    pub fn from_u8(v: u8) -> (r: Option<AxisControl>)
        ensures
            r == Self::spec_from_u8(v),
            (r matches Some(c) ==> c.wf()),
    {
        let flags: u8 = crate::payload::truncate_flags_u8(v, AXIS_CONTROL_FLAGS_MASK);
        match AxisControlMode::from_u8(v & !AXIS_CONTROL_FLAGS_MASK) {
            Some(mode) => Some(AxisControl(mode, flags)),
            None => None,
        }
    }

    /// Round trip: every well-formed control byte survives packing and
    /// unpacking.
    pub proof fn lemma_round_trip(self)
        requires
            self.wf(),
        ensures
            Self::spec_from_u8(self.spec_to_u8()) == Some(self),
    {
        assert(!AXIS_CONTROL_FLAGS_MASK == 0x3Fu8) by (bit_vector);
        lemma_axis_control_bits(self.0.spec_to_u8(), self.1);
    }
}

/// Speed and angle for one axis.
///
/// Speed units are 0.1220740379 degree/second (or 0.001 degree/second with
/// the high-resolution-speed flag); angle units are 0.02197265625 degree.
#[derive(Copy, Clone, Debug, PartialEq)]
pub struct ControlAxisParams {
    pub speed: i16,
    pub angle: i16,
}

impl Payload for ControlAxisParams {
    open spec fn wf(&self) -> bool {
        true
    }

    open spec fn spec_size() -> nat {
        4
    }

    open spec fn enc(&self) -> Seq<u8> {
        wire::enc_i16(self.speed) + wire::enc_i16(self.angle)
    }

    open spec fn dec_ok(bs: Seq<u8>) -> bool {
        bs.len() == 4
    }

    open spec fn dec_val(bs: Seq<u8>) -> Self {
        ControlAxisParams {
            speed: wire::i16_of_u16(wire::u16_le_of(bs[0], bs[1])),
            angle: wire::i16_of_u16(wire::u16_le_of(bs[2], bs[3])),
        }
    }

    open spec fn dec_err(bs: Seq<u8>, e: PayloadParseError) -> bool {
        bs.len() != 4 && e == PayloadParseError::InsufficientData
    }

    proof fn lemma_dec_ok_len(bs: Seq<u8>) {
    }

    proof fn lemma_enc_size(&self) {
    }

    proof fn lemma_round_trip(&self) {
        wire::lemma_u16_round_trip(wire::u16_of_i16(self.speed));
        wire::lemma_i16_round_trip(self.speed);
        wire::lemma_u16_round_trip(wire::u16_of_i16(self.angle));
        wire::lemma_i16_round_trip(self.angle);
    }

    fn from_bytes(b: &[u8]) -> (r: Result<Self, PayloadParseError>) {
        if b.len() != 4 {
            return Err(PayloadParseError::InsufficientData);
        }
        Ok(ControlAxisParams { speed: wire::read_i16_le(b, 0), angle: wire::read_i16_le(b, 2) })
    }

    fn to_bytes(&self) -> (r: Vec<u8>) {
        let mut out: Vec<u8> = Vec::new();
        wire::push_i16_le(&mut out, self.speed);
        wire::push_i16_le(&mut out, self.angle);
        assert(out@ =~= self.enc());
        out
    }
}

/// Whether one control byte governs all axes or each axis has its own.
#[derive(Copy, Clone, Debug, PartialEq)]
pub enum ControlMode {
    /// One mode byte, common to all axes.
    Legacy(AxisControl),
    /// One mode byte per axis, in roll, pitch, yaw order.
    Extended(AxisControl, AxisControl, AxisControl),
}

impl ControlMode {
    /// Every control byte's flag bits stay inside the declared set.
    pub open spec fn wf(self) -> bool {
        match self {
            ControlMode::Legacy(c) => c.wf(),
            ControlMode::Extended(c0, c1, c2) => c0.wf() && c1.wf() && c2.wf(),
        }
    }
}

/// The control command payload.
///
/// The payload length alone selects the mode shape: 13 bytes carry one legacy
/// mode byte, 15 bytes carry three per-axis mode bytes; the three axes'
/// speed/angle blocks follow either way.
#[derive(Copy, Clone, Debug, PartialEq)]
pub struct ControlData {
    pub mode: ControlMode,
    pub axes: (ControlAxisParams, ControlAxisParams, ControlAxisParams),
}

impl ControlData {
    /// The control bytes' flag bits stay inside the declared set.
    pub open spec fn wf(&self) -> bool {
        self.mode.wf()
    }

    /// The payload's exact wire encoding: the mode byte or bytes, then each
    /// axis's speed and angle.
    pub open spec fn enc(&self) -> Seq<u8> {
        (match self.mode {
            ControlMode::Legacy(c) => seq![c.spec_to_u8()],
            ControlMode::Extended(c0, c1, c2) => seq![
                c0.spec_to_u8(),
                c1.spec_to_u8(),
                c2.spec_to_u8(),
            ],
        }) + self.axes.0.enc() + self.axes.1.enc() + self.axes.2.enc()
    }

    /// Whether `bs` decodes: exactly 13 or 15 bytes, with every control
    /// byte's mode in the table.
    pub open spec fn dec_ok(bs: Seq<u8>) -> bool {
        if bs.len() == 13 {
            AxisControl::spec_from_u8(bs[0]) is Some
        } else if bs.len() == 15 {
            &&& AxisControl::spec_from_u8(bs[0]) is Some
            &&& AxisControl::spec_from_u8(bs[1]) is Some
            &&& AxisControl::spec_from_u8(bs[2]) is Some
        } else {
            false
        }
    }

    /// The payload a buffer decodes to, meaningful when `dec_ok(bs)` holds.
    pub open spec fn dec_val(bs: Seq<u8>) -> ControlData {
        if bs.len() == 13 {
            ControlData {
                mode: ControlMode::Legacy(AxisControl::spec_from_u8(bs[0]).unwrap()),
                axes: (
                    ControlAxisParams::dec_val(bs.subrange(1, 5)),
                    ControlAxisParams::dec_val(bs.subrange(5, 9)),
                    ControlAxisParams::dec_val(bs.subrange(9, 13)),
                ),
            }
        } else {
            ControlData {
                mode: ControlMode::Extended(
                    AxisControl::spec_from_u8(bs[0]).unwrap(),
                    AxisControl::spec_from_u8(bs[1]).unwrap(),
                    AxisControl::spec_from_u8(bs[2]).unwrap(),
                ),
                axes: (
                    ControlAxisParams::dec_val(bs.subrange(3, 7)),
                    ControlAxisParams::dec_val(bs.subrange(7, 11)),
                    ControlAxisParams::dec_val(bs.subrange(11, 15)),
                ),
            }
        }
    }

    /// A control payload encodes to 13 bytes in legacy mode and 15 in
    /// extended mode.
    pub proof fn lemma_enc_size(&self)
        requires
            self.wf(),
        ensures
            self.enc().len() == (if self.mode is Legacy {
                13int
            } else {
                15int
            }),
    {
        self.axes.0.lemma_enc_size();
        self.axes.1.lemma_enc_size();
        self.axes.2.lemma_enc_size();
    }

    /// Whether `e` is the error decoding `bs` yields: the wrong-length
    /// error, or the first control byte whose mode is not in the table.
    pub open spec fn dec_err(bs: Seq<u8>, e: PayloadParseError) -> bool {
        if bs.len() == 13 {
            if AxisControl::spec_from_u8(bs[0]) is None {
                e matches PayloadParseError::InvalidEnum { name } && name@ == "CONTROL_MODE"@
            } else {
                false
            }
        } else if bs.len() == 15 {
            if AxisControl::spec_from_u8(bs[0]) is None {
                e matches PayloadParseError::InvalidEnum { name } && name@ == "CONTROL_MODE[0]"@
            } else if AxisControl::spec_from_u8(bs[1]) is None {
                e matches PayloadParseError::InvalidEnum { name } && name@ == "CONTROL_MODE[1]"@
            } else if AxisControl::spec_from_u8(bs[2]) is None {
                e matches PayloadParseError::InvalidEnum { name } && name@ == "CONTROL_MODE[2]"@
            } else {
                false
            }
        } else {
            e == PayloadParseError::InsufficientData
        }
    }

    /// Round trip: decoding the encoding of any well-formed control payload
    /// accepts and yields it back. Truncating flags decode loses nothing
    /// here because well-formedness keeps the flag bits inside the mask.
    pub proof fn lemma_round_trip(&self)
        requires
            self.wf(),
        ensures
            ControlData::dec_ok(self.enc()),
            ControlData::dec_val(self.enc()) == *self,
    {
        self.axes.0.lemma_round_trip();
        self.axes.1.lemma_round_trip();
        self.axes.2.lemma_round_trip();
        let e = self.enc();
        match self.mode {
            ControlMode::Legacy(c) => {
                c.lemma_round_trip();
                assert(e.subrange(1, 5) =~= self.axes.0.enc());
                assert(e.subrange(5, 9) =~= self.axes.1.enc());
                assert(e.subrange(9, 13) =~= self.axes.2.enc());
            },
            ControlMode::Extended(c0, c1, c2) => {
                c0.lemma_round_trip();
                c1.lemma_round_trip();
                c2.lemma_round_trip();
                assert(e.subrange(3, 7) =~= self.axes.0.enc());
                assert(e.subrange(7, 11) =~= self.axes.1.enc());
                assert(e.subrange(11, 15) =~= self.axes.2.enc());
            },
        }
    }

    /// Parses a control payload; the buffer length selects the mode shape.
    pub fn from_bytes(b: &[u8]) -> (r: Result<ControlData, PayloadParseError>)
        ensures
            r is Ok <==> ControlData::dec_ok(b@),
            (r matches Ok(v) ==> v == ControlData::dec_val(b@) && v.wf()),
            (r matches Err(e) ==> ((e is InsufficientData) <==> (b@.len() != 13 && b@.len()
                != 15))),
            (r matches Err(e) ==> ControlData::dec_err(b@, e)),
    {
        if b.len() == 13 {
            let c: AxisControl = match AxisControl::from_u8(b[0]) {
                Some(v) => v,
                None => {
                    return Err(invalid_enum("CONTROL_MODE"));
                },
            };
            let a0: ControlAxisParams = match ControlAxisParams::from_bytes(&b[1..5]) {
                Ok(v) => v,
                Err(e) => {
                    return Err(e);
                },
            };
            let a1: ControlAxisParams = match ControlAxisParams::from_bytes(&b[5..9]) {
                Ok(v) => v,
                Err(e) => {
                    return Err(e);
                },
            };
            let a2: ControlAxisParams = match ControlAxisParams::from_bytes(&b[9..13]) {
                Ok(v) => v,
                Err(e) => {
                    return Err(e);
                },
            };
            Ok(ControlData { mode: ControlMode::Legacy(c), axes: (a0, a1, a2) })
        } else if b.len() == 15 {
            let c0: AxisControl = match AxisControl::from_u8(b[0]) {
                Some(v) => v,
                None => {
                    return Err(invalid_enum("CONTROL_MODE[0]"));
                },
            };
            let c1: AxisControl = match AxisControl::from_u8(b[1]) {
                Some(v) => v,
                None => {
                    return Err(invalid_enum("CONTROL_MODE[1]"));
                },
            };
            let c2: AxisControl = match AxisControl::from_u8(b[2]) {
                Some(v) => v,
                None => {
                    return Err(invalid_enum("CONTROL_MODE[2]"));
                },
            };
            let a0: ControlAxisParams = match ControlAxisParams::from_bytes(&b[3..7]) {
                Ok(v) => v,
                Err(e) => {
                    return Err(e);
                },
            };
            let a1: ControlAxisParams = match ControlAxisParams::from_bytes(&b[7..11]) {
                Ok(v) => v,
                Err(e) => {
                    return Err(e);
                },
            };
            let a2: ControlAxisParams = match ControlAxisParams::from_bytes(&b[11..15]) {
                Ok(v) => v,
                Err(e) => {
                    return Err(e);
                },
            };
            Ok(ControlData { mode: ControlMode::Extended(c0, c1, c2), axes: (a0, a1, a2) })
        } else {
            Err(PayloadParseError::InsufficientData)
        }
    }

    /// Serializes a control payload to its exact wire encoding.
    pub fn to_bytes(&self) -> (r: Vec<u8>)
        requires
            self.wf(),
        ensures
            r@ == self.enc(),
    {
        let mut out: Vec<u8> = Vec::new();
        match self.mode {
            ControlMode::Legacy(c) => {
                out.push(c.to_u8());
            },
            ControlMode::Extended(c0, c1, c2) => {
                out.push(c0.to_u8());
                out.push(c1.to_u8());
                out.push(c2.to_u8());
            },
        }
        let mut part: Vec<u8> = self.axes.0.to_bytes();
        out.append(&mut part);
        let mut part: Vec<u8> = self.axes.1.to_bytes();
        out.append(&mut part);
        let mut part: Vec<u8> = self.axes.2.to_bytes();
        out.append(&mut part);
        assert(out@ =~= self.enc());
        out
    }
}

} // verus!
