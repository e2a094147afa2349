//! The motors-off command's mode byte.

use vstd::prelude::*;

verus! {

/// How the motors are powered down.
#[derive(Copy, Clone, Debug, PartialEq)]
pub enum MotorsOffMode {
    /// Turn motors off leaving the driver in a high impedance.
    Normal,
    /// Turn motors off leaving the driver in a low impedance.
    Break,
    /// Reduce power and wait while all motors stop rotating, then power off
    /// completely.
    SafeStop,
}

impl MotorsOffMode {
    /// The wire value of this mode.
    pub open spec fn spec_to_u8(self) -> u8 {
        match self {
            MotorsOffMode::Normal => 0,
            MotorsOffMode::Break => 1,
            MotorsOffMode::SafeStop => 2,
        }
    }

    /// The mode a wire value names, if any.
    pub open spec fn spec_from_u8(v: u8) -> Option<MotorsOffMode> {
        if v == 0 {
            Some(MotorsOffMode::Normal)
        } else if v == 1 {
            Some(MotorsOffMode::Break)
        } else if v == 2 {
            Some(MotorsOffMode::SafeStop)
        } else {
            None
        }
    }

    /// The wire value of this mode.
    pub fn to_u8(self) -> (r: u8)
        ensures
            r == self.spec_to_u8(),
    {
        match self {
            MotorsOffMode::Normal => 0,
            MotorsOffMode::Break => 1,
            MotorsOffMode::SafeStop => 2,
        }
    }

    /// Looks a wire value up in the mode table.
    pub fn from_u8(v: u8) -> (r: Option<MotorsOffMode>)
        ensures
            r == Self::spec_from_u8(v),
    {
        if v == 0 {
            Some(MotorsOffMode::Normal)
        } else if v == 1 {
            Some(MotorsOffMode::Break)
        } else if v == 2 {
            Some(MotorsOffMode::SafeStop)
        } else {
            None
        }
    }
}

} // verus!
