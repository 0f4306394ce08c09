use vstd::prelude::*;

use crate::text::{decimal, decimal_string};

verus! {

/// The gear the car is in.
#[derive(Clone, Copy, Debug, PartialEq, Eq, Structural)]
pub enum Gear {
    Reverse,
    Neutral,
    Forward(u8),
}

/// The gear as the driving HUD shows it: `R`, `N`, or the forward gear number.
pub open spec fn gear_text(gear: Gear) -> Seq<char> {
    match gear {
        Gear::Reverse => "R"@,
        Gear::Neutral => "N"@,
        Gear::Forward(n) => decimal(n as nat),
    }
}

/// The gear that the packet's gear byte encodes: 0 is reverse, 1 neutral, and
/// `g` above that the forward gear `g - 1`.
pub open spec fn gear_of(raw: u8) -> Gear {
    if raw == 0 {
        Gear::Reverse
    } else if raw == 1 {
        Gear::Neutral
    } else {
        Gear::Forward((raw - 1) as u8)
    }
}

impl Gear {
    pub fn label(self) -> (label: String)
        ensures
            label@ == gear_text(self),
    {
        match self {
            Gear::Reverse => "R".to_owned(),
            Gear::Neutral => "N".to_owned(),
            Gear::Forward(gear) => decimal_string(gear as u64),
        }
    }

    /// Decodes the packet's gear byte.
    pub fn from_telemetry_gear(raw: u8) -> (gear: Gear)
        ensures
            gear == gear_of(raw),
    {
        match raw {
            0 => Gear::Reverse,
            1 => Gear::Neutral,
            gear => Gear::Forward(gear - 1),
        }
    }
}

/// The throttle byte (0 to 255) as a whole percentage, rounded down.
pub fn throttle_percent(throttle: u8) -> (percent: u8)
    ensures
        percent == throttle as int * 100 / 255,
        percent <= 100,
        throttle == 255 ==> percent == 100,
{
    ((throttle as u16 * 100) / 255) as u8
}

/// The race position shown: only while a race is on and the packet gives a position.
pub fn race_position(race_on: bool, position: u8) -> (shown: Option<u8>)
    ensures
        shown == if race_on && position > 0 {
            Some(position)
        } else {
            None::<u8>
        },
{
    if race_on && position > 0 {
        Some(position)
    } else {
        None
    }
}

} // verus!
