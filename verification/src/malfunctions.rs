use vstd::prelude::*;

use crate::telemetry::Telemetry;

verus! {

/// A change of the throttle restriction that simulates fuel starvation.
#[derive(Clone, Copy, Debug, PartialEq, Eq, Structural)]
pub enum StarvationAction {
    Enable,
    Disable,
}

/// Whether the throttle restriction is in force.
pub struct FuelStarvation {
    enabled: bool,
}

/// The restriction is wanted when the tank is empty, fuel use is not paused,
/// and the car is driving free roam: a session is on, there is no race
/// position, and a driving gear (neither reverse nor gear byte 11) is engaged.
pub open spec fn starvation_wanted(fuel_empty: bool, usage_paused: bool, telemetry: Telemetry) -> bool {
    &&& fuel_empty
    &&& !usage_paused
    &&& telemetry.race_on
    &&& telemetry.race_position == 0
    &&& telemetry.gear > 0
    &&& telemetry.gear != 11
}

/// The action that reports a change from `enabled` to `wanted`, if it is one.
pub open spec fn starvation_change(enabled: bool, wanted: bool) -> Option<StarvationAction> {
    if enabled == wanted {
        None
    } else if wanted {
        Some(StarvationAction::Enable)
    } else {
        Some(StarvationAction::Disable)
    }
}

impl FuelStarvation {
    pub closed spec fn is_enabled(&self) -> bool {
        self.enabled
    }

    pub fn enabled(&self) -> (enabled: bool)
        ensures
            enabled == self.is_enabled(),
    {
        self.enabled
    }

    /// Takes the newest fuel state (`fuel_empty`: no fuel left; `usage_paused`:
    /// fuel use is paused for the car) and packet; reports whether the
    /// restriction has to be switched on or off.
    pub fn update(&mut self, fuel_empty: bool, usage_paused: bool, telemetry: &Telemetry) -> (action:
        Option<StarvationAction>)
        ensures
            final(self).is_enabled() == starvation_wanted(fuel_empty, usage_paused, *telemetry),
            action == starvation_change(
                old(self).is_enabled(),
                starvation_wanted(fuel_empty, usage_paused, *telemetry),
            ),
    {
        let enabled = fuel_empty && !usage_paused && telemetry.race_on && telemetry.race_position
            == 0 && telemetry.gear > 0 && telemetry.gear != 11;
        if self.enabled == enabled {
            return None;
        }
        self.enabled = enabled;
        Some(
            if enabled {
                StarvationAction::Enable
            } else {
                StarvationAction::Disable
            },
        )
    }
}

impl Default for FuelStarvation {
    fn default() -> (starvation: Self)
        ensures
            !starvation.is_enabled(),
    {
        FuelStarvation { enabled: false }
    }
}

/// The restriction is only ever in force in free roam with an empty tank, and
/// an update reports a change exactly when the restriction switches: repeating
/// it with the same inputs reports nothing.
pub proof fn lemma_starvation_only_in_free_roam(
    enabled: bool,
    fuel_empty: bool,
    usage_paused: bool,
    telemetry: Telemetry,
)
    ensures
        starvation_wanted(fuel_empty, usage_paused, telemetry) ==> fuel_empty && !usage_paused
            && telemetry.race_on && telemetry.race_position == 0,
        starvation_change(
            starvation_wanted(fuel_empty, usage_paused, telemetry),
            starvation_wanted(fuel_empty, usage_paused, telemetry),
        ) is None,
        (starvation_change(enabled, starvation_wanted(fuel_empty, usage_paused, telemetry))
            is None) == (enabled == starvation_wanted(fuel_empty, usage_paused, telemetry)),
{
}

/// With an empty tank, fuel use not paused, a session on and no race position,
/// the restriction is wanted in every gear byte from 1 (neutral) to 10 and
/// above 11; only 0 (reverse) and 11 are left out. Switching from off to on
/// then reports `Enable`, and from on to off reports `Disable`.
pub proof fn lemma_starvation_in_every_driving_gear(telemetry: Telemetry)
    requires
        telemetry.race_on,
        telemetry.race_position == 0,
    ensures
        starvation_wanted(true, false, telemetry) <==> (telemetry.gear != 0 && telemetry.gear != 11),
        1 <= telemetry.gear <= 10 ==> starvation_change(false, starvation_wanted(true, false, telemetry))
            == Some(StarvationAction::Enable),
        telemetry.gear == 0 || telemetry.gear == 11 ==> starvation_change(
            true,
            starvation_wanted(true, false, telemetry),
        ) == Some(StarvationAction::Disable),
        !starvation_wanted(false, false, telemetry),
        !starvation_wanted(true, true, telemetry),
{
}

} // verus!
