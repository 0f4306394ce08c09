use vstd::prelude::*;

verus! {

/// Tank size assumed for a car whose capacity is not known, by cylinder count, in liters.
pub open spec fn fallback_capacity(cylinders: i32) -> u32 {
    if cylinders >= 8 {
        80
    } else if cylinders >= 6 {
        65
    } else if cylinders >= 4 {
        55
    } else {
        35
    }
}

/// Tank size assumed for a car whose capacity is not known, in whole liters.
pub fn fallback_tank_capacity_liters(cylinders: i32) -> (liters: u32)
    ensures
        liters == fallback_capacity(cylinders),
{
    if cylinders >= 8 {
        80
    } else if cylinders >= 6 {
        65
    } else if cylinders >= 4 {
        55
    } else {
        35
    }
}

/// Engine size estimated from the cylinder count: displacement in tenths of a
/// liter, and the adjustment to the specific fuel consumption in g/kWh.
#[derive(Clone, Copy, Debug, PartialEq, Eq, Structural)]
pub struct EngineProfile {
    pub displacement_deciliters: u32,
    pub bsfc_adjustment: i32,
}

/// Engine age estimated from the model year: idle consumption in percent of a
/// modern engine's, and the adjustment to the specific fuel consumption in g/kWh.
#[derive(Clone, Copy, Debug, PartialEq, Eq, Structural)]
pub struct AgeProfile {
    pub idle_percent: u32,
    pub bsfc_adjustment: i32,
}

pub open spec fn engine_of(cylinders: i32) -> EngineProfile {
    if cylinders >= 12 {
        EngineProfile { displacement_deciliters: 80, bsfc_adjustment: 70 }
    } else if cylinders >= 10 {
        EngineProfile { displacement_deciliters: 70, bsfc_adjustment: 60 }
    } else if cylinders >= 8 {
        EngineProfile { displacement_deciliters: 50, bsfc_adjustment: 50 }
    } else if cylinders >= 6 {
        EngineProfile { displacement_deciliters: 35, bsfc_adjustment: 25 }
    } else if cylinders >= 4 {
        EngineProfile { displacement_deciliters: 20, bsfc_adjustment: 0 }
    } else {
        EngineProfile { displacement_deciliters: 10, bsfc_adjustment: -20i32 }
    }
}

pub open spec fn age_of(model_year: i32) -> AgeProfile {
    if model_year >= 2020 {
        AgeProfile { idle_percent: 100, bsfc_adjustment: -30i32 }
    } else if model_year >= 2010 {
        AgeProfile { idle_percent: 105, bsfc_adjustment: -15i32 }
    } else if model_year >= 2000 {
        AgeProfile { idle_percent: 110, bsfc_adjustment: 0 }
    } else if model_year >= 1990 {
        AgeProfile { idle_percent: 120, bsfc_adjustment: 8 }
    } else if model_year >= 1980 {
        AgeProfile { idle_percent: 130, bsfc_adjustment: 18 }
    } else if model_year >= 1970 {
        AgeProfile { idle_percent: 140, bsfc_adjustment: 27 }
    } else if model_year >= 1000 {
        AgeProfile { idle_percent: 145, bsfc_adjustment: 30 }
    } else {
        AgeProfile { idle_percent: 100, bsfc_adjustment: 0 }
    }
}

pub fn engine_profile(cylinders: i32) -> (profile: EngineProfile)
    ensures
        profile == engine_of(cylinders),
{
    if cylinders >= 12 {
        EngineProfile { displacement_deciliters: 80, bsfc_adjustment: 70 }
    } else if cylinders >= 10 {
        EngineProfile { displacement_deciliters: 70, bsfc_adjustment: 60 }
    } else if cylinders >= 8 {
        EngineProfile { displacement_deciliters: 50, bsfc_adjustment: 50 }
    } else if cylinders >= 6 {
        EngineProfile { displacement_deciliters: 35, bsfc_adjustment: 25 }
    } else if cylinders >= 4 {
        EngineProfile { displacement_deciliters: 20, bsfc_adjustment: 0 }
    } else {
        EngineProfile { displacement_deciliters: 10, bsfc_adjustment: -20 }
    }
}

pub fn age_profile(model_year: i32) -> (profile: AgeProfile)
    ensures
        profile == age_of(model_year),
{
    if model_year >= 2020 {
        AgeProfile { idle_percent: 100, bsfc_adjustment: -30 }
    } else if model_year >= 2010 {
        AgeProfile { idle_percent: 105, bsfc_adjustment: -15 }
    } else if model_year >= 2000 {
        AgeProfile { idle_percent: 110, bsfc_adjustment: 0 }
    } else if model_year >= 1990 {
        AgeProfile { idle_percent: 120, bsfc_adjustment: 8 }
    } else if model_year >= 1980 {
        AgeProfile { idle_percent: 130, bsfc_adjustment: 18 }
    } else if model_year >= 1970 {
        AgeProfile { idle_percent: 140, bsfc_adjustment: 27 }
    } else if model_year >= 1000 {
        AgeProfile { idle_percent: 145, bsfc_adjustment: 30 }
    } else {
        AgeProfile { idle_percent: 100, bsfc_adjustment: 0 }
    }
}

/// More cylinders never mean a smaller assumed tank or engine, and newer cars
/// (from 1000 on) never idle more thirstily than older ones.
pub proof fn lemma_profiles_are_monotone(c1: i32, c2: i32, y1: i32, y2: i32)
    requires
        c1 <= c2,
        1000 <= y1 <= y2,
    ensures
        fallback_capacity(c1) <= fallback_capacity(c2),
        engine_of(c1).displacement_deciliters <= engine_of(c2).displacement_deciliters,
        engine_of(c1).bsfc_adjustment <= engine_of(c2).bsfc_adjustment,
        age_of(y2).idle_percent <= age_of(y1).idle_percent,
        age_of(y2).bsfc_adjustment <= age_of(y1).bsfc_adjustment,
{
}

} // verus!
