use forzalife::{
    malfunctions::{FuelStarvation, StarvationAction},
    telemetry::Telemetry,
};

/// The fuel facts that the restriction reads from a life snapshot of a car
/// holding `fuel_liters`, with fuel use not paused.
fn life(fuel_liters: f32) -> (bool, bool) {
    (fuel_liters <= 0.0, false)
}

fn telemetry(race_position: u8) -> Telemetry {
    Telemetry {
        race_on: true,
        timestamp_ms: 1_000,
        engine_max_rpm_bits: 8_000.0f32.to_bits(),
        engine_idle_rpm_bits: 900.0f32.to_bits(),
        current_engine_rpm_bits: 6_000.0f32.to_bits(),
        yaw_bits: 0.0f32.to_bits(),
        power_w_bits: 80_000.0f32.to_bits(),
        torque_nm_bits: 250.0f32.to_bits(),
        race_position,
        throttle: 255,
        car_ordinal: 42,
        num_cylinders: 4,
        position_bits: [0.0f32.to_bits(); 3],
        speed_mps_bits: 20.0f32.to_bits(),
        boost_psi_bits: 5.0f32.to_bits(),
        fuel_bits: 0.0f32.to_bits(),
        distance_m_bits: 0.0f32.to_bits(),
        gear: 4,
    }
}

fn update(
    starvation: &mut FuelStarvation,
    life: (bool, bool),
    telemetry: &Telemetry,
) -> Option<StarvationAction> {
    starvation.update(life.0, life.1, telemetry)
}

#[test]
fn empty_fuel_enables_throttle_restriction_only_during_free_roam() {
    let mut starvation = FuelStarvation::default();

    assert_eq!(
        update(&mut starvation, life(0.0), &telemetry(0)),
        Some(StarvationAction::Enable)
    );
    assert!(starvation.enabled());
    assert_eq!(
        update(&mut starvation, life(0.0), &telemetry(1)),
        Some(StarvationAction::Disable)
    );
    assert!(!starvation.enabled());
    assert_eq!(update(&mut starvation, life(10.0), &telemetry(0)), None);
}

#[test]
fn restriction_needs_a_driving_gear_and_unpaused_usage() {
    let mut starvation = FuelStarvation::default();
    let mut reverse = telemetry(0);
    reverse.gear = 0;
    assert_eq!(starvation.update(true, false, &reverse), None);
    let mut gear_eleven = telemetry(0);
    gear_eleven.gear = 11;
    assert_eq!(starvation.update(true, false, &gear_eleven), None);
    assert_eq!(starvation.update(true, true, &telemetry(0)), None);
    let mut off = telemetry(0);
    off.race_on = false;
    assert_eq!(starvation.update(true, false, &off), None);
    assert!(!starvation.enabled());

    assert_eq!(
        starvation.update(true, false, &telemetry(0)),
        Some(StarvationAction::Enable)
    );
    assert_eq!(starvation.update(true, false, &telemetry(0)), None);
    assert_eq!(
        starvation.update(false, false, &telemetry(0)),
        Some(StarvationAction::Disable)
    );
}
