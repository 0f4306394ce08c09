use forzalife::driving::{race_position, throttle_percent, Gear};

#[test]
fn gear_labels_read_as_on_the_hud() {
    assert_eq!(Gear::Reverse.label(), "R");
    assert_eq!(Gear::Neutral.label(), "N");
    assert_eq!(Gear::Forward(3).label(), "3");
    assert_eq!(Gear::Forward(0).label(), "0");
    assert_eq!(Gear::Forward(10).label(), "10");
    assert_eq!(Gear::Forward(254).label(), "254");
    for gear in 0..=255u8 {
        assert_eq!(Gear::Forward(gear).label(), gear.to_string());
    }
}

#[test]
fn gear_byte_maps_to_reverse_neutral_and_forward_gears() {
    assert_eq!(Gear::from_telemetry_gear(0), Gear::Reverse);
    assert_eq!(Gear::from_telemetry_gear(1), Gear::Neutral);
    assert_eq!(Gear::from_telemetry_gear(4), Gear::Forward(3));
    assert_eq!(Gear::from_telemetry_gear(255), Gear::Forward(254));
}

#[test]
fn throttle_and_race_position_read_as_on_the_hud() {
    assert_eq!(throttle_percent(128), 50);
    assert_eq!(throttle_percent(255), 100);
    assert_eq!(throttle_percent(0), 0);
    assert_eq!(race_position(true, 2), Some(2));
    assert_eq!(race_position(true, 0), None);
    assert_eq!(race_position(false, 2), None);
}
