use forzalife::vehicle::{age_profile, engine_profile, fallback_tank_capacity_liters};

#[test]
fn fallback_tank_follows_cylinder_count() {
    assert_eq!(fallback_tank_capacity_liters(1), 35);
    assert_eq!(fallback_tank_capacity_liters(8), 80);
    assert_eq!(fallback_tank_capacity_liters(6), 65);
    assert_eq!(fallback_tank_capacity_liters(5), 55);
    assert_eq!(fallback_tank_capacity_liters(-3), 35);
    assert_eq!(fallback_tank_capacity_liters(16), 80);
}

#[test]
fn engine_and_age_profiles_follow_the_consumption_tables() {
    let v8 = engine_profile(8);
    assert_eq!((v8.displacement_deciliters, v8.bsfc_adjustment), (50, 50));
    let v6 = engine_profile(7);
    assert_eq!((v6.displacement_deciliters, v6.bsfc_adjustment), (35, 25));
    let electric = engine_profile(0);
    assert_eq!((electric.displacement_deciliters, electric.bsfc_adjustment), (10, -20));
    let v12 = engine_profile(12);
    assert_eq!((v12.displacement_deciliters, v12.bsfc_adjustment), (80, 70));

    let modern = age_profile(2024);
    assert_eq!((modern.idle_percent, modern.bsfc_adjustment), (100, -30));
    let classic = age_profile(1969);
    assert_eq!((classic.idle_percent, classic.bsfc_adjustment), (145, 30));
    let seventies = age_profile(1975);
    assert_eq!((seventies.idle_percent, seventies.bsfc_adjustment), (140, 27));
    let unknown = age_profile(0);
    assert_eq!((unknown.idle_percent, unknown.bsfc_adjustment), (100, 0));
    assert_eq!(1.05f32, 105.0f32 / 100.0);
    assert_eq!(1.45f32, 145.0f32 / 100.0);
    assert_eq!(3.5f32, 35.0f32 / 10.0);
}
