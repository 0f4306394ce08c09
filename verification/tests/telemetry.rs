use forzalife::telemetry::{
    parse, sample_interval_ms, ParseError, RefuelTracker, PACKET_SIZE,
};

fn put_i32(packet: &mut [u8; PACKET_SIZE], offset: usize, value: i32) {
    packet[offset..offset + 4].copy_from_slice(&value.to_le_bytes());
}

fn put_u32(packet: &mut [u8; PACKET_SIZE], offset: usize, value: u32) {
    packet[offset..offset + 4].copy_from_slice(&value.to_le_bytes());
}

fn put_f32(packet: &mut [u8; PACKET_SIZE], offset: usize, value: f32) {
    packet[offset..offset + 4].copy_from_slice(&value.to_le_bytes());
}

#[test]
fn parses_the_documented_fh6_packet_layout() {
    let mut packet = [0_u8; PACKET_SIZE];
    put_i32(&mut packet, 0, 1);
    put_u32(&mut packet, 4, 42_123);
    put_f32(&mut packet, 8, 8_500.0);
    put_f32(&mut packet, 12, 900.0);
    put_f32(&mut packet, 16, 4_250.0);
    put_f32(&mut packet, 56, 1.25);
    put_i32(&mut packet, 212, 1337);
    put_i32(&mut packet, 228, 6);
    put_f32(&mut packet, 244, 12.5);
    put_f32(&mut packet, 248, -3.0);
    put_f32(&mut packet, 252, 99.25);
    put_f32(&mut packet, 256, 27.0);
    put_f32(&mut packet, 260, 123_000.0);
    put_f32(&mut packet, 264, 420.0);
    put_f32(&mut packet, 284, 8.25);
    put_f32(&mut packet, 288, 0.75);
    put_f32(&mut packet, 292, 12_345.0);
    packet[314] = 3;
    packet[315] = 200;
    packet[319] = 4;

    let parsed = parse(&packet).expect("documented packet should parse");

    assert!(parsed.race_on);
    assert_eq!(parsed.timestamp_ms, 42_123);
    assert_eq!(f32::from_bits(parsed.engine_max_rpm_bits), 8_500.0);
    assert_eq!(f32::from_bits(parsed.engine_idle_rpm_bits), 900.0);
    assert_eq!(f32::from_bits(parsed.current_engine_rpm_bits), 4_250.0);
    assert_eq!(f32::from_bits(parsed.yaw_bits), 1.25);
    assert_eq!(f32::from_bits(parsed.power_w_bits), 123_000.0);
    assert_eq!(f32::from_bits(parsed.torque_nm_bits), 420.0);
    assert_eq!(parsed.race_position, 3);
    assert_eq!(parsed.throttle, 200);
    assert_eq!(parsed.car_ordinal, 1337);
    assert_eq!(parsed.num_cylinders, 6);
    assert_eq!(parsed.position_bits.map(f32::from_bits), [12.5, -3.0, 99.25]);
    assert_eq!(f32::from_bits(parsed.speed_mps_bits), 27.0);
    assert_eq!(f32::from_bits(parsed.boost_psi_bits), 8.25);
    assert_eq!(f32::from_bits(parsed.fuel_bits), 0.75);
    assert_eq!(f32::from_bits(parsed.distance_m_bits), 12_345.0);
    assert_eq!(parsed.gear, 4);
}

#[test]
fn rejects_packets_that_are_not_exactly_324_bytes() {
    assert_eq!(
        parse(&[0_u8; PACKET_SIZE - 1]),
        Err(ParseError::WrongSize {
            actual: PACKET_SIZE - 1
        })
    );
}

#[test]
fn oversized_and_empty_datagrams_are_rejected_with_their_size() {
    assert_eq!(
        parse(&[0_u8; PACKET_SIZE + 1]),
        Err(ParseError::WrongSize {
            actual: PACKET_SIZE + 1
        })
    );
    assert_eq!(parse(&[]), Err(ParseError::WrongSize { actual: 0 }));
}

#[test]
fn signed_fields_read_back_negative_values_and_race_flag_needs_exactly_one() {
    let mut packet = [0_u8; PACKET_SIZE];
    put_i32(&mut packet, 0, 2);
    put_i32(&mut packet, 212, -7);
    put_i32(&mut packet, 228, i32::MIN);
    put_u32(&mut packet, 4, u32::MAX);
    let parsed = parse(&packet).unwrap();
    assert!(!parsed.race_on);
    assert_eq!(parsed.car_ordinal, -7);
    assert_eq!(parsed.num_cylinders, i32::MIN);
    assert_eq!(parsed.timestamp_ms, u32::MAX);
}

#[test]
fn sample_interval_accepts_at_most_one_second_and_wraps() {
    assert_eq!(sample_interval_ms(None, 5_000), 0);
    assert_eq!(sample_interval_ms(Some(1_000), 2_000), 1_000);
    assert_eq!(sample_interval_ms(Some(1_000), 2_001), 0);
    assert_eq!(sample_interval_ms(Some(2_000), 1_000), 0);
    assert_eq!(sample_interval_ms(Some(u32::MAX - 99), 400), 500);
    assert_eq!(sample_interval_ms(Some(7), 7), 0);
}

#[test]
fn refuel_tracker_credits_time_between_pumping_packets_of_one_car() {
    let mut tracker = RefuelTracker::new();
    assert_eq!(tracker.step(true, 42, 1_000), 0);
    assert_eq!(tracker.step(true, 42, 1_250), 250);
    assert_eq!(tracker.step(true, 99, 1_500), 0);
    assert_eq!(tracker.step(true, 99, 2_000), 500);
    assert_eq!(tracker.step(false, 99, 2_100), 0);
    assert_eq!(tracker.step(true, 99, 2_200), 0);
    assert_eq!(tracker.step(true, 99, 4_200), 0);
}
