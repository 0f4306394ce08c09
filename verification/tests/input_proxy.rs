use evdev::{AbsInfo, AbsoluteAxisCode, EventType, KeyCode};
use forzalife::input_proxy::{
    analog_limit_is_defined, initial_axis_value, is_virtual_sysfs_path, limit_analog_throttle,
    limit_digital_throttle, InputProxy, KeyboardProxy, ProxyDecision, RawInputEvent, TriggerProxy, ABS_RZ, ABS_Z, BTN_EAST, EV_ABS,
    EV_KEY, EV_SYN, KEY_ENTER, KEY_W,
};
use std::sync::{
    atomic::{AtomicBool, Ordering},
    Arc,
};

#[test]
fn starvation_pulse_limits_keyboard_and_trigger_without_stopping_the_car() {
    assert!(limit_digital_throttle(true, false, 400));
    assert_eq!(limit_analog_throttle(1023, 0, 1023, false, 400), 1023);

    let first_cycle: Vec<_> = [100, 550, 800, 1_300, 1_850]
        .map(|time| limit_analog_throttle(1023, 0, 1023, true, time))
        .into();
    let later_cycle: Vec<_> = [2_300, 2_750, 3_000, 3_500, 4_050]
        .map(|time| limit_analog_throttle(1023, 0, 1023, true, time))
        .into();

    assert_ne!(first_cycle, later_cycle);
    assert!(
        first_cycle
            .iter()
            .chain(&later_cycle)
            .all(|value| *value == 0 || (409..=695).contains(value))
    );
}

#[test]
fn virtual_controller_starts_neutral_instead_of_replaying_cached_input() {
    let stick = AbsInfo::new(24_679, -32_768, 32_767, 0, 128, 0);
    let trigger = AbsInfo::new(379, 0, 1_023, 0, 0, 0);

    assert_eq!(
        initial_axis_value(AbsoluteAxisCode::ABS_X.0, stick.minimum(), stick.maximum()),
        0
    );
    assert_eq!(
        initial_axis_value(AbsoluteAxisCode::ABS_RZ.0, trigger.minimum(), trigger.maximum()),
        trigger.minimum()
    );
}

#[test]
fn event_codes_are_the_kernel_input_codes() {
    assert_eq!(EV_SYN, EventType::SYNCHRONIZATION.0);
    assert_eq!(EV_KEY, EventType::KEY.0);
    assert_eq!(EV_ABS, EventType::ABSOLUTE.0);
    assert_eq!(KEY_W, KeyCode::KEY_W.code());
    assert_eq!(KEY_ENTER, KeyCode::KEY_ENTER.code());
    assert_eq!(BTN_EAST, KeyCode::BTN_EAST.code());
    assert_eq!(ABS_Z, AbsoluteAxisCode::ABS_Z.0);
    assert_eq!(ABS_RZ, AbsoluteAxisCode::ABS_RZ.0);
}

#[test]
fn axes_other_than_triggers_start_at_zero_clamped_into_range() {
    assert_eq!(initial_axis_value(ABS_Z, 5, 255), 5);
    assert_eq!(initial_axis_value(0x00, 10, 20), 10);
    assert_eq!(initial_axis_value(0x01, -20, -10), -10);
}

#[test]
fn unrestricted_throttle_is_passed_through_even_below_the_minimum() {
    for time in [0, 180, 1_000, 99_999] {
        assert!(limit_digital_throttle(true, false, time));
        assert!(!limit_digital_throttle(false, true, time));
        assert_eq!(limit_analog_throttle(-5, 0, 1023, false, time), -5);
    }
}

#[test]
fn restricted_trigger_stays_in_the_pulse_band_over_many_slots() {
    let mut cut = 0;
    let mut passed = 0;
    for slot in 0..200u64 {
        let value = limit_analog_throttle(2_000, 1_000, 3_000, true, slot * 180);
        if value == 1_000 {
            cut += 1;
        } else {
            assert!((1_400..=1_680).contains(&value), "{value}");
            passed += 1;
        }
        assert_eq!(limit_analog_throttle(500, 1_000, 3_000, true, slot * 180), 1_000);
    }
    assert!(cut > 0 && passed > 0);
}

#[test]
fn keyboard_window_opens_and_closes_over_time() {
    let states: Vec<bool> = (0..100u64)
        .map(|slot| limit_digital_throttle(true, true, slot * 220))
        .collect();
    assert!(states.contains(&true));
    assert!(states.contains(&false));
}

#[test]
fn limit_inputs_that_would_overflow_are_detected() {
    assert!(analog_limit_is_defined(1023, 0, 1023, 100));
    let percent_slot = (0..100u64)
        .map(|slot| slot * 180)
        .find(|time| limit_analog_throttle(10, 0, 10, true, *time) != 0)
        .unwrap();
    assert!(!analog_limit_is_defined(i32::MAX, i32::MIN, i32::MAX, percent_slot));
    assert!(!analog_limit_is_defined(0, 10, 5, percent_slot));
    assert!(!analog_limit_is_defined(i32::MAX, 0, i32::MAX, percent_slot));
}

fn key(code: u16, value: i32) -> RawInputEvent {
    RawInputEvent {
        event_type: EV_KEY,
        code,
        value,
    }
}

#[test]
fn keyboard_proxy_holds_back_w_and_reports_enter() {
    let mut proxy = KeyboardProxy::new();
    assert_eq!(
        proxy.on_event(key(KEY_W, 1)),
        ProxyDecision {
            forward: None,
            refuel_pressed: None
        }
    );
    assert_eq!(
        proxy.on_event(key(KEY_ENTER, 1)),
        ProxyDecision {
            forward: Some(key(KEY_ENTER, 1)),
            refuel_pressed: Some(true)
        }
    );
    let other = key(30, 1);
    assert_eq!(proxy.on_event(other).forward, Some(other));
    let sync = RawInputEvent {
        event_type: EV_SYN,
        code: 0,
        value: 0,
    };
    assert_eq!(proxy.on_event(sync).forward, None);
    let misc = RawInputEvent {
        event_type: 0x04,
        code: 4,
        value: 17,
    };
    assert_eq!(proxy.on_event(misc).forward, Some(misc));

    assert_eq!(proxy.on_tick(false, 0), Some(key(KEY_W, 1)));
    assert_eq!(proxy.on_tick(false, 8), None);
    proxy.on_event(key(KEY_W, 0));
    assert_eq!(proxy.on_tick(false, 16), Some(key(KEY_W, 0)));
}

#[test]
fn trigger_proxy_limits_the_right_trigger_and_reports_b() {
    let mut proxy = TriggerProxy::new(0, 1023);
    let trigger = RawInputEvent {
        event_type: EV_ABS,
        code: ABS_RZ,
        value: 1023,
    };
    assert_eq!(proxy.on_event(trigger).forward, None);
    assert_eq!(proxy.trigger_value(), 1023);
    let stick = RawInputEvent {
        event_type: EV_ABS,
        code: 0,
        value: -300,
    };
    assert_eq!(proxy.on_event(stick).forward, Some(stick));
    assert_eq!(
        proxy.on_event(key(BTN_EAST, 1)),
        ProxyDecision {
            forward: Some(key(BTN_EAST, 1)),
            refuel_pressed: Some(true)
        }
    );
    assert_eq!(
        proxy.on_tick(false, 0),
        Some(RawInputEvent {
            event_type: EV_ABS,
            code: ABS_RZ,
            value: 1023
        })
    );
    assert_eq!(proxy.on_tick(false, 10), None);
    let expected = limit_analog_throttle(1023, 0, 1023, true, 100);
    assert_eq!(
        proxy.on_tick(true, 100),
        if expected == 1023 {
            None
        } else {
            Some(RawInputEvent {
                event_type: EV_ABS,
                code: ABS_RZ,
                value: expected,
            })
        }
    );
}

#[test]
fn virtual_input_devices_are_rejected_as_proxy_sources() {
    assert!(is_virtual_sysfs_path("/sys/devices/virtual/input/input85"));
    assert!(!is_virtual_sysfs_path(
        "/sys/devices/pci0000:00/0000:00:01.3/input/input69"
    ));
}

#[test]
fn virtual_path_check_compares_whole_components() {
    assert!(is_virtual_sysfs_path("/sys/devices/virtual"));
    assert!(is_virtual_sysfs_path("/sys//devices/virtual/misc/uinput"));
    assert!(!is_virtual_sysfs_path("/sys/devices/virtualization/input0"));
    assert!(!is_virtual_sysfs_path("sys/devices/virtual/input/input85"));
}

#[test]
fn proxy_handle_reads_and_writes_the_shared_flags() {
    let restricted = Arc::new(AtomicBool::new(false));
    let keyboard = Arc::new(AtomicBool::new(false));
    let controller = Arc::new(AtomicBool::new(false));
    let proxy = InputProxy::from_shared(
        Arc::clone(&restricted),
        Arc::clone(&keyboard),
        Arc::clone(&controller),
    );
    proxy.set_restricted(true);
    assert!(restricted.load(Ordering::Relaxed));
    proxy.set_restricted(false);
    assert!(!restricted.load(Ordering::Relaxed));
    assert!(!proxy.refuel_pressed());
    controller.store(true, Ordering::Relaxed);
    assert!(proxy.refuel_pressed());
    controller.store(false, Ordering::Relaxed);
    keyboard.store(true, Ordering::Relaxed);
    assert!(proxy.refuel_pressed());
}

#[test]
fn keyboard_polls_pass_other_keys_then_the_limited_w() {
    let sync = RawInputEvent {
        event_type: EV_SYN,
        code: 0,
        value: 0,
    };
    let mut proxy = KeyboardProxy::new();

    let first = proxy.poll(
        &vec![key(KEY_W, 1), key(30, 1), sync, key(KEY_ENTER, 1)],
        false,
        0,
    );
    assert_eq!(
        first.events,
        vec![key(30, 1), key(KEY_ENTER, 1), key(KEY_W, 1)]
    );
    assert_eq!(first.refuel_reports, vec![true]);

    let held = proxy.poll(&Vec::new(), false, 8);
    assert!(held.events.is_empty());
    assert!(held.refuel_reports.is_empty());

    let released = proxy.poll(&vec![key(KEY_ENTER, 0), key(KEY_W, 0)], false, 16);
    assert_eq!(released.events, vec![key(KEY_ENTER, 0), key(KEY_W, 0)]);
    assert_eq!(released.refuel_reports, vec![false]);
}

#[test]
fn restricted_keyboard_polls_pulse_w_while_held() {
    let mut proxy = KeyboardProxy::new();
    let mut reported = false;
    let mut saw_on = false;
    let mut saw_off = false;
    let mut first = true;
    for slot in 0..40u64 {
        let events = if first { vec![key(KEY_W, 1)] } else { Vec::new() };
        first = false;
        let elapsed = slot * 220;
        let poll = proxy.poll(&events, true, elapsed);
        let expected = limit_digital_throttle(true, true, elapsed);
        if expected != reported {
            assert_eq!(poll.events, vec![key(KEY_W, i32::from(expected))]);
            reported = expected;
        } else {
            assert!(poll.events.is_empty());
        }
        saw_on |= expected;
        saw_off |= !expected;
    }
    assert!(saw_on && saw_off);
}
