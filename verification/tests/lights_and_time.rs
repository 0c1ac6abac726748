use flashlib::{Duration, LightId, Lights, OnOff, TimeAdd, TuiLights, WrappedInstant};

#[test]
fn all_lists_the_five_lights_in_order() {
    let all = LightId::all();
    assert_eq!(
        all,
        &[LightId::One, LightId::Two, LightId::Three, LightId::Four, LightId::Five]
    );
    for (i, light) in all.iter().enumerate() {
        assert_eq!(light.index(), i);
    }
    assert_eq!(LightId::num_lights(), 5);
}

#[test]
fn other_flips_and_flips_back() {
    assert_eq!(OnOff::On.other(), OnOff::Off);
    assert_eq!(OnOff::Off.other(), OnOff::On);
    assert_eq!(OnOff::On.other().other(), OnOff::On);
}

#[test]
fn tui_lights_start_off() {
    let lights = TuiLights::new();
    for light in LightId::all() {
        assert_eq!(lights.get_state(*light), OnOff::Off);
    }
    let lights = TuiLights::default();
    assert_eq!(lights.get_state(LightId::Five), OnOff::Off);
}

#[test]
fn set_state_is_read_back_and_leaves_others() {
    let mut lights = TuiLights::new();
    lights.set_state(LightId::Three, OnOff::On);
    assert_eq!(lights.get_state(LightId::Three), OnOff::On);
    assert_eq!(lights.get_state(LightId::Two), OnOff::Off);
    assert_eq!(lights.get_state(LightId::Four), OnOff::Off);
    lights.set_state(LightId::Three, OnOff::Off);
    assert_eq!(lights.get_state(LightId::Three), OnOff::Off);
}

#[test]
fn set_all_lights_sets_every_light() {
    let mut lights = TuiLights::new();
    lights.set_state(LightId::One, OnOff::Off);
    lights.set_all_lights(OnOff::On);
    for light in LightId::all() {
        assert_eq!(lights.get_state(*light), OnOff::On);
    }
    lights.set_all_lights(OnOff::Off);
    for light in LightId::all() {
        assert_eq!(lights.get_state(*light), OnOff::Off);
    }
}

#[test]
fn durations_count_nanoseconds() {
    assert_eq!(Duration::from_millis(250).as_nanos(), 250_000_000);
    assert_eq!(Duration::from_secs(2).as_nanos(), 2_000_000_000);
    assert_eq!(Duration::from_nanos(7).as_nanos(), 7);
    assert_eq!(
        Duration::from_secs(u64::MAX).as_nanos(),
        u64::MAX as u128 * 1_000_000_000
    );
}

#[test]
fn checked_add_moves_forward_or_overflows() {
    let t = WrappedInstant::from_nanos(100);
    let later = t.checked_add(Duration::from_nanos(50)).unwrap();
    assert_eq!(later.as_nanos(), 150);
    let last = WrappedInstant::from_nanos(u128::MAX - 1);
    assert_eq!(last.checked_add(Duration::from_nanos(1)).unwrap().as_nanos(), u128::MAX);
    assert!(last.checked_add(Duration::from_nanos(2)).is_none());
}

#[test]
fn instants_compare_by_position() {
    let a = WrappedInstant::from_nanos(5);
    let b = WrappedInstant::from_nanos(9);
    assert_eq!(a.partial_cmp(&b), Some(std::cmp::Ordering::Less));
    assert_eq!(b.partial_cmp(&a), Some(std::cmp::Ordering::Greater));
    assert_eq!(a.partial_cmp(&a), Some(std::cmp::Ordering::Equal));
    assert!(a < b);
    assert!(b >= a);
    assert!(a >= a);
}

#[test]
fn equal_comparison_means_equal_instants() {
    let a = WrappedInstant::from_nanos(42);
    let b = WrappedInstant::from_nanos(42);
    let c = WrappedInstant::from_nanos(43);
    assert_eq!(a.partial_cmp(&b), Some(std::cmp::Ordering::Equal));
    assert_eq!(a, b);
    assert_ne!(a.partial_cmp(&c), Some(std::cmp::Ordering::Equal));
    assert_ne!(a, c);
}
