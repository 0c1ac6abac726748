use flashlib::{
    Duration, FlashPolled, FlashSleep, LightId, Lights, ManyPoll, ManyPollBuilder, OnOff,
    TimeError, TuiLights, WrappedInstant,
};

const SEC: u128 = 1_000_000_000;
const MS: u128 = 1_000_000;

fn at(nanos: u128) -> WrappedInstant {
    WrappedInstant::from_nanos(nanos)
}

#[test]
fn polled_flasher_starts_one_second_out() {
    let f = FlashPolled::new(&at(3 * SEC));
    assert_eq!(f.light(), LightId::One);
    assert_eq!(f.period().as_nanos(), SEC);
    assert_eq!(f.next_toggle_time().as_nanos(), 4 * SEC);
    assert_eq!(f.next_flash_state(), OnOff::On);
}

#[test]
fn polled_flasher_waits_until_due() {
    let mut lights = TuiLights::new();
    let mut f = FlashPolled::new(&at(0));
    assert_eq!(f.poll(&mut lights, &at(SEC - 1)), Ok(()));
    assert_eq!(lights.get_state(LightId::One), OnOff::Off);
    assert_eq!(f.next_toggle_time().as_nanos(), SEC);
    assert_eq!(f.next_flash_state(), OnOff::On);
}

#[test]
fn polled_flasher_toggles_and_reschedules_from_the_poll() {
    let mut lights = TuiLights::new();
    let mut f = FlashPolled::new(&at(0));
    assert_eq!(f.poll(&mut lights, &at(SEC + 300)), Ok(()));
    assert_eq!(lights.get_state(LightId::One), OnOff::On);
    assert_eq!(lights.get_state(LightId::Two), OnOff::Off);
    assert_eq!(f.next_toggle_time().as_nanos(), 2 * SEC + 300);
    assert_eq!(f.next_flash_state(), OnOff::Off);
    // a second poll at the same instant toggles nothing
    assert_eq!(f.poll(&mut lights, &at(SEC + 300)), Ok(()));
    assert_eq!(lights.get_state(LightId::One), OnOff::On);
    // the next due poll turns the light off again
    assert_eq!(f.poll(&mut lights, &at(3 * SEC)), Ok(()));
    assert_eq!(lights.get_state(LightId::One), OnOff::Off);
    assert_eq!(f.next_flash_state(), OnOff::On);
    assert_eq!(f.next_toggle_time().as_nanos(), 4 * SEC);
}

#[test]
fn polled_flasher_reports_overflow_and_changes_nothing() {
    let mut lights = TuiLights::new();
    let mut f = FlashPolled::with_period(LightId::Two, Duration::from_nanos(10), &at(0)).unwrap();
    assert_eq!(f.poll(&mut lights, &at(u128::MAX - 5)), Err(TimeError::Overflow));
    assert_eq!(lights.get_state(LightId::Two), OnOff::Off);
    assert_eq!(f.next_toggle_time().as_nanos(), 10);
    assert_eq!(f.next_flash_state(), OnOff::On);
}

#[test]
fn with_period_rejects_an_unrepresentable_first_toggle() {
    assert!(FlashPolled::with_period(LightId::One, Duration::from_nanos(2), &at(u128::MAX - 1)).is_none());
    let f = FlashPolled::with_period(LightId::Four, Duration::from_millis(750), &at(5)).unwrap();
    assert_eq!(f.light(), LightId::Four);
    assert_eq!(f.next_toggle_time().as_nanos(), 750 * MS + 5);
}

#[test]
fn many_poll_builder_starts_every_flasher() {
    let mut b = ManyPollBuilder::new();
    b.add_flasher(Duration::from_millis(250), LightId::One);
    b.add_flasher(Duration::from_millis(500), LightId::Two);
    b.add_flasher(Duration::from_millis(750), LightId::Three);
    b.add_flasher(Duration::from_millis(1000), LightId::Four);
    let m = b.init(&at(0)).unwrap();
    assert_eq!(m.len(), 4);
    assert_eq!(m.flasher(0).next_toggle_time().as_nanos(), 250 * MS);
    assert_eq!(m.flasher(3).next_toggle_time().as_nanos(), 1000 * MS);
    assert_eq!(m.flasher(2).light(), LightId::Three);
    assert_eq!(m.flasher(1).next_flash_state(), OnOff::On);
}

#[test]
fn many_poll_builder_reports_overflow() {
    let mut b = ManyPollBuilder::new();
    b.add_flasher(Duration::from_nanos(1), LightId::One);
    b.add_flasher(Duration::from_nanos(10), LightId::Two);
    assert_eq!(b.init(&at(u128::MAX - 5)).err(), Some(TimeError::Overflow));
}

#[test]
fn many_poll_toggles_only_due_flashers() {
    let mut b = ManyPollBuilder::new();
    b.add_flasher(Duration::from_millis(250), LightId::One);
    b.add_flasher(Duration::from_millis(500), LightId::Two);
    let mut m = b.init(&at(0)).unwrap();
    let mut lights = TuiLights::new();
    assert_eq!(m.poll(&mut lights, &at(300 * MS)), Ok(()));
    assert_eq!(lights.get_state(LightId::One), OnOff::On);
    assert_eq!(lights.get_state(LightId::Two), OnOff::Off);
    assert_eq!(m.flasher(0).next_toggle_time().as_nanos(), 550 * MS);
    assert_eq!(m.flasher(1).next_toggle_time().as_nanos(), 500 * MS);
    assert_eq!(m.poll(&mut lights, &at(600 * MS)), Ok(()));
    assert_eq!(lights.get_state(LightId::One), OnOff::Off);
    assert_eq!(lights.get_state(LightId::Two), OnOff::On);
}

#[test]
fn many_poll_last_flasher_of_a_light_wins() {
    let a = FlashPolled::with_period(LightId::One, Duration::from_nanos(5), &at(0)).unwrap();
    let mut b = FlashPolled::with_period(LightId::One, Duration::from_nanos(5), &at(0)).unwrap();
    let mut scratch = TuiLights::new();
    b.poll(&mut scratch, &at(5)).unwrap();
    // `b` now shows Off next
    let mut m = ManyPoll::new(vec![a, b]);
    let mut lights = TuiLights::new();
    assert_eq!(m.poll(&mut lights, &at(20)), Ok(()));
    assert_eq!(lights.get_state(LightId::One), OnOff::Off);
}

#[test]
fn many_poll_stops_at_the_first_overflow() {
    let a = FlashPolled::with_period(LightId::One, Duration::from_nanos(1), &at(0)).unwrap();
    let b = FlashPolled::with_period(LightId::Two, Duration::from_nanos(100), &at(0)).unwrap();
    let c = FlashPolled::with_period(LightId::Three, Duration::from_nanos(1), &at(0)).unwrap();
    let mut m = ManyPoll::new(vec![a, b, c]);
    let mut lights = TuiLights::new();
    let now = u128::MAX - 50;
    assert_eq!(m.poll(&mut lights, &at(now)), Err(TimeError::Overflow));
    assert_eq!(lights.get_state(LightId::One), OnOff::On);
    assert_eq!(lights.get_state(LightId::Two), OnOff::Off);
    assert_eq!(lights.get_state(LightId::Three), OnOff::Off);
    assert_eq!(m.flasher(0).next_toggle_time().as_nanos(), now + 1);
    assert_eq!(m.flasher(1).next_toggle_time().as_nanos(), 100);
    assert_eq!(m.flasher(2).next_toggle_time().as_nanos(), 1);
}

#[test]
fn sleeping_flasher_wakes_one_sleep_apart_and_alternates() {
    let f = FlashSleep::new(LightId::Three, Duration::from_millis(250));
    assert_eq!(f.light_to_toggle(), LightId::Three);
    assert_eq!(f.sleep_duration().as_nanos(), 250 * MS);
    let mut s = f.start(&at(1000)).unwrap();
    assert_eq!(s.light_to_toggle(), LightId::Three);
    let mut lights = TuiLights::new();
    for k in 0..6u128 {
        assert_eq!(s.next_wakeup_time().as_nanos(), 1000 + (k + 1) * 250 * MS);
        let expected = if k % 2 == 0 { OnOff::On } else { OnOff::Off };
        assert_eq!(s.next_flash_state(), expected);
        assert_eq!(s.wake(&mut lights), Ok(()));
        assert_eq!(lights.get_state(LightId::Three), expected);
        assert_eq!(lights.get_state(LightId::One), OnOff::Off);
    }
}

#[test]
fn sleeping_flasher_start_overflows() {
    let f = FlashSleep::new(LightId::One, Duration::from_nanos(10));
    assert_eq!(f.start(&at(u128::MAX - 3)).err(), Some(TimeError::Overflow));
}

#[test]
fn sleeping_flasher_wake_overflows_without_touching_lights() {
    let f = FlashSleep::new(LightId::Two, Duration::from_nanos(10));
    let mut s = f.start(&at(u128::MAX - 15)).unwrap();
    let mut lights = TuiLights::new();
    assert_eq!(s.wake(&mut lights), Err(TimeError::Overflow));
    assert_eq!(lights.get_state(LightId::Two), OnOff::Off);
    assert_eq!(s.next_wakeup_time().as_nanos(), u128::MAX - 5);
    assert_eq!(s.next_flash_state(), OnOff::On);
}

#[test]
fn many_poll_round_before_anything_is_due_changes_nothing() {
    let mut b = ManyPollBuilder::new();
    b.add_flasher(Duration::from_millis(250), LightId::One);
    b.add_flasher(Duration::from_millis(500), LightId::Two);
    let mut m = b.init(&at(0)).unwrap();
    let mut lights = TuiLights::new();
    lights.set_state(LightId::Two, OnOff::On);
    assert_eq!(m.poll(&mut lights, &at(100 * MS)), Ok(()));
    assert_eq!(lights.get_state(LightId::One), OnOff::Off);
    assert_eq!(lights.get_state(LightId::Two), OnOff::On);
    assert_eq!(m.flasher(0).next_toggle_time().as_nanos(), 250 * MS);
    assert_eq!(m.flasher(1).next_toggle_time().as_nanos(), 500 * MS);
    assert_eq!(m.flasher(0).next_flash_state(), OnOff::On);
}

#[test]
fn new_flasher_alternates_over_a_sequence_of_polls() {
    let start = 7 * MS;
    let mut f = FlashPolled::new(&at(start));
    let mut lights = TuiLights::new();
    let mut expected = OnOff::On;
    let mut last_toggle: Option<u128> = None;
    let mut toggles = 0u128;
    let mut now = start;
    while toggles < 6 {
        now += 300 * MS;
        let before = f.next_toggle_time().as_nanos();
        assert_eq!(f.poll(&mut lights, &at(now)), Ok(()));
        if now >= before {
            assert_eq!(lights.get_state(LightId::One), expected);
            assert!(now >= start + (toggles + 1) * SEC);
            if let Some(prev) = last_toggle {
                assert!(now >= prev + SEC);
            }
            last_toggle = Some(now);
            expected = expected.other();
            toggles += 1;
        } else if toggles == 0 {
            assert_eq!(lights.get_state(LightId::One), OnOff::Off);
        }
        for other in [LightId::Two, LightId::Three, LightId::Four, LightId::Five] {
            assert_eq!(lights.get_state(other), OnOff::Off);
        }
    }
}
