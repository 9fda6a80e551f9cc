use corallium_config::input::{
    InputManager, FAST_REPEAT_INTERVAL, REPEAT_DELAY, REPEAT_INTERVAL,
};
use corallium_config::timing::DirectionTimer;

fn step(timer: &mut DirectionTimer, down: bool, now: u64) -> bool {
    InputManager::process_direction(timer, down, now, REPEAT_DELAY, REPEAT_INTERVAL)
}

#[test]
fn first_press_fires_immediately() {
    let mut t = DirectionTimer::default();
    assert!(step(&mut t, true, 1_000));
    assert_eq!(t, DirectionTimer { is_held: true, press_time: 1_000, last_repeat: 1_000 });
}

#[test]
fn hold_waits_for_delay_then_repeats() {
    let mut t = DirectionTimer::default();
    assert!(step(&mut t, true, 0));
    assert!(!step(&mut t, true, 100_000));
    assert!(!step(&mut t, true, 279_999));
    assert!(step(&mut t, true, 280_000));
    assert_eq!(t.last_repeat, 280_000);
    assert_eq!(t.press_time, 0);
    assert!(!step(&mut t, true, 379_999));
    assert!(step(&mut t, true, 380_000));
    assert!(!step(&mut t, true, 380_000));
}

#[test]
fn release_clears_hold_and_repress_fires() {
    let mut t = DirectionTimer::default();
    assert!(step(&mut t, true, 0));
    assert!(!step(&mut t, false, 10));
    assert!(!t.is_held);
    assert!(!step(&mut t, false, 20));
    assert!(step(&mut t, true, 30));
    assert_eq!(t.press_time, 30);
}

#[test]
fn time_going_back_does_not_fire() {
    let mut t = DirectionTimer { is_held: true, press_time: 500_000, last_repeat: 500_000 };
    assert!(!step(&mut t, true, 100));
    assert_eq!(t, DirectionTimer { is_held: true, press_time: 500_000, last_repeat: 500_000 });
}

#[test]
fn zero_delay_and_interval_fire_every_frame() {
    let mut t = DirectionTimer::default();
    assert!(InputManager::process_direction(&mut t, true, 5, 0, 0));
    assert!(InputManager::process_direction(&mut t, true, 5, 0, 0));
    assert!(InputManager::process_direction(&mut t, true, 6, 0, 0));
}

#[test]
fn held_firings_are_spaced_by_interval() {
    let mut t = DirectionTimer::default();
    let mut fired_at = Vec::new();
    let mut now = 0u64;
    while now <= 1_000_000 {
        if step(&mut t, true, now) {
            fired_at.push(now);
        }
        now += 16_667;
    }
    assert_eq!(fired_at[0], 0);
    for w in fired_at.windows(2) {
        assert!(w[1] - w[0] >= REPEAT_INTERVAL);
    }
    for &f in &fired_at[1..] {
        assert!(f >= REPEAT_DELAY);
    }
    assert!(fired_at.len() >= 2);
}

#[test]
fn volume_ramp_interval_is_faster() {
    let mut t = DirectionTimer::default();
    let step_fast = |t: &mut DirectionTimer, now: u64| {
        InputManager::process_direction(t, true, now, REPEAT_DELAY, FAST_REPEAT_INTERVAL)
    };
    assert!(step_fast(&mut t, 0));
    assert!(step_fast(&mut t, 280_000));
    assert!(!step_fast(&mut t, 339_999));
    assert!(step_fast(&mut t, 340_000));
}
