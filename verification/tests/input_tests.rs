use corallium_config::input::{Direction, FrameInput, InputManager, KeyboardState, PadState};

fn no_keys() -> KeyboardState {
    KeyboardState {
        up: false,
        w: false,
        down: false,
        s: false,
        left: false,
        a: false,
        right: false,
        d: false,
        enter_pressed: false,
        space_pressed: false,
    }
}

fn idle_pad() -> PadState {
    PadState {
        dpad_up: false,
        dpad_down: false,
        dpad_left: false,
        dpad_right: false,
        action_down_just_pressed: false,
        stick_x: 0,
        stick_y: 0,
    }
}

fn manager_with(keys: KeyboardState, pads: Vec<PadState>) -> InputManager {
    let mut im = InputManager::new();
    im.poll_frame(FrameInput { keys, pads });
    im
}

#[test]
fn new_manager_has_standard_settings() {
    let im = InputManager::new();
    assert_eq!(im.deadzone, 450_000);
    assert_eq!(im.repeat_delay, 280_000);
    assert_eq!(im.repeat_interval, 100_000);
    assert!(!im.up_timer.is_held);
    assert!(im.frame.pads.is_empty());
}

#[test]
fn wasd_and_arrows_both_count() {
    let mut keys = no_keys();
    keys.w = true;
    keys.right = true;
    let im = manager_with(keys, vec![]);
    assert!(im.is_direction_down(Direction::Up));
    assert!(im.is_direction_down(Direction::Right));
    assert!(!im.is_direction_down(Direction::Down));
    assert!(!im.is_direction_down(Direction::Left));
}

#[test]
fn dpad_of_any_pad_counts() {
    let mut second = idle_pad();
    second.dpad_left = true;
    let im = manager_with(no_keys(), vec![idle_pad(), second]);
    assert!(im.is_direction_down(Direction::Left));
    assert!(!im.is_direction_down(Direction::Right));
}

#[test]
fn stick_must_pass_deadzone() {
    let mut pad = idle_pad();
    pad.stick_y = 450_000;
    pad.stick_x = -450_001;
    let im = manager_with(no_keys(), vec![pad]);
    assert!(!im.is_direction_down(Direction::Up));
    assert!(im.is_direction_down(Direction::Left));
    let mut pad2 = idle_pad();
    pad2.stick_y = -1_000_000;
    let im2 = manager_with(no_keys(), vec![pad2]);
    assert!(im2.is_direction_down(Direction::Down));
    assert!(!im2.is_direction_down(Direction::Up));
}

#[test]
fn confirm_by_enter_space_or_pad() {
    let mut keys = no_keys();
    assert!(!manager_with(keys, vec![idle_pad()]).is_enter_pressed());
    keys.space_pressed = true;
    assert!(manager_with(keys, vec![]).is_enter_pressed());
    let mut pad = idle_pad();
    pad.action_down_just_pressed = true;
    assert!(manager_with(no_keys(), vec![idle_pad(), pad]).is_enter_pressed());
}

#[test]
fn triggers_advance_only_their_timer() {
    let mut keys = no_keys();
    keys.down = true;
    let mut im = manager_with(keys, vec![]);
    assert!(im.is_down_triggered(10));
    assert!(im.down_timer.is_held);
    assert!(!im.is_up_triggered(10));
    assert!(!im.up_timer.is_held);
    assert!(!im.is_down_triggered(20));
    assert!(im.is_down_triggered(280_010));
}

#[test]
fn left_right_repeat_faster_than_up_down() {
    let mut keys = no_keys();
    keys.a = true;
    keys.s = true;
    let mut im = manager_with(keys, vec![]);
    assert!(im.is_left_triggered(0));
    assert!(im.is_down_triggered(0));
    assert!(im.is_left_triggered(280_000));
    assert!(im.is_down_triggered(280_000));
    assert!(im.is_left_triggered(340_000));
    assert!(!im.is_down_triggered(340_000));
    assert!(im.is_down_triggered(380_000));
    assert!(!im.is_right_triggered(380_000));
}
