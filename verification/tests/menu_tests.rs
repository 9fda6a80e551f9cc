use corallium_config::input::{FrameInput, InputManager, KeyboardState};
use corallium_config::menu::{MenuAction, MenuState};

fn keys() -> KeyboardState {
    KeyboardState {
        up: false,
        w: false,
        down: false,
        s: false,
        left: false,
        a: false,
        right: false,
        d: false,
        enter_pressed: false,
        space_pressed: false,
    }
}

fn frame(im: &mut InputManager, k: KeyboardState) {
    im.poll_frame(FrameInput { keys: k, pads: vec![] });
}

#[test]
fn start_volume_from_device_or_default() {
    assert_eq!(MenuState::new(None), MenuState { selected: 0, volume_percent: 50 });
    assert_eq!(MenuState::new(Some(37)), MenuState { selected: 0, volume_percent: 37 });
}

#[test]
fn navigation_wraps_both_ways() {
    let mut s = MenuState::new(None);
    s.select_above();
    assert_eq!(s.selected, 3);
    s.select_below();
    assert_eq!(s.selected, 0);
    for _ in 0..4 {
        s.select_below();
    }
    assert_eq!(s.selected, 0);
}

#[test]
fn volume_steps_clamp() {
    let mut s = MenuState::new(Some(3));
    s.lower_volume();
    assert_eq!(s.volume_percent, 0);
    s.lower_volume();
    assert_eq!(s.volume_percent, 0);
    let mut t = MenuState::new(Some(97));
    t.raise_volume();
    assert_eq!(t.volume_percent, 100);
    let mut u = MenuState::new(Some(200));
    u.raise_volume();
    assert_eq!(u.volume_percent, 100);
    let mut v = MenuState::new(Some(40));
    v.raise_volume();
    v.lower_volume();
    assert_eq!(v.volume_percent, 40);
}

#[test]
fn exit_codes_of_actions() {
    assert_eq!(MenuAction::Quit.exit_code(), Some(0));
    assert_eq!(MenuAction::Reset.exit_code(), Some(4));
    assert_eq!(MenuAction::Shutdown.exit_code(), None);
    assert_eq!(MenuAction::Stay.exit_code(), None);
}

#[test]
fn confirm_on_first_option_quits() {
    let mut s = MenuState::new(None);
    let mut im = InputManager::new();
    let mut k = keys();
    k.enter_pressed = true;
    frame(&mut im, k);
    assert_eq!(s.update(&mut im, 0), MenuAction::Quit);
}

#[test]
fn down_then_confirm_walks_the_options() {
    let mut s = MenuState::new(None);
    let mut im = InputManager::new();
    let mut k = keys();
    k.down = true;
    frame(&mut im, k);
    assert_eq!(s.update(&mut im, 0), MenuAction::Stay);
    assert_eq!(s.selected, 1);
    frame(&mut im, keys());
    assert_eq!(s.update(&mut im, 16_000), MenuAction::Stay);
    frame(&mut im, k);
    assert_eq!(s.update(&mut im, 32_000), MenuAction::Stay);
    assert_eq!(s.selected, 2);
    let mut c = keys();
    c.space_pressed = true;
    frame(&mut im, c);
    assert_eq!(s.update(&mut im, 48_000), MenuAction::Shutdown);
    frame(&mut im, keys());
    s.update(&mut im, 64_000);
    frame(&mut im, k);
    s.update(&mut im, 80_000);
    assert_eq!(s.selected, 3);
    frame(&mut im, c);
    assert_eq!(s.update(&mut im, 96_000), MenuAction::Reset);
}

#[test]
fn up_from_first_option_goes_to_last() {
    let mut s = MenuState::new(None);
    let mut im = InputManager::new();
    let mut k = keys();
    k.up = true;
    frame(&mut im, k);
    s.update(&mut im, 0);
    assert_eq!(s.selected, 3);
}

#[test]
fn left_and_right_adjust_volume_on_volume_option() {
    let mut s = MenuState { selected: 1, volume_percent: 50 };
    let mut im = InputManager::new();
    let mut k = keys();
    k.left = true;
    frame(&mut im, k);
    assert_eq!(s.update(&mut im, 0), MenuAction::Stay);
    assert_eq!(s.volume_percent, 45);
    s.update(&mut im, 100_000);
    assert_eq!(s.volume_percent, 45);
    s.update(&mut im, 280_000);
    assert_eq!(s.volume_percent, 40);
    s.update(&mut im, 340_000);
    assert_eq!(s.volume_percent, 35);
    let mut r = keys();
    r.right = true;
    frame(&mut im, r);
    s.update(&mut im, 350_000);
    assert_eq!(s.volume_percent, 40);
    assert!(!im.left_timer.is_held);
}

#[test]
fn left_right_ignored_off_volume_option() {
    let mut s = MenuState { selected: 0, volume_percent: 50 };
    let mut im = InputManager::new();
    let mut k = keys();
    k.left = true;
    frame(&mut im, k);
    assert_eq!(s.update(&mut im, 0), MenuAction::Stay);
    assert_eq!(s.volume_percent, 50);
    assert!(!im.left_timer.is_held);
}

#[test]
fn confirm_on_volume_option_does_nothing() {
    let mut s = MenuState { selected: 1, volume_percent: 50 };
    let mut im = InputManager::new();
    let mut k = keys();
    k.enter_pressed = true;
    frame(&mut im, k);
    assert_eq!(s.update(&mut im, 0), MenuAction::Stay);
    assert_eq!(s, MenuState { selected: 1, volume_percent: 50 });
}

#[test]
fn idle_frame_changes_nothing() {
    let mut s = MenuState { selected: 2, volume_percent: 70 };
    let mut im = InputManager::new();
    frame(&mut im, keys());
    assert_eq!(s.update(&mut im, 5), MenuAction::Stay);
    assert_eq!(s, MenuState { selected: 2, volume_percent: 70 });
}
