//! The menu of the configuration screen: which option is selected, the
//! volume, and what one frame of input does to them.
use vstd::prelude::*;
use crate::input::{
    Direction, InputManager, trigger_step, confirm_pressed, direction_held, timer_of,
    STICK_DEADZONE, REPEAT_DELAY, REPEAT_INTERVAL, FAST_REPEAT_INTERVAL,
};

verus! {

/// Number of menu options, from top to bottom: quit, volume, shutdown, reset.
pub const OPTION_COUNT: u32 = 4;

/// Leave the screen (exit status 0).
pub const OPTION_QUIT: u32 = 0;

/// Adjust the volume with left and right.
pub const OPTION_VOLUME: u32 = 1;

/// Shut the machine down.
pub const OPTION_SHUTDOWN: u32 = 2;

/// Leave the screen asking for a reset (exit status 4).
pub const OPTION_RESET: u32 = 3;

/// Volume, in percent, when the audio device cannot be read.
pub const DEFAULT_VOLUME: u8 = 50;

/// Volume change, in percent, of one left or right step.
pub const VOLUME_STEP: u8 = 5;

/// Highest volume, in percent, that a right step reaches.
pub const MAX_VOLUME: u8 = 100;

/// Exit status of the quit option.
pub const QUIT_EXIT_CODE: i32 = 0;

/// Exit status of the reset option.
pub const RESET_EXIT_CODE: i32 = 4;

/// The menu's state between frames.
#[derive(Clone, Copy, Debug, PartialEq, Eq, Structural)]
pub struct MenuState {
    /// The selected option, `0..OPTION_COUNT`.
    pub selected: u32,
    /// Output volume in percent.
    pub volume_percent: u8,
}

/// What the program is to do after a frame.
#[derive(Clone, Copy, Debug, PartialEq, Eq, Structural)]
pub enum MenuAction {
    /// Keep running.
    Stay,
    /// Exit with status 0.
    Quit,
    /// Shut the machine down and stop.
    Shutdown,
    /// Exit with status 4.
    Reset,
}

/// The exit status that an action ends the program with, if it exits.
pub open spec fn exit_code_of(action: MenuAction) -> Option<i32> {
    match action {
        MenuAction::Quit => Some(QUIT_EXIT_CODE),
        MenuAction::Reset => Some(RESET_EXIT_CODE),
        _ => None,
    }
}

/// The option below `sel`, wrapping from the last to the first.
pub open spec fn option_below(sel: u32) -> u32 {
    ((sel + 1) % (OPTION_COUNT as int)) as u32
}

/// The option above `sel`, wrapping from the first to the last.
pub open spec fn option_above(sel: u32) -> u32 {
    ((sel + 3) % (OPTION_COUNT as int)) as u32
}

/// One step down in volume, not below 0.
pub open spec fn volume_lowered(v: u8) -> u8 {
    if v < VOLUME_STEP {
        0
    } else {
        (v - VOLUME_STEP) as u8
    }
}

/// One step up in volume, not above `MAX_VOLUME`.
pub open spec fn volume_raised(v: u8) -> u8 {
    if v + VOLUME_STEP >= MAX_VOLUME {
        MAX_VOLUME
    } else {
        (v + VOLUME_STEP) as u8
    }
}

/// One frame of the menu at time `now`: the new state, the input manager
/// afterwards, and the action.
///
/// Down moves the selection down and up moves it up (both wrap); then the
/// selected option acts: quit, shutdown and reset on confirm; the volume
/// option lowers the volume when left fires and raises it when right fires.
/// Left and right are only consulted while the volume option is selected.
pub open spec fn menu_frame(state: MenuState, input: InputManager, now: u64) -> (
    MenuState,
    InputManager,
    MenuAction,
) {
    let (in1, down) = trigger_step(input, Direction::Down, now);
    let s1 = if down {
        option_below(state.selected)
    } else {
        state.selected
    };
    let (in2, up) = trigger_step(in1, Direction::Up, now);
    let sel = if up {
        option_above(s1)
    } else {
        s1
    };
    let confirm = confirm_pressed(in2.frame);
    if sel == OPTION_QUIT {
        (
            MenuState { selected: sel, ..state },
            in2,
            if confirm {
                MenuAction::Quit
            } else {
                MenuAction::Stay
            },
        )
    } else if sel == OPTION_VOLUME {
        let (in3, left) = trigger_step(in2, Direction::Left, now);
        let v1 = if left {
            volume_lowered(state.volume_percent)
        } else {
            state.volume_percent
        };
        let (in4, right) = trigger_step(in3, Direction::Right, now);
        let v2 = if right {
            volume_raised(v1)
        } else {
            v1
        };
        (MenuState { selected: sel, volume_percent: v2 }, in4, MenuAction::Stay)
    } else if sel == OPTION_SHUTDOWN {
        (
            MenuState { selected: sel, ..state },
            in2,
            if confirm {
                MenuAction::Shutdown
            } else {
                MenuAction::Stay
            },
        )
    } else if sel == OPTION_RESET {
        (
            MenuState { selected: sel, ..state },
            in2,
            if confirm {
                MenuAction::Reset
            } else {
                MenuAction::Stay
            },
        )
    } else {
        (MenuState { selected: sel, ..state }, in2, MenuAction::Stay)
    }
}

impl MenuAction {
    /// The exit status this action ends the program with: 0 for quit, 4 for
    /// reset, none for the others.
    pub fn exit_code(&self) -> (code: Option<i32>)
        ensures
            code == exit_code_of(*self),
    {
        match self {
            MenuAction::Quit => Some(QUIT_EXIT_CODE),
            MenuAction::Reset => Some(RESET_EXIT_CODE),
            _ => None,
        }
    }
}

impl MenuState {
    /// The menu at start-up: the first option selected, the volume read from
    /// the audio device, or `DEFAULT_VOLUME` when there is none to read.
    pub fn new(device_volume: Option<u8>) -> (state: Self)
        ensures
            state.selected == OPTION_QUIT,
            state.volume_percent == match device_volume {
                Some(v) => v,
                None => DEFAULT_VOLUME,
            },
    {
        let volume_percent = match device_volume {
            Some(v) => v,
            None => DEFAULT_VOLUME,
        };
        MenuState { selected: OPTION_QUIT, volume_percent }
    }

    /// Moves the selection one option down, wrapping to the top.
    pub fn select_below(&mut self)
        ensures
            *final(self) == (MenuState { selected: option_below(old(self).selected), ..*old(self) }),
    {
        self.selected = (self.selected % OPTION_COUNT + 1) % OPTION_COUNT;
    }

    /// Moves the selection one option up, wrapping to the bottom.
    pub fn select_above(&mut self)
        ensures
            *final(self) == (MenuState { selected: option_above(old(self).selected), ..*old(self) }),
    {
        self.selected = (self.selected % OPTION_COUNT + 3) % OPTION_COUNT;
    }

    /// Lowers the volume one step, stopping at 0.
    pub fn lower_volume(&mut self)
        ensures
            *final(self) == (MenuState {
                volume_percent: volume_lowered(old(self).volume_percent),
                ..*old(self)
            }),
    {
        if self.volume_percent < VOLUME_STEP {
            self.volume_percent = 0;
        } else {
            self.volume_percent = self.volume_percent - VOLUME_STEP;
        }
    }

    /// Raises the volume one step, stopping at `MAX_VOLUME`.
    pub fn raise_volume(&mut self)
        ensures
            *final(self) == (MenuState {
                volume_percent: volume_raised(old(self).volume_percent),
                ..*old(self)
            }),
    {
        if self.volume_percent >= MAX_VOLUME - VOLUME_STEP {
            self.volume_percent = MAX_VOLUME;
        } else {
            self.volume_percent = self.volume_percent + VOLUME_STEP;
        }
    }

    /// Runs one frame of the menu: navigation first, then the selected
    /// option's action.
    pub fn update(&mut self, input: &mut InputManager, current_time: u64) -> (action: MenuAction)
        ensures
            (*final(self), *final(input), action) == menu_frame(*old(self), *old(input), current_time),
    {
        if input.is_down_triggered(current_time) {
            self.select_below();
        }
        if input.is_up_triggered(current_time) {
            self.select_above();
        }
        if self.selected == OPTION_QUIT {
            if input.is_enter_pressed() {
                MenuAction::Quit
            } else {
                MenuAction::Stay
            }
        } else if self.selected == OPTION_VOLUME {
            if input.is_left_triggered(current_time) {
                self.lower_volume();
            }
            if input.is_right_triggered(current_time) {
                self.raise_volume();
            }
            MenuAction::Stay
        } else if self.selected == OPTION_SHUTDOWN {
            if input.is_enter_pressed() {
                MenuAction::Shutdown
            } else {
                MenuAction::Stay
            }
        } else if self.selected == OPTION_RESET {
            if input.is_enter_pressed() {
                MenuAction::Reset
            } else {
                MenuAction::Stay
            }
        } else {
            MenuAction::Stay
        }
    }
}

/// Moving down and then up, or up and then down, returns to the same option.
pub proof fn law_navigation_inverse(sel: u32)
    requires
        sel < OPTION_COUNT,
    ensures
        option_above(option_below(sel)) == sel,
        option_below(option_above(sel)) == sel,
{
}

/// Four steps down, or four steps up, come back to the same option.
pub proof fn law_navigation_cycles(sel: u32)
    requires
        sel < OPTION_COUNT,
    ensures
        option_below(option_below(option_below(option_below(sel)))) == sel,
        option_above(option_above(option_above(option_above(sel)))) == sel,
{
}

/// A step down and a step up in volume undo each other away from the ends.
pub proof fn law_volume_steps_inverse(v: u8)
    ensures
        VOLUME_STEP <= v <= MAX_VOLUME ==> volume_raised(volume_lowered(v)) == v,
        v <= MAX_VOLUME - VOLUME_STEP ==> volume_lowered(volume_raised(v)) == v,
{
}

/// A frame keeps the selection among the options.
pub proof fn law_selection_stays_valid(state: MenuState, input: InputManager, now: u64)
    requires
        state.selected < OPTION_COUNT,
    ensures
        menu_frame(state, input, now).0.selected < OPTION_COUNT,
{
}

/// A frame keeps the volume within `0..=MAX_VOLUME`.
pub proof fn law_volume_stays_in_range(state: MenuState, input: InputManager, now: u64)
    requires
        state.volume_percent <= MAX_VOLUME,
    ensures
        menu_frame(state, input, now).0.volume_percent <= MAX_VOLUME,
{
}

/// The volume changes only in a frame that ends on the volume option.
pub proof fn law_volume_changes_only_on_volume_option(
    state: MenuState,
    input: InputManager,
    now: u64,
)
    ensures
        menu_frame(state, input, now).0.volume_percent != state.volume_percent
            ==> menu_frame(state, input, now).0.selected == OPTION_VOLUME,
{
}

/// A frame leaves the input of the frame and the input settings alone; it
/// only advances timers.
pub proof fn law_frame_keeps_input(state: MenuState, input: InputManager, now: u64)
    ensures
        menu_frame(state, input, now).1.frame == input.frame,
        menu_frame(state, input, now).1.deadzone == input.deadzone,
        menu_frame(state, input, now).1.repeat_delay == input.repeat_delay,
        menu_frame(state, input, now).1.repeat_interval == input.repeat_interval,
{
}

/// Only a confirm press ends the program, and it does what the selected
/// option says: quit on the first, shutdown on the third, reset on the last.
pub proof fn law_actions_need_confirm(state: MenuState, input: InputManager, now: u64)
    ensures
        menu_frame(state, input, now).2 != MenuAction::Stay ==> confirm_pressed(input.frame),
        menu_frame(state, input, now).2 == MenuAction::Quit ==> menu_frame(state, input, now).0.selected
            == OPTION_QUIT,
        menu_frame(state, input, now).2 == MenuAction::Shutdown ==> menu_frame(
            state,
            input,
            now,
        ).0.selected == OPTION_SHUTDOWN,
        menu_frame(state, input, now).2 == MenuAction::Reset ==> menu_frame(state, input, now).0.selected
            == OPTION_RESET,
        confirm_pressed(input.frame) && menu_frame(state, input, now).0.selected != OPTION_VOLUME
            && menu_frame(state, input, now).0.selected < OPTION_COUNT ==> menu_frame(
            state,
            input,
            now,
        ).2 != MenuAction::Stay,
{
}

/// A frame with no direction held and no confirm press changes neither the
/// selection nor the volume, and asks for nothing.
pub proof fn law_idle_frame(state: MenuState, input: InputManager, now: u64)
    requires
        !direction_held(input.frame, Direction::Up, input.deadzone as int),
        !direction_held(input.frame, Direction::Down, input.deadzone as int),
        !direction_held(input.frame, Direction::Left, input.deadzone as int),
        !direction_held(input.frame, Direction::Right, input.deadzone as int),
        !confirm_pressed(input.frame),
    ensures
        menu_frame(state, input, now).0 == state,
        menu_frame(state, input, now).2 == MenuAction::Stay,
{
}

/// A fresh press of down alone moves the selection one option down.
pub proof fn law_fresh_down_press_moves_down(state: MenuState, input: InputManager, now: u64)
    requires
        direction_held(input.frame, Direction::Down, input.deadzone as int),
        !timer_of(input, Direction::Down).is_held,
        !direction_held(input.frame, Direction::Up, input.deadzone as int),
    ensures
        menu_frame(state, input, now).0.selected == option_below(state.selected),
{
}

/// A fresh press of up alone moves the selection one option up.
pub proof fn law_fresh_up_press_moves_up(state: MenuState, input: InputManager, now: u64)
    requires
        direction_held(input.frame, Direction::Up, input.deadzone as int),
        !timer_of(input, Direction::Up).is_held,
        !direction_held(input.frame, Direction::Down, input.deadzone as int),
    ensures
        menu_frame(state, input, now).0.selected == option_above(state.selected),
{
}

/// The option below is the next one down, the last wrapping to the first;
/// the option above is the previous one, the first wrapping to the last.
pub proof fn law_option_order(sel: u32)
    requires
        sel < OPTION_COUNT,
    ensures
        option_below(sel) == (if sel == 3 {
            0
        } else {
            sel + 1
        }),
        option_above(sel) == (if sel == 0 {
            3
        } else {
            sel - 1
        }),
{
}

/// Any selection value moves as its remainder by the option count does,
/// and lands on an option.
pub proof fn law_option_wraps_any_value(sel: u32)
    ensures
        option_below(sel) == option_below(sel % OPTION_COUNT),
        option_above(sel) == option_above(sel % OPTION_COUNT),
        option_below(sel) < OPTION_COUNT,
        option_above(sel) < OPTION_COUNT,
{
}

/// The screen's settings: half volume when the device cannot be read, a
/// 280 ms hold before repeating, 100 ms between up/down repeats (10 steps a
/// second), 60 ms between volume steps, and a stick deadzone of 45 percent.
pub proof fn law_settings()
    ensures
        DEFAULT_VOLUME == 50,
        REPEAT_DELAY == 280_000,
        REPEAT_INTERVAL == 100_000,
        FAST_REPEAT_INTERVAL == 60_000,
        STICK_DEADZONE == 450_000,
{
}

/// A step down lowers the volume by five points, stopping at 0; a step up
/// raises it by five points, stopping at 100.
pub proof fn law_volume_step_sizes(v: u8)
    ensures
        v >= 5 ==> volume_lowered(v) == v - 5,
        v < 5 ==> volume_lowered(v) == 0,
        v <= 95 ==> volume_raised(v) == v + 5,
        v > 95 ==> volume_raised(v) == 100,
{
}

/// The selection after a frame follows the firings of down and up in that
/// frame: down alone moves it down, up alone moves it up, both or neither
/// leave it where it was. A held direction moves it on every repeat, not
/// only on the first press.
pub proof fn law_frame_selection(state: MenuState, input: InputManager, now: u64)
    ensures
        ({
            let (in1, down) = trigger_step(input, Direction::Down, now);
            let (in2, up) = trigger_step(in1, Direction::Up, now);
            let sel = menu_frame(state, input, now).0.selected;
            &&& down && !up ==> sel == option_below(state.selected)
            &&& up && !down ==> sel == option_above(state.selected)
            &&& !down && !up ==> sel == state.selected
            &&& down && up && state.selected < OPTION_COUNT ==> sel == state.selected
        }),
{
    if state.selected < OPTION_COUNT {
        law_navigation_inverse(state.selected);
    }
}

/// On the volume option, a frame lowers the volume by five points (not
/// below 0) when left fires and then raises it by five points (not above
/// 100) when right fires; on any other option the volume stays, and left
/// and right are not consulted.
pub proof fn law_frame_volume(state: MenuState, input: InputManager, now: u64)
    ensures
        ({
            let (in1, down) = trigger_step(input, Direction::Down, now);
            let (in2, up) = trigger_step(in1, Direction::Up, now);
            let (in3, left) = trigger_step(in2, Direction::Left, now);
            let (in4, right) = trigger_step(in3, Direction::Right, now);
            let r = menu_frame(state, input, now);
            let v = state.volume_percent as int;
            let lowered = if left {
                if v >= 5 {
                    v - 5
                } else {
                    0
                }
            } else {
                v
            };
            let raised = if right {
                if lowered + 5 >= 100 {
                    100
                } else {
                    lowered + 5
                }
            } else {
                lowered
            };
            &&& r.0.selected == OPTION_VOLUME ==> r.0.volume_percent == raised && r.1 == in4
            &&& r.0.selected != OPTION_VOLUME ==> r.0.volume_percent == state.volume_percent
                && r.1 == in2
        }),
{
}

/// A frame quits exactly when it ends on the first option with confirm
/// pressed, shuts down exactly when it ends on the third, resets exactly
/// when it ends on the last, and otherwise stays.
pub proof fn law_frame_action(state: MenuState, input: InputManager, now: u64)
    ensures
        ({
            let r = menu_frame(state, input, now);
            let confirm = confirm_pressed(input.frame);
            &&& (r.2 == MenuAction::Quit) == (r.0.selected == 0 && confirm)
            &&& (r.2 == MenuAction::Shutdown) == (r.0.selected == 2 && confirm)
            &&& (r.2 == MenuAction::Reset) == (r.0.selected == 3 && confirm)
        }),
{
}

/// Quit exits with status 0, reset with status 4; shutdown and staying do
/// not exit.
pub proof fn law_exit_codes()
    ensures
        exit_code_of(MenuAction::Quit) == Some(0i32),
        exit_code_of(MenuAction::Reset) == Some(4i32),
        exit_code_of(MenuAction::Shutdown) == None::<i32>,
        exit_code_of(MenuAction::Stay) == None::<i32>,
{
}

} // verus!
