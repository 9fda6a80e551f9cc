//! Directional and confirm input of one frame, and the repeat timers that
//! turn held directions into discrete steps.
//!
//! Stick positions are in millionths of full deflection, times in
//! microseconds.
use vstd::prelude::*;
use crate::timing::{DirectionTimer, direction_step, released_timer};

verus! {

/// Stick deflection, in millionths, that a stick must exceed to count as a
/// direction (keeps a drifting stick from moving the selection).
pub const STICK_DEADZONE: i32 = 450_000;

/// Hold time, in microseconds, before a held direction starts to repeat.
pub const REPEAT_DELAY: u64 = 280_000;

/// Time, in microseconds, between repeats of up and down.
pub const REPEAT_INTERVAL: u64 = 100_000;

/// Time, in microseconds, between repeats of left and right (the volume ramp).
pub const FAST_REPEAT_INTERVAL: u64 = 60_000;

/// The four directions of the menu.
#[derive(Clone, Copy, Debug, PartialEq, Eq, Structural)]
pub enum Direction {
    Up,
    Down,
    Left,
    Right,
}

/// What one gamepad reports in a frame.
#[derive(Clone, Copy, Debug, PartialEq, Eq, Structural)]
pub struct PadState {
    pub dpad_up: bool,
    pub dpad_down: bool,
    pub dpad_left: bool,
    pub dpad_right: bool,
    /// The lowest button of the right cluster went down this frame.
    pub action_down_just_pressed: bool,
    /// Left stick, millionths of full deflection; negative is left.
    pub stick_x: i32,
    /// Left stick, millionths of full deflection; negative is down.
    pub stick_y: i32,
}

/// The keyboard in a frame: the keys that are down, and the confirm keys
/// that went down this frame.
#[derive(Clone, Copy, Debug, PartialEq, Eq, Structural)]
pub struct KeyboardState {
    pub up: bool,
    pub w: bool,
    pub down: bool,
    pub s: bool,
    pub left: bool,
    pub a: bool,
    pub right: bool,
    pub d: bool,
    pub enter_pressed: bool,
    pub space_pressed: bool,
}

/// Everything the menu reads of its input devices in one frame.
#[derive(Debug)]
pub struct FrameInput {
    pub keys: KeyboardState,
    pub pads: Vec<PadState>,
}

pub open spec fn no_keys() -> KeyboardState {
    KeyboardState {
        up: false,
        w: false,
        down: false,
        s: false,
        left: false,
        a: false,
        right: false,
        d: false,
        enter_pressed: false,
        space_pressed: false,
    }
}

/// The keyboard holds `dir`: its arrow key or its WASD key is down.
pub open spec fn key_holds(keys: KeyboardState, dir: Direction) -> bool {
    match dir {
        Direction::Up => keys.up || keys.w,
        Direction::Down => keys.down || keys.s,
        Direction::Left => keys.left || keys.a,
        Direction::Right => keys.right || keys.d,
    }
}

/// The pad's D-pad holds `dir`.
pub open spec fn dpad_holds(pad: PadState, dir: Direction) -> bool {
    match dir {
        Direction::Up => pad.dpad_up,
        Direction::Down => pad.dpad_down,
        Direction::Left => pad.dpad_left,
        Direction::Right => pad.dpad_right,
    }
}

/// The pad's left stick is pushed past `deadzone` towards `dir`.
pub open spec fn stick_holds(pad: PadState, dir: Direction, deadzone: int) -> bool {
    match dir {
        Direction::Up => pad.stick_y > deadzone,
        Direction::Down => pad.stick_y < -deadzone,
        Direction::Left => pad.stick_x < -deadzone,
        Direction::Right => pad.stick_x > deadzone,
    }
}

/// Some gamepad holds `dir`, by D-pad or by stick.
pub open spec fn pad_holds(pad: PadState, dir: Direction, deadzone: int) -> bool {
    dpad_holds(pad, dir) || stick_holds(pad, dir, deadzone)
}

/// `dir` is held in this frame: by the keyboard, or by any gamepad's D-pad
/// or left stick.
pub open spec fn direction_held(frame: FrameInput, dir: Direction, deadzone: int) -> bool {
    ||| key_holds(frame.keys, dir)
    ||| exists|i: int| 0 <= i < frame.pads@.len() && #[trigger] pad_holds(frame.pads@[i], dir, deadzone)
}

/// Confirm was pressed in this frame: Enter, Space, or any gamepad's lowest
/// right-cluster button.
pub open spec fn confirm_pressed(frame: FrameInput) -> bool {
    ||| frame.keys.enter_pressed
    ||| frame.keys.space_pressed
    ||| exists|i: int| 0 <= i < frame.pads@.len() && #[trigger] frame.pads@[i].action_down_just_pressed
}

/// Reads the input of each frame and debounces the four directions.
#[derive(Debug)]
pub struct InputManager {
    /// The input read at the start of the current frame.
    pub frame: FrameInput,
    pub deadzone: i32,
    pub repeat_delay: u64,
    pub repeat_interval: u64,
    pub up_timer: DirectionTimer,
    pub down_timer: DirectionTimer,
    pub left_timer: DirectionTimer,
    pub right_timer: DirectionTimer,
}

/// The timer that belongs to `dir`.
pub open spec fn timer_of(im: InputManager, dir: Direction) -> DirectionTimer {
    match dir {
        Direction::Up => im.up_timer,
        Direction::Down => im.down_timer,
        Direction::Left => im.left_timer,
        Direction::Right => im.right_timer,
    }
}

/// `im` with the timer of `dir` replaced.
pub open spec fn with_timer(im: InputManager, dir: Direction, t: DirectionTimer) -> InputManager {
    match dir {
        Direction::Up => InputManager { up_timer: t, ..im },
        Direction::Down => InputManager { down_timer: t, ..im },
        Direction::Left => InputManager { left_timer: t, ..im },
        Direction::Right => InputManager { right_timer: t, ..im },
    }
}

/// The repeat interval of `dir`: up and down step at the configured rate,
/// left and right at the faster volume-ramp rate.
pub open spec fn interval_of(im: InputManager, dir: Direction) -> u64 {
    match dir {
        Direction::Up | Direction::Down => im.repeat_interval,
        Direction::Left | Direction::Right => FAST_REPEAT_INTERVAL,
    }
}

/// Asking whether `dir` fires at `now`: the manager afterwards, and the answer.
pub open spec fn trigger_step(im: InputManager, dir: Direction, now: u64) -> (InputManager, bool) {
    let step = direction_step(
        timer_of(im, dir),
        direction_held(im.frame, dir, im.deadzone as int),
        now,
        im.repeat_delay,
        interval_of(im, dir),
    );
    (with_timer(im, dir, step.0), step.1)
}

fn pad_holds_exec(pad: &PadState, dir: Direction, deadzone: i32) -> (r: bool)
    ensures
        r == pad_holds(*pad, dir, deadzone as int),
{
    let dz: i64 = deadzone as i64;
    let x: i64 = pad.stick_x as i64;
    let y: i64 = pad.stick_y as i64;
    match dir {
        Direction::Up => pad.dpad_up || y > dz,
        Direction::Down => pad.dpad_down || y < -dz,
        Direction::Left => pad.dpad_left || x < -dz,
        Direction::Right => pad.dpad_right || x > dz,
    }
}

impl InputManager {
    /// A manager with the standard deadzone and repeat timing, no direction
    /// held and no input read yet.
    pub fn new() -> (im: Self)
        ensures
            im.deadzone == STICK_DEADZONE,
            im.repeat_delay == REPEAT_DELAY,
            im.repeat_interval == REPEAT_INTERVAL,
            im.up_timer == released_timer(),
            im.down_timer == released_timer(),
            im.left_timer == released_timer(),
            im.right_timer == released_timer(),
            im.frame.keys == no_keys(),
            im.frame.pads@.len() == 0,
    {
        InputManager {
            frame: FrameInput {
                keys: KeyboardState {
                    up: false,
                    w: false,
                    down: false,
                    s: false,
                    left: false,
                    a: false,
                    right: false,
                    d: false,
                    enter_pressed: false,
                    space_pressed: false,
                },
                pads: Vec::new(),
            },
            deadzone: STICK_DEADZONE,
            repeat_delay: REPEAT_DELAY,
            repeat_interval: REPEAT_INTERVAL,
            up_timer: DirectionTimer::default(),
            down_timer: DirectionTimer::default(),
            left_timer: DirectionTimer::default(),
            right_timer: DirectionTimer::default(),
        }
    }

    /// Takes in the input of a new frame; to be called once at the start of
    /// each frame.
    pub fn poll_frame(&mut self, frame: FrameInput)
        ensures
            *final(self) == (InputManager { frame: frame, ..*old(self) }),
    {
        self.frame = frame;
    }

    /// One frame of a direction's repeat timer: fires on the first press,
    /// then, while held, each time `delay` has passed since the press and
    /// `interval` since the last firing; a release clears the hold.
    pub fn process_direction(
        timer: &mut DirectionTimer,
        is_currently_down: bool,
        current_time: u64,
        delay: u64,
        interval: u64,
    ) -> (fired: bool)
        ensures
            (*final(timer), fired) == direction_step(
                *old(timer),
                is_currently_down,
                current_time,
                delay,
                interval,
            ),
    {
        if is_currently_down {
            if !timer.is_held {
                timer.is_held = true;
                timer.press_time = current_time;
                timer.last_repeat = current_time;
                true
            } else {
                // Times that lie ahead of `current_time` count as no time elapsed.
                let held_long_enough = timer.press_time <= current_time
                    && current_time - timer.press_time >= delay;
                let interval_passed = timer.last_repeat <= current_time
                    && current_time - timer.last_repeat >= interval;
                let due = held_long_enough && interval_passed;
                if due {
                    timer.last_repeat = current_time;
                    true
                } else {
                    false
                }
            }
        } else {
            timer.is_held = false;
            false
        }
    }

    /// Whether `dir` is held in the current frame.
    pub fn is_direction_down(&self, dir: Direction) -> (r: bool)
        ensures
            r == direction_held(self.frame, dir, self.deadzone as int),
    {
        let keys = &self.frame.keys;
        let by_key = match dir {
            Direction::Up => keys.up || keys.w,
            Direction::Down => keys.down || keys.s,
            Direction::Left => keys.left || keys.a,
            Direction::Right => keys.right || keys.d,
        };
        if by_key {
            return true;
        }
        let pads = &self.frame.pads;
        let mut i: usize = 0;
        while i < pads.len()
            invariant
                pads@ == self.frame.pads@,
                0 <= i <= pads@.len(),
                forall|j: int| 0 <= j < i ==> !pad_holds(#[trigger] pads@[j], dir, self.deadzone as int),
            decreases pads@.len() - i,
        {
            if pad_holds_exec(&pads[i], dir, self.deadzone) {
                assert(pad_holds(self.frame.pads@[i as int], dir, self.deadzone as int));
                return true;
            }
            i = i + 1;
        }
        false
    }

    fn trigger_exec(&mut self, dir: Direction, current_time: u64) -> (fired: bool)
        ensures
            (*final(self), fired) == trigger_step(*old(self), dir, current_time),
    {
        let down = self.is_direction_down(dir);
        let delay = self.repeat_delay;
        match dir {
            Direction::Up => {
                let interval = self.repeat_interval;
                Self::process_direction(&mut self.up_timer, down, current_time, delay, interval)
            },
            Direction::Down => {
                let interval = self.repeat_interval;
                Self::process_direction(&mut self.down_timer, down, current_time, delay, interval)
            },
            Direction::Left => Self::process_direction(
                &mut self.left_timer,
                down,
                current_time,
                delay,
                FAST_REPEAT_INTERVAL,
            ),
            Direction::Right => Self::process_direction(
                &mut self.right_timer,
                down,
                current_time,
                delay,
                FAST_REPEAT_INTERVAL,
            ),
        }
    }

    /// Whether up fires in this frame (keyboard Up or W, D-pad up, or stick
    /// pushed up past the deadzone), advancing the up timer.
    pub fn is_up_triggered(&mut self, current_time: u64) -> (fired: bool)
        ensures
            (*final(self), fired) == trigger_step(*old(self), Direction::Up, current_time),
    {
        self.trigger_exec(Direction::Up, current_time)
    }

    /// Whether down fires in this frame (keyboard Down or S, D-pad down, or
    /// stick pushed down past the deadzone), advancing the down timer.
    pub fn is_down_triggered(&mut self, current_time: u64) -> (fired: bool)
        ensures
            (*final(self), fired) == trigger_step(*old(self), Direction::Down, current_time),
    {
        self.trigger_exec(Direction::Down, current_time)
    }

    /// Whether left fires in this frame (keyboard Left or A, D-pad left, or
    /// stick pushed left past the deadzone), advancing the left timer at the
    /// faster volume-ramp rate.
    pub fn is_left_triggered(&mut self, current_time: u64) -> (fired: bool)
        ensures
            (*final(self), fired) == trigger_step(*old(self), Direction::Left, current_time),
    {
        self.trigger_exec(Direction::Left, current_time)
    }

    /// Whether right fires in this frame (keyboard Right or D, D-pad right,
    /// or stick pushed right past the deadzone), advancing the right timer at
    /// the faster volume-ramp rate.
    pub fn is_right_triggered(&mut self, current_time: u64) -> (fired: bool)
        ensures
            (*final(self), fired) == trigger_step(*old(self), Direction::Right, current_time),
    {
        self.trigger_exec(Direction::Right, current_time)
    }

    /// Whether confirm was pressed in this frame: Enter, Space, or any
    /// gamepad's lowest right-cluster button.
    pub fn is_enter_pressed(&self) -> (r: bool)
        ensures
            r == confirm_pressed(self.frame),
    {
        if self.frame.keys.enter_pressed || self.frame.keys.space_pressed {
            return true;
        }
        let pads = &self.frame.pads;
        let mut i: usize = 0;
        while i < pads.len()
            invariant
                pads@ == self.frame.pads@,
                0 <= i <= pads@.len(),
                forall|j: int| 0 <= j < i ==> !(#[trigger] pads@[j]).action_down_just_pressed,
            decreases pads@.len() - i,
        {
            if pads[i].action_down_just_pressed {
                assert(self.frame.pads@[i as int].action_down_just_pressed);
                return true;
            }
            i = i + 1;
        }
        false
    }
}

proof fn lemma_pad_witness(frame: FrameInput, dir: Direction, deadzone: int, i: int)
    requires
        0 <= i < frame.pads@.len(),
        pad_holds(frame.pads@[i], dir, deadzone),
    ensures
        direction_held(frame, dir, deadzone),
{
}

/// Each direction is held by its arrow key, by its WASD key, by the D-pad
/// of any gamepad, or by the left stick of any gamepad pushed past the
/// deadzone towards it (up and right positive, down and left negative),
/// and by nothing else.
pub proof fn law_direction_sources(frame: FrameInput, deadzone: int)
    ensures
        frame.keys.up ==> direction_held(frame, Direction::Up, deadzone),
        frame.keys.w ==> direction_held(frame, Direction::Up, deadzone),
        frame.keys.down ==> direction_held(frame, Direction::Down, deadzone),
        frame.keys.s ==> direction_held(frame, Direction::Down, deadzone),
        frame.keys.left ==> direction_held(frame, Direction::Left, deadzone),
        frame.keys.a ==> direction_held(frame, Direction::Left, deadzone),
        frame.keys.right ==> direction_held(frame, Direction::Right, deadzone),
        frame.keys.d ==> direction_held(frame, Direction::Right, deadzone),
        forall|i: int|
            0 <= i < frame.pads@.len() && (#[trigger] frame.pads@[i]).dpad_up ==> direction_held(
                frame,
                Direction::Up,
                deadzone,
            ),
        forall|i: int|
            0 <= i < frame.pads@.len() && (#[trigger] frame.pads@[i]).dpad_down ==> direction_held(
                frame,
                Direction::Down,
                deadzone,
            ),
        forall|i: int|
            0 <= i < frame.pads@.len() && (#[trigger] frame.pads@[i]).dpad_left ==> direction_held(
                frame,
                Direction::Left,
                deadzone,
            ),
        forall|i: int|
            0 <= i < frame.pads@.len() && (#[trigger] frame.pads@[i]).dpad_right ==> direction_held(
                frame,
                Direction::Right,
                deadzone,
            ),
        forall|i: int|
            0 <= i < frame.pads@.len() && (#[trigger] frame.pads@[i]).stick_y > deadzone
                ==> direction_held(frame, Direction::Up, deadzone),
        forall|i: int|
            0 <= i < frame.pads@.len() && (#[trigger] frame.pads@[i]).stick_y < -deadzone
                ==> direction_held(frame, Direction::Down, deadzone),
        forall|i: int|
            0 <= i < frame.pads@.len() && (#[trigger] frame.pads@[i]).stick_x < -deadzone
                ==> direction_held(frame, Direction::Left, deadzone),
        forall|i: int|
            0 <= i < frame.pads@.len() && (#[trigger] frame.pads@[i]).stick_x > deadzone
                ==> direction_held(frame, Direction::Right, deadzone),
        direction_held(frame, Direction::Up, deadzone) ==> frame.keys.up || frame.keys.w || exists|
            i: int,
        |
            0 <= i < frame.pads@.len() && ((#[trigger] frame.pads@[i]).dpad_up || frame.pads@[i].stick_y
                > deadzone),
        direction_held(frame, Direction::Down, deadzone) ==> frame.keys.down || frame.keys.s
            || exists|i: int|
            0 <= i < frame.pads@.len() && ((#[trigger] frame.pads@[i]).dpad_down
                || frame.pads@[i].stick_y < -deadzone),
        direction_held(frame, Direction::Left, deadzone) ==> frame.keys.left || frame.keys.a
            || exists|i: int|
            0 <= i < frame.pads@.len() && ((#[trigger] frame.pads@[i]).dpad_left
                || frame.pads@[i].stick_x < -deadzone),
        direction_held(frame, Direction::Right, deadzone) ==> frame.keys.right || frame.keys.d
            || exists|i: int|
            0 <= i < frame.pads@.len() && ((#[trigger] frame.pads@[i]).dpad_right
                || frame.pads@[i].stick_x > deadzone),
{
    assert forall|i: int|
        0 <= i < frame.pads@.len() && (#[trigger] frame.pads@[i]).dpad_up implies direction_held(
        frame,
        Direction::Up,
        deadzone,
    ) by {
        lemma_pad_witness(frame, Direction::Up, deadzone, i);
    }
    assert forall|i: int|
        0 <= i < frame.pads@.len() && (#[trigger] frame.pads@[i]).dpad_down implies direction_held(
        frame,
        Direction::Down,
        deadzone,
    ) by {
        lemma_pad_witness(frame, Direction::Down, deadzone, i);
    }
    assert forall|i: int|
        0 <= i < frame.pads@.len() && (#[trigger] frame.pads@[i]).dpad_left implies direction_held(
        frame,
        Direction::Left,
        deadzone,
    ) by {
        lemma_pad_witness(frame, Direction::Left, deadzone, i);
    }
    assert forall|i: int|
        0 <= i < frame.pads@.len() && (#[trigger] frame.pads@[i]).dpad_right implies direction_held(
        frame,
        Direction::Right,
        deadzone,
    ) by {
        lemma_pad_witness(frame, Direction::Right, deadzone, i);
    }
    assert forall|i: int|
        0 <= i < frame.pads@.len() && (#[trigger] frame.pads@[i]).stick_y > deadzone implies direction_held(
        frame,
        Direction::Up,
        deadzone,
    ) by {
        lemma_pad_witness(frame, Direction::Up, deadzone, i);
    }
    assert forall|i: int|
        0 <= i < frame.pads@.len() && (#[trigger] frame.pads@[i]).stick_y < -deadzone implies direction_held(
        frame,
        Direction::Down,
        deadzone,
    ) by {
        lemma_pad_witness(frame, Direction::Down, deadzone, i);
    }
    assert forall|i: int|
        0 <= i < frame.pads@.len() && (#[trigger] frame.pads@[i]).stick_x < -deadzone implies direction_held(
        frame,
        Direction::Left,
        deadzone,
    ) by {
        lemma_pad_witness(frame, Direction::Left, deadzone, i);
    }
    assert forall|i: int|
        0 <= i < frame.pads@.len() && (#[trigger] frame.pads@[i]).stick_x > deadzone implies direction_held(
        frame,
        Direction::Right,
        deadzone,
    ) by {
        lemma_pad_witness(frame, Direction::Right, deadzone, i);
    }
    if direction_held(frame, Direction::Up, deadzone) && !(frame.keys.up || frame.keys.w) {
        let i = choose|i: int|
            0 <= i < frame.pads@.len() && #[trigger] pad_holds(frame.pads@[i], Direction::Up, deadzone);
        assert(frame.pads@[i].dpad_up || frame.pads@[i].stick_y > deadzone);
    }
    if direction_held(frame, Direction::Down, deadzone) && !(frame.keys.down || frame.keys.s) {
        let i = choose|i: int|
            0 <= i < frame.pads@.len() && #[trigger] pad_holds(frame.pads@[i], Direction::Down, deadzone);
        assert(frame.pads@[i].dpad_down || frame.pads@[i].stick_y < -deadzone);
    }
    if direction_held(frame, Direction::Left, deadzone) && !(frame.keys.left || frame.keys.a) {
        let i = choose|i: int|
            0 <= i < frame.pads@.len() && #[trigger] pad_holds(frame.pads@[i], Direction::Left, deadzone);
        assert(frame.pads@[i].dpad_left || frame.pads@[i].stick_x < -deadzone);
    }
    if direction_held(frame, Direction::Right, deadzone) && !(frame.keys.right || frame.keys.d) {
        let i = choose|i: int|
            0 <= i < frame.pads@.len() && #[trigger] pad_holds(frame.pads@[i], Direction::Right, deadzone);
        assert(frame.pads@[i].dpad_right || frame.pads@[i].stick_x > deadzone);
    }
}

/// Confirm is pressed by Enter, by Space, or by the lowest right-cluster
/// button of any gamepad, and by nothing else.
pub proof fn law_confirm_sources(frame: FrameInput)
    ensures
        frame.keys.enter_pressed ==> confirm_pressed(frame),
        frame.keys.space_pressed ==> confirm_pressed(frame),
        forall|i: int|
            0 <= i < frame.pads@.len() && (#[trigger] frame.pads@[i]).action_down_just_pressed
                ==> confirm_pressed(frame),
        confirm_pressed(frame) ==> frame.keys.enter_pressed || frame.keys.space_pressed || exists|
            i: int,
        |
            0 <= i < frame.pads@.len() && (#[trigger] frame.pads@[i]).action_down_just_pressed,
{
}

/// Asking for one direction advances only that direction's timer; the
/// frame, the settings and the other timers stay as they were.
pub proof fn law_trigger_touches_only_its_timer(im: InputManager, dir: Direction, now: u64)
    ensures
        trigger_step(im, dir, now).0.frame == im.frame,
        trigger_step(im, dir, now).0.deadzone == im.deadzone,
        trigger_step(im, dir, now).0.repeat_delay == im.repeat_delay,
        trigger_step(im, dir, now).0.repeat_interval == im.repeat_interval,
        forall|d: Direction| d != dir ==> #[trigger] timer_of(trigger_step(im, dir, now).0, d) == timer_of(im, d),
{
}

/// A direction fires when it is newly held, or when it stays held for the
/// configured delay and its repeat interval has passed since its last
/// firing: the configured interval for up and down, 60 ms for left and
/// right. Afterwards its timer is held exactly when the direction is.
pub proof fn law_trigger_fires(im: InputManager, dir: Direction, now: u64)
    ensures
        trigger_step(im, dir, now).1 <==> direction_held(im.frame, dir, im.deadzone as int) && (
        !timer_of(im, dir).is_held || (now >= timer_of(im, dir).press_time + im.repeat_delay && now
            >= timer_of(im, dir).last_repeat + (if dir == Direction::Up || dir == Direction::Down {
            im.repeat_interval as int
        } else {
            60_000int
        }))),
        timer_of(trigger_step(im, dir, now).0, dir).is_held == direction_held(
            im.frame,
            dir,
            im.deadzone as int,
        ),
        trigger_step(im, dir, now).1 ==> timer_of(trigger_step(im, dir, now).0, dir).last_repeat
            == now,
        trigger_step(im, dir, now).1 ==> timer_of(trigger_step(im, dir, now).0, dir).press_time == (
        if timer_of(im, dir).is_held {
            timer_of(im, dir).press_time
        } else {
            now
        }),
        !trigger_step(im, dir, now).1 ==> timer_of(trigger_step(im, dir, now).0, dir).press_time
            == timer_of(im, dir).press_time,
        !trigger_step(im, dir, now).1 ==> timer_of(trigger_step(im, dir, now).0, dir).last_repeat
            == timer_of(im, dir).last_repeat,
{
}

} // verus!
