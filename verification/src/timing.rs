//! Hold-and-repeat timing of one directional input.
//!
//! Times are monotonic timestamps in microseconds.
use vstd::prelude::*;

verus! {

/// Repeat state of one direction: whether it is held, when the hold began,
/// and when it last fired.
#[derive(Clone, Copy, Debug, PartialEq, Eq, Structural)]
pub struct DirectionTimer {
    pub is_held: bool,
    pub press_time: u64,
    pub last_repeat: u64,
}

/// The timer of a direction that nobody holds.
pub open spec fn released_timer() -> DirectionTimer {
    DirectionTimer { is_held: false, press_time: 0, last_repeat: 0 }
}

impl Default for DirectionTimer {
    fn default() -> (t: Self)
        ensures
            t == released_timer(),
    {
        DirectionTimer { is_held: false, press_time: 0, last_repeat: 0 }
    }
}

/// A held direction repeats once it has been held for `delay` and the last
/// firing lies at least `interval` back.
pub open spec fn repeat_due(timer: DirectionTimer, now: u64, delay: u64, interval: u64) -> bool {
    &&& now - timer.press_time >= delay
    &&& now - timer.last_repeat >= interval
}

/// One frame of a direction: the new timer and whether the direction fires.
///
/// A first press fires at once; a continued hold fires when a repeat is due;
/// a release clears the hold and never fires.
pub open spec fn direction_step(
    timer: DirectionTimer,
    is_down: bool,
    now: u64,
    delay: u64,
    interval: u64,
) -> (DirectionTimer, bool) {
    if is_down {
        if !timer.is_held {
            (DirectionTimer { is_held: true, press_time: now, last_repeat: now }, true)
        } else if repeat_due(timer, now, delay, interval) {
            (DirectionTimer { last_repeat: now, ..timer }, true)
        } else {
            (timer, false)
        }
    } else {
        (DirectionTimer { is_held: false, ..timer }, false)
    }
}

/// A direction run through a sequence of frames, each `(is_down, now)`:
/// the final timer and, frame by frame, whether the direction fired.
pub open spec fn run_direction(
    timer: DirectionTimer,
    frames: Seq<(bool, u64)>,
    delay: u64,
    interval: u64,
) -> (DirectionTimer, Seq<bool>)
    decreases frames.len(),
{
    if frames.len() == 0 {
        (timer, Seq::empty())
    } else {
        let before = run_direction(timer, frames.drop_last(), delay, interval);
        let step = direction_step(before.0, frames.last().0, frames.last().1, delay, interval);
        (step.0, before.1.push(step.1))
    }
}

/// The frames are all held and their times never go back.
pub open spec fn held_throughout(frames: Seq<(bool, u64)>) -> bool {
    &&& forall|j: int| 0 <= j < frames.len() ==> (#[trigger] frames[j]).0
    &&& forall|j: int, k: int| 0 <= j <= k < frames.len() ==> frames[j].1 <= frames[k].1
}

/// A first press fires at once and starts the hold at that moment.
pub proof fn law_first_press_fires(timer: DirectionTimer, now: u64, delay: u64, interval: u64)
    requires
        !timer.is_held,
    ensures
        direction_step(timer, true, now, delay, interval) == (
        DirectionTimer { is_held: true, press_time: now, last_repeat: now },
        true,
        ),
{
}

/// A released direction never fires; the release ends the hold and keeps
/// the recorded times.
pub proof fn law_release_never_fires(timer: DirectionTimer, now: u64, delay: u64, interval: u64)
    ensures
        !direction_step(timer, false, now, delay, interval).1,
        !direction_step(timer, false, now, delay, interval).0.is_held,
        direction_step(timer, false, now, delay, interval).0.press_time == timer.press_time,
        direction_step(timer, false, now, delay, interval).0.last_repeat == timer.last_repeat,
{
}

/// A frame of a held direction fires exactly when the hold has lasted
/// `delay` and the last firing lies at least `interval` back. A firing
/// moves only the last firing, to `now`; a frame that does not fire leaves
/// the timer as it was.
pub proof fn law_held_frame(timer: DirectionTimer, now: u64, delay: u64, interval: u64)
    requires
        timer.is_held,
    ensures
        direction_step(timer, true, now, delay, interval).1 <==> (now >= timer.press_time + delay
            && now >= timer.last_repeat + interval),
        direction_step(timer, true, now, delay, interval).1 ==> direction_step(
            timer,
            true,
            now,
            delay,
            interval,
        ).0 == (DirectionTimer { is_held: true, press_time: timer.press_time, last_repeat: now }),
        !direction_step(timer, true, now, delay, interval).1 ==> direction_step(
            timer,
            true,
            now,
            delay,
            interval,
        ).0 == timer,
{
}

/// While held, nothing repeats before `delay` has passed since the press,
/// and the timer is left as it was.
pub proof fn law_no_repeat_before_delay(timer: DirectionTimer, now: u64, delay: u64, interval: u64)
    requires
        timer.is_held,
        now < timer.press_time + delay,
    ensures
        direction_step(timer, true, now, delay, interval) == (timer, false),
{
}

/// A continued hold keeps the moment of the press.
pub proof fn law_hold_keeps_press_time(timer: DirectionTimer, now: u64, delay: u64, interval: u64)
    requires
        timer.is_held,
    ensures
        direction_step(timer, true, now, delay, interval).0.is_held,
        direction_step(timer, true, now, delay, interval).0.press_time == timer.press_time,
{
}

/// A held direction fires once `delay` has passed since the press and
/// `interval` since the last firing, and that firing becomes the last one.
pub proof fn law_repeat_when_due(timer: DirectionTimer, now: u64, delay: u64, interval: u64)
    requires
        timer.is_held,
        now >= timer.press_time + delay,
        now >= timer.last_repeat + interval,
    ensures
        direction_step(timer, true, now, delay, interval) == (
        DirectionTimer { last_repeat: now, ..timer },
        true,
        ),
{
}

/// After a firing at `t1`, the held direction stays silent until `interval`
/// has passed.
pub proof fn law_repeat_spacing(
    timer: DirectionTimer,
    t1: u64,
    t2: u64,
    delay: u64,
    interval: u64,
)
    requires
        direction_step(timer, true, t1, delay, interval).1,
        t1 <= t2 < t1 + interval,
    ensures
        !direction_step(direction_step(timer, true, t1, delay, interval).0, true, t2, delay, interval).1,
{
}

/// Over frames in which the direction stays held and time never goes back,
/// any two firings lie at least `interval` apart, and the timer stays held
/// with its last firing no earlier than any firing of the run.
pub proof fn law_held_firings_spaced(
    timer: DirectionTimer,
    frames: Seq<(bool, u64)>,
    delay: u64,
    interval: u64,
)
    requires
        held_throughout(frames),
    ensures
        run_direction(timer, frames, delay, interval).1.len() == frames.len(),
        frames.len() > 0 ==> run_direction(timer, frames, delay, interval).0.is_held,
        forall|j: int|
            0 <= j < frames.len() && #[trigger] run_direction(timer, frames, delay, interval).1[j]
                ==> frames[j].1 <= run_direction(timer, frames, delay, interval).0.last_repeat,
        forall|j: int, k: int|
            0 <= j < k < frames.len() && #[trigger] run_direction(timer, frames, delay, interval).1[j]
                && #[trigger] run_direction(timer, frames, delay, interval).1[k] ==> frames[j].1
                + interval <= frames[k].1,
    decreases frames.len(),
{
    if frames.len() > 0 {
        let prefix = frames.drop_last();
        assert(held_throughout(prefix)) by {
            assert forall|j: int| 0 <= j < prefix.len() implies (#[trigger] prefix[j]).0 by {
                assert(prefix[j] == frames[j]);
            }
            assert forall|j: int, k: int| 0 <= j <= k < prefix.len() implies prefix[j].1
                <= prefix[k].1 by {
                assert(prefix[j] == frames[j]);
                assert(prefix[k] == frames[k]);
            }
        }
        law_held_firings_spaced(timer, prefix, delay, interval);
        let before = run_direction(timer, prefix, delay, interval);
        let n = frames.len() - 1;
        assert(frames.last() == frames[n]);
        assert(frames[n].0);
        let outs = run_direction(timer, frames, delay, interval).1;
        assert(outs == before.1.push(direction_step(before.0, true, frames[n].1, delay, interval).1));
        assert forall|j: int|
            0 <= j < frames.len() && #[trigger] outs[j]
                implies frames[j].1 <= run_direction(timer, frames, delay, interval).0.last_repeat by {
            if j < n {
                assert(outs[j] == before.1[j]);
                assert(prefix[j] == frames[j]);
                assert(frames[j].1 <= frames[n].1);
            }
        }
        assert forall|j: int, k: int|
            0 <= j < k < frames.len() && #[trigger] outs[j] && #[trigger] outs[k]
                implies frames[j].1 + interval <= frames[k].1 by {
            assert(outs[j] == before.1[j]);
            assert(prefix[j] == frames[j]);
            if k < n {
                assert(outs[k] == before.1[k]);
                assert(prefix[k] == frames[k]);
            } else {
                assert(before.0.is_held);
                assert(frames[j].1 <= before.0.last_repeat);
            }
        }
    }
}

/// Holding a released direction from the first frame on: it fires at the
/// first frame, and every later firing comes at least `delay` after it.
pub proof fn law_first_repeat_after_delay(
    timer: DirectionTimer,
    frames: Seq<(bool, u64)>,
    delay: u64,
    interval: u64,
)
    requires
        !timer.is_held,
        held_throughout(frames),
    ensures
        run_direction(timer, frames, delay, interval).1.len() == frames.len(),
        frames.len() > 0 ==> run_direction(timer, frames, delay, interval).1[0],
        frames.len() > 0 ==> run_direction(timer, frames, delay, interval).0.press_time
            == frames[0].1,
        forall|k: int|
            0 < k < frames.len() && #[trigger] run_direction(timer, frames, delay, interval).1[k]
                ==> frames[0].1 + delay <= frames[k].1,
    decreases frames.len(),
{
    if frames.len() > 0 {
        let prefix = frames.drop_last();
        assert(held_throughout(prefix)) by {
            assert forall|j: int| 0 <= j < prefix.len() implies (#[trigger] prefix[j]).0 by {
                assert(prefix[j] == frames[j]);
            }
            assert forall|j: int, k: int| 0 <= j <= k < prefix.len() implies prefix[j].1
                <= prefix[k].1 by {
                assert(prefix[j] == frames[j]);
                assert(prefix[k] == frames[k]);
            }
        }
        law_first_repeat_after_delay(timer, prefix, delay, interval);
        law_held_firings_spaced(timer, prefix, delay, interval);
        let before = run_direction(timer, prefix, delay, interval);
        let n = frames.len() - 1;
        assert(frames.last() == frames[n]);
        assert(frames[n].0);
        let outs = run_direction(timer, frames, delay, interval).1;
        assert(outs == before.1.push(direction_step(before.0, true, frames[n].1, delay, interval).1));
        if n > 0 {
            assert(prefix[0] == frames[0]);
            assert(outs[0] == before.1[0]);
        }
        assert forall|k: int|
            0 < k < frames.len() && #[trigger] outs[k] implies frames[0].1 + delay <= frames[k].1 by {
            assert(prefix[0] == frames[0]);
            if k < n {
                assert(outs[k] == before.1[k]);
                assert(prefix[k] == frames[k]);
            }
        }
    }
}

} // verus!
