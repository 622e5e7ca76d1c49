//! Clipping a window axis to the visible terminal.
//!
//! The window's origin on an axis may be negative (the window starts above
//! or left of the screen) and the window may run past the terminal edge.
//! All clamping is centralized here: `clip_start..clip_stop` is the
//! half-open on-screen interval, and `clip_skip` counts the leading units
//! hidden before the screen begins.

use vstd::prelude::*;

verus! {

/// First on-screen coordinate of the axis: the origin clamped up to zero.
pub open spec fn clip_start(origin: int) -> int {
    if origin >= 0 {
        origin
    } else {
        0
    }
}

/// One past the last on-screen coordinate: `origin + len` clamped to the
/// terminal bound, and never below `clip_start`.
pub open spec fn clip_stop(origin: int, len: int, bound: int) -> int {
    let stop = if origin + len <= bound {
        origin + len
    } else {
        bound
    };
    if stop >= clip_start(origin) {
        stop
    } else {
        clip_start(origin)
    }
}

/// Leading units of the window hidden before the screen begins.
pub open spec fn clip_skip(origin: int) -> int {
    if origin >= 0 {
        0
    } else {
        -origin
    }
}

/// Number of on-screen units of the axis.
pub open spec fn clip_count(origin: int, len: int, bound: int) -> int {
    clip_stop(origin, len, bound) - clip_start(origin)
}

/// One window axis clipped to the terminal: `start..stop` is the on-screen
/// interval, `skip` the units hidden before it.
#[derive(Clone, Copy, Debug, PartialEq, Eq, Structural)]
pub struct AxisClip {
    pub start: u16,
    pub stop: u16,
    pub skip: u16,
}

/// Clips one axis of a window of `len` units placed at `origin` against a
/// terminal of `bound` units.
pub fn clip_axis(origin: i16, len: u16, bound: u16) -> (r: AxisClip)
    ensures
        r.start == clip_start(origin as int),
        r.stop == clip_stop(origin as int, len as int, bound as int),
        r.skip == clip_skip(origin as int),
{
    let start: u16 = if origin >= 0 {
        origin as u16
    } else {
        0
    };
    let reach: i32 = origin as i32 + len as i32;
    let stop_raw: i32 = if reach <= bound as i32 {
        reach
    } else {
        bound as i32
    };
    let stop: u16 = if stop_raw >= start as i32 {
        stop_raw as u16
    } else {
        start
    };
    let skip: u16 = if origin >= 0 {
        0
    } else {
        (-(origin as i32)) as u16
    };
    AxisClip { start, stop, skip }
}

/// Clipping laws: a window fully inside the terminal clips to its full
/// range with nothing skipped; a negative origin is skipped exactly; and
/// the on-screen interval never leaves the terminal.
pub proof fn lemma_clip_correct(origin: int, len: int, bound: int)
    requires
        0 <= len,
        0 <= bound,
    ensures
        origin >= 0 && origin + len <= bound ==> clip_start(origin) == origin && clip_stop(
            origin,
            len,
            bound,
        ) == origin + len && clip_count(origin, len, bound) == len && clip_skip(origin) == 0,
        origin < 0 ==> clip_skip(origin) == -origin,
        origin <= bound ==> clip_stop(origin, len, bound) <= bound,
        0 <= clip_count(origin, len, bound) <= len,
        clip_start(origin) <= clip_stop(origin, len, bound),
{
}

} // verus!
