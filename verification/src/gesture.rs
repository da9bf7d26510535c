//! Reading swipes that switch the screen from finger movement.

use vstd::prelude::*;
use crate::layout::Point;

verus! {

/// The least vertical travel (px) that counts as a swipe.
pub const SWIPE_THRESHOLD: i16 = 60;

/// Direction of a swipe.
#[derive(Debug, Clone, Copy, PartialEq, Eq, Structural)]
pub enum SwipeDirection {
    Up,
    Down,
}

pub open spec fn abs(v: int) -> int {
    if v < 0 {
        -v
    } else {
        v
    }
}

/// The swipe made by a finger that went down at `start` and reached `end`:
/// it must travel far enough vertically, and at least twice as far
/// vertically as horizontally.
pub open spec fn swipe_between(start: Point, end: Point) -> Option<SwipeDirection> {
    let dx = end.x - start.x;
    let dy = end.y - start.y;
    if abs(dy) < SWIPE_THRESHOLD || abs(dy) < abs(dx) * 2 {
        None
    } else if dy > 0 {
        Some(SwipeDirection::Down)
    } else {
        Some(SwipeDirection::Up)
    }
}

/// Whether the arithmetic of `detect_swipe` stays within `i16`.
pub open spec fn swipe_in_range(start: Point, end: Point) -> bool {
    let dx = end.x - start.x;
    let dy = end.y - start.y;
    &&& i16::MIN < dx <= i16::MAX
    &&& i16::MIN < dy <= i16::MAX
    &&& (abs(dy) >= SWIPE_THRESHOLD ==> abs(dx) * 2 <= i16::MAX)
}

fn magnitude(v: i16) -> (m: i16)
    requires
        v > i16::MIN,
    ensures
        m == abs(v as int),
{
    if v < 0 {
        -v
    } else {
        v
    }
}

/// Decides whether the movement from `start` to `end` is a swipe.
///
/// Movements too short vertically, or too diagonal, are not swipes, to avoid
/// switching screens by accident.
pub fn detect_swipe(start: Point, end: Point) -> (swipe: Option<SwipeDirection>)
    requires
        swipe_in_range(start, end),
    ensures
        swipe == swipe_between(start, end),
{
    let dx = end.x - start.x;
    let dy = end.y - start.y;
    if magnitude(dy) < SWIPE_THRESHOLD || magnitude(dy) < magnitude(dx) * 2 {
        return None;
    }
    Some(
        if dy > 0 {
            SwipeDirection::Down
        } else {
            SwipeDirection::Up
        },
    )
}

/// Reversing a swipe reverses its direction.
pub proof fn law_reverse_swipe(start: Point, end: Point)
    ensures
        swipe_between(start, end) == Some(SwipeDirection::Down) <==> swipe_between(end, start)
            == Some(SwipeDirection::Up),
{
}

} // verus!
