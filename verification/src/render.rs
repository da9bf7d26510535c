//! Where the face's talk button answers a touch.
//!
//! Drawing the face is the device's work; what is decided here is which
//! touches count as pressing the button.

use vstd::prelude::*;

use crate::face::FaceFrame;
use crate::layout::Point;

verus! {

/// The screen of the device.
pub const SCREEN_WIDTH: u32 = 320;
pub const SCREEN_HEIGHT: u32 = 240;

/// The centre of the talk button, in the lower right corner of the screen.
pub const TALK_BUTTON_X: i16 = 272;
pub const TALK_BUTTON_Y: i16 = 192;
/// The radius of the button as drawn.
pub const TALK_BUTTON_RADIUS: i32 = 40;
/// Touches a little outside the drawn circle still count, to make the button
/// easy to press.
pub const TALK_BUTTON_TOUCH_MARGIN: i32 = 10;

/// The centre of the talk button.
pub fn talk_button_center() -> (center: Point)
    ensures
        center.x == TALK_BUTTON_X,
        center.y == TALK_BUTTON_Y,
{
    Point::new(TALK_BUTTON_X, TALK_BUTTON_Y)
}

/// Whether a touch at `point` lies on the button or within the margin around it.
pub open spec fn on_talk_button(point: Point) -> bool {
    let dx = point.x - TALK_BUTTON_X;
    let dy = point.y - TALK_BUTTON_Y;
    let reach = TALK_BUTTON_RADIUS + TALK_BUTTON_TOUCH_MARGIN;
    dx * dx + dy * dy <= reach * reach
}

/// Whether the finger is on the talk button.
pub fn contains_talk_button(point: Point) -> (hit: bool)
    ensures
        hit == on_talk_button(point),
{
    let reach: i64 = (TALK_BUTTON_RADIUS + TALK_BUTTON_TOUCH_MARGIN) as i64;
    let dx: i64 = point.x as i64 - TALK_BUTTON_X as i64;
    let dy: i64 = point.y as i64 - TALK_BUTTON_Y as i64;
    assert(0 <= dx * dx <= 0x1_0000_0000 && 0 <= dy * dy <= 0x1_0000_0000) by (nonlinear_arith)
        requires
            -0x10000 <= dx <= 0x10000,
            -0x10000 <= dy <= 0x10000,
    ;
    dx * dx + dy * dy <= reach * reach
}

/// The tallest an eye is drawn, at full openness.
pub const EYE_HEIGHT: u32 = 72;
/// The least height of an eye: a closed eye still shows as a line.
pub const MIN_EYE_HEIGHT: u32 = 4;
/// Below this openness the pupil is left out: it would look squashed.
pub const PUPIL_VISIBLE_OPENNESS: u8 = 35;
/// How far the pupil moves sideways at the edge of the gaze.
pub const GAZE_TRAVEL: i32 = 14;

/// The measures one eye is drawn with.
#[derive(Debug, Clone, Copy, PartialEq, Eq, Structural)]
pub struct EyeShape {
    pub center: Point,
    pub height: u32,
    pub shows_pupil: bool,
    pub gaze_offset: i32,
}

/// The eye drawn around `center` for a frame: its height follows the
/// openness, never below a line; the pupil shows only on an eye open
/// enough, moved sideways by the gaze.
pub open spec fn eye_shape_of(center: Point, frame: FaceFrame) -> EyeShape {
    let scaled = EYE_HEIGHT * (frame.eye_openness as int) / 100;
    EyeShape {
        center,
        height: if scaled < MIN_EYE_HEIGHT { MIN_EYE_HEIGHT } else { scaled as u32 },
        shows_pupil: frame.eye_openness >= PUPIL_VISIBLE_OPENNESS,
        gaze_offset: toward_zero((frame.gaze_x as int) * GAZE_TRAVEL, 100) as i32,
    }
}

/// Division rounding toward zero, as integer division does in Rust.
pub open spec fn toward_zero(n: int, d: int) -> int {
    if n >= 0 {
        n / d
    } else {
        -((-n) / d)
    }
}

/// Measures one eye for a frame.
pub fn eye_shape(center: Point, frame: &FaceFrame) -> (eye: EyeShape)
    ensures
        eye == eye_shape_of(center, *frame),
{
    let scaled = EYE_HEIGHT * (frame.eye_openness as u32) / 100;
    let height = if scaled < MIN_EYE_HEIGHT { MIN_EYE_HEIGHT } else { scaled };
    let travel = (frame.gaze_x as i32) * GAZE_TRAVEL;
    EyeShape {
        center,
        height,
        shows_pupil: frame.eye_openness >= PUPIL_VISIBLE_OPENNESS,
        gaze_offset: travel / 100,
    }
}

} // verus!
