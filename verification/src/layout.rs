//! Where the face goes on the screen, and in which colours.
//!
//! Painting pixels is the graphics library's job; this module only decides
//! positions and colours, so the look can be checked without the device.

use vstd::prelude::*;
use crate::face::{Expression, FaceFrame};

verus! {

/// Screen size of the device's LCD.
pub const SCREEN_WIDTH: i16 = 320;
pub const SCREEN_HEIGHT: i16 = 240;

pub const LEFT_EYE_X: i16 = 80;
pub const RIGHT_EYE_X: i16 = 240;
pub const EYE_Y: i16 = 108;
pub const EYE_WIDTH: u16 = 72;
pub const EYE_HEIGHT: u16 = 72;
/// Shut eyes stay visible as a line of this height.
pub const EYE_MIN_HEIGHT: u16 = 4;
pub const PUPIL_DIAMETER: u16 = 38;
/// Pupils are drawn only from this eye opening on, where they fit the eye.
pub const PUPIL_VISIBLE_OPENNESS: u8 = 55;
/// How far the pupils move sideways.
pub const GAZE_TRAVEL: i16 = 14;
pub const MOUTH_X: i16 = 160;
pub const MOUTH_Y: i16 = 182;
pub const MOUTH_WIDTH: u16 = 96;
pub const MOUTH_MAX_HEIGHT: u16 = 56;
pub const MOUTH_MIN_HEIGHT: u16 = 10;
pub const CLOSED_MOUTH_HEIGHT: u16 = 6;
/// The smile is an arc inscribed in a square of this side; a wide box would
/// push the arc to one side.
pub const SMILE_DIAMETER: u16 = 84;
/// How much of the arc shows: the larger, the deeper the smile.
pub const SMILE_DEPTH: i16 = 22;
/// Height of the brows above the eyes.
pub const BROW_LIFT: i16 = 52;
/// Slant of the worried brows: the inner ends are higher.
pub const BROW_SLANT: i16 = 9;
pub const BROW_HALF_WIDTH: i16 = 32;
/// The talk button sits in the lower right corner.
pub const TALK_BUTTON_X: i16 = 272;
pub const TALK_BUTTON_Y: i16 = 192;
pub const TALK_BUTTON_RADIUS: i16 = 32;
pub const MIC_HEAD_WIDTH: u16 = 16;
pub const MIC_HEAD_HEIGHT: u16 = 24;
/// The head sits above the button's centre to leave room below.
pub const MIC_HEAD_LIFT: i16 = 12;
pub const MIC_CRADLE_SIZE: u16 = 30;
pub const MIC_CRADLE_LIFT: i16 = 6;
pub const MIC_STEM_WIDTH: u16 = 3;
pub const MIC_STEM_HEIGHT: u16 = 7;
pub const MIC_BASE_WIDTH: u16 = 22;
pub const MIC_BASE_HEIGHT: u16 = 3;
pub const SPINNER_DIAMETER: u16 = 72;

/// The colours of the face. The calm background is black, so only the face shows.
pub open spec fn rgb_calm_background() -> Color {
    Color { r: 0, g: 0, b: 0 }
}

pub open spec fn rgb_trouble_background() -> Color {
    Color { r: 96, g: 28, b: 24 }
}

pub open spec fn rgb_eye_color() -> Color {
    Color { r: 245, g: 250, b: 255 }
}

pub open spec fn rgb_pupil_color() -> Color {
    Color { r: 18, g: 24, b: 40 }
}

pub open spec fn rgb_mouth_color() -> Color {
    Color { r: 255, g: 140, b: 130 }
}

pub open spec fn rgb_brow_color() -> Color {
    Color { r: 230, g: 220, b: 210 }
}

pub open spec fn rgb_button_idle_color() -> Color {
    Color { r: 40, g: 170, b: 90 }
}

pub open spec fn rgb_button_active_color() -> Color {
    Color { r: 235, g: 130, b: 40 }
}

pub open spec fn rgb_button_disabled_color() -> Color {
    Color { r: 70, g: 80, b: 80 }
}

pub open spec fn rgb_button_mark_color() -> Color {
    Color { r: 250, g: 250, b: 250 }
}

pub open spec fn rgb_spinner_color() -> Color {
    Color { r: 120, g: 190, b: 255 }
}

#[derive(Debug, Clone, Copy, PartialEq, Eq, Structural)]
pub struct Point {
    pub x: i16,
    pub y: i16,
}

impl Point {
    pub fn new(x: i16, y: i16) -> (p: Self)
        ensures
            p == (Point { x, y }),
    {
        Point { x, y }
    }
}

/// Top-left corner and size, as the graphics library places objects.
#[derive(Debug, Clone, Copy, PartialEq, Eq, Structural)]
pub struct Rect {
    pub x: i16,
    pub y: i16,
    pub width: u16,
    pub height: u16,
}

/// The rectangle of the given size centred on a point.
pub open spec fn around(cx: int, cy: int, width: int, height: int) -> Rect {
    Rect {
        x: (cx - width / 2) as i16,
        y: (cy - height / 2) as i16,
        width: width as u16,
        height: height as u16,
    }
}

impl Rect {
    pub open spec fn right_edge(self) -> int {
        self.x + self.width
    }

    pub open spec fn bottom_edge(self) -> int {
        self.y + self.height
    }

    /// Whether the rectangle lies within `outer`.
    pub open spec fn inside(self, outer: Rect) -> bool {
        &&& outer.x <= self.x
        &&& outer.y <= self.y
        &&& self.right_edge() <= outer.right_edge()
        &&& self.bottom_edge() <= outer.bottom_edge()
    }

    /// Whether the rectangle lies on the screen.
    pub open spec fn on_screen(self) -> bool {
        &&& 0 <= self.x
        &&& 0 <= self.y
        &&& self.right_edge() <= SCREEN_WIDTH
        &&& self.bottom_edge() <= SCREEN_HEIGHT
    }

    /// Builds the rectangle centred on `center`.
    fn around(center: Point, width: u16, height: u16) -> (r: Self)
        requires
            width <= 1000,
            height <= 1000,
            -1000 <= center.x <= 1000,
            -1000 <= center.y <= 1000,
        ensures
            r == around(center.x as int, center.y as int, width as int, height as int),
    {
        Rect {
            x: center.x - width as i16 / 2,
            y: center.y - height as i16 / 2,
            width,
            height,
        }
    }

    pub fn right(&self) -> (r: i16)
        requires
            self.right_edge() <= i16::MAX,
            self.width <= i16::MAX,
        ensures
            r == self.right_edge(),
    {
        self.x + self.width as i16
    }

    pub fn bottom(&self) -> (b: i16)
        requires
            self.bottom_edge() <= i16::MAX,
            self.height <= i16::MAX,
        ensures
            b == self.bottom_edge(),
    {
        self.y + self.height as i16
    }
}

#[derive(Debug, Clone, Copy, PartialEq, Eq, Structural)]
pub struct Color {
    pub r: u8,
    pub g: u8,
    pub b: u8,
}

impl Color {
    pub fn new(r: u8, g: u8, b: u8) -> (c: Self)
        ensures
            c == (Color { r, g, b }),
    {
        Color { r, g, b }
    }
}

/// Shape of the mouth; each is drawn differently.
#[derive(Debug, Clone, Copy, PartialEq, Eq, Structural)]
pub enum Mouth {
    /// A closed mouth: a thin bar.
    Closed(Rect),
    /// An open mouth: an ellipse whose height follows the voice.
    Open(Rect),
    /// A smile: a closed mouth drawn as an upturned arc.
    Smile(Rect),
}

pub open spec fn mouth_bounds(mouth: Mouth) -> Rect {
    match mouth {
        Mouth::Closed(r) | Mouth::Open(r) | Mouth::Smile(r) => r,
    }
}

impl Mouth {
    pub fn bounds(self) -> (r: Rect)
        ensures
            r == mouth_bounds(self),
    {
        match self {
            Mouth::Closed(rect) | Mouth::Open(rect) | Mouth::Smile(rect) => rect,
        }
    }
}

/// The microphone drawn in the talk button: head, cradle, stem and base.
#[derive(Debug, Clone, Copy, PartialEq, Eq, Structural)]
pub struct Microphone {
    /// A tall rounded head.
    pub head: Rect,
    /// The cradle holding the head from below, drawn as a downward arc.
    pub cradle: Rect,
    pub stem: Rect,
    pub base: Rect,
}

/// One brow: a line from its outer end to its inner end.
#[derive(Debug, Clone, Copy, PartialEq, Eq, Structural)]
pub struct Brow {
    pub outer: Point,
    pub inner: Point,
}

/// Placement of the face at one moment.
#[derive(Debug, Clone, Copy, PartialEq, Eq)]
pub struct FaceLayout {
    pub background: Color,
    /// While starting, a loading mark is shown here instead of the face.
    pub spinner: Option<Rect>,
    pub left_eye: Rect,
    pub right_eye: Rect,
    /// Not drawn while the eyes are narrow.
    pub left_pupil: Option<Rect>,
    pub right_pupil: Option<Rect>,
    pub mouth: Mouth,
    /// Brows only show on the worried face.
    pub brows: Option<(Brow, Brow)>,
    pub button: Rect,
    /// The microphone drawn in the button.
    pub microphone: Microphone,
    pub button_color: Color,
}

impl FaceLayout {
    /// Whether a loading mark is shown instead of the face.
    pub fn is_loading(&self) -> (loading: bool)
        ensures
            loading == self.spinner is Some,
    {
        self.spinner.is_some()
    }
}

/// Rust's division of a signed value by a positive one, which rounds toward
/// zero.
pub open spec fn div_toward_zero(a: int, b: int) -> int {
    if a >= 0 {
        a / b
    } else {
        -((-a) / b)
    }
}

pub open spec fn eye_height(eye_openness: u8) -> int {
    let h = EYE_HEIGHT * eye_openness / 100;
    if h < EYE_MIN_HEIGHT {
        EYE_MIN_HEIGHT as int
    } else {
        h
    }
}

pub open spec fn gaze_offset(gaze_x: i8) -> int {
    div_toward_zero(gaze_x * GAZE_TRAVEL, 100)
}

pub open spec fn background_for(expression: Expression) -> Color {
    match expression {
        Expression::Trouble => rgb_trouble_background(),
        _ => rgb_calm_background(),
    }
}

pub open spec fn button_color_for(expression: Expression) -> Color {
    match expression {
        Expression::Listening => rgb_button_active_color(),
        Expression::Waiting | Expression::Trouble => rgb_button_disabled_color(),
        _ => rgb_button_idle_color(),
    }
}

pub open spec fn pupil_at(eye_x: int, gaze: int, shows: bool) -> Option<Rect> {
    if shows {
        Some(around(eye_x + gaze, EYE_Y as int, PUPIL_DIAMETER as int, PUPIL_DIAMETER as int))
    } else {
        None
    }
}

pub open spec fn mouth_for(frame: FaceFrame) -> Mouth {
    match frame.expression {
        Expression::Talking => {
            let h = MOUTH_MAX_HEIGHT * frame.mouth_openness / 100;
            let height = if h < MOUTH_MIN_HEIGHT {
                MOUTH_MIN_HEIGHT as int
            } else {
                h
            };
            Mouth::Open(around(MOUTH_X as int, MOUTH_Y as int, MOUTH_WIDTH as int, height))
        },
        Expression::Idle | Expression::Listening => Mouth::Smile(
            around(
                MOUTH_X as int,
                MOUTH_Y - SMILE_DIAMETER / 2 + SMILE_DEPTH,
                SMILE_DIAMETER as int,
                SMILE_DIAMETER as int,
            ),
        ),
        _ => Mouth::Closed(
            around(MOUTH_X as int, MOUTH_Y as int, (MOUTH_WIDTH / 2) as int, CLOSED_MOUTH_HEIGHT as int),
        ),
    }
}

pub open spec fn brows_for(expression: Expression) -> Option<(Brow, Brow)> {
    if expression != Expression::Trouble {
        None
    } else {
        let y = EYE_Y - BROW_LIFT;
        Some(
            (
                Brow {
                    outer: Point { x: (LEFT_EYE_X - BROW_HALF_WIDTH) as i16, y: (y + BROW_SLANT) as i16 },
                    inner: Point { x: (LEFT_EYE_X + BROW_HALF_WIDTH) as i16, y: (y - BROW_SLANT) as i16 },
                },
                Brow {
                    outer: Point { x: (RIGHT_EYE_X + BROW_HALF_WIDTH) as i16, y: (y + BROW_SLANT) as i16 },
                    inner: Point { x: (RIGHT_EYE_X - BROW_HALF_WIDTH) as i16, y: (y - BROW_SLANT) as i16 },
                },
            ),
        )
    }
}

pub open spec fn microphone_layout() -> Microphone {
    let cradle = around(
        TALK_BUTTON_X as int,
        TALK_BUTTON_Y - MIC_CRADLE_LIFT,
        MIC_CRADLE_SIZE as int,
        MIC_CRADLE_SIZE as int,
    );
    let stem = Rect {
        x: (TALK_BUTTON_X - MIC_STEM_WIDTH / 2) as i16,
        y: cradle.bottom_edge() as i16,
        width: MIC_STEM_WIDTH,
        height: MIC_STEM_HEIGHT,
    };
    let base = Rect {
        x: (TALK_BUTTON_X - MIC_BASE_WIDTH / 2) as i16,
        y: stem.bottom_edge() as i16,
        width: MIC_BASE_WIDTH,
        height: MIC_BASE_HEIGHT,
    };
    Microphone {
        head: around(
            TALK_BUTTON_X as int,
            TALK_BUTTON_Y - MIC_HEAD_LIFT,
            MIC_HEAD_WIDTH as int,
            MIC_HEAD_HEIGHT as int,
        ),
        cradle,
        stem,
        base,
    }
}

pub open spec fn button_rect() -> Rect {
    around(
        TALK_BUTTON_X as int,
        TALK_BUTTON_Y as int,
        TALK_BUTTON_RADIUS * 2,
        TALK_BUTTON_RADIUS * 2,
    )
}

pub open spec fn spinner_rect() -> Rect {
    around(
        SCREEN_WIDTH / 2,
        SCREEN_HEIGHT / 2,
        SPINNER_DIAMETER as int,
        SPINNER_DIAMETER as int,
    )
}

/// The whole placement of one frame.
pub open spec fn face_layout(frame: FaceFrame) -> FaceLayout {
    let height = eye_height(frame.eye_openness);
    let shows = frame.eye_openness >= PUPIL_VISIBLE_OPENNESS;
    let gaze = gaze_offset(frame.gaze_x);
    FaceLayout {
        background: background_for(frame.expression),
        spinner: if frame.expression == Expression::Waiting {
            Some(spinner_rect())
        } else {
            None
        },
        left_eye: around(LEFT_EYE_X as int, EYE_Y as int, EYE_WIDTH as int, height),
        right_eye: around(RIGHT_EYE_X as int, EYE_Y as int, EYE_WIDTH as int, height),
        left_pupil: pupil_at(LEFT_EYE_X as int, gaze, shows),
        right_pupil: pupil_at(RIGHT_EYE_X as int, gaze, shows),
        mouth: mouth_for(frame),
        brows: brows_for(frame.expression),
        button: button_rect(),
        microphone: microphone_layout(),
        button_color: button_color_for(frame.expression),
    }
}

/// Places one frame of the face.
pub fn lay_out_face(frame: &FaceFrame) -> (layout: FaceLayout)
    ensures
        layout == face_layout(*frame),
{
    let scaled: u16 = EYE_HEIGHT * (frame.eye_openness as u16) / 100;
    let eye_height = if scaled < EYE_MIN_HEIGHT {
        EYE_MIN_HEIGHT
    } else {
        scaled
    };
    let shows_pupil = frame.eye_openness >= PUPIL_VISIBLE_OPENNESS;
    let gaze = gaze_offset_of(frame.gaze_x);
    let spinner = if frame.expression.is_loading() {
        Some(
            Rect::around(
                Point::new(SCREEN_WIDTH / 2, SCREEN_HEIGHT / 2),
                SPINNER_DIAMETER,
                SPINNER_DIAMETER,
            ),
        )
    } else {
        None
    };
    FaceLayout {
        background: background_of(frame.expression),
        spinner,
        left_eye: Rect::around(Point::new(LEFT_EYE_X, EYE_Y), EYE_WIDTH, eye_height),
        right_eye: Rect::around(Point::new(RIGHT_EYE_X, EYE_Y), EYE_WIDTH, eye_height),
        left_pupil: lay_out_pupil(Point::new(LEFT_EYE_X, EYE_Y), gaze, shows_pupil),
        right_pupil: lay_out_pupil(Point::new(RIGHT_EYE_X, EYE_Y), gaze, shows_pupil),
        mouth: lay_out_mouth(frame),
        brows: lay_out_brows(frame.expression),
        button: Rect::around(
            Point::new(TALK_BUTTON_X, TALK_BUTTON_Y),
            TALK_BUTTON_RADIUS as u16 * 2,
            TALK_BUTTON_RADIUS as u16 * 2,
        ),
        microphone: lay_out_microphone(),
        button_color: button_color_of(frame.expression),
    }
}

fn gaze_offset_of(gaze_x: i8) -> (offset: i16)
    ensures
        offset == gaze_offset(gaze_x),
        -18 <= offset <= 18,
{
    proof {
        lemma_gaze_offset_bounds(gaze_x);
    }
    let scaled = gaze_x as i16 * GAZE_TRAVEL;
    if scaled >= 0 {
        scaled / 100
    } else {
        -((-scaled) / 100)
    }
}

/// Whether a touch there is a request to talk.
///
/// Small children cannot aim at a small target, so the whole screen counts;
/// the microphone in the corner only says "touch to talk".
pub fn is_talk_target(at: Point) -> (hit: bool)
    ensures
        hit == (0 <= at.x < SCREEN_WIDTH && 0 <= at.y < SCREEN_HEIGHT),
{
    0 <= at.x && at.x < SCREEN_WIDTH && 0 <= at.y && at.y < SCREEN_HEIGHT
}

/// The microphone's parts, stacked downwards from the button's centre.
fn lay_out_microphone() -> (mic: Microphone)
    ensures
        mic == microphone_layout(),
{
    let head_center = Point::new(TALK_BUTTON_X, TALK_BUTTON_Y - MIC_HEAD_LIFT);
    let cradle = Rect::around(
        Point::new(TALK_BUTTON_X, TALK_BUTTON_Y - MIC_CRADLE_LIFT),
        MIC_CRADLE_SIZE,
        MIC_CRADLE_SIZE,
    );
    // Each part starts at the bottom of the previous one; centring each
    // separately would drift by rounding.
    let stem = Rect {
        x: TALK_BUTTON_X - MIC_STEM_WIDTH as i16 / 2,
        y: cradle.bottom(),
        width: MIC_STEM_WIDTH,
        height: MIC_STEM_HEIGHT,
    };
    let base = Rect {
        x: TALK_BUTTON_X - MIC_BASE_WIDTH as i16 / 2,
        y: stem.bottom(),
        width: MIC_BASE_WIDTH,
        height: MIC_BASE_HEIGHT,
    };
    Microphone {
        head: Rect::around(head_center, MIC_HEAD_WIDTH, MIC_HEAD_HEIGHT),
        cradle,
        stem,
        base,
    }
}

/// Colour of the loading mark.
pub fn spinner_color() -> (c: Color)
    ensures
        c == rgb_spinner_color(),
{
    Color { r: 120, g: 190, b: 255 }
}

/// Colour of the eyes.
pub fn eye_color() -> (c: Color)
    ensures
        c == rgb_eye_color(),
{
    Color { r: 245, g: 250, b: 255 }
}

/// Colour of the pupils.
pub fn pupil_color() -> (c: Color)
    ensures
        c == rgb_pupil_color(),
{
    Color { r: 18, g: 24, b: 40 }
}

/// Colour of the mouth.
pub fn mouth_color() -> (c: Color)
    ensures
        c == rgb_mouth_color(),
{
    Color { r: 255, g: 140, b: 130 }
}

/// Colour of the brows.
pub fn brow_color() -> (c: Color)
    ensures
        c == rgb_brow_color(),
{
    Color { r: 230, g: 220, b: 210 }
}

/// Colour of the mark in the button.
pub fn button_mark_color() -> (c: Color)
    ensures
        c == rgb_button_mark_color(),
{
    Color { r: 250, g: 250, b: 250 }
}

/// Background while all is well.
pub fn calm_background() -> (c: Color)
    ensures
        c == rgb_calm_background(),
{
    Color { r: 0, g: 0, b: 0 }
}

/// Background of the worried face, reddish to catch a parent's eye.
pub fn trouble_background() -> (c: Color)
    ensures
        c == rgb_trouble_background(),
{
    Color { r: 96, g: 28, b: 24 }
}

/// Colour of the button while waiting to be pressed.
pub fn button_idle_color() -> (c: Color)
    ensures
        c == rgb_button_idle_color(),
{
    Color { r: 40, g: 170, b: 90 }
}

/// Colour of the button while listening.
pub fn button_active_color() -> (c: Color)
    ensures
        c == rgb_button_active_color(),
{
    Color { r: 235, g: 130, b: 40 }
}

/// Colour of the button while it does nothing.
pub fn button_disabled_color() -> (c: Color)
    ensures
        c == rgb_button_disabled_color(),
{
    Color { r: 70, g: 80, b: 80 }
}

fn background_of(expression: Expression) -> (c: Color)
    ensures
        c == background_for(expression),
{
    match expression {
        Expression::Trouble => Color { r: 96, g: 28, b: 24 },
        _ => Color { r: 0, g: 0, b: 0 },
    }
}

fn button_color_of(expression: Expression) -> (c: Color)
    ensures
        c == button_color_for(expression),
{
    match expression {
        Expression::Listening => Color { r: 235, g: 130, b: 40 },
        // Before the session is ready the button does nothing: a dull colour.
        Expression::Waiting | Expression::Trouble => Color { r: 70, g: 80, b: 80 },
        _ => Color { r: 40, g: 170, b: 90 },
    }
}

fn lay_out_pupil(eye_center: Point, gaze: i16, shows_pupil: bool) -> (pupil: Option<Rect>)
    requires
        eye_center.y == EYE_Y,
        0 <= eye_center.x <= SCREEN_WIDTH,
        -18 <= gaze <= 18,
    ensures
        pupil == pupil_at(eye_center.x as int, gaze as int, shows_pupil),
{
    if !shows_pupil {
        return None;
    }
    let center = Point::new(eye_center.x + gaze, eye_center.y);
    Some(Rect::around(center, PUPIL_DIAMETER, PUPIL_DIAMETER))
}

fn lay_out_mouth(frame: &FaceFrame) -> (mouth: Mouth)
    ensures
        mouth == mouth_for(*frame),
{
    match frame.expression {
        Expression::Talking => {
            let scaled: u16 = MOUTH_MAX_HEIGHT * (frame.mouth_openness as u16) / 100;
            let height = if scaled < MOUTH_MIN_HEIGHT {
                MOUTH_MIN_HEIGHT
            } else {
                scaled
            };
            Mouth::Open(Rect::around(Point::new(MOUTH_X, MOUTH_Y), MOUTH_WIDTH, height))
        },
        // The mouth stays closed; only its corners go up.
        Expression::Idle | Expression::Listening => Mouth::Smile(
            Rect::around(
                Point::new(MOUTH_X, MOUTH_Y - SMILE_DIAMETER as i16 / 2 + SMILE_DEPTH),
                SMILE_DIAMETER,
                SMILE_DIAMETER,
            ),
        ),
        _ => Mouth::Closed(
            Rect::around(Point::new(MOUTH_X, MOUTH_Y), MOUTH_WIDTH / 2, CLOSED_MOUTH_HEIGHT),
        ),
    }
}

/// Worried brows: the outer ends low and the inner ends high. The other way
/// round the face would look angry.
fn lay_out_brows(expression: Expression) -> (brows: Option<(Brow, Brow)>)
    ensures
        brows == brows_for(expression),
{
    if expression != Expression::Trouble {
        return None;
    }
    let brow_y = EYE_Y - BROW_LIFT;
    let left = Brow {
        outer: Point::new(LEFT_EYE_X - BROW_HALF_WIDTH, brow_y + BROW_SLANT),
        inner: Point::new(LEFT_EYE_X + BROW_HALF_WIDTH, brow_y - BROW_SLANT),
    };
    let right = Brow {
        outer: Point::new(RIGHT_EYE_X + BROW_HALF_WIDTH, brow_y + BROW_SLANT),
        inner: Point::new(RIGHT_EYE_X - BROW_HALF_WIDTH, brow_y - BROW_SLANT),
    };
    Some((left, right))
}

proof fn lemma_gaze_offset_bounds(gaze_x: i8)
    ensures
        -18 <= gaze_offset(gaze_x) <= 18,
{
    let a = gaze_x * GAZE_TRAVEL;
    assert(-1792 <= a <= 1778);
    if a >= 0 {
        assert(a / 100 <= 18) by (nonlinear_arith)
            requires
                0 <= a <= 1778,
        ;
    } else {
        assert((-a) / 100 <= 18) by (nonlinear_arith)
            requires
                0 < -a <= 1792,
        ;
    }
}

/// Every part of every face lies on the screen, for any frame whose mouth
/// opening is within its documented range of 0 to 100.
pub proof fn law_face_stays_on_screen(frame: FaceFrame)
    requires
        frame.mouth_openness <= 100,
    ensures
        ({
            let l = face_layout(frame);
            &&& l.left_eye.on_screen()
            &&& l.right_eye.on_screen()
            &&& (l.left_pupil matches Some(p) ==> p.on_screen())
            &&& (l.right_pupil matches Some(p) ==> p.on_screen())
            &&& mouth_bounds(l.mouth).on_screen()
            &&& (l.spinner matches Some(s) ==> s.on_screen())
            &&& l.button.on_screen()
            &&& l.microphone.head.on_screen()
            &&& l.microphone.base.on_screen()
        }),
{
    lemma_gaze_offset_bounds(frame.gaze_x);
    let l = face_layout(frame);
    assert(l.left_eye.on_screen());
    assert(l.right_eye.on_screen());
    assert(l.left_pupil matches Some(p) ==> p.on_screen());
    assert(l.right_pupil matches Some(p) ==> p.on_screen());
    assert(mouth_bounds(l.mouth).on_screen());
    assert(l.spinner matches Some(s) ==> s.on_screen());
    assert(l.button.on_screen());
    assert(l.microphone.head.on_screen());
    assert(l.microphone.base.on_screen());
    let h = EYE_HEIGHT * frame.eye_openness / 100;
    assert(h <= 72 * 255 / 100) by (nonlinear_arith)
        requires
            h == EYE_HEIGHT * frame.eye_openness / 100,
            frame.eye_openness <= 255,
    ;
    let m = MOUTH_MAX_HEIGHT * frame.mouth_openness / 100;
    assert(m <= 56) by (nonlinear_arith)
        requires
            m == MOUTH_MAX_HEIGHT * frame.mouth_openness / 100,
            frame.mouth_openness <= 100,
    ;
}

/// The microphone's parts stay inside the button and stack downwards, and
/// the cradle wraps the head from below.
pub proof fn law_microphone_fits_the_button()
    ensures
        ({
            let mic = microphone_layout();
            let button = button_rect();
            &&& mic.head.inside(button)
            &&& mic.cradle.inside(button)
            &&& mic.stem.inside(button)
            &&& mic.base.inside(button)
            &&& mic.cradle.bottom_edge() <= mic.stem.y
            &&& mic.stem.bottom_edge() <= mic.base.y
            &&& mic.base.width > mic.stem.width
            &&& mic.cradle.width > mic.head.width
            &&& mic.cradle.y > mic.head.y
            &&& mic.cradle.bottom_edge() > mic.head.bottom_edge()
        }),
{
}

/// Worried brows rise towards the middle of the face, and pupils fit the
/// smallest eye they are drawn in.
pub proof fn law_worried_brows_and_pupils()
    ensures
        ({
            let (left, right) = brows_for(Expression::Trouble)->0;
            &&& left.inner.y < left.outer.y
            &&& right.inner.y < right.outer.y
            &&& left.inner.x > left.outer.x
            &&& right.inner.x < right.outer.x
        }),
        PUPIL_DIAMETER <= EYE_HEIGHT * PUPIL_VISIBLE_OPENNESS / 100,
{
}

/// Eyes stay centred at every opening, and the pupils are centred in them
/// when looking straight ahead.
pub proof fn law_eyes_stay_centred(frame: FaceFrame)
    ensures
        ({
            let l = face_layout(frame);
            &&& l.left_eye.y + l.left_eye.height / 2 == EYE_Y
            &&& l.right_eye.y + l.right_eye.height / 2 == EYE_Y
            &&& (frame.gaze_x == 0 && frame.eye_openness >= PUPIL_VISIBLE_OPENNESS) ==> (
            l.left_pupil->0.x + l.left_pupil->0.width / 2 == LEFT_EYE_X)
        }),
{
    let h = EYE_HEIGHT * frame.eye_openness / 100;
    assert(h <= 72 * 255 / 100) by (nonlinear_arith)
        requires
            h == EYE_HEIGHT * frame.eye_openness / 100,
            frame.eye_openness <= 255,
    ;
}

} // verus!
