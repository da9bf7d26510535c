use m5a_core::layout::Point;
use m5a_core::face::{Expression, FaceFrame};
use m5a_core::render::{
    contains_talk_button, eye_shape, talk_button_center, EyeShape, SCREEN_HEIGHT, SCREEN_WIDTH,
    TALK_BUTTON_RADIUS,
};

#[test]
fn render_talk_button_sits_in_the_lower_right_corner() {
    let center = talk_button_center();

    assert!(i32::from(center.x) > SCREEN_WIDTH as i32 / 2);
    assert!(i32::from(center.y) > SCREEN_HEIGHT as i32 / 2);
    assert!(i32::from(center.x) + TALK_BUTTON_RADIUS < SCREEN_WIDTH as i32);
    assert!(i32::from(center.y) + TALK_BUTTON_RADIUS < SCREEN_HEIGHT as i32);
}

#[test]
fn talk_button_accepts_touches_on_and_near_it() {
    let center = talk_button_center();
    let radius = TALK_BUTTON_RADIUS as i16;

    assert!(contains_talk_button(center));
    assert!(contains_talk_button(Point::new(center.x + radius, center.y)));
    assert!(!contains_talk_button(Point::new(20, 20)));
    assert!(!contains_talk_button(Point::new(center.x - radius * 3, center.y)));
}

#[test]
fn the_touch_area_ends_fifty_pixels_from_the_centre() {
    let center = talk_button_center();

    assert!(contains_talk_button(Point::new(center.x + 50, center.y)));
    assert!(!contains_talk_button(Point::new(center.x + 51, center.y)));
    assert!(contains_talk_button(Point::new(center.x + 30, center.y + 40)));
    assert!(!contains_talk_button(Point::new(center.x + 31, center.y + 40)));
    assert!(!contains_talk_button(Point::new(i16::MIN, i16::MIN)));
    assert!(!contains_talk_button(Point::new(i16::MAX, i16::MAX)));
}

fn frame(eye_openness: u8, gaze_x: i8) -> FaceFrame {
    FaceFrame {
        expression: Expression::Idle,
        eye_openness,
        blink_openness: 100,
        mouth_openness: 0,
        gaze_x,
        gaze_y: 0,
        nod: 0,
        button_scale: 100,
    }
}

#[test]
fn open_eye_is_full_height_with_its_pupil() {
    let center = Point::new(104, 96);
    assert_eq!(
        eye_shape(center, &frame(100, 0)),
        EyeShape { center, height: 72, shows_pupil: true, gaze_offset: 0 }
    );
    assert_eq!(eye_shape(center, &frame(50, 0)).height, 36);
}

#[test]
fn closed_eye_is_still_a_line_without_a_pupil() {
    let shape = eye_shape(Point::new(216, 96), &frame(0, 0));
    assert_eq!(shape.height, 4);
    assert!(!shape.shows_pupil);
    assert!(!eye_shape(Point::new(216, 96), &frame(34, 0)).shows_pupil);
    assert!(eye_shape(Point::new(216, 96), &frame(35, 0)).shows_pupil);
}

#[test]
fn gaze_moves_the_pupil_rounding_toward_the_middle() {
    let center = Point::new(104, 96);
    assert_eq!(eye_shape(center, &frame(100, 100)).gaze_offset, 14);
    assert_eq!(eye_shape(center, &frame(100, -100)).gaze_offset, -14);
    assert_eq!(eye_shape(center, &frame(100, 99)).gaze_offset, 13);
    assert_eq!(eye_shape(center, &frame(100, -99)).gaze_offset, -13);
}
