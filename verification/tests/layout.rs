use m5a_core::face::{Expression, FaceFrame};
use m5a_core::layout::{
    button_active_color, button_disabled_color, button_idle_color, calm_background,
    is_talk_target, lay_out_face, trouble_background, Mouth, Point, EYE_HEIGHT, EYE_MIN_HEIGHT,
    EYE_Y, GAZE_TRAVEL, LEFT_EYE_X, MOUTH_MAX_HEIGHT, MOUTH_X, PUPIL_DIAMETER,
    PUPIL_VISIBLE_OPENNESS, RIGHT_EYE_X, SCREEN_HEIGHT, SCREEN_WIDTH, TALK_BUTTON_X,
    TALK_BUTTON_Y,
};


fn frame(expression: Expression, eye_openness: u8) -> FaceFrame {
    FaceFrame {
        expression,
        eye_openness,
        blink_openness: 100,
        mouth_openness: 0,
        gaze_x: 0,
        gaze_y: 0,
        nod: 0,
        button_scale: 100,
    }
}

#[test]
fn open_eyes_show_pupils_at_their_centre() {
    let layout = lay_out_face(&frame(Expression::Idle, 100));

    let pupil = layout.left_pupil.expect("開いた目には瞳が要る");
    assert_eq!(pupil.x + pupil.width as i16 / 2, LEFT_EYE_X);
    assert_eq!(pupil.y + pupil.height as i16 / 2, EYE_Y);
}

#[test]
fn closed_eyes_hide_pupils_but_keep_a_line() {
    let layout = lay_out_face(&frame(Expression::Idle, 0));

    assert!(layout.left_pupil.is_none());
    assert!(layout.right_pupil.is_none());
    assert_eq!(layout.left_eye.height, EYE_MIN_HEIGHT);
}

#[test]
fn layout_eyes_shrink_as_they_close() {
    let wide = lay_out_face(&frame(Expression::Listening, 100)).left_eye.height;
    let narrow = lay_out_face(&frame(Expression::Listening, 40)).left_eye.height;

    assert!(narrow < wide, "細めた目のほうが低いはず: {narrow} < {wide}");
}

#[test]
fn eyes_stay_centred_while_blinking() {
    for openness in [100, 60, 20, 0] {
        let eye = lay_out_face(&frame(Expression::Idle, openness)).left_eye;
        assert_eq!(eye.y + eye.height as i16 / 2, EYE_Y);
    }
}

#[test]
fn gaze_moves_both_pupils_the_same_way() {
    let looking_right = FaceFrame {
        gaze_x: 100,
        ..frame(Expression::Thinking, 100)
    };

    let layout = lay_out_face(&looking_right);

    let left = layout.left_pupil.unwrap();
    let right = layout.right_pupil.unwrap();
    assert_eq!(left.x + left.width as i16 / 2, LEFT_EYE_X + GAZE_TRAVEL);
    assert_eq!(
        right.x + right.width as i16 / 2,
        RIGHT_EYE_X + GAZE_TRAVEL
    );
}

#[test]
fn mouth_shape_follows_the_expression() {
    assert!(matches!(
        lay_out_face(&frame(Expression::Idle, 100)).mouth,
        Mouth::Smile(_)
    ));
    assert!(matches!(
        lay_out_face(&frame(Expression::Talking, 100)).mouth,
        Mouth::Open(_)
    ));
    assert!(matches!(
        lay_out_face(&frame(Expression::Thinking, 100)).mouth,
        Mouth::Closed(_)
    ));
}

#[test]
fn layout_talking_mouth_grows_with_voice() {
    let quiet = FaceFrame {
        mouth_openness: 10,
        ..frame(Expression::Talking, 100)
    };
    let loud = FaceFrame {
        mouth_openness: 100,
        ..frame(Expression::Talking, 100)
    };

    let quiet_height = lay_out_face(&quiet).mouth.bounds().height;
    let loud_height = lay_out_face(&loud).mouth.bounds().height;

    assert!(quiet_height < loud_height);
    assert_eq!(loud_height, MOUTH_MAX_HEIGHT);
}

#[test]
fn worried_brows_rise_towards_the_middle() {
    let (left, right) = lay_out_face(&frame(Expression::Trouble, 60))
        .brows
        .expect("困り顔には眉が要る");

    // 内側の端が外側より高い（y が小さい）のが困り顔。逆だと怒り顔になる。
    assert!(
        left.inner.y < left.outer.y,
        "左眉は内側が上がるはず: 内 {} 外 {}",
        left.inner.y,
        left.outer.y
    );
    assert!(
        right.inner.y < right.outer.y,
        "右眉は内側が上がるはず: 内 {} 外 {}",
        right.inner.y,
        right.outer.y
    );
    // 内側どうしが顔の中央に寄っている。
    assert!(left.inner.x > left.outer.x);
    assert!(right.inner.x < right.outer.x);
}

#[test]
fn brows_appear_only_when_troubled() {
    for expression in [
        Expression::Waiting,
        Expression::Idle,
        Expression::Listening,
        Expression::Thinking,
        Expression::Talking,
    ] {
        assert!(lay_out_face(&frame(expression, 80)).brows.is_none());
    }
    assert!(lay_out_face(&frame(Expression::Trouble, 80)).brows.is_some());
}

#[test]
fn layout_talk_button_sits_in_the_lower_right_corner() {
    let layout = lay_out_face(&frame(Expression::Idle, 100));

    assert!(layout.button.x > SCREEN_WIDTH / 2);
    assert!(layout.button.y > SCREEN_HEIGHT / 2);
    assert!(layout.button.right() <= SCREEN_WIDTH);
    assert!(layout.button.bottom() <= SCREEN_HEIGHT);
}

#[test]
fn any_touch_on_the_screen_starts_talking() {
    // 5歳児が的を狙えなくてよいよう、画面のどこでも受け付ける。
    for at in [
        Point::new(TALK_BUTTON_X, TALK_BUTTON_Y),
        Point::new(0, 0),
        Point::new(20, 20),
        Point::new(SCREEN_WIDTH - 1, SCREEN_HEIGHT - 1),
    ] {
        assert!(is_talk_target(at), "{at:?}");
    }
}

#[test]
fn touches_outside_the_screen_are_ignored() {
    assert!(!is_talk_target(Point::new(-1, 100)));
    assert!(!is_talk_target(Point::new(SCREEN_WIDTH, 100)));
    assert!(!is_talk_target(Point::new(100, SCREEN_HEIGHT)));
}

#[test]
fn microphone_sits_inside_the_button() {
    let layout = lay_out_face(&frame(Expression::Idle, 100));
    let button = layout.button;
    let mic = layout.microphone;

    for part in [mic.head, mic.cradle, mic.stem, mic.base] {
        assert!(
            part.x >= button.x
                && part.y >= button.y
                && part.right() <= button.right()
                && part.bottom() <= button.bottom(),
            "{part:?} がボタン {button:?} からはみ出した"
        );
    }
}

#[test]
fn microphone_stacks_its_parts_downwards() {
    let mic = lay_out_face(&frame(Expression::Idle, 100)).microphone;

    assert!(mic.cradle.bottom() <= mic.stem.y, "受け皿の下に支柱が来るはず");
    assert!(mic.stem.bottom() <= mic.base.y, "支柱の下に台座が来るはず");
    assert!(mic.base.width > mic.stem.width, "台座は支柱より広いはず");
}

#[test]
fn cradle_wraps_the_microphone_head() {
    let mic = lay_out_face(&frame(Expression::Idle, 100)).microphone;

    assert!(mic.cradle.width > mic.head.width, "受け皿は頭より広いはず");
    assert!(mic.cradle.y > mic.head.y, "受け皿は頭より下から始まるはず");
    assert!(
        mic.cradle.bottom() > mic.head.bottom(),
        "受け皿は頭の下端を越えて包むはず"
    );
}

#[test]
fn smile_is_drawn_in_a_square_so_it_stays_centred() {
    let Mouth::Smile(bounds) = lay_out_face(&frame(Expression::Idle, 100)).mouth else {
        panic!("待機中は笑顔のはず");
    };

    // 弧は正方形に内接する円として描かれる。横長だと口が横にずれる。
    assert_eq!(bounds.width, bounds.height);
    assert_eq!(bounds.x + bounds.width as i16 / 2, MOUTH_X);
}

#[test]
fn pupils_stay_inside_the_eyes() {
    // 瞳が目より高いと、はみ出して見える。
    let smallest_eye = EYE_HEIGHT * u16::from(PUPIL_VISIBLE_OPENNESS) / 100;
    assert!(
        PUPIL_DIAMETER <= smallest_eye,
        "瞳 {PUPIL_DIAMETER} が目の高さ {smallest_eye} を超えている"
    );
}

#[test]
fn smiling_keeps_the_mouth_closed() {
    let smiling = lay_out_face(&frame(Expression::Idle, 100)).mouth;
    let talking = lay_out_face(&FaceFrame {
        mouth_openness: 100,
        ..frame(Expression::Talking, 100)
    })
    .mouth;

    // 笑顔は線で描くので、口を開けている形とは区別する。
    assert!(matches!(smiling, Mouth::Smile(_)));
    assert!(matches!(talking, Mouth::Open(_)));
}

#[test]
fn loading_shows_a_spinner_instead_of_the_face() {
    let loading = lay_out_face(&frame(Expression::Waiting, 70));

    assert!(loading.is_loading());
    let spinner = loading.spinner.expect("読み込み中は印を出す");
    // 画面の中央に置く。
    assert_eq!(spinner.x + spinner.width as i16 / 2, SCREEN_WIDTH / 2);
    assert_eq!(spinner.y + spinner.height as i16 / 2, SCREEN_HEIGHT / 2);
}

#[test]
fn settled_states_show_the_face_not_a_spinner() {
    for expression in [
        Expression::Idle,
        Expression::Listening,
        Expression::Thinking,
        Expression::Talking,
        Expression::Trouble,
    ] {
        let layout = lay_out_face(&frame(expression, 100));
        assert!(!layout.is_loading(), "{expression:?}");
        assert!(layout.spinner.is_none());
    }
}

#[test]
fn talk_button_changes_colour_with_the_state() {
    assert_eq!(
        lay_out_face(&frame(Expression::Listening, 100)).button_color,
        button_active_color()
    );
    assert_eq!(
        lay_out_face(&frame(Expression::Idle, 100)).button_color,
        button_idle_color()
    );
    for expression in [Expression::Waiting, Expression::Trouble] {
        assert_eq!(
            lay_out_face(&frame(expression, 60)).button_color,
            button_disabled_color(),
            "{expression:?}"
        );
    }
}

#[test]
fn trouble_face_uses_a_warm_background() {
    assert_eq!(
        lay_out_face(&frame(Expression::Trouble, 60)).background,
        trouble_background()
    );
    assert_eq!(
        lay_out_face(&frame(Expression::Idle, 100)).background,
        calm_background()
    );
}

#[test]
fn everything_stays_inside_the_screen() {
    for expression in [
        Expression::Waiting,
        Expression::Idle,
        Expression::Listening,
        Expression::Thinking,
        Expression::Talking,
        Expression::Trouble,
    ] {
        let layout = lay_out_face(&FaceFrame {
            mouth_openness: 100,
            gaze_x: 100,
            ..frame(expression, 100)
        });

        let mut boxes = vec![
            layout.left_eye,
            layout.right_eye,
            layout.mouth.bounds(),
            layout.button,
            layout.microphone.head,
            layout.microphone.base,
        ];
        boxes.extend(layout.spinner);
        boxes.extend(layout.left_pupil);
        boxes.extend(layout.right_pupil);

        for area in boxes {
            assert!(
                area.x >= 0
                    && area.y >= 0
                    && area.right() <= SCREEN_WIDTH
                    && area.bottom() <= SCREEN_HEIGHT,
                "{expression:?} で {area:?} が画面外にはみ出した"
            );
        }
    }
}
