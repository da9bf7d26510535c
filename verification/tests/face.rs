use m5a_core::face::{
    Expression, FaceAnimator, Glance, BLINK_DURATION_MS, BLINK_MIN_INTERVAL_MS, DOUBLE_BLINK_GAP_MS,
    PATIENT_ATTEMPTS,
};
use m5a_core::state::{AppState, Failure};


#[test]
fn maps_every_state_to_an_expression() {
    let pairs = [
        (AppState::Booting, Expression::Waiting),
        (AppState::Connecting, Expression::Waiting),
        (AppState::Opening, Expression::Waiting),
        (AppState::Ready, Expression::Idle),
        (AppState::Listening, Expression::Listening),
        (AppState::Thinking, Expression::Thinking),
        (AppState::Speaking, Expression::Talking),
        (AppState::SetupRequired, Expression::Trouble),
        (AppState::ShuttingDown, Expression::Idle),
    ];

    for (state, expected) in pairs {
        assert_eq!(Expression::from_state(&state, 0), expected, "state={state:?}");
    }
}


#[test]
fn early_failures_look_like_loading() {
    let recovering = AppState::Recovering(Failure::Network);

    // 起動直後の数回は普通に失敗する。困り顔を見せない。
    for attempts in 0..PATIENT_ATTEMPTS {
        assert_eq!(
            Expression::from_state(&recovering, attempts),
            Expression::Waiting,
            "{attempts}回目"
        );
    }
}


#[test]
fn persistent_failures_ask_for_help() {
    let recovering = AppState::Recovering(Failure::Network);

    assert_eq!(
        Expression::from_state(&recovering, PATIENT_ATTEMPTS),
        Expression::Trouble
    );
}


#[test]
fn setup_trouble_shows_immediately() {
    // 設定不備は待っても直らないので、最初から親に伝える。
    assert_eq!(
        Expression::from_state(&AppState::SetupRequired, 0),
        Expression::Trouble
    );
}


#[test]
fn loading_states_hide_the_face() {
    assert!(Expression::Waiting.is_loading());
    assert!(!Expression::Idle.is_loading());
    assert!(!Expression::Trouble.is_loading());
}


#[test]
fn a_nod_in_progress_is_not_restarted() {

    let mut animator = FaceAnimator::new();
    animator.set_expression(Expression::Listening);

    animator.trigger_nod(1_000);
    animator.trigger_nod(1_050);

    assert_eq!(animator.nod_started_at(), Some(1_000));
}

#[test]
fn glances_stay_centred_outside_idle() {

    let mut animator = FaceAnimator::new();
    animator.set_expression(Expression::Thinking);

    for now_ms in (0..60_000).step_by(50) {
        animator.advance(now_ms);
        assert_eq!(animator.idle_glance(), Glance::Center, "{now_ms}ms");
    }
}

#[test]
fn glances_last_between_one_and_three_seconds() {

    let mut animator = FaceAnimator::new();
    animator.set_expression(Expression::Idle);

    let mut glances = 0;
    for now_ms in (0..300_000).step_by(50) {
        animator.advance(now_ms);
        if animator.idle_glance() != Glance::Center {
            let hold = animator.idle_glance_hold_ms();
            assert!((1_000..3_000).contains(&hold), "{hold}ms");
            glances += 1;
        }
    }
    assert!(glances > 0);
}

#[test]
fn blinks_keep_their_spacing() {

    let mut animator = FaceAnimator::new();
    animator.set_expression(Expression::Idle);

    let mut starts: Vec<u64> = Vec::new();
    for now_ms in (0..300_000).step_by(10) {
        animator.advance(now_ms);
        if let Some(start) = animator.blink_started_at() {
            if starts.last() != Some(&start) {
                starts.push(start);
            }
        }
    }

    let pair_gap = BLINK_DURATION_MS + DOUBLE_BLINK_GAP_MS;
    for pair in starts.windows(2) {
        let gap = pair[1] - pair[0];
        assert!(
            gap == pair_gap || gap >= BLINK_DURATION_MS + BLINK_MIN_INTERVAL_MS,
            "{starts:?}"
        );
    }
    assert!(starts.windows(2).any(|pair| pair[1] - pair[0] == pair_gap));
    assert!(starts.windows(3).all(|three| {
        !(three[1] - three[0] == pair_gap && three[2] - three[1] == pair_gap)
    }));
}

#[test]
fn the_button_heads_to_hidden_only_while_listening() {

    let mut animator = FaceAnimator::new();
    assert!(animator.button_target_visible());

    animator.set_expression(Expression::Listening);
    animator.advance_button(500, 100);
    assert!(!animator.button_target_visible());
    assert_eq!(animator.button_transition(), (500, 100));

    animator.set_expression(Expression::Thinking);
    animator.advance_button(600, 50);
    assert!(animator.button_target_visible());
    assert_eq!(animator.button_transition(), (600, 50));

    animator.advance_button(700, 80);
    assert_eq!(animator.button_transition(), (600, 50));
}

#[test]
fn the_mouth_opens_with_the_voice_only_while_talking() {

    let mut animator = FaceAnimator::new();
    animator.set_voice_level(80);

    animator.set_expression(Expression::Talking);
    assert_eq!(animator.mouth_openness(), 80);

    animator.set_expression(Expression::Listening);
    assert_eq!(animator.mouth_openness(), 5);
}

#[test]
fn mouth_opens_with_the_voice_only_while_talking() {
    let mut animator = FaceAnimator::new();
    animator.set_expression(Expression::Talking);
    animator.set_voice_level(80);
    assert_eq!(animator.mouth_openness(), 80);
    animator.set_voice_level(3);
    assert_eq!(animator.mouth_openness(), 10);
    animator.set_voice_level(200);
    assert_eq!(animator.mouth_openness(), 100);
    animator.set_expression(Expression::Listening);
    assert_eq!(animator.mouth_openness(), 5);
}
