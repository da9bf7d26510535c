use m5a_core::turn_detector::{TurnDetector, TurnOutcome, MAX_DURATION_MS, SILENCE_TIMEOUT_MS, VOICE_THRESHOLD};


#[test]
fn starts_without_having_spoken() {
    assert!(!TurnDetector::new().has_spoken());
}

#[test]
fn voice_marks_that_speech_happened() {
    let mut detector = TurnDetector::new();

    assert_eq!(detector.observe(VOICE_THRESHOLD, 20), None);
    assert!(detector.has_spoken());
}

#[test]
fn silence_below_the_timeout_does_not_conclude() {
    let mut detector = TurnDetector::new();

    assert_eq!(detector.observe(0, SILENCE_TIMEOUT_MS - 1), None);
}

#[test]
fn silence_alone_reaching_the_timeout_means_nothing_was_said() {
    let mut detector = TurnDetector::new();

    assert_eq!(
        detector.observe(0, SILENCE_TIMEOUT_MS),
        Some(TurnOutcome::NothingSaid)
    );
}

#[test]
fn speech_then_silence_reaching_the_timeout_ends_the_turn() {
    let mut detector = TurnDetector::new();

    detector.observe(50, 200);
    assert_eq!(
        detector.observe(0, SILENCE_TIMEOUT_MS),
        Some(TurnOutcome::SpeechEnded)
    );
}

#[test]
fn voice_resets_the_silence_timer() {
    let mut detector = TurnDetector::new();

    detector.observe(50, 200);
    assert_eq!(detector.observe(0, SILENCE_TIMEOUT_MS - 500), None);
    // ここで再び声が来ると、沈黙の時計はゼロから数え直すはず。
    assert_eq!(detector.observe(50, 20), None);
    assert_eq!(detector.observe(0, SILENCE_TIMEOUT_MS - 1), None);
    assert_eq!(
        detector.observe(0, 1),
        Some(TurnOutcome::SpeechEnded)
    );
}

#[test]
fn quiet_background_noise_below_the_threshold_does_not_count_as_speech() {
    let mut detector = TurnDetector::new();

    detector.observe(VOICE_THRESHOLD - 1, SILENCE_TIMEOUT_MS);

    assert!(!detector.has_spoken());
}

#[test]
fn continuous_noise_never_reaching_silence_still_ends_at_the_duration_limit() {
    let mut detector = TurnDetector::new();

    // 背景の音楽などでしきい値を超え続け、沈黙が一度も来ない状況を想定する。
    let mut outcome = None;
    for _ in 0..(MAX_DURATION_MS / 20 - 1) {
        outcome = detector.observe(50, 20);
    }
    assert_eq!(outcome, None, "上限に達する前は区切られないはず");

    assert_eq!(detector.observe(50, 20), Some(TurnOutcome::SpeechEnded));
}

#[test]
fn duration_limit_does_not_fire_early() {
    let mut detector = TurnDetector::new();

    assert_eq!(detector.observe(50, MAX_DURATION_MS - 1), None);
}

#[test]
fn a_series_of_readings_counts_silence_since_the_last_voice() {
    let mut detector = TurnDetector::new();
    assert_eq!(detector.observe(3, 1_000), None);
    assert!(!detector.has_spoken());
    assert_eq!(detector.observe(10, 300), None);
    assert!(detector.has_spoken());
    assert_eq!(detector.observe(3, 700), None);
    assert_eq!(detector.observe(2, 699), None);
    assert_eq!(detector.observe(1, 1), Some(TurnOutcome::SpeechEnded));
    assert!(detector.has_spoken());
}

#[test]
fn quiet_readings_alone_never_count_as_voice() {
    let mut detector = TurnDetector::new();
    assert_eq!(detector.observe(5, 1_000), None);
    assert_eq!(detector.observe(5, 399), None);
    assert!(!detector.has_spoken());
    assert_eq!(detector.observe(0, 1), Some(TurnOutcome::NothingSaid));
}
