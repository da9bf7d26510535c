use m5a_core::greeting::TimeOfDay;


/// その日の指定時刻の UNIX 時刻（その土地の時刻として）。
fn at_hour(hour: i64) -> i64 {
    1_787_821_503 / 86_400 * 86_400 + hour * 3_600
}

#[test]
fn morning_runs_from_five_to_eleven() {
    for hour in 5..11 {
        assert_eq!(TimeOfDay::at(at_hour(hour)), TimeOfDay::Morning, "{hour}時");
    }
}

#[test]
fn afternoon_runs_from_eleven_to_six() {
    for hour in 11..18 {
        assert_eq!(TimeOfDay::at(at_hour(hour)), TimeOfDay::Afternoon, "{hour}時");
    }
}

#[test]
fn evening_covers_the_night_and_early_hours() {
    for hour in (18..24).chain(0..5) {
        assert_eq!(TimeOfDay::at(at_hour(hour)), TimeOfDay::Evening, "{hour}時");
    }
}

#[test]
fn every_time_of_day_has_a_greeting() {
    assert_eq!(TimeOfDay::Morning.greeting(), "おはよう");
    assert_eq!(TimeOfDay::Afternoon.greeting(), "こんにちは");
    assert_eq!(TimeOfDay::Evening.greeting(), "こんばんは");
}

#[test]
fn the_part_of_the_day_repeats_every_day() {
    for hour in 0..24 {
        let today = at_hour(hour);
        for days in [-400_i64, -1, 1, 365] {
            assert_eq!(TimeOfDay::at(today + days * 86_400), TimeOfDay::at(today));
        }
    }
}

#[test]
fn times_before_the_epoch_keep_their_hour() {
    assert_eq!(TimeOfDay::at(-3_600), TimeOfDay::Evening);
    assert_eq!(TimeOfDay::at(-86_400 + 6 * 3_600), TimeOfDay::Morning);
}
