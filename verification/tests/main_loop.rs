use m5a_core::config::{ConfigError, parse_config};
use m5a_core::gesture::SwipeDirection;
use m5a_core::layout::Point;
use m5a_core::main_loop::{startup_event, Lift, LoopState, IDLE_SHUTDOWN_MS};
use m5a_core::module_status::{ModuleStatus, ModuleStatuses};
use m5a_core::screen::Screen;
use m5a_core::settings_layout::lay_out_settings;
use m5a_core::state::{AppEvent, AppState, Failure, RETRY_DELAY_MS};

fn all_ready() -> ModuleStatuses {
    let mut statuses = ModuleStatuses::booting();
    statuses.sd_card = ModuleStatus::Ready;
    statuses.microphone = ModuleStatus::Ready;
    statuses.speaker = ModuleStatus::Ready;
    statuses.wifi = ModuleStatus::Ready;
    statuses.realtime_session = ModuleStatus::Ready;
    statuses
}

fn on_assistant_screen() -> LoopState {
    let mut frame = LoopState::new(0);
    frame.check_modules(&all_ready());
    assert_eq!(frame.screen, Screen::Assistant);
    frame
}

#[test]
fn loop_starts_on_the_settings_screen() {
    let frame = LoopState::new(42);
    assert_eq!(frame.screen, Screen::Settings);
    assert!(frame.auto_return);
    assert_eq!(frame.swipe_start, None);
    assert_eq!(frame.retry_at, None);
    assert_eq!(frame.failed_attempts, 0);
    assert_eq!(frame.idle_since_ms, 42);
}

#[test]
fn startup_event_follows_the_settings() {
    let rejected: Result<_, ConfigError> = parse_config("");
    assert!(rejected.is_err());
    assert_eq!(startup_event(&rejected), AppEvent::ConfigRejected);

    let source = "[child]\nname = \"みなと\"\n[wifi]\nssid = \"home\"\npassword = \"pass\"\n[openai]\napi_key = \"sk-proj-1\"\n";
    let loaded = parse_config(source);
    assert!(loaded.is_ok());
    assert_eq!(startup_event(&loaded), AppEvent::ConfigLoaded);
}

#[test]
fn settings_screen_waits_for_every_module() {
    let mut frame = LoopState::new(0);
    frame.check_modules(&ModuleStatuses::booting());
    assert_eq!(frame.screen, Screen::Settings);

    frame.check_modules(&all_ready());
    assert_eq!(frame.screen, Screen::Assistant);
}

#[test]
fn press_on_the_assistant_screen_asks_to_talk() {
    let statuses = all_ready();
    let settings = lay_out_settings(&statuses, "alloy", 50, 50, 20);
    let mut frame = on_assistant_screen();

    let event = frame.touch_pressed(Point::new(100, 100), 500, &settings);

    assert_eq!(event, Some(AppEvent::TalkPressed));
    assert_eq!(frame.swipe_start, Some(Point::new(100, 100)));
    assert_eq!(frame.idle_since_ms, 500);
    assert_eq!(
        frame.touch_released(Point::new(102, 104), 700),
        Lift::Raised(AppEvent::TalkReleased)
    );
    assert_eq!(frame.swipe_start, None);
}

#[test]
fn press_on_the_settings_screen_does_not_talk() {
    let statuses = ModuleStatuses::booting();
    let settings = lay_out_settings(&statuses, "alloy", 50, 50, 20);
    let mut frame = LoopState::new(0);

    let event = frame.touch_pressed(Point::new(100, 100), 10, &settings);

    assert_eq!(event, None);
    assert_eq!(frame.screen, Screen::Settings);
    assert_eq!(frame.touch_released(Point::new(100, 100), 20), Lift::Unused);
}

#[test]
fn close_button_leaves_the_settings_screen() {
    let statuses = ModuleStatuses::booting();
    let settings = lay_out_settings(&statuses, "alloy", 50, 50, 20);
    let mut frame = LoopState::new(0);
    let on_close = Point::new(settings.close_button.x + 1, settings.close_button.y + 1);

    assert_eq!(frame.touch_pressed(on_close, 10, &settings), None);

    assert_eq!(frame.screen, Screen::Assistant);
}

#[test]
fn moving_far_enough_swipes_once() {
    let statuses = all_ready();
    let settings = lay_out_settings(&statuses, "alloy", 50, 50, 20);
    let mut frame = on_assistant_screen();
    frame.touch_pressed(Point::new(100, 50), 0, &settings);

    assert_eq!(frame.touch_moved(Point::new(101, 70), 40), None);
    assert_eq!(frame.swipe_start, Some(Point::new(100, 50)));
    assert_eq!(frame.touch_moved(Point::new(105, 150), 80), Some(SwipeDirection::Down));
    assert_eq!(frame.swipe_start, None);
    assert_eq!(frame.touch_moved(Point::new(105, 220), 120), None);
    assert_eq!(frame.idle_since_ms, 120);
}

#[test]
fn lifting_after_a_swipe_reports_the_swipe() {
    let statuses = all_ready();
    let settings = lay_out_settings(&statuses, "alloy", 50, 50, 20);
    let mut frame = on_assistant_screen();
    frame.touch_pressed(Point::new(100, 200), 0, &settings);

    assert_eq!(
        frame.touch_released(Point::new(95, 90), 100),
        Lift::Swiped(SwipeDirection::Up)
    );
}

#[test]
fn swiping_down_opens_settings_that_stay() {
    let mut frame = on_assistant_screen();

    let drop_recording = frame.swipe(SwipeDirection::Down, &AppState::Listening);

    assert!(drop_recording);
    assert_eq!(frame.screen, Screen::Settings);
    assert!(!frame.auto_return);
    frame.check_modules(&all_ready());
    assert_eq!(frame.screen, Screen::Settings);
}

#[test]
fn swiping_up_changes_nothing() {
    let mut frame = on_assistant_screen();
    let before = frame;

    assert!(!frame.swipe(SwipeDirection::Up, &AppState::Ready));

    assert_eq!(frame, before);
}

#[test]
fn problems_bring_the_settings_back_and_rearm_the_return() {
    let mut frame = on_assistant_screen();
    frame.swipe(SwipeDirection::Down, &AppState::Ready);
    assert!(!frame.auto_return);

    frame.follow_state(&AppState::Recovering(Failure::Network));
    assert_eq!(frame.screen, Screen::Settings);
    assert!(frame.auto_return);

    let mut fresh = on_assistant_screen();
    fresh.follow_state(&AppState::SetupRequired);
    assert_eq!(fresh.screen, Screen::Settings);

    let mut calm = on_assistant_screen();
    calm.follow_state(&AppState::Speaking);
    assert_eq!(calm.screen, Screen::Assistant);
}

#[test]
fn retry_falls_due_after_the_delay_and_is_counted() {
    let mut frame = LoopState::new(0);
    let failing = AppState::Recovering(Failure::Session);

    assert!(!frame.retry_due(&failing, 1_000));
    assert_eq!(frame.retry_at, Some(1_000 + RETRY_DELAY_MS));
    assert!(!frame.retry_due(&failing, 1_000 + RETRY_DELAY_MS - 1));
    assert!(frame.retry_due(&failing, 1_000 + RETRY_DELAY_MS));
    assert_eq!(frame.retry_at, None);
    assert_eq!(frame.failed_attempts, 1);

    frame.settle(&AppState::Connecting);
    assert_eq!(frame.failed_attempts, 1);
    frame.settle(&AppState::Ready);
    assert_eq!(frame.failed_attempts, 0);
}

#[test]
fn no_retry_outside_recovery() {
    let mut frame = LoopState::new(0);
    assert!(!frame.retry_due(&AppState::SetupRequired, 10_000));
    assert_eq!(frame.retry_at, None);
    assert_eq!(frame.failed_attempts, 0);
}

#[test]
fn three_minutes_untouched_powers_off() {
    let statuses = all_ready();
    let settings = lay_out_settings(&statuses, "alloy", 50, 50, 20);
    let mut frame = LoopState::new(1_000);
    assert_eq!(IDLE_SHUTDOWN_MS, 180_000);

    assert!(!frame.idle_due(1_000 + IDLE_SHUTDOWN_MS - 1));
    assert!(frame.idle_due(1_000 + IDLE_SHUTDOWN_MS));

    frame.touch_pressed(Point::new(10, 10), 100_000, &settings);
    assert!(!frame.idle_due(1_000 + IDLE_SHUTDOWN_MS));
    assert!(frame.idle_due(100_000 + IDLE_SHUTDOWN_MS));
    assert!(!frame.idle_due(500));
}
