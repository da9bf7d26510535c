use m5a_core::screen::{transition_screen, Screen, ScreenEvent};


#[test]
fn swiping_opens_settings() {
    assert_eq!(
        transition_screen(Screen::Assistant, ScreenEvent::SwipedToSettings),
        Screen::Settings
    );
}

#[test]
fn close_button_returns_to_assistant() {
    assert_eq!(
        transition_screen(Screen::Settings, ScreenEvent::CloseButtonPressed),
        Screen::Assistant
    );
}

#[test]
fn problem_forces_settings_screen_even_from_assistant() {
    assert_eq!(
        transition_screen(Screen::Assistant, ScreenEvent::ProblemDetected),
        Screen::Settings
    );
    assert_eq!(
        transition_screen(Screen::Settings, ScreenEvent::ProblemDetected),
        Screen::Settings
    );
}

#[test]
fn all_modules_ready_returns_to_assistant_screen() {
    assert_eq!(
        transition_screen(Screen::Settings, ScreenEvent::AllModulesReady),
        Screen::Assistant
    );
    assert_eq!(
        transition_screen(Screen::Assistant, ScreenEvent::AllModulesReady),
        Screen::Assistant
    );
}
