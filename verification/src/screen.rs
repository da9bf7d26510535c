//! Switching between the assistant screen and the settings screen.
//!
//! Which screen is shown is independent of the conversation state, so it is
//! kept as its own small state machine.

use vstd::prelude::*;

verus! {

/// The screen on display.
#[derive(Debug, Clone, Copy, PartialEq, Eq, Structural)]
pub enum Screen {
    /// The face that talks with the child.
    Assistant,
    /// The list of how ready each module is.
    Settings,
}

/// What switches the screen.
#[derive(Debug, Clone, Copy, PartialEq, Eq, Structural)]
pub enum ScreenEvent {
    /// A swipe opened the settings screen.
    SwipedToSettings,
    /// The close button of the settings screen was pressed.
    CloseButtonPressed,
    /// A problem a parent has to deal with came up.
    ProblemDetected,
    /// Every watched module became ready.
    AllModulesReady,
}

/// The screen that an event leads to. The latest event decides, whatever
/// screen is shown.
pub open spec fn screen_after(event: ScreenEvent) -> Screen {
    match event {
        ScreenEvent::CloseButtonPressed | ScreenEvent::AllModulesReady => Screen::Assistant,
        ScreenEvent::SwipedToSettings | ScreenEvent::ProblemDetected => Screen::Settings,
    }
}

/// Decides the next screen from the current one and an event.
pub fn transition_screen(current: Screen, event: ScreenEvent) -> (next: Screen)
    ensures
        next == screen_after(event),
{
    let _ = current;
    match event {
        ScreenEvent::CloseButtonPressed => Screen::Assistant,
        ScreenEvent::SwipedToSettings => Screen::Settings,
        ScreenEvent::ProblemDetected => Screen::Settings,
        ScreenEvent::AllModulesReady => Screen::Assistant,
    }
}

/// A problem always brings up the settings screen, and once every module is
/// ready the assistant's screen comes back, whichever screen was showing.
pub proof fn law_problems_show_settings(event: ScreenEvent)
    ensures
        event == ScreenEvent::ProblemDetected ==> screen_after(event) == Screen::Settings,
        event == ScreenEvent::AllModulesReady ==> screen_after(event) == Screen::Assistant,
{
}

} // verus!
