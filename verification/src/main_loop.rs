//! The bookkeeping the device's main loop keeps from one frame to the next.
//!
//! The loop reads the finger, the clock and the modules, and performs what
//! the conversation asks for; which screen to show, when a touch is a swipe,
//! when to retry and when to power off are decided here.

use vstd::prelude::*;

use crate::config::{Config, ConfigError};
use crate::gesture::{detect_swipe, swipe_between, swipe_in_range, SwipeDirection};
use crate::layout::{is_talk_target, Point, SCREEN_HEIGHT, SCREEN_WIDTH};
use crate::module_status::{all_entries_ready, ModuleStatuses};
use crate::screen::{transition_screen, Screen, ScreenEvent};
use crate::settings_layout::{close_button_at, SettingsLayout};
use crate::state::{schedule_retry, AppEvent, AppState, RETRY_DELAY_MS};

verus! {

/// How long the screen may go untouched before the device powers off, so
/// that a forgotten device does not drain its battery.
pub const IDLE_SHUTDOWN_MS: u64 = 180_000;

/// The event the loop starts the conversation with.
pub fn startup_event(settings: &Result<Config, ConfigError>) -> (event: AppEvent)
    ensures
        event == if settings is Ok {
            AppEvent::ConfigLoaded
        } else {
            AppEvent::ConfigRejected
        },
{
    match settings {
        Ok(_) => AppEvent::ConfigLoaded,
        Err(_) => AppEvent::ConfigRejected,
    }
}

/// What lifting the finger amounts to.
#[derive(Debug, Clone, Copy, PartialEq, Eq, Structural)]
pub enum Lift {
    /// The finger swiped; the screen may switch.
    Swiped(SwipeDirection),
    /// The talk button was let go.
    Raised(AppEvent),
    /// Nothing to do.
    Unused,
}

/// What the loop remembers between frames.
#[derive(Debug, Clone, Copy, PartialEq, Eq, Structural)]
pub struct LoopState {
    /// The screen on display.
    pub screen: Screen,
    /// Whether the settings screen gives way to the assistant by itself once
    /// every module is ready. Off while the settings were opened by hand.
    pub auto_return: bool,
    /// Where the finger went down, until the touch turns out to be a swipe.
    pub swipe_start: Option<Point>,
    /// When the failure being recovered from is tried again.
    pub retry_at: Option<u64>,
    /// Retries since the device was last ready to talk.
    pub failed_attempts: u32,
    /// When the screen was last touched.
    pub idle_since_ms: u64,
}

/// Whether the screen has gone untouched for `IDLE_SHUTDOWN_MS` by `now_ms`.
pub open spec fn idle_reached(s: LoopState, now_ms: u64) -> bool {
    now_ms >= s.idle_since_ms && now_ms - s.idle_since_ms >= IDLE_SHUTDOWN_MS
}

/// The states a parent has to look at: they bring up the settings screen.
pub open spec fn needs_attention(state: AppState) -> bool {
    state is SetupRequired || state is Recovering
}

/// The loop after the conversation entered `state`.
pub open spec fn following(s: LoopState, state: AppState) -> LoopState {
    if needs_attention(state) {
        LoopState { screen: Screen::Settings, auto_return: true, ..s }
    } else {
        s
    }
}

/// The loop after a swipe.
pub open spec fn after_swipe(s: LoopState, direction: SwipeDirection) -> LoopState {
    match direction {
        SwipeDirection::Down => LoopState { screen: Screen::Settings, auto_return: false, ..s },
        SwipeDirection::Up => s,
    }
}

/// The loop after the modules were looked at.
pub open spec fn after_modules(s: LoopState, statuses: ModuleStatuses) -> LoopState {
    if s.screen == Screen::Settings && s.auto_return && all_entries_ready(statuses) {
        LoopState { screen: Screen::Assistant, ..s }
    } else {
        s
    }
}

/// Whether a touch at `at` lands on the talk button.
pub open spec fn on_talk_button(at: Point) -> bool {
    0 <= at.x < SCREEN_WIDTH && 0 <= at.y < SCREEN_HEIGHT
}

/// Whether a press at `at` hits the close button of `layout`.
pub open spec fn on_close_button(layout: SettingsLayout, at: Point) -> bool {
    layout.close_button.x <= at.x < layout.close_button.right_edge() && layout.close_button.y
        <= at.y < layout.close_button.bottom_edge()
}

/// What `close_button_at` needs of a layout.
pub open spec fn close_button_fits(layout: SettingsLayout) -> bool {
    &&& layout.close_button.right_edge() <= i16::MAX
    &&& layout.close_button.bottom_edge() <= i16::MAX
    &&& layout.close_button.width <= i16::MAX
    &&& layout.close_button.height <= i16::MAX
}

/// The swipe, if any, that a finger that went down at `start` makes by
/// reaching `at`.
pub open spec fn swipe_so_far(start: Option<Point>, at: Point) -> Option<SwipeDirection> {
    match start {
        Some(from) => swipe_between(from, at),
        None => None,
    }
}

/// Whether the swipe arithmetic stays within `i16` for a finger at `at`.
pub open spec fn trackable(s: LoopState, at: Point) -> bool {
    s.swipe_start matches Some(from) ==> swipe_in_range(from, at)
}

/// What lifting the finger at `at` amounts to.
pub open spec fn lift_of(s: LoopState, at: Point) -> Lift {
    match swipe_so_far(s.swipe_start, at) {
        Some(direction) => Lift::Swiped(direction),
        None => if s.screen == Screen::Assistant {
            Lift::Raised(AppEvent::TalkReleased)
        } else {
            Lift::Unused
        },
    }
}

impl LoopState {
    /// The loop as it starts: on the settings screen, so that a parent can
    /// see each module come up, and ready to leave it once all are ready.
    pub fn new(now_ms: u64) -> (s: Self)
        ensures
            s == (LoopState {
                screen: Screen::Settings,
                auto_return: true,
                swipe_start: None,
                retry_at: None,
                failed_attempts: 0,
                idle_since_ms: now_ms,
            }),
    {
        LoopState {
            screen: Screen::Settings,
            auto_return: true,
            swipe_start: None,
            retry_at: None,
            failed_attempts: 0,
            idle_since_ms: now_ms,
        }
    }

    /// Called after each step of the conversation. A missing setup or a
    /// failure switches to the settings screen at once, and lets it give way
    /// by itself again once things are fixed.
    pub fn follow_state(&mut self, state: &AppState)
        ensures
            *final(self) == following(*old(self), *state),
    {
        match state {
            AppState::SetupRequired | AppState::Recovering(_) => {
                self.screen = transition_screen(self.screen, ScreenEvent::ProblemDetected);
                self.auto_return = true;
            },
            _ => {},
        }
    }

    /// The finger went down at `at`. On the assistant's screen that asks to
    /// talk; on the settings screen only the close button does anything.
    pub fn touch_pressed(&mut self, at: Point, now_ms: u64, settings: &SettingsLayout) -> (event:
        Option<AppEvent>)
        requires
            close_button_fits(*settings),
        ensures
            event == if old(self).screen == Screen::Assistant && on_talk_button(at) {
                Some(AppEvent::TalkPressed)
            } else {
                None
            },
            *final(self) == (LoopState {
                screen: if old(self).screen == Screen::Settings && on_close_button(*settings, at) {
                    Screen::Assistant
                } else {
                    old(self).screen
                },
                swipe_start: Some(at),
                idle_since_ms: now_ms,
                ..*old(self)
            }),
    {
        self.idle_since_ms = now_ms;
        self.swipe_start = Some(at);
        match self.screen {
            Screen::Assistant => {
                if is_talk_target(at) {
                    Some(AppEvent::TalkPressed)
                } else {
                    None
                }
            },
            Screen::Settings => {
                if close_button_at(settings, at) {
                    self.screen = transition_screen(self.screen, ScreenEvent::CloseButtonPressed);
                }
                None
            },
        }
    }

    /// The finger moved to `at`. A swipe counts as soon as it is one, without
    /// waiting for the finger to lift, and only once.
    pub fn touch_moved(&mut self, at: Point, now_ms: u64) -> (swipe: Option<SwipeDirection>)
        requires
            trackable(*old(self), at),
        ensures
            swipe == swipe_so_far(old(self).swipe_start, at),
            *final(self) == (LoopState {
                swipe_start: if swipe is Some {
                    None
                } else {
                    old(self).swipe_start
                },
                idle_since_ms: now_ms,
                ..*old(self)
            }),
    {
        self.idle_since_ms = now_ms;
        match self.swipe_start {
            Some(start) => {
                let swipe = detect_swipe(start, at);
                if swipe.is_some() {
                    self.swipe_start = None;
                }
                swipe
            },
            None => None,
        }
    }

    /// The finger lifted at `at`: either it swiped, or it let go of the
    /// talk button.
    pub fn touch_released(&mut self, at: Point, now_ms: u64) -> (lift: Lift)
        requires
            trackable(*old(self), at),
        ensures
            lift == lift_of(*old(self), at),
            *final(self) == (LoopState {
                swipe_start: None,
                idle_since_ms: now_ms,
                ..*old(self)
            }),
    {
        self.idle_since_ms = now_ms;
        let swipe = match self.swipe_start {
            Some(start) => detect_swipe(start, at),
            None => None,
        };
        self.swipe_start = None;
        match swipe {
            Some(direction) => Lift::Swiped(direction),
            None => match self.screen {
                Screen::Assistant => Lift::Raised(AppEvent::TalkReleased),
                Screen::Settings => Lift::Unused,
            },
        }
    }

    /// A swipe was made. A swipe down opens the settings screen, which then
    /// stays until closed; a swipe up changes nothing, since the settings
    /// screen is left by its close button or once every module is ready.
    /// Returns whether a recording under way has to be dropped first, as
    /// the press that began the swipe started one.
    pub fn swipe(&mut self, direction: SwipeDirection, state: &AppState) -> (drop_recording: bool)
        ensures
            drop_recording == (*state == AppState::Listening),
            *final(self) == after_swipe(*old(self), direction),
    {
        if direction == SwipeDirection::Down {
            self.auto_return = false;
            self.screen = transition_screen(self.screen, ScreenEvent::SwipedToSettings);
        }
        *state == AppState::Listening
    }

    /// Looks at the modules: once every one is ready, the settings screen
    /// gives way to the assistant, unless it was opened by hand.
    pub fn check_modules(&mut self, statuses: &ModuleStatuses)
        ensures
            *final(self) == after_modules(*old(self), *statuses),
    {
        if self.screen == Screen::Settings && self.auto_return && statuses.all_ready() {
            self.screen = transition_screen(self.screen, ScreenEvent::AllModulesReady);
        }
    }

    /// Whether it is time to try again after a failure. A retry is planned
    /// `RETRY_DELAY_MS` after the failure is first seen; when it falls due it
    /// is counted and cleared, and the caller raises `RetryRequested`.
    pub fn retry_due(&mut self, state: &AppState, now_ms: u64) -> (due: bool)
        requires
            now_ms <= u64::MAX - RETRY_DELAY_MS,
            old(self).failed_attempts < u32::MAX,
        ensures
            ({
                let planned = match *state {
                    AppState::Recovering(_) => match old(self).retry_at {
                        Some(at) => Some(at),
                        None => Some((now_ms + RETRY_DELAY_MS) as u64),
                    },
                    _ => None,
                };
                &&& due == (planned matches Some(at) && now_ms >= at)
                &&& *final(self) == if due {
                    LoopState {
                        retry_at: None,
                        failed_attempts: (old(self).failed_attempts + 1) as u32,
                        ..*old(self)
                    }
                } else {
                    LoopState { retry_at: planned, ..*old(self) }
                }
            }),
    {
        self.retry_at = schedule_retry(*state, self.retry_at, now_ms);
        match self.retry_at {
            Some(at) => {
                if now_ms >= at {
                    self.retry_at = None;
                    self.failed_attempts = self.failed_attempts + 1;
                    true
                } else {
                    false
                }
            },
            None => false,
        }
    }

    /// Once the device is ready to talk, the count of retries starts over.
    pub fn settle(&mut self, state: &AppState)
        ensures
            *final(self) == if *state == AppState::Ready {
                LoopState { failed_attempts: 0, ..*old(self) }
            } else {
                *old(self)
            },
    {
        if *state == AppState::Ready {
            self.failed_attempts = 0;
        }
    }

    /// Whether the screen has gone untouched for `IDLE_SHUTDOWN_MS`.
    pub fn idle_due(&self, now_ms: u64) -> (due: bool)
        ensures
            due == idle_reached(*self, now_ms),
    {
        now_ms.saturating_sub(self.idle_since_ms) >= IDLE_SHUTDOWN_MS
    }
}

/// A problem always brings up the settings screen and lets it give way by
/// itself once fixed, wherever the loop was.
pub proof fn law_problems_rearm_the_return(s: LoopState, state: AppState)
    requires
        needs_attention(state),
    ensures
        following(s, state).screen == Screen::Settings,
        following(s, state).auto_return,
{
}

/// Settings opened by hand stay open, however ready the modules are.
pub proof fn law_settings_opened_by_hand_stay(s: LoopState, statuses: ModuleStatuses)
    ensures
        after_modules(after_swipe(s, SwipeDirection::Down), statuses).screen == Screen::Settings,
{
}

/// Any touch postpones powering off by the full idle time: a loop touched
/// at `touched_ms` is not idle before `touched_ms + IDLE_SHUTDOWN_MS`.
pub proof fn law_touch_keeps_the_device_on(s: LoopState, later_ms: u64)
    requires
        s.idle_since_ms <= later_ms < s.idle_since_ms + IDLE_SHUTDOWN_MS,
    ensures
        !idle_reached(s, later_ms),
{
}

/// A touch that swiped is never also taken as letting go of the talk button.
pub proof fn law_a_swipe_is_not_a_talk(s: LoopState, at: Point)
    requires
        swipe_so_far(s.swipe_start, at) is Some,
    ensures
        lift_of(s, at) is Swiped,
{
}

} // verus!
