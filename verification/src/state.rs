//! The application's conversation state machine.
//!
//! The talk button only starts a recording; when the recording ends is
//! decided on the device from voice and silence (see `turn_detector`) and
//! arrives here as `SpeechEnded` / `SpeechNotDetected`.

use vstd::prelude::*;

verus! {

/// Which phase of the conversation the device is in.
#[derive(Debug, Clone, Copy, PartialEq, Eq, Structural)]
pub enum AppState {
    /// Just started; waiting for the configuration.
    Booting,
    /// The configuration is missing or invalid; a parent has to fix it.
    SetupRequired,
    /// Joining the WiFi network.
    Connecting,
    /// Opening the conversation session.
    Opening,
    /// Waiting to be spoken to.
    Ready,
    /// Recording the child's voice.
    Listening,
    /// The recording was sent; waiting for the answer.
    Thinking,
    /// Playing the answer.
    Speaking,
    /// Waiting before retrying after a failure.
    Recovering(Failure),
    /// Nothing happened for a long time; about to power off.
    ShuttingDown,
}

/// A failure the device can recover from.
#[derive(Debug, Clone, Copy, PartialEq, Eq, Structural)]
pub enum Failure {
    /// The WiFi network cannot be joined.
    Network,
    /// The conversation session was lost.
    Session,
    /// The SD card cannot be read or written.
    Storage,
}

pub open spec fn failure_description(failure: Failure) -> Seq<char> {
    match failure {
        Failure::Network => "WiFiに繋がりません"@,
        Failure::Session => "対話の準備ができません"@,
        Failure::Storage => "SDカードを読めません"@,
    }
}

pub open spec fn failure_remedy(failure: Failure) -> Seq<char> {
    match failure {
        Failure::Network => "config.toml のWiFi名とパスワードを確かめてください。2.4GHzのWiFiが必要です"@,
        Failure::Session => "config.toml のAPIキーと、OpenAIの利用残高を確かめてください"@,
        Failure::Storage => "SDカードが入っているか確かめてください"@,
    }
}

impl Failure {
    /// What went wrong, for a parent.
    pub fn describe(self) -> (text: &'static str)
        ensures
            text@ == failure_description(self),
    {
        match self {
            Failure::Network => "WiFiに繋がりません",
            Failure::Session => "対話の準備ができません",
            Failure::Storage => "SDカードを読めません",
        }
    }

    /// How a parent can fix it.
    pub fn remedy(self) -> (text: &'static str)
        ensures
            text@ == failure_remedy(self),
    {
        match self {
            Failure::Network => "config.toml のWiFi名とパスワードを確かめてください。2.4GHzのWiFiが必要です",
            Failure::Session => "config.toml のAPIキーと、OpenAIの利用残高を確かめてください",
            Failure::Storage => "SDカードが入っているか確かめてください",
        }
    }
}

/// What moves the state machine.
#[derive(Debug, Clone, Copy, PartialEq, Eq, Structural)]
pub enum AppEvent {
    ConfigLoaded,
    ConfigRejected,
    NetworkReady,
    SessionOpened,
    TalkPressed,
    TalkReleased,
    /// Silence after speech lasted long enough: the child finished speaking.
    SpeechEnded,
    /// Silence lasted long enough without any speech.
    SpeechNotDetected,
    ResponseStarted,
    ResponseFinished,
    Failed(Failure),
    RetryRequested,
    /// No touch for a long time.
    Idle,
}

/// Work the device layer is asked to do on a transition.
#[derive(Debug, Clone, Copy, PartialEq, Eq, Structural)]
pub enum AppAction {
    ConnectNetwork,
    OpenSession,
    CloseSession,
    StartCapture,
    StopCapture,
    RequestResponse,
    CancelResponse,
    StartPlayback,
    StopPlayback,
    ShowSetupGuide,
    ShowFailure(Failure),
    PowerOff,
}

/// The outcome of one transition.
#[derive(Debug, Clone, PartialEq, Eq)]
pub struct Transition {
    pub next: AppState,
    pub actions: Vec<AppAction>,
}

/// The actions taken whenever a failure is reported, from any state.
pub open spec fn failure_actions(failure: Failure) -> Seq<AppAction> {
    seq![
        AppAction::StopCapture,
        AppAction::StopPlayback,
        AppAction::CloseSession,
        AppAction::ShowFailure(failure),
    ]
}

/// The actions taken when the device powers off for inactivity.
pub open spec fn shutdown_actions() -> Seq<AppAction> {
    seq![
        AppAction::StopCapture,
        AppAction::StopPlayback,
        AppAction::CloseSession,
        AppAction::PowerOff,
    ]
}

/// The state machine as a table: the next state and the requested actions.
pub open spec fn step(current: AppState, event: AppEvent) -> (AppState, Seq<AppAction>) {
    match event {
        AppEvent::Failed(failure) => (AppState::Recovering(failure), failure_actions(failure)),
        AppEvent::Idle => match current {
            AppState::ShuttingDown => (current, seq![]),
            _ => (AppState::ShuttingDown, shutdown_actions()),
        },
        _ => match (current, event) {
            (AppState::Booting, AppEvent::ConfigLoaded) => (
                AppState::Connecting,
                seq![AppAction::ConnectNetwork],
            ),
            (AppState::Booting, AppEvent::ConfigRejected) => (
                AppState::SetupRequired,
                seq![AppAction::ShowSetupGuide],
            ),
            (AppState::Connecting, AppEvent::NetworkReady) => (
                AppState::Opening,
                seq![AppAction::OpenSession],
            ),
            (AppState::Opening, AppEvent::SessionOpened) => (AppState::Ready, seq![]),
            (AppState::Ready, AppEvent::TalkPressed) => (
                AppState::Listening,
                seq![AppAction::StartCapture],
            ),
            (AppState::Speaking, AppEvent::TalkPressed) => (
                AppState::Listening,
                seq![AppAction::CancelResponse, AppAction::StopPlayback, AppAction::StartCapture],
            ),
            (AppState::Thinking, AppEvent::TalkPressed) => (
                AppState::Listening,
                seq![AppAction::CancelResponse, AppAction::StartCapture],
            ),
            (AppState::Listening, AppEvent::SpeechEnded) => (
                AppState::Thinking,
                seq![AppAction::StopCapture, AppAction::RequestResponse],
            ),
            (AppState::Listening, AppEvent::SpeechNotDetected) => (
                AppState::Ready,
                seq![AppAction::StopCapture],
            ),
            (AppState::Thinking, AppEvent::ResponseStarted) => (
                AppState::Speaking,
                seq![AppAction::StartPlayback],
            ),
            (AppState::Speaking, AppEvent::ResponseFinished) => (
                AppState::Ready,
                seq![AppAction::StopPlayback],
            ),
            (AppState::Thinking, AppEvent::ResponseFinished) => (AppState::Ready, seq![]),
            (AppState::Recovering(_), AppEvent::RetryRequested) => (
                AppState::Connecting,
                seq![AppAction::ConnectNetwork],
            ),
            _ => (current, seq![]),
        },
    }
}

impl Transition {
    fn to(next: AppState, actions: Vec<AppAction>) -> (t: Self)
        ensures
            t.next == next,
            t.actions@ == actions@,
    {
        Transition { next, actions }
    }

    /// An event that means nothing in the current state: nothing happens.
    fn ignore(current: &AppState) -> (t: Self)
        ensures
            t.next == *current,
            t.actions@ == Seq::<AppAction>::empty(),
    {
        Transition { next: *current, actions: Vec::new() }
    }
}

/// Decides the next state and the work to request from a state and an event.
pub fn transition(current: &AppState, event: AppEvent) -> (t: Transition)
    ensures
        t.next == step(*current, event).0,
        t.actions@ == step(*current, event).1,
{
    // A failure can happen in any state, so it is handled first.
    if let AppEvent::Failed(failure) = event {
        return Transition::to(
            AppState::Recovering(failure),
            vec![
                AppAction::StopCapture,
                AppAction::StopPlayback,
                AppAction::CloseSession,
                AppAction::ShowFailure(failure),
            ],
        );
    }
    // So can inactivity; nothing to do when already powering off.
    if event == AppEvent::Idle {
        return match current {
            AppState::ShuttingDown => Transition::ignore(current),
            _ => Transition::to(
                AppState::ShuttingDown,
                vec![
                    AppAction::StopCapture,
                    AppAction::StopPlayback,
                    AppAction::CloseSession,
                    AppAction::PowerOff,
                ],
            ),
        };
    }
    match (current, event) {
        (AppState::Booting, AppEvent::ConfigLoaded) => Transition::to(
            AppState::Connecting,
            vec![AppAction::ConnectNetwork],
        ),
        (AppState::Booting, AppEvent::ConfigRejected) => Transition::to(
            AppState::SetupRequired,
            vec![AppAction::ShowSetupGuide],
        ),
        (AppState::Connecting, AppEvent::NetworkReady) => Transition::to(
            AppState::Opening,
            vec![AppAction::OpenSession],
        ),
        (AppState::Opening, AppEvent::SessionOpened) => Transition::to(AppState::Ready, Vec::new()),
        (AppState::Ready, AppEvent::TalkPressed) => Transition::to(
            AppState::Listening,
            vec![AppAction::StartCapture],
        ),
        // Children do not wait for the answer to end: interrupting must work.
        (AppState::Speaking, AppEvent::TalkPressed) => Transition::to(
            AppState::Listening,
            vec![AppAction::CancelResponse, AppAction::StopPlayback, AppAction::StartCapture],
        ),
        (AppState::Thinking, AppEvent::TalkPressed) => Transition::to(
            AppState::Listening,
            vec![AppAction::CancelResponse, AppAction::StartCapture],
        ),
        (AppState::Listening, AppEvent::SpeechEnded) => Transition::to(
            AppState::Thinking,
            vec![AppAction::StopCapture, AppAction::RequestResponse],
        ),
        (AppState::Listening, AppEvent::SpeechNotDetected) => Transition::to(
            AppState::Ready,
            vec![AppAction::StopCapture],
        ),
        (AppState::Thinking, AppEvent::ResponseStarted) => Transition::to(
            AppState::Speaking,
            vec![AppAction::StartPlayback],
        ),
        (AppState::Speaking, AppEvent::ResponseFinished) => Transition::to(
            AppState::Ready,
            vec![AppAction::StopPlayback],
        ),
        // An answer may end without any audio.
        (AppState::Thinking, AppEvent::ResponseFinished) => Transition::to(AppState::Ready, Vec::new()),
        (AppState::Recovering(_), AppEvent::RetryRequested) => Transition::to(
            AppState::Connecting,
            vec![AppAction::ConnectNetwork],
        ),
        _ => Transition::ignore(current),
    }
}


/// A failure reported in any state stops recording and playback, closes the
/// session, tells the parent and waits to retry.
pub proof fn law_failure_from_any_state(current: AppState, failure: Failure)
    ensures
        step(current, AppEvent::Failed(failure)) == (
            AppState::Recovering(failure),
            failure_actions(failure),
        ),
{
}

/// Inactivity powers the device off from any state, stopping everything
/// first; while already powering off it changes nothing.
pub proof fn law_idle_powers_off(current: AppState)
    ensures
        current != AppState::ShuttingDown ==> step(current, AppEvent::Idle) == (
            AppState::ShuttingDown,
            shutdown_actions(),
        ),
        current == AppState::ShuttingDown ==> step(current, AppEvent::Idle) == (
            current,
            Seq::<AppAction>::empty(),
        ),
{
}

/// An invalid configuration waits for a parent: only a failure or
/// inactivity can move the device out of `SetupRequired`.
pub proof fn law_setup_waits_for_the_parent(event: AppEvent)
    requires
        !(event is Failed),
        event != AppEvent::Idle,
    ensures
        step(AppState::SetupRequired, event) == (
            AppState::SetupRequired,
            Seq::<AppAction>::empty(),
        ),
{
}

/// Releasing the button never changes anything: recording ends on silence,
/// not on release.
pub proof fn law_release_is_ignored(current: AppState)
    ensures
        step(current, AppEvent::TalkReleased) == (current, Seq::<AppAction>::empty()),
{
}

/// Pressing the button while an answer is pending or playing cancels the
/// answer first and starts listening.
pub proof fn law_talk_interrupts_the_answer(current: AppState)
    requires
        current == AppState::Thinking || current == AppState::Speaking,
    ensures
        step(current, AppEvent::TalkPressed).0 == AppState::Listening,
        step(current, AppEvent::TalkPressed).1[0] == AppAction::CancelResponse,
        step(current, AppEvent::TalkPressed).1.last() == AppAction::StartCapture,
{
}

/// Whatever ends a recording also stops the microphone, and whatever ends
/// playback also stops the speaker.
pub proof fn law_leaving_stops_the_device(event: AppEvent)
    ensures
        step(AppState::Listening, event).0 != AppState::Listening ==> step(
            AppState::Listening,
            event,
        ).1.contains(AppAction::StopCapture),
        step(AppState::Speaking, event).0 != AppState::Speaking ==> step(
            AppState::Speaking,
            event,
        ).1.contains(AppAction::StopPlayback),
{
    match event {
        AppEvent::Failed(f) => {
            assert(failure_actions(f)[0] == AppAction::StopCapture);
            assert(failure_actions(f)[1] == AppAction::StopPlayback);
        },
        AppEvent::Idle => {
            assert(shutdown_actions()[0] == AppAction::StopCapture);
            assert(shutdown_actions()[1] == AppAction::StopPlayback);
        },
        AppEvent::SpeechEnded => {
            assert(step(AppState::Listening, event).1[0] == AppAction::StopCapture);
        },
        AppEvent::SpeechNotDetected => {
            assert(step(AppState::Listening, event).1[0] == AppAction::StopCapture);
        },
        AppEvent::TalkPressed => {
            assert(step(AppState::Speaking, event).1[1] == AppAction::StopPlayback);
        },
        AppEvent::ResponseFinished => {
            assert(step(AppState::Speaking, event).1[0] == AppAction::StopPlayback);
        },
        _ => {},
    }
}

/// Every failure is explained to the parent together with what to do.
pub proof fn law_every_failure_offers_a_remedy(failure: Failure)
    ensures
        failure_description(failure).len() > 0,
        failure_remedy(failure).len() > 0,
{
    reveal_strlit("WiFiに繋がりません");
    reveal_strlit("対話の準備ができません");
    reveal_strlit("SDカードを読めません");
    reveal_strlit("config.toml のWiFi名とパスワードを確かめてください。2.4GHzのWiFiが必要です");
    reveal_strlit("config.toml のAPIキーと、OpenAIの利用残高を確かめてください");
    reveal_strlit("SDカードが入っているか確かめてください");
}

/// How long to wait after a failure before trying again.
pub const RETRY_DELAY_MS: u64 = 3_000;

/// When to retry: only while recovering from a failure, keeping a retry
/// already scheduled, or else `RETRY_DELAY_MS` from now. A missing setup is
/// never retried, since only a parent can fix it.
pub fn schedule_retry(state: AppState, scheduled: Option<u64>, now_ms: u64) -> (retry_at: Option<u64>)
    requires
        now_ms <= u64::MAX - RETRY_DELAY_MS,
    ensures
        retry_at == match state {
            AppState::Recovering(_) => match scheduled {
                Some(at) => Some(at),
                None => Some((now_ms + RETRY_DELAY_MS) as u64),
            },
            _ => None,
        },
{
    match state {
        AppState::Recovering(_) => match scheduled {
            Some(at) => Some(at),
            None => Some(now_ms + RETRY_DELAY_MS),
        },
        _ => None,
    }
}

} // verus!
