//! The assistant's face on the screen.
//!
//! Drawing is done by the device layer; this module decides which face to
//! show from the time. There is no randomness: blink and glance intervals are
//! spread by an internal pseudo-random sequence, so the same sequence of times
//! always gives the same faces.
//!
//! The parts of a frame that are computed with floating point (blink depth,
//! glance and nod amplitudes, the button's scale) are derived by the device
//! layer from the state kept here.

use vstd::prelude::*;
use crate::state::{AppState, Failure};

verus! {

/// Length of one blink.
pub const BLINK_DURATION_MS: u64 = 140;
/// Shortest time between blinks.
pub const BLINK_MIN_INTERVAL_MS: u64 = 2_500;
/// Spread of the time between blinks.
pub const BLINK_INTERVAL_SPREAD_MS: u64 = 2_500;
/// Failures shown as "still loading" before the face asks for help.
///
/// WiFi often fails a few times at first; a worried face each time would
/// upset the child.
pub const PATIENT_ATTEMPTS: u32 = 5;
/// Time for the gaze to move to a direction and back.
pub const IDLE_GLANCE_TRANSITION_MS: u64 = 100;
/// Shortest time a glance stays in its direction.
pub const IDLE_GLANCE_PLATEAU_MIN_MS: u64 = 800;
/// Spread of the time a glance stays in its direction.
pub const IDLE_GLANCE_PLATEAU_SPREAD_MS: u64 = 2_000;
/// Shortest time between glances.
pub const IDLE_GLANCE_MIN_INTERVAL_MS: u64 = 4_000;
/// Spread of the time between glances.
pub const IDLE_GLANCE_INTERVAL_SPREAD_MS: u64 = 5_000;
/// How far a glance moves the gaze.
pub const IDLE_GLANCE_MAGNITUDE: i8 = 70;
/// Gap between the two blinks of a double blink.
pub const DOUBLE_BLINK_GAP_MS: u64 = 220;
/// A blink while idle is doubled with probability 1/N.
pub const DOUBLE_BLINK_CHANCE_DENOM: u32 = 4;
/// Length of one nod (down and back up).
pub const NOD_PULSE_MS: u64 = 200;
/// Gap between the two nods of a double nod.
pub const NOD_GAP_MS: u64 = 120;
/// Time for the talk button to appear or disappear.
pub const BUTTON_TRANSITION_MS: u64 = 200;
/// The latest time the animator accepts. Far beyond any uptime in
/// milliseconds; it keeps every scheduled time within `u64`.
pub const TIME_LIMIT_MS: u64 = 0x3FFF_FFFF_FFFF_FFFF;

/// Direction of an idle glance.
#[derive(Debug, Clone, Copy, PartialEq, Eq, Structural)]
pub enum Glance {
    Center,
    Left,
    Right,
    Up,
    Down,
}

/// The basic expression of the face.
#[derive(Debug, Clone, Copy, PartialEq, Eq, Structural)]
pub enum Expression {
    /// Getting ready; waiting for the connection.
    Waiting,
    /// Waiting to be spoken to: a plain smile.
    Idle,
    /// Listening: eyes wide open.
    Listening,
    /// Thinking: the gaze wanders.
    Thinking,
    /// Talking: the mouth moves.
    Talking,
    /// In trouble: a setup problem or a failure.
    Trouble,
}

pub open spec fn expression_of(state: AppState, failed_attempts: u32) -> Expression {
    match state {
        AppState::Booting | AppState::Connecting | AppState::Opening => Expression::Waiting,
        AppState::Ready => Expression::Idle,
        AppState::Listening => Expression::Listening,
        AppState::Thinking => Expression::Thinking,
        AppState::Speaking => Expression::Talking,
        AppState::SetupRequired => Expression::Trouble,
        AppState::Recovering(_) => if failed_attempts < PATIENT_ATTEMPTS {
            Expression::Waiting
        } else {
            Expression::Trouble
        },
        AppState::ShuttingDown => Expression::Idle,
    }
}

pub open spec fn resting_eye(expression: Expression) -> u8 {
    match expression {
        Expression::Waiting => 70,
        Expression::Idle => 90,
        Expression::Listening => 100,
        Expression::Thinking => 80,
        Expression::Talking => 90,
        Expression::Trouble => 60,
    }
}

pub open spec fn resting_mouth(expression: Expression) -> u8 {
    match expression {
        Expression::Talking => 10,
        _ => 5,
    }
}

impl Expression {
    /// The expression for an application state.
    ///
    /// Early failures while starting look like loading; a setup problem is
    /// shown as trouble at once, since only a parent can fix it.
    pub fn from_state(state: &AppState, failed_attempts: u32) -> (e: Self)
        ensures
            e == expression_of(*state, failed_attempts),
    {
        match state {
            AppState::Booting | AppState::Connecting | AppState::Opening => Expression::Waiting,
            AppState::Ready => Expression::Idle,
            AppState::Listening => Expression::Listening,
            AppState::Thinking => Expression::Thinking,
            AppState::Speaking => Expression::Talking,
            AppState::SetupRequired => Expression::Trouble,
            AppState::Recovering(_) => {
                if failed_attempts < PATIENT_ATTEMPTS {
                    Expression::Waiting
                } else {
                    Expression::Trouble
                }
            },
            // The screen goes dark before this face is ever drawn.
            AppState::ShuttingDown => Expression::Idle,
        }
    }

    /// Whether a loading mark is shown instead of the face.
    pub fn is_loading(self) -> (loading: bool)
        ensures
            loading == (self == Expression::Waiting),
    {
        self == Expression::Waiting
    }

    /// How open the eyes are for this expression, blinking aside.
    pub fn resting_eye_openness(self) -> (openness: u8)
        ensures
            openness == resting_eye(self),
    {
        match self {
            Expression::Waiting => 70,
            Expression::Idle => 90,
            Expression::Listening => 100,
            Expression::Thinking => 80,
            Expression::Talking => 90,
            Expression::Trouble => 60,
        }
    }

    /// How open the mouth is while no voice plays.
    pub fn resting_mouth_openness(self) -> (openness: u8)
        ensures
            openness == resting_mouth(self),
    {
        match self {
            Expression::Talking => 10,
            _ => 5,
        }
    }
}

/// The shape of the face at one moment; the drawing side only reads this.
#[derive(Debug, Clone, Copy, PartialEq, Eq)]
pub struct FaceFrame {
    pub expression: Expression,
    /// Eye size for the expression, 0 (shut) to 100 (wide), blinking aside.
    pub eye_openness: u8,
    /// Narrowing by a blink, 0 (closed) to 100 (not blinking).
    pub blink_openness: u8,
    /// Mouth opening, 0 to 100.
    pub mouth_openness: u8,
    /// Gaze left (-100) to right (100).
    pub gaze_x: i8,
    /// Gaze up (-100) to down (100).
    pub gaze_y: i8,
    /// Depth of a nod, 0 (straight) to 100 (lowest).
    pub nod: u8,
    /// Scale of the talk button, 0 (vanished) to 100 (full).
    pub button_scale: u8,
}

/// The abstract state of a [`FaceAnimator`].
pub struct AnimatorModel {
    pub expression: Expression,
    pub voice_level: u8,
    pub next_blink_at_ms: u64,
    pub blink_started_at_ms: Option<u64>,
    pub queued_makeup_blink: bool,
    pub in_makeup_blink: bool,
    pub idle_glance: Glance,
    pub next_idle_glance_at_ms: u64,
    pub idle_glance_started_at_ms: Option<u64>,
    pub idle_glance_hold_ms: u64,
    pub nod_started_at_ms: Option<u64>,
    pub nod_pulses_remaining: u8,
    pub button_target_visible: bool,
    pub button_transition_started_at_ms: u64,
    pub button_transition_start_scale: u8,
    pub seed: u32,
}

/// Gives the face for a time.
#[derive(Debug, Clone)]
pub struct FaceAnimator {
    expression: Expression,
    voice_level: u8,
    next_blink_at_ms: u64,
    blink_started_at_ms: Option<u64>,
    queued_makeup_blink: bool,
    in_makeup_blink: bool,
    idle_glance: Glance,
    next_idle_glance_at_ms: u64,
    idle_glance_started_at_ms: Option<u64>,
    idle_glance_hold_ms: u64,
    nod_started_at_ms: Option<u64>,
    nod_pulses_remaining: u8,
    button_target_visible: bool,
    button_transition_started_at_ms: u64,
    button_transition_start_scale: u8,
    seed: u32,
}

/// One step of the linear congruential sequence behind the intervals.
pub open spec fn next_seed(seed: u32) -> u32 {
    seed.wrapping_mul(1_664_525).wrapping_add(1_013_904_223)
}

pub open spec fn blink_interval(seed: u32) -> u64 {
    (BLINK_MIN_INTERVAL_MS + ((seed >> 16u32) as u64) % BLINK_INTERVAL_SPREAD_MS) as u64
}

pub open spec fn glance_interval(seed: u32) -> u64 {
    (IDLE_GLANCE_MIN_INTERVAL_MS + ((seed >> 16u32) as u64) % IDLE_GLANCE_INTERVAL_SPREAD_MS) as u64
}

pub open spec fn glance_plateau(seed: u32) -> u64 {
    (IDLE_GLANCE_PLATEAU_MIN_MS + ((seed >> 16u32) as u64) % IDLE_GLANCE_PLATEAU_SPREAD_MS) as u64
}

pub open spec fn glance_direction(seed: u32) -> Glance {
    let pick = (seed >> 20u32) % 4;
    if pick == 0 {
        Glance::Left
    } else if pick == 1 {
        Glance::Right
    } else if pick == 2 {
        Glance::Up
    } else {
        Glance::Down
    }
}

pub open spec fn doubles(seed: u32, denom: u32) -> bool {
    (seed >> 24u32) % denom == 0
}

/// Latest time any schedule of a well-formed animator may hold.
pub open spec fn schedule_limit() -> int {
    TIME_LIMIT_MS + 10_000
}

impl AnimatorModel {
    pub open spec fn wf(self) -> bool {
        &&& self.next_blink_at_ms <= schedule_limit()
        &&& (self.blink_started_at_ms matches Some(t) ==> t <= schedule_limit())
        &&& self.next_idle_glance_at_ms <= schedule_limit()
        &&& (self.idle_glance_started_at_ms matches Some(t) ==> t <= schedule_limit())
        &&& IDLE_GLANCE_TRANSITION_MS * 2 + IDLE_GLANCE_PLATEAU_MIN_MS <= self.idle_glance_hold_ms
        &&& self.idle_glance_hold_ms <= IDLE_GLANCE_TRANSITION_MS * 2 + IDLE_GLANCE_PLATEAU_MIN_MS
            + IDLE_GLANCE_PLATEAU_SPREAD_MS - 1
        &&& (self.nod_started_at_ms matches Some(t) ==> t <= schedule_limit())
        &&& self.nod_pulses_remaining <= 2
        &&& self.button_transition_started_at_ms <= schedule_limit()
        &&& self.voice_level <= 100
    }

    /// The blink schedule after time `now_ms`.
    pub open spec fn blink_advanced(self, now_ms: u64) -> AnimatorModel {
        match self.blink_started_at_ms {
            Some(started) => if now_ms >= started + BLINK_DURATION_MS {
                if self.queued_makeup_blink {
                    AnimatorModel {
                        blink_started_at_ms: None,
                        queued_makeup_blink: false,
                        in_makeup_blink: true,
                        next_blink_at_ms: (started + BLINK_DURATION_MS + DOUBLE_BLINK_GAP_MS) as u64,
                        ..self
                    }
                } else {
                    let seed = next_seed(self.seed);
                    AnimatorModel {
                        blink_started_at_ms: None,
                        in_makeup_blink: false,
                        next_blink_at_ms: (started + BLINK_DURATION_MS + blink_interval(seed)) as u64,
                        seed,
                        ..self
                    }
                }
            } else {
                self
            },
            None => if now_ms >= self.next_blink_at_ms {
                let started = AnimatorModel {
                    blink_started_at_ms: Some(self.next_blink_at_ms),
                    ..self
                };
                if self.in_makeup_blink {
                    started
                } else if self.expression == Expression::Idle {
                    let seed = next_seed(self.seed);
                    AnimatorModel {
                        queued_makeup_blink: doubles(seed, DOUBLE_BLINK_CHANCE_DENOM),
                        seed,
                        ..started
                    }
                } else {
                    AnimatorModel { queued_makeup_blink: false, ..started }
                }
            } else {
                self
            },
        }
    }

    /// The glance schedule after time `now_ms`.
    pub open spec fn glance_advanced(self, now_ms: u64) -> AnimatorModel {
        if self.expression != Expression::Idle {
            AnimatorModel { idle_glance: Glance::Center, idle_glance_started_at_ms: None, ..self }
        } else {
            match self.idle_glance_started_at_ms {
                Some(started) => if now_ms >= started + self.idle_glance_hold_ms {
                    let seed = next_seed(self.seed);
                    AnimatorModel {
                        next_idle_glance_at_ms: (started + self.idle_glance_hold_ms
                            + glance_interval(seed)) as u64,
                        idle_glance_started_at_ms: None,
                        idle_glance: Glance::Center,
                        seed,
                        ..self
                    }
                } else {
                    self
                },
                None => if now_ms >= self.next_idle_glance_at_ms {
                    let direction_seed = next_seed(self.seed);
                    let plateau_seed = next_seed(direction_seed);
                    AnimatorModel {
                        idle_glance_started_at_ms: Some(now_ms),
                        idle_glance: glance_direction(direction_seed),
                        idle_glance_hold_ms: (IDLE_GLANCE_TRANSITION_MS + glance_plateau(
                            plateau_seed,
                        ) + IDLE_GLANCE_TRANSITION_MS) as u64,
                        seed: plateau_seed,
                        ..self
                    }
                } else {
                    self
                },
            }
        }
    }

    /// The nod schedule after time `now_ms`.
    pub open spec fn nod_advanced(self, now_ms: u64) -> AnimatorModel {
        match self.nod_started_at_ms {
            Some(started) => if now_ms < started + NOD_PULSE_MS {
                self
            } else {
                let remaining: u8 = if self.nod_pulses_remaining > 0 {
                    (self.nod_pulses_remaining - 1) as u8
                } else {
                    0
                };
                AnimatorModel {
                    nod_pulses_remaining: remaining,
                    nod_started_at_ms: if remaining > 0 {
                        Some((started + NOD_PULSE_MS + NOD_GAP_MS) as u64)
                    } else {
                        None
                    },
                    ..self
                }
            },
            None => self,
        }
    }

    /// Every schedule after time `now_ms`, in the order a frame applies them.
    pub open spec fn advanced(self, now_ms: u64) -> AnimatorModel {
        self.blink_advanced(now_ms).glance_advanced(now_ms).nod_advanced(now_ms)
    }

    /// The button after time `now_ms`, given its scale at that time.
    pub open spec fn button_advanced(self, now_ms: u64, scale_now: u8) -> AnimatorModel {
        let target_visible = self.expression != Expression::Listening;
        if target_visible == self.button_target_visible {
            self
        } else {
            AnimatorModel {
                button_transition_start_scale: scale_now,
                button_transition_started_at_ms: now_ms,
                button_target_visible: target_visible,
                ..self
            }
        }
    }

    /// A nod request: ignored while nodding, otherwise one or two nods.
    pub open spec fn nod_triggered(self, now_ms: u64) -> AnimatorModel {
        if self.nod_started_at_ms is Some {
            self
        } else {
            let seed = next_seed(self.seed);
            AnimatorModel {
                nod_started_at_ms: Some(now_ms),
                nod_pulses_remaining: if doubles(seed, 2) {
                    2
                } else {
                    1
                },
                seed,
                ..self
            }
        }
    }

    pub open spec fn mouth(self) -> u8 {
        if self.expression == Expression::Talking {
            if self.voice_level > resting_mouth(self.expression) {
                self.voice_level
            } else {
                resting_mouth(self.expression)
            }
        } else {
            resting_mouth(self.expression)
        }
    }
}

/// The animator's state when it is created.
pub open spec fn initial_model() -> AnimatorModel {
    AnimatorModel {
        expression: Expression::Waiting,
        voice_level: 0,
        next_blink_at_ms: BLINK_MIN_INTERVAL_MS,
        blink_started_at_ms: None,
        queued_makeup_blink: false,
        in_makeup_blink: false,
        idle_glance: Glance::Center,
        next_idle_glance_at_ms: IDLE_GLANCE_MIN_INTERVAL_MS,
        idle_glance_started_at_ms: None,
        idle_glance_hold_ms: (IDLE_GLANCE_TRANSITION_MS * 2 + IDLE_GLANCE_PLATEAU_MIN_MS) as u64,
        nod_started_at_ms: None,
        nod_pulses_remaining: 0,
        button_target_visible: true,
        button_transition_started_at_ms: 0,
        button_transition_start_scale: 100,
        seed: 0x5A5A_1234,
    }
}

impl View for FaceAnimator {
    type V = AnimatorModel;

    closed spec fn view(&self) -> AnimatorModel {
        AnimatorModel {
            expression: self.expression,
            voice_level: self.voice_level,
            next_blink_at_ms: self.next_blink_at_ms,
            blink_started_at_ms: self.blink_started_at_ms,
            queued_makeup_blink: self.queued_makeup_blink,
            in_makeup_blink: self.in_makeup_blink,
            idle_glance: self.idle_glance,
            next_idle_glance_at_ms: self.next_idle_glance_at_ms,
            idle_glance_started_at_ms: self.idle_glance_started_at_ms,
            idle_glance_hold_ms: self.idle_glance_hold_ms,
            nod_started_at_ms: self.nod_started_at_ms,
            nod_pulses_remaining: self.nod_pulses_remaining,
            button_target_visible: self.button_target_visible,
            button_transition_started_at_ms: self.button_transition_started_at_ms,
            button_transition_start_scale: self.button_transition_start_scale,
            seed: self.seed,
        }
    }
}

impl Default for FaceAnimator {
    fn default() -> (animator: Self)
        ensures
            animator@ == initial_model(),
    {
        FaceAnimator::new()
    }
}

impl FaceAnimator {
    pub fn new() -> (animator: Self)
        ensures
            animator@ == initial_model(),
            animator@.wf(),
    {
        FaceAnimator {
            // The first frame comes before any state is known: show loading.
            expression: Expression::Waiting,
            voice_level: 0,
            next_blink_at_ms: BLINK_MIN_INTERVAL_MS,
            blink_started_at_ms: None,
            queued_makeup_blink: false,
            in_makeup_blink: false,
            idle_glance: Glance::Center,
            next_idle_glance_at_ms: IDLE_GLANCE_MIN_INTERVAL_MS,
            idle_glance_started_at_ms: None,
            // Chosen again when the first glance starts.
            idle_glance_hold_ms: IDLE_GLANCE_TRANSITION_MS * 2 + IDLE_GLANCE_PLATEAU_MIN_MS,
            nod_started_at_ms: None,
            nod_pulses_remaining: 0,
            // The button starts fully shown.
            button_target_visible: true,
            button_transition_started_at_ms: 0,
            button_transition_start_scale: 100,
            seed: 0x5A5A_1234,
        }
    }

    pub fn set_expression(&mut self, expression: Expression)
        ensures
            final(self)@ == (AnimatorModel { expression, ..old(self)@ }),
    {
        self.expression = expression;
    }

    /// The level of the voice being played; it opens the talking mouth.
    pub fn set_voice_level(&mut self, level: u8)
        ensures
            final(self)@ == (AnimatorModel {
                voice_level: if level < 100 { level } else { 100 },
                ..old(self)@
            }),
    {
        self.voice_level = if level < 100 {
            level
        } else {
            100
        };
    }

    /// The child's voice was heard: nod once or twice, unless already nodding.
    pub fn trigger_nod(&mut self, now_ms: u64)
        requires
            now_ms <= TIME_LIMIT_MS,
        ensures
            final(self)@ == old(self)@.nod_triggered(now_ms),
    {
        if self.nod_started_at_ms.is_some() {
            return;
        }
        self.nod_started_at_ms = Some(now_ms);
        self.nod_pulses_remaining = if self.roll_double_nod() {
            2
        } else {
            1
        };
    }

    /// Moves the blink, glance and nod schedules to time `now_ms`.
    pub fn advance(&mut self, now_ms: u64)
        requires
            old(self)@.wf(),
            now_ms <= TIME_LIMIT_MS,
        ensures
            final(self)@ == old(self)@.advanced(now_ms),
            final(self)@.wf(),
    {
        self.advance_blink(now_ms);
        self.advance_idle_glance(now_ms);
        self.advance_nod(now_ms);
    }

    fn advance_blink(&mut self, now_ms: u64)
        requires
            old(self)@.wf(),
            now_ms <= TIME_LIMIT_MS,
        ensures
            final(self)@ == old(self)@.blink_advanced(now_ms),
            final(self)@.wf(),
    {
        match self.blink_started_at_ms {
            Some(started) => {
                if now_ms >= started + BLINK_DURATION_MS {
                    self.blink_started_at_ms = None;
                    // Counting from the planned time, not the observed one,
                    // keeps the rhythm independent of the frame rate.
                    if self.queued_makeup_blink {
                        self.queued_makeup_blink = false;
                        self.in_makeup_blink = true;
                        self.next_blink_at_ms = started + BLINK_DURATION_MS + DOUBLE_BLINK_GAP_MS;
                    } else {
                        self.in_makeup_blink = false;
                        let interval = self.pick_blink_interval();
                        self.next_blink_at_ms = started + BLINK_DURATION_MS + interval;
                    }
                }
            },
            None => {
                if now_ms >= self.next_blink_at_ms {
                    self.blink_started_at_ms = Some(self.next_blink_at_ms);
                    // The second blink of a pair is never doubled again.
                    if !self.in_makeup_blink {
                        self.queued_makeup_blink = self.expression == Expression::Idle
                            && self.roll_double_blink();
                    }
                }
            },
        }
    }

    fn pick_blink_interval(&mut self) -> (interval: u64)
        ensures
            final(self)@ == (AnimatorModel { seed: next_seed(old(self)@.seed), ..old(self)@ }),
            interval == blink_interval(final(self)@.seed),
            BLINK_MIN_INTERVAL_MS <= interval < BLINK_MIN_INTERVAL_MS + BLINK_INTERVAL_SPREAD_MS,
    {
        self.seed = self.seed.wrapping_mul(1_664_525).wrapping_add(1_013_904_223);
        let spread = ((self.seed >> 16u32) as u64) % BLINK_INTERVAL_SPREAD_MS;
        BLINK_MIN_INTERVAL_MS + spread
    }

    fn roll_double_blink(&mut self) -> (double: bool)
        ensures
            final(self)@ == (AnimatorModel { seed: next_seed(old(self)@.seed), ..old(self)@ }),
            double == doubles(final(self)@.seed, DOUBLE_BLINK_CHANCE_DENOM),
    {
        self.seed = self.seed.wrapping_mul(1_664_525).wrapping_add(1_013_904_223);
        (self.seed >> 24u32) % DOUBLE_BLINK_CHANCE_DENOM == 0
    }

    /// While idle, the gaze now and then moves to a side and back.
    fn advance_idle_glance(&mut self, now_ms: u64)
        requires
            old(self)@.wf(),
            now_ms <= TIME_LIMIT_MS,
        ensures
            final(self)@ == old(self)@.glance_advanced(now_ms),
            final(self)@.wf(),
    {
        if self.expression != Expression::Idle {
            self.idle_glance = Glance::Center;
            self.idle_glance_started_at_ms = None;
            return;
        }
        match self.idle_glance_started_at_ms {
            Some(started) => {
                if now_ms >= started + self.idle_glance_hold_ms {
                    let interval = self.pick_idle_glance_interval();
                    self.next_idle_glance_at_ms = started + self.idle_glance_hold_ms + interval;
                    self.idle_glance_started_at_ms = None;
                    self.idle_glance = Glance::Center;
                }
            },
            None => {
                if now_ms >= self.next_idle_glance_at_ms {
                    self.idle_glance_started_at_ms = Some(now_ms);
                    self.idle_glance = self.pick_glance_direction();
                    // A different stay each time keeps the glances natural.
                    let plateau = self.pick_idle_glance_plateau();
                    self.idle_glance_hold_ms = IDLE_GLANCE_TRANSITION_MS + plateau
                        + IDLE_GLANCE_TRANSITION_MS;
                }
            },
        }
    }

    fn pick_idle_glance_interval(&mut self) -> (interval: u64)
        ensures
            final(self)@ == (AnimatorModel { seed: next_seed(old(self)@.seed), ..old(self)@ }),
            interval == glance_interval(final(self)@.seed),
            IDLE_GLANCE_MIN_INTERVAL_MS <= interval < IDLE_GLANCE_MIN_INTERVAL_MS
                + IDLE_GLANCE_INTERVAL_SPREAD_MS,
    {
        self.seed = self.seed.wrapping_mul(1_664_525).wrapping_add(1_013_904_223);
        let spread = ((self.seed >> 16u32) as u64) % IDLE_GLANCE_INTERVAL_SPREAD_MS;
        IDLE_GLANCE_MIN_INTERVAL_MS + spread
    }

    /// How long a glance stays in its direction: 800 to 2,799 ms.
    fn pick_idle_glance_plateau(&mut self) -> (plateau: u64)
        ensures
            final(self)@ == (AnimatorModel { seed: next_seed(old(self)@.seed), ..old(self)@ }),
            plateau == glance_plateau(final(self)@.seed),
            IDLE_GLANCE_PLATEAU_MIN_MS <= plateau < IDLE_GLANCE_PLATEAU_MIN_MS
                + IDLE_GLANCE_PLATEAU_SPREAD_MS,
    {
        self.seed = self.seed.wrapping_mul(1_664_525).wrapping_add(1_013_904_223);
        let spread = ((self.seed >> 16u32) as u64) % IDLE_GLANCE_PLATEAU_SPREAD_MS;
        IDLE_GLANCE_PLATEAU_MIN_MS + spread
    }

    /// One of left, right, up and down.
    fn pick_glance_direction(&mut self) -> (direction: Glance)
        ensures
            final(self)@ == (AnimatorModel { seed: next_seed(old(self)@.seed), ..old(self)@ }),
            direction == glance_direction(final(self)@.seed),
            direction != Glance::Center,
    {
        self.seed = self.seed.wrapping_mul(1_664_525).wrapping_add(1_013_904_223);
        let pick = (self.seed >> 20u32) % 4;
        if pick == 0 {
            Glance::Left
        } else if pick == 1 {
            Glance::Right
        } else if pick == 2 {
            Glance::Up
        } else {
            Glance::Down
        }
    }

    /// Ends a finished nod and schedules the second one of a pair.
    fn advance_nod(&mut self, now_ms: u64)
        requires
            old(self)@.wf(),
            now_ms <= TIME_LIMIT_MS,
        ensures
            final(self)@ == old(self)@.nod_advanced(now_ms),
            final(self)@.wf(),
    {
        let started = match self.nod_started_at_ms {
            Some(started) => started,
            None => return,
        };
        if now_ms < started + NOD_PULSE_MS {
            return;
        }
        self.nod_pulses_remaining = self.nod_pulses_remaining.saturating_sub(1);
        self.nod_started_at_ms = if self.nod_pulses_remaining > 0 {
            Some(started + NOD_PULSE_MS + NOD_GAP_MS)
        } else {
            None
        };
    }

    fn roll_double_nod(&mut self) -> (double: bool)
        ensures
            final(self)@ == (AnimatorModel { seed: next_seed(old(self)@.seed), ..old(self)@ }),
            double == doubles(final(self)@.seed, 2),
    {
        self.seed = self.seed.wrapping_mul(1_664_525).wrapping_add(1_013_904_223);
        (self.seed >> 24u32) % 2 == 0
    }

    /// Hides the talk button while listening and shows it otherwise. A change
    /// of direction starts from `scale_now`, the button's scale at `now_ms`,
    /// so that an interrupted transition reverses smoothly.
    pub fn advance_button(&mut self, now_ms: u64, scale_now: u8)
        requires
            old(self)@.wf(),
            now_ms <= TIME_LIMIT_MS,
        ensures
            final(self)@ == old(self)@.button_advanced(now_ms, scale_now),
            final(self)@.wf(),
    {
        let target_visible = self.expression != Expression::Listening;
        if target_visible == self.button_target_visible {
            return;
        }
        self.button_transition_start_scale = scale_now;
        self.button_transition_started_at_ms = now_ms;
        self.button_target_visible = target_visible;
    }

    /// How open the mouth is: the voice level while talking, never below
    /// the expression's resting opening.
    pub fn mouth_openness(&self) -> (openness: u8)
        ensures
            openness == self@.mouth(),
    {
        let resting = self.expression.resting_mouth_openness();
        if self.expression == Expression::Talking {
            if self.voice_level > resting {
                self.voice_level
            } else {
                resting
            }
        } else {
            resting
        }
    }

    pub fn expression(&self) -> (e: Expression)
        ensures
            e == self@.expression,
    {
        self.expression
    }

    /// When the current blink started, if one is in progress.
    pub fn blink_started_at(&self) -> (t: Option<u64>)
        ensures
            t == self@.blink_started_at_ms,
    {
        self.blink_started_at_ms
    }

    /// The direction of the current glance.
    pub fn idle_glance(&self) -> (g: Glance)
        ensures
            g == self@.idle_glance,
    {
        self.idle_glance
    }

    /// When the current glance started, if one is in progress.
    pub fn idle_glance_started_at(&self) -> (t: Option<u64>)
        ensures
            t == self@.idle_glance_started_at_ms,
    {
        self.idle_glance_started_at_ms
    }

    /// The whole length of the current glance: there, stay and back.
    pub fn idle_glance_hold_ms(&self) -> (t: u64)
        ensures
            t == self@.idle_glance_hold_ms,
    {
        self.idle_glance_hold_ms
    }

    /// When the current nod started, if one is in progress.
    pub fn nod_started_at(&self) -> (t: Option<u64>)
        ensures
            t == self@.nod_started_at_ms,
    {
        self.nod_started_at_ms
    }

    /// Whether the button is heading to fully shown.
    pub fn button_target_visible(&self) -> (v: bool)
        ensures
            v == self@.button_target_visible,
    {
        self.button_target_visible
    }

    /// When the button last changed direction, and its scale then.
    pub fn button_transition(&self) -> (t: (u64, u8))
        ensures
            t == (self@.button_transition_started_at_ms, self@.button_transition_start_scale),
    {
        (self.button_transition_started_at_ms, self.button_transition_start_scale)
    }
}

/// The mouth follows the voice level only while talking: after a level is
/// set, the mouth opens to that level (at most 100, at least 10) if the face
/// is talking and rests at 5 otherwise, and it stays so in every later frame
/// until the level or the expression is set again.
pub proof fn law_mouth_follows_the_voice_while_talking(
    model: AnimatorModel,
    level: u8,
    now_ms: u64,
    scale_now: u8,
)
    ensures
        ({
            let clamped: u8 = if level < 100 { level } else { 100 };
            let after = AnimatorModel { voice_level: clamped, ..model };
            &&& after.mouth() == if model.expression == Expression::Talking {
                if clamped > 10 { clamped } else { 10 }
            } else {
                5
            }
            &&& after.advanced(now_ms).mouth() == after.mouth()
            &&& after.button_advanced(now_ms, scale_now).mouth() == after.mouth()
        }),
{
}

/// While recovering, the face waits patiently for the first five tries and
/// shows trouble from then on: persistent failures never look patient again.
pub proof fn law_persistent_failures_show_trouble(failure: Failure, failed_attempts: u32, more: u32)
    ensures
        failed_attempts < 5 ==> expression_of(AppState::Recovering(failure), failed_attempts)
            == Expression::Waiting,
        failed_attempts >= 5 ==> expression_of(AppState::Recovering(failure), failed_attempts)
            == Expression::Trouble,
        expression_of(AppState::Recovering(failure), failed_attempts) == Expression::Trouble
            && failed_attempts <= more ==> expression_of(AppState::Recovering(failure), more)
            == Expression::Trouble,
{
}

/// A nod in progress is never restarted by another request.
pub proof fn law_nod_does_not_interrupt_itself(m: AnimatorModel, now_ms: u64)
    requires
        m.nod_started_at_ms is Some,
    ensures
        m.nod_triggered(now_ms) == m,
{
}

/// Glances happen only while idle: in any other expression the gaze is
/// centred after a frame.
pub proof fn law_glances_only_while_idle(m: AnimatorModel, now_ms: u64)
    requires
        m.expression != Expression::Idle,
    ensures
        m.advanced(now_ms).idle_glance == Glance::Center,
        m.advanced(now_ms).idle_glance_started_at_ms is None,
{
}

/// A glance always has a direction other than the centre, and its length
/// stays between 1,000 and 2,999 ms.
pub proof fn law_glance_lengths(m: AnimatorModel, now_ms: u64)
    requires
        m.wf(),
        m.expression == Expression::Idle,
        m.idle_glance_started_at_ms is None,
        now_ms >= m.next_idle_glance_at_ms,
    ensures
        m.glance_advanced(now_ms).idle_glance != Glance::Center,
        1_000 <= m.glance_advanced(now_ms).idle_glance_hold_ms <= 2_999,
{
    let d = next_seed(m.seed);
    let p = next_seed(d);
    assert(((p >> 16u32) as u64) % IDLE_GLANCE_PLATEAU_SPREAD_MS < IDLE_GLANCE_PLATEAU_SPREAD_MS);
}

/// Blinks stay at least 2,500 ms apart unless they are the second of a
/// pair, which follows 220 ms after the first.
pub proof fn law_blink_spacing(m: AnimatorModel, now_ms: u64)
    requires
        m.wf(),
        m.blink_started_at_ms is Some,
        now_ms >= m.blink_started_at_ms->0 + BLINK_DURATION_MS,
    ensures
        ({
            let next = m.blink_advanced(now_ms);
            let started = m.blink_started_at_ms->0;
            if m.queued_makeup_blink {
                next.next_blink_at_ms == started + BLINK_DURATION_MS + DOUBLE_BLINK_GAP_MS
            } else {
                started + BLINK_DURATION_MS + BLINK_MIN_INTERVAL_MS <= next.next_blink_at_ms
                    < started + BLINK_DURATION_MS + BLINK_MIN_INTERVAL_MS
                    + BLINK_INTERVAL_SPREAD_MS
            }
        }),
{
    let s = next_seed(m.seed);
    assert(((s >> 16u32) as u64) % BLINK_INTERVAL_SPREAD_MS < BLINK_INTERVAL_SPREAD_MS);
}

/// The second blink of a pair is never doubled again.
pub proof fn law_no_triple_blink(m: AnimatorModel, now_ms: u64)
    requires
        m.in_makeup_blink,
        m.blink_started_at_ms is None,
        !m.queued_makeup_blink,
    ensures
        !m.blink_advanced(now_ms).queued_makeup_blink,
{
}

/// The button heads to hidden exactly while listening.
pub proof fn law_button_hides_while_listening(m: AnimatorModel, now_ms: u64, scale: u8)
    ensures
        m.button_advanced(now_ms, scale).button_target_visible == (m.expression
            != Expression::Listening),
{
}

} // verus!
