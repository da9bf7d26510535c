//! Finding the end of the child's turn on the device.
//!
//! Server-side turn detection is not used: the end of a turn is decided from
//! the voice level and the length of the silence that follows. Silence with
//! no voice at all ends the turn quietly. Because steady background sound can
//! keep the level above the threshold forever, the recording length is also
//! capped.

use vstd::prelude::*;

verus! {

/// The level (0 to 100) from which sound counts as voice.
pub const VOICE_THRESHOLD: u8 = 6;
/// Silence this long ends the turn.
pub const SILENCE_TIMEOUT_MS: u32 = 1_400;
/// A recording this long ends the turn even without silence.
pub const MAX_DURATION_MS: u32 = 10_000;

/// How a turn ended.
#[derive(Debug, Clone, Copy, PartialEq, Eq, Structural)]
pub enum TurnOutcome {
    /// Silence without any voice: nothing is sent.
    NothingSaid,
    /// Voice followed by silence: the recording is committed.
    SpeechEnded,
}

/// Tracks voice and silence while recording.
#[derive(Debug, Clone, Default)]
pub struct TurnDetector {
    silence_ms: u32,
    total_ms: u32,
    spoke: bool,
}

pub open spec fn sat_add(a: u32, b: u32) -> u32 {
    if a + b > u32::MAX {
        u32::MAX
    } else {
        (a + b) as u32
    }
}

impl TurnDetector {
    /// Milliseconds of silence since the last voice.
    pub closed spec fn silence(self) -> u32 {
        self.silence_ms
    }

    /// Milliseconds since the recording started.
    pub closed spec fn total(self) -> u32 {
        self.total_ms
    }

    /// Whether voice was ever heard.
    pub closed spec fn spoke(self) -> bool {
        self.spoke
    }

    /// The detector after observing `level` for `elapsed_ms`.
    pub open spec fn observed(self, level: u8, elapsed_ms: u32) -> (u32, u32, bool) {
        let total = sat_add(self.total(), elapsed_ms);
        if level >= VOICE_THRESHOLD {
            (0, total, true)
        } else {
            (sat_add(self.silence(), elapsed_ms), total, self.spoke())
        }
    }

    /// The outcome reported by a detector in the given condition.
    pub open spec fn outcome_of(silence: u32, total: u32, spoke: bool) -> Option<TurnOutcome> {
        if silence < SILENCE_TIMEOUT_MS && total < MAX_DURATION_MS {
            None
        } else if spoke {
            Some(TurnOutcome::SpeechEnded)
        } else {
            Some(TurnOutcome::NothingSaid)
        }
    }

    pub fn new() -> (d: Self)
        ensures
            d.silence() == 0,
            d.total() == 0,
            !d.spoke(),
    {
        TurnDetector { silence_ms: 0, total_ms: 0, spoke: false }
    }

    /// Whether voice was ever heard. Sending starts only once it has.
    pub fn has_spoken(&self) -> (spoke: bool)
        ensures
            spoke == self.spoke(),
    {
        self.spoke
    }

    /// Takes the level of the last `elapsed_ms` into account and reports the
    /// outcome once the turn has ended.
    pub fn observe(&mut self, level: u8, elapsed_ms: u32) -> (outcome: Option<TurnOutcome>)
        ensures
            (final(self).silence(), final(self).total(), final(self).spoke()) == old(self).observed(
                level,
                elapsed_ms,
            ),
            outcome == Self::outcome_of(
                final(self).silence(),
                final(self).total(),
                final(self).spoke(),
            ),
    {
        self.total_ms = self.total_ms.saturating_add(elapsed_ms);
        if level >= VOICE_THRESHOLD {
            self.spoke = true;
            self.silence_ms = 0;
        } else {
            self.silence_ms = self.silence_ms.saturating_add(elapsed_ms);
        }
        let silence_reached_timeout = self.silence_ms >= SILENCE_TIMEOUT_MS;
        let duration_reached_limit = self.total_ms >= MAX_DURATION_MS;
        if !silence_reached_timeout && !duration_reached_limit {
            return None;
        }
        Some(
            if self.spoke {
                TurnOutcome::SpeechEnded
            } else {
                TurnOutcome::NothingSaid
            },
        )
    }
}

/// Once voice was heard it stays heard, and voice always restarts the
/// silence count.
pub proof fn law_speech_is_remembered(d: TurnDetector, level: u8, elapsed_ms: u32)
    ensures
        d.spoke() ==> d.observed(level, elapsed_ms).2,
        level >= VOICE_THRESHOLD ==> d.observed(level, elapsed_ms).0 == 0 && d.observed(
            level,
            elapsed_ms,
        ).2,
{
}

/// A turn always ends at the latest when the recording reaches its length
/// limit, whatever the level, and never earlier than that without silence.
pub proof fn law_turns_are_bounded(silence: u32, total: u32, spoke: bool)
    ensures
        total >= MAX_DURATION_MS ==> TurnDetector::outcome_of(silence, total, spoke) is Some,
        silence < SILENCE_TIMEOUT_MS && total < MAX_DURATION_MS ==> TurnDetector::outcome_of(
            silence,
            total,
            spoke,
        ) is None,
        TurnDetector::outcome_of(silence, total, spoke) == Some(TurnOutcome::SpeechEnded)
            <==> (spoke && !(silence < SILENCE_TIMEOUT_MS && total < MAX_DURATION_MS)),
{
}

/// One reading of the microphone: its level and how long it lasted.
pub type Reading = (u8, u32);

/// The silence, recording length and whether voice was heard, after
/// observing `level` for `elapsed_ms` in the condition `before`.
pub open spec fn detector_step(before: (u32, u32, bool), level: u8, elapsed_ms: u32) -> (u32, u32, bool) {
    let total = sat_add(before.1, elapsed_ms);
    if level >= VOICE_THRESHOLD {
        (0, total, true)
    } else {
        (sat_add(before.0, elapsed_ms), total, before.2)
    }
}

/// The condition of a new detector after the readings, in order.
pub open spec fn after_readings(readings: Seq<Reading>) -> (u32, u32, bool)
    decreases readings.len(),
{
    if readings.len() == 0 {
        (0, 0, false)
    } else {
        detector_step(after_readings(readings.drop_last()), readings.last().0, readings.last().1)
    }
}

/// The saturating sum of how long the readings lasted.
pub open spec fn lasted(readings: Seq<Reading>) -> u32
    decreases readings.len(),
{
    if readings.len() == 0 {
        0
    } else {
        sat_add(lasted(readings.drop_last()), readings.last().1)
    }
}

/// The position of the last reading loud enough to be voice; -1 if none is.
pub open spec fn last_voice(readings: Seq<Reading>) -> int
    decreases readings.len(),
{
    if readings.len() == 0 {
        -1
    } else if readings.last().0 >= VOICE_THRESHOLD {
        readings.len() - 1
    } else {
        last_voice(readings.drop_last())
    }
}

proof fn lemma_last_voice(readings: Seq<Reading>)
    ensures
        -1 <= last_voice(readings) < readings.len(),
        last_voice(readings) >= 0 ==> readings[last_voice(readings)].0 >= VOICE_THRESHOLD,
        forall|i: int| last_voice(readings) < i < readings.len() ==> #[trigger] readings[i].0 < VOICE_THRESHOLD,
        (last_voice(readings) >= 0) == (exists|i: int| 0 <= i < readings.len() && #[trigger] readings[i].0 >= VOICE_THRESHOLD),
    decreases readings.len(),
{
    if readings.len() > 0 {
        let before = readings.drop_last();
        lemma_last_voice(before);
        assert forall|i: int| 0 <= i < before.len() implies #[trigger] before[i] == readings[i] by {}
        if readings.last().0 < VOICE_THRESHOLD {
            assert forall|i: int| last_voice(readings) < i < readings.len() implies #[trigger] readings[i].0
                < VOICE_THRESHOLD by {
                if i < before.len() {
                    assert(before[i] == readings[i]);
                }
            }
            if exists|i: int| 0 <= i < readings.len() && #[trigger] readings[i].0 >= VOICE_THRESHOLD {
                let i = choose|i: int| 0 <= i < readings.len() && #[trigger] readings[i].0 >= VOICE_THRESHOLD;
                assert(i < before.len() && before[i].0 >= VOICE_THRESHOLD);
            }
        }
    }
}

/// Over any series of readings a detector counts, from its start: the whole
/// length of the recording, saturating; the silence since the last reading
/// loud enough to be voice (since the start if there was none); and whether
/// any reading was loud enough to be voice. `observe` reports the outcome
/// for exactly that condition, so a turn ends once that silence reaches
/// `SILENCE_TIMEOUT_MS` or the length `MAX_DURATION_MS`, as `SpeechEnded`
/// when voice was heard and `NothingSaid` when not.
pub proof fn law_turn_over_readings(readings: Seq<Reading>)
    ensures
        after_readings(readings) == (
            lasted(readings.skip(last_voice(readings) + 1)),
            lasted(readings),
            last_voice(readings) >= 0,
        ),
        after_readings(readings).2 <==> exists|i: int|
            0 <= i < readings.len() && #[trigger] readings[i].0 >= VOICE_THRESHOLD,
    decreases readings.len(),
{
    lemma_last_voice(readings);
    if readings.len() > 0 {
        let before = readings.drop_last();
        law_turn_over_readings(before);
        lemma_last_voice(before);
        let n = readings.len() as int;
        if readings.last().0 >= VOICE_THRESHOLD {
            assert(readings.skip(n) =~= Seq::<Reading>::empty());
        } else {
            let j = last_voice(before);
            let tail = readings.skip(j + 1);
            assert(tail.drop_last() =~= before.skip(j + 1));
            assert(tail.last() == readings.last());
        }
    }
}

/// A new detector starts from the condition of no readings, and each
/// observation moves it to the condition of one reading more: what a
/// detector reports after a series of `observe` calls is the outcome of
/// `after_readings` of that series.
pub proof fn law_observing_follows_the_readings(d: TurnDetector, readings: Seq<Reading>, level: u8, elapsed_ms: u32)
    requires
        (d.silence(), d.total(), d.spoke()) == after_readings(readings),
    ensures
        after_readings(Seq::empty()) == (0u32, 0u32, false),
        d.observed(level, elapsed_ms) == after_readings(readings.push((level, elapsed_ms))),
{
    assert(readings.push((level, elapsed_ms)).drop_last() =~= readings);
}

} // verus!
