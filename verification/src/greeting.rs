//! Greeting by the time of day.
//!
//! Once the device can talk it speaks first, so the child does not have to
//! think of the first words.

use vstd::prelude::*;

verus! {

/// Part of the day.
#[derive(Debug, Clone, Copy, PartialEq, Eq, Structural)]
pub enum TimeOfDay {
    Morning,
    Afternoon,
    Evening,
}

pub const MORNING_STARTS: i64 = 5;
pub const AFTERNOON_STARTS: i64 = 11;
pub const EVENING_STARTS: i64 = 18;

/// The hour of the day (0 to 23) of a local UNIX time.
pub open spec fn hour_of(local_unix: int) -> int {
    (local_unix % 86_400) / 3_600
}

pub open spec fn time_of_day_at(local_unix: int) -> TimeOfDay {
    let hour = hour_of(local_unix);
    if MORNING_STARTS <= hour < AFTERNOON_STARTS {
        TimeOfDay::Morning
    } else if AFTERNOON_STARTS <= hour < EVENING_STARTS {
        TimeOfDay::Afternoon
    } else {
        TimeOfDay::Evening
    }
}

pub open spec fn greeting_of(time_of_day: TimeOfDay) -> Seq<char> {
    match time_of_day {
        TimeOfDay::Morning => "おはよう"@,
        TimeOfDay::Afternoon => "こんにちは"@,
        TimeOfDay::Evening => "こんばんは"@,
    }
}

impl TimeOfDay {
    /// The part of the day at a local time.
    pub fn at(local_unix: i64) -> (t: Self)
        ensures
            t == time_of_day_at(local_unix as int),
    {
        let rem = local_unix % 86_400;
        let seconds = if rem < 0 {
            rem + 86_400
        } else {
            rem
        };
        proof {
            assert(seconds == local_unix as int % 86_400) by {
                assert(local_unix as int == (local_unix as int / 86_400) * 86_400
                    + local_unix as int % 86_400);
            }
        }
        let hour = seconds / 3_600;
        if MORNING_STARTS <= hour && hour < AFTERNOON_STARTS {
            TimeOfDay::Morning
        } else if AFTERNOON_STARTS <= hour && hour < EVENING_STARTS {
            TimeOfDay::Afternoon
        } else {
            TimeOfDay::Evening
        }
    }

    /// The words to greet with.
    pub fn greeting(self) -> (text: &'static str)
        ensures
            text@ == greeting_of(self),
    {
        match self {
            TimeOfDay::Morning => "おはよう",
            TimeOfDay::Afternoon => "こんにちは",
            TimeOfDay::Evening => "こんばんは",
        }
    }
}

/// The part of the day goes by the local time of day in seconds: from
/// 05:00:00 up to 10:59:59 is morning, from 11:00:00 up to 17:59:59 is
/// afternoon, and the rest is evening, whatever the day.
pub proof fn law_parts_of_the_day(local_unix: int)
    ensures
        ({
            let second = local_unix % 86_400;
            &&& 5 * 3_600 <= second < 11 * 3_600 ==> time_of_day_at(local_unix) == TimeOfDay::Morning
            &&& 11 * 3_600 <= second < 18 * 3_600 ==> time_of_day_at(local_unix) == TimeOfDay::Afternoon
            &&& (second < 5 * 3_600 || 18 * 3_600 <= second) ==> time_of_day_at(local_unix)
                == TimeOfDay::Evening
        }),
{
}

/// The part of the day repeats every day.
pub proof fn law_daily_cycle(local_unix: int, days: int)
    ensures
        time_of_day_at(local_unix + days * 86_400) == time_of_day_at(local_unix),
{
    assert((local_unix + days * 86_400) % 86_400 == local_unix % 86_400) by (nonlinear_arith);
}

} // verus!
