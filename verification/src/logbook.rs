//! Keeping the conversation transcript on the SD card.
//!
//! Lines are appended to one file per day so that a parent can read them
//! later. The audio itself is never kept.

use vstd::prelude::*;
use vstd::arithmetic::div_mod::{lemma_fundamental_div_mod, lemma_fundamental_div_mod_converse};
use vstd::string::StringExecFns;

use crate::config::LOG_DIR;
use crate::ports::{appended, Storage, StorageError};
use crate::text::{
    chars_of, decimal, digit_char, fold_line_breaks, fold_lines, push_zero_padded, string_of, trim_chars, trimmed,
    zero_padded,
};

verus! {

/// Who said a line.
#[derive(Debug, Clone, Copy, PartialEq, Eq, Structural)]
pub enum Speaker {
    Child,
    Assistant,
    /// The device itself: interventions and failures.
    System,
}

pub open spec fn speaker_label(speaker: Speaker) -> Seq<char> {
    match speaker {
        Speaker::Child => "こども"@,
        Speaker::Assistant => "アシスタント"@,
        Speaker::System => "きろく"@,
    }
}

impl Speaker {
    fn label(self) -> (label: &'static str)
        ensures
            label@ == speaker_label(self),
    {
        match self {
            Speaker::Child => "こども",
            Speaker::Assistant => "アシスタント",
            Speaker::System => "きろく",
        }
    }
}

// ---------------------------------------------------------------------------
// The proleptic Gregorian calendar.
// ---------------------------------------------------------------------------

pub open spec fn is_leap_year(year: int) -> bool {
    year % 4 == 0 && (year % 100 != 0 || year % 400 == 0)
}

pub open spec fn month_length(year: int, month: int) -> int {
    if month == 2 {
        if is_leap_year(year) {
            29
        } else {
            28
        }
    } else if month == 4 || month == 6 || month == 9 || month == 11 {
        30
    } else {
        31
    }
}

/// Whether `year`-`month`-`day` names a day of the calendar.
pub open spec fn is_civil_date(year: int, month: int, day: int) -> bool {
    1 <= month <= 12 && 1 <= day <= month_length(year, month)
}

/// Leap years from year 1 through `year` (counted negatively below year 1).
pub open spec fn leap_years_through(year: int) -> int {
    year / 4 - year / 100 + year / 400
}

/// Days of the year before the first of `month`.
pub open spec fn days_before_month(year: int, month: int) -> int {
    let common: int = if month <= 1 {
        0
    } else if month == 2 {
        31
    } else if month == 3 {
        59
    } else if month == 4 {
        90
    } else if month == 5 {
        120
    } else if month == 6 {
        151
    } else if month == 7 {
        181
    } else if month == 8 {
        212
    } else if month == 9 {
        243
    } else if month == 10 {
        273
    } else if month == 11 {
        304
    } else {
        334
    };
    common + if month > 2 && is_leap_year(year) {
        1int
    } else {
        0int
    }
}

/// The number of days from 1970-01-01 to the given date.
pub open spec fn epoch_day(year: int, month: int, day: int) -> int {
    365 * (year - 1970) + leap_years_through(year - 1) - leap_years_through(1969)
        + days_before_month(year, month) + day - 1
}

/// The calendar date `days` days after 1970-01-01.
pub open spec fn civil_date_of(days: int) -> (int, int, int) {
    choose|date: (int, int, int)|
        is_civil_date(date.0, date.1, date.2) && epoch_day(date.0, date.1, date.2) == days
}

proof fn lemma_div_step(y: int, k: int)
    requires
        k > 0,
    ensures
        y / k - (y - 1) / k == if y % k == 0 {
            1int
        } else {
            0int
        },
{
    lemma_fundamental_div_mod(y, k);
    let q = y / k;
    let r = y % k;
    if r == 0 {
        assert(y - 1 == (q - 1) * k + (k - 1)) by (nonlinear_arith)
            requires
                y == k * q + r,
                r == 0,
        ;
        lemma_fundamental_div_mod_converse(y - 1, k, q - 1, k - 1);
    } else {
        assert(y - 1 == q * k + (r - 1)) by (nonlinear_arith)
            requires
                y == k * q + r,
        ;
        lemma_fundamental_div_mod_converse(y - 1, k, q, r - 1);
    }
}

proof fn lemma_multiple_of_multiple(y: int, k: int, n: int)
    requires
        k > 0,
        n > 0,
        y % (k * n) == 0,
    ensures
        y % k == 0,
{
    assert(k * n > 0) by (nonlinear_arith)
        requires
            k > 0,
            n > 0,
    ;
    lemma_fundamental_div_mod(y, k * n);
    let q = y / (k * n);
    assert(y == (q * n) * k) by (nonlinear_arith)
        requires
            y == (k * n) * q + y % (k * n),
            y % (k * n) == 0,
    ;
    lemma_fundamental_div_mod_converse(y, k, q * n, 0);
}

proof fn lemma_next_year(year: int)
    ensures
        leap_years_through(year) == leap_years_through(year - 1) + if is_leap_year(year) {
            1int
        } else {
            0int
        },
{
    lemma_div_step(year, 4);
    lemma_div_step(year, 100);
    lemma_div_step(year, 400);
    if year % 400 == 0 {
        lemma_multiple_of_multiple(year, 100, 4);
    }
    if year % 100 == 0 {
        lemma_multiple_of_multiple(year, 4, 25);
    }
}

proof fn lemma_day_within_year(year: int, month: int, day: int)
    requires
        is_civil_date(year, month, day),
    ensures
        0 <= days_before_month(year, month) + day - 1 <= 364 + if is_leap_year(year) {
            1int
        } else {
            0int
        },
{
}

proof fn lemma_years_are_ordered(earlier: int, later: int)
    requires
        earlier <= later,
    ensures
        epoch_day(earlier, 1, 1) + 365 * (later - earlier) <= epoch_day(later, 1, 1),
    decreases later - earlier,
{
    if earlier < later {
        lemma_years_are_ordered(earlier, later - 1);
        lemma_next_year(later - 1);
    }
}

/// Two dates of the calendar fall on the same day only when they are the same date.
pub proof fn law_dates_name_distinct_days(a: (int, int, int), b: (int, int, int))
    requires
        is_civil_date(a.0, a.1, a.2),
        is_civil_date(b.0, b.1, b.2),
        epoch_day(a.0, a.1, a.2) == epoch_day(b.0, b.1, b.2),
    ensures
        a == b,
{
    lemma_day_within_year(a.0, a.1, a.2);
    lemma_day_within_year(b.0, b.1, b.2);
    if a.0 < b.0 {
        lemma_years_are_ordered(a.0 + 1, b.0);
        lemma_next_year(a.0);
    } else if b.0 < a.0 {
        lemma_years_are_ordered(b.0 + 1, a.0);
        lemma_next_year(b.0);
    }
    assert(a.0 == b.0);
}

proof fn lemma_year_of_era(doe: u32)
    requires
        doe < 146097,
    ensures
        ({
            let yoe = (doe - doe / 1460 + doe / 36524 - doe / 146096) / 365;
            let start = 365 * yoe + yoe / 4 - yoe / 100;
            let leap: u32 = if (yoe + 1) % 4 == 0 && ((yoe + 1) % 100 != 0 || yoe == 399) {
                1
            } else {
                0
            };
            &&& yoe <= 399
            &&& start <= doe
            &&& doe - start <= 364 + leap
        }),
{
    assert({
        let yoe = (doe - doe / 1460 + doe / 36524 - doe / 146096) / 365;
        let start = 365 * yoe + yoe / 4 - yoe / 100;
        let leap: u32 = if (yoe + 1) % 4 == 0 && ((yoe + 1) % 100 != 0 || yoe == 399) {
            1
        } else {
            0
        };
        &&& yoe <= 399
        &&& start <= doe
        &&& doe - start <= 364 + leap
    }) by (bit_vector)
        requires
            doe < 146097,
    ;
}

proof fn lemma_month_of_year(doy: u32)
    requires
        doy <= 365,
    ensures
        ({
            let mp = (5 * doy + 2) / 153;
            &&& mp <= 11
            &&& (153 * mp + 2) / 5 <= doy
            &&& doy < (153 * (mp + 1) + 2) / 5
        }),
{
    assert({
        let mp = (5 * doy + 2) / 153;
        &&& mp <= 11
        &&& (153 * mp + 2) / 5 <= doy
        &&& doy < (153 * (mp + 1) + 2) / 5
    }) by (bit_vector)
        requires
            doy <= 365,
    ;
}

/// The year (counted from March) within its era of the day `doe` of the era.
spec fn year_of_era(doe: int) -> int {
    (doe - doe / 1460 + doe / 36524 - doe / 146096) / 365
}

/// The day (counted from March 1) within its year of the day `doe` of the era.
spec fn day_of_year(doe: int) -> int {
    let yoe = year_of_era(doe);
    doe - (365 * yoe + yoe / 4 - yoe / 100)
}

/// The month (0 for March to 11 for February) of the day `doy` of the year.
spec fn month_position(doy: int) -> int {
    (5 * doy + 2) / 153
}

spec fn month_of_position(mp: int) -> int {
    if mp < 10 {
        mp + 3
    } else {
        mp - 9
    }
}

spec fn date_in_era(era: int, doe: int) -> (int, int, int) {
    let yoe = year_of_era(doe);
    let doy = day_of_year(doe);
    let mp = month_position(doy);
    let month = month_of_position(mp);
    let year = yoe + era * 400 + if month <= 2 {
        1int
    } else {
        0int
    };
    (year, month, doy - (153 * mp + 2) / 5 + 1)
}

/// Days from March 1 to the first of the month at position `mp` (0 for March).
spec fn march_start(mp: int) -> int {
    (153 * mp + 2) / 5
}

proof fn lemma_month_parts(year: int, mp: int, doy: int)
    requires
        0 <= mp <= 11,
        march_start(mp) <= doy < march_start(mp + 1),
        mp == 11 ==> doy <= 364 + if is_leap_year(year) {
            1int
        } else {
            0int
        },
    ensures
        ({
            let month = month_of_position(mp);
            let day = doy - march_start(mp) + 1;
            &&& is_civil_date(year, month, day)
            &&& days_before_month(year, month) + day - 1 == if month >= 3 {
                59 + doy + if is_leap_year(year) {
                    1int
                } else {
                    0int
                }
            } else {
                doy - 306
            }
        }),
{
    if mp == 0 {
        assert(march_start(0) == 0 && march_start(1) == 31);
    } else if mp == 1 {
        assert(march_start(1) == 31 && march_start(2) == 61);
    } else if mp == 2 {
        assert(march_start(2) == 61 && march_start(3) == 92);
    } else if mp == 3 {
        assert(march_start(3) == 92 && march_start(4) == 122);
    } else if mp == 4 {
        assert(march_start(4) == 122 && march_start(5) == 153);
    } else if mp == 5 {
        assert(march_start(5) == 153 && march_start(6) == 184);
    } else if mp == 6 {
        assert(march_start(6) == 184 && march_start(7) == 214);
    } else if mp == 7 {
        assert(march_start(7) == 214 && march_start(8) == 245);
    } else if mp == 8 {
        assert(march_start(8) == 245 && march_start(9) == 275);
    } else if mp == 9 {
        assert(march_start(9) == 275 && march_start(10) == 306);
    } else if mp == 10 {
        assert(march_start(10) == 306 && march_start(11) == 337);
    } else {
        assert(march_start(11) == 337 && march_start(12) == 367);
    }
}

proof fn lemma_era_shift(x: int, era: int)
    ensures
        leap_years_through(x + 400 * era) == leap_years_through(x) + 97 * era,
        is_leap_year(x + 400 * era) == is_leap_year(x),
{
    assert((x + 400 * era) / 4 == x / 4 + 100 * era);
    assert((x + 400 * era) / 100 == x / 100 + 4 * era);
    assert((x + 400 * era) / 400 == x / 400 + era);
    assert((x + 400 * era) % 4 == x % 4);
    assert((x + 400 * era) % 100 == x % 100);
    assert((x + 400 * era) % 400 == x % 400);
}

proof fn lemma_year_parts(era: int, yoe: int)
    requires
        0 <= yoe <= 399,
    ensures
        leap_years_through(yoe + 400 * era) == 97 * era + yoe / 4 - yoe / 100,
        leap_years_through(yoe + 400 * era - 1) + if is_leap_year(yoe + 400 * era) {
            1int
        } else {
            0int
        } == 97 * era + yoe / 4 - yoe / 100,
        is_leap_year(yoe + 400 * era + 1) == is_leap_year(yoe + 1),
{
    assert(leap_years_through(yoe) == yoe / 4 - yoe / 100);
    lemma_era_shift(yoe, era);
    lemma_era_shift(yoe + 1, era);
    lemma_next_year(yoe + 400 * era);
}

proof fn lemma_date_in_era(era: int, doe: int)
    requires
        0 <= doe < 146097,
    ensures
        ({
            let date = date_in_era(era, doe);
            is_civil_date(date.0, date.1, date.2) && epoch_day(date.0, date.1, date.2) == era
                * 146097 + doe - 719468
        }),
{
    lemma_year_of_era(doe as u32);
    let yoe = year_of_era(doe);
    let doy = day_of_year(doe);
    lemma_month_of_year(doy as u32);
    let mp = month_position(doy);
    let month = month_of_position(mp);
    let date = date_in_era(era, doe);
    lemma_year_parts(era, yoe);
    lemma_month_parts(date.0, mp, doy);
}

/// Splits a count of days since 1970-01-01 into year, month and day.
pub fn split_civil_date(days_since_epoch: i64) -> (date: (i64, u32, u32))
    requires
        days_since_epoch <= i64::MAX - 719_468,
    ensures
        is_civil_date(date.0 as int, date.1 as int, date.2 as int),
        epoch_day(date.0 as int, date.1 as int, date.2 as int) == days_since_epoch,
        (date.0 as int, date.1 as int, date.2 as int) == civil_date_of(days_since_epoch as int),
        days_since_epoch >= 0 ==> date.0 >= 0,
{
    // Count from 0000-03-01 so that the leap day ends each year, and in eras
    // of 400 years, which repeat exactly.
    let shifted = days_since_epoch + 719_468;
    let era = if shifted >= 0 {
        shifted
    } else {
        shifted - 146_096
    } / 146_097;
    assert(era * 146_097 <= shifted < era * 146_097 + 146_097) by (nonlinear_arith)
        requires
            shifted >= 0 ==> era == shifted / 146_097,
            shifted < 0 ==> era == -((146_096 - shifted) / 146_097),
    ;
    let day_of_era = shifted - era * 146_097;
    proof {
        lemma_date_in_era(era as int, day_of_era as int);
    }
    let year_of_era = (day_of_era - day_of_era / 1_460 + day_of_era / 36_524 - day_of_era
        / 146_096) / 365;
    assert(year_of_era == self::year_of_era(day_of_era as int));
    let day_of_year = day_of_era - (365 * year_of_era + year_of_era / 4 - year_of_era / 100);
    assert(day_of_year == self::day_of_year(day_of_era as int));
    let month_position = (5 * day_of_year + 2) / 153;
    assert(month_position == self::month_position(day_of_year as int));
    let day = (day_of_year - (153 * month_position + 2) / 5 + 1) as u32;
    let month = if month_position < 10 {
        month_position + 3
    } else {
        month_position - 9
    } as u32;
    let year = year_of_era + era * 400 + if month <= 2 {
        1
    } else {
        0
    };
    proof {
        let date = (year as int, month as int, day as int);
        assert(date == date_in_era(era as int, day_of_era as int));
        law_dates_name_distinct_days(date, civil_date_of(days_since_epoch as int));
    }
    (year, month, day)
}

// ---------------------------------------------------------------------------
// Log lines.
// ---------------------------------------------------------------------------

/// One line of the transcript.
#[derive(Debug, Clone, PartialEq, Eq)]
pub struct LogEntry {
    /// UNIX time in seconds; zero or less when the clock is not yet set.
    pub at_unix: i64,
    pub speaker: Speaker,
    pub text: String,
}

/// The file for lines of the given time: one per day, or a shared one when
/// the clock was not set.
pub open spec fn log_path_of(at_unix: int) -> Seq<char> {
    if at_unix <= 0 {
        LOG_DIR@ + "/date-unknown.txt"@
    } else {
        let date = civil_date_of(at_unix / 86_400);
        LOG_DIR@ + "/"@ + zero_padded(date.0 as nat, 4) + "-"@ + zero_padded(date.1 as nat, 2)
            + "-"@ + zero_padded(date.2 as nat, 2) + ".txt"@
    }
}

/// The time of day as `hh:mm:ss`, or `--:--:--` when the clock was not set.
pub open spec fn clock_text_of(at_unix: int) -> Seq<char> {
    if at_unix <= 0 {
        "--:--:--"@
    } else {
        let second_of_day = at_unix % 86_400;
        zero_padded((second_of_day / 3_600) as nat, 2) + ":"@ + zero_padded(
            ((second_of_day % 3_600) / 60) as nat,
            2,
        ) + ":"@ + zero_padded((second_of_day % 60) as nat, 2)
    }
}

/// The decimal digit character of `d`, 0 to 9.
pub open spec fn digit_of(d: int) -> char {
    (('0' as int) + d) as char
}

proof fn lemma_two_digits(n: nat)
    requires
        n < 100,
    ensures
        zero_padded(n, 2) == seq![digit_of(n as int / 10), digit_of(n as int % 10)],
{
    if n < 10 {
        assert(decimal(n) == seq![digit_char(n as int)]);
        assert(zero_padded(n, 2) =~= seq![digit_of(0), digit_of(n as int)]);
    } else {
        assert(decimal(n / 10) == seq![digit_char((n / 10) as int)]);
        assert(decimal(n) =~= seq![digit_char((n / 10) as int), digit_char((n % 10) as int)]);
    }
}

/// A line's clock reads the local time of day in two-digit hours (00 to
/// 23), minutes and seconds: the hour is the seconds into the day over
/// 3,600, so a time fifteen hours into a day reads 15; a clock not yet set
/// reads `--:--:--`.
pub proof fn law_clock_reads_the_time_of_day(at_unix: int)
    ensures
        at_unix <= 0 ==> clock_text_of(at_unix) == "--:--:--"@,
        at_unix > 0 ==> ({
            let second_of_day = at_unix % 86_400;
            let hour = second_of_day / 3_600;
            let minute = (second_of_day % 3_600) / 60;
            let second = second_of_day % 60;
            &&& 0 <= hour < 24
            &&& clock_text_of(at_unix) == seq![
                digit_of(hour / 10),
                digit_of(hour % 10),
                ':',
                digit_of(minute / 10),
                digit_of(minute % 10),
                ':',
                digit_of(second / 10),
                digit_of(second % 10),
            ]
        }),
{
    if at_unix > 0 {
        let second_of_day = at_unix % 86_400;
        lemma_two_digits((second_of_day / 3_600) as nat);
        lemma_two_digits(((second_of_day % 3_600) / 60) as nat);
        lemma_two_digits((second_of_day % 60) as nat);
        reveal_strlit(":");
        assert(clock_text_of(at_unix) =~= seq![
            digit_of((second_of_day / 3_600) / 10),
            digit_of((second_of_day / 3_600) % 10),
            ':',
            digit_of(((second_of_day % 3_600) / 60) / 10),
            digit_of(((second_of_day % 3_600) / 60) % 10),
            ':',
            digit_of((second_of_day % 60) / 10),
            digit_of((second_of_day % 60) % 10),
        ]);
    }
}

/// The line appended for an entry, speech folded onto one line.
pub open spec fn log_line_of(entry: LogEntry) -> Seq<char> {
    clock_text_of(entry.at_unix as int) + " ["@ + speaker_label(entry.speaker) + "] "@ + trimmed(
        fold_lines(entry.text@),
    ) + "\n"@
}

impl LogEntry {
    pub fn new(at_unix: i64, speaker: Speaker, text: &str) -> (entry: Self)
        ensures
            entry.at_unix == at_unix,
            entry.speaker == speaker,
            entry.text@ == text@,
    {
        LogEntry { at_unix, speaker, text: text.to_owned() }
    }

    /// The file this entry goes to.
    pub fn path(&self) -> (path: String)
        ensures
            path@ == log_path_of(self.at_unix as int),
    {
        let mut path = LOG_DIR.to_owned();
        if self.at_unix <= 0 {
            path.append("/date-unknown.txt");
            return path;
        }
        let (year, month, day) = split_civil_date(self.at_unix / 86_400);
        path.append("/");
        push_zero_padded(&mut path, year as u64, 4);
        path.append("-");
        push_zero_padded(&mut path, month as u64, 2);
        path.append("-");
        push_zero_padded(&mut path, day as u64, 2);
        path.append(".txt");
        path
    }

    /// The line to append, ending in a line break.
    pub fn format(&self) -> (line: String)
        ensures
            line@ == log_line_of(*self),
    {
        let mut line = self.clock_text();
        line.append(" [");
        line.append(self.speaker.label());
        line.append("] ");
        let folded = trim_chars(&fold_line_breaks(&chars_of(self.text.as_str())));
        line.append(string_of(&folded).as_str());
        line.append("\n");
        line
    }

    fn clock_text(&self) -> (text: String)
        ensures
            text@ == clock_text_of(self.at_unix as int),
    {
        if self.at_unix <= 0 {
            return "--:--:--".to_owned();
        }
        let second_of_day = self.at_unix % 86_400;
        let mut text = String::new();
        push_zero_padded(&mut text, (second_of_day / 3_600) as u64, 2);
        text.append(":");
        push_zero_padded(&mut text, ((second_of_day % 3_600) / 60) as u64, 2);
        text.append(":");
        push_zero_padded(&mut text, (second_of_day % 60) as u64, 2);
        text
    }
}

/// Appends one line to the day's file, creating the log directory first.
///
/// What the storage answers decides the result; once it succeeds, the log
/// directory is on the card, the day's file ends in the entry's line and no
/// other file changed.
pub fn append_entry<S: Storage>(storage: &mut S, entry: &LogEntry) -> (result: Result<(), StorageError>)
    ensures
        result is Ok ==> final(storage).files() == appended(
            old(storage).files(),
            log_path_of(entry.at_unix as int),
            log_line_of(*entry),
        ) && final(storage).dirs().contains(LOG_DIR@),
{
    let created = storage.create_dir(LOG_DIR);
    append_line(created, storage, entry)
}

/// Appends the entry's line once the log directory was made (`created` is
/// the card's answer to that). A refused directory comes back as it is and
/// nothing is appended; otherwise the answer to the append decides.
pub fn append_line<S: Storage>(created: Result<(), StorageError>, storage: &mut S, entry: &LogEntry) -> (result:
    Result<(), StorageError>)
    ensures
        created matches Err(error) ==> result == Err::<(), StorageError>(error) && *final(storage)
            == *old(storage),
        created is Ok && result is Ok ==> final(storage).files() == appended(
            old(storage).files(),
            log_path_of(entry.at_unix as int),
            log_line_of(*entry),
        ) && final(storage).dirs() == old(storage).dirs(),
{
    match created {
        Err(error) => Err(error),
        Ok(()) => {
            let path = entry.path();
            let line = entry.format();
            storage.append_text(path.as_str(), line.as_str())
        },
    }
}

} // verus!
