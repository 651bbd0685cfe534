//! Due times: `HH:MM`, meaning the next time the clock shows it, or
//! `YYYY-MM-DD HH:MM`, written out as `YYYY-MM-DDTHH:MM:00`.

use crate::calendar::{date_exists, date_text, next_day, tomorrow, valid_date, write_date};
use crate::text::{chars_of, count, count_char, push_all, split_words, string_from, views, words};
use chrono::{Datelike, Timelike};
use vstd::prelude::*;

verus! {

/// A moment on the local clock.
#[derive(Clone, Copy, Debug, PartialEq, Eq, Structural)]
pub struct LocalTime {
    pub year: i32,
    pub month: u32,
    pub day: u32,
    pub hour: u32,
    pub minute: u32,
    pub second: u32,
    /// Nanoseconds since the start of the second; a billion or more during a
    /// leap second.
    pub nano: u32,
}

impl LocalTime {
    /// The date exists and the time of day is in range.
    pub open spec fn wf(&self) -> bool {
        &&& valid_date(self.year as int, self.month as int, self.day as int)
        &&& self.hour < 24
        &&& self.minute < 60
        &&& self.second < 60
        &&& self.nano < 2_000_000_000
    }

    /// The moment with these fields, if there is one.
    pub fn new(
        year: i32,
        month: u32,
        day: u32,
        hour: u32,
        minute: u32,
        second: u32,
        nano: u32,
    ) -> (r: Option<LocalTime>)
        ensures
            match r {
                Some(t) => t.wf() && t == (LocalTime {
                    year,
                    month,
                    day,
                    hour,
                    minute,
                    second,
                    nano,
                }),
                None => !(LocalTime { year, month, day, hour, minute, second, nano }).wf(),
            },
    {
        if date_exists(year, month, day) && hour < 24 && minute < 60 && second < 60 && nano
            < 2_000_000_000 {
            Some(LocalTime { year, month, day, hour, minute, second, nano })
        } else {
            None
        }
    }
}

/// What `chrono::NaiveTime::parse_from_str` makes of `s` under `format`: the
/// hour, minute, second and nanosecond of the time it reads, or `None` where
/// it reports an error.
pub uninterp spec fn parsed_time(s: Seq<char>, format: Seq<char>) -> Option<(u32, u32, u32, u32)>;

/// What `chrono::NaiveDate::parse_from_str` makes of `s` under `format`: the
/// year, month and day of the date it reads, or `None` where it reports an
/// error.
pub uninterp spec fn parsed_date(s: Seq<char>, format: Seq<char>) -> Option<(i32, u32, u32)>;

/// What `str::parse::<chrono::NaiveDateTime>` makes of `s`: the moment it
/// reads, or `None` where it reports an error.
pub uninterp spec fn parsed_date_time(s: Seq<char>) -> Option<LocalTime>;

/// Reads a date with a time of day.
///
/// Trusted: calls `str::parse::<chrono::NaiveDateTime>` and takes the fields
/// of the moment it returns. The contract names that result and adds that the
/// date exists and the time of day is in range, as chrono keeps them.
#[verifier::external_body]
pub(crate) fn parse_date_time(s: &str) -> (r: Option<LocalTime>)
    ensures
        r == parsed_date_time(s@),
        r matches Some(t) ==> t.wf(),
{
    let t = s.parse::<chrono::NaiveDateTime>().ok()?;
    Some(
        LocalTime {
            year: t.year(),
            month: t.month(),
            day: t.day(),
            hour: t.hour(),
            minute: t.minute(),
            second: t.second(),
            nano: t.nanosecond(),
        },
    )
}

/// Reads a time of day.
///
/// Trusted: calls `chrono::NaiveTime::parse_from_str` and takes the fields of
/// the time it returns. The contract names that result and adds the ranges
/// that chrono documents for the four fields.
#[verifier::external_body]
fn parse_time(s: &str, format: &str) -> (r: Option<(u32, u32, u32, u32)>)
    ensures
        r == parsed_time(s@, format@),
        r matches Some(t) ==> t.0 < 24 && t.1 < 60 && t.2 < 60 && t.3 < 2_000_000_000,
{
    let t = chrono::NaiveTime::parse_from_str(s, format).ok()?;
    Some((t.hour(), t.minute(), t.second(), t.nanosecond()))
}

/// Reads a calendar date.
///
/// Trusted: calls `chrono::NaiveDate::parse_from_str` and takes the fields of
/// the date it returns. The contract names that result and claims nothing
/// else.
#[verifier::external_body]
fn parse_date(s: &str, format: &str) -> (r: Option<(i32, u32, u32)>)
    ensures
        r == parsed_date(s@, format@),
{
    let d = chrono::NaiveDate::parse_from_str(s, format).ok()?;
    Some((d.year(), d.month(), d.day()))
}

/// Reads the local clock.
///
/// Trusted: calls `chrono::Local::now` and takes the fields of the local date
/// and time. The contract claims only what holds of every moment chrono can
/// return: an existing date and a time of day in range.
#[verifier::external_body]
fn local_now() -> (now: LocalTime)
    ensures
        now.wf(),
{
    let t = chrono::Local::now().naive_local();
    LocalTime {
        year: t.year(),
        month: t.month(),
        day: t.day(),
        hour: t.hour(),
        minute: t.minute(),
        second: t.second(),
        nano: t.nanosecond(),
    }
}

/// Why a text is no due time.
#[derive(Clone, Copy, Debug, PartialEq, Eq, Structural)]
pub enum DueError {
    /// The text has no word, or more than two.
    InvalidDateTimeFormat,
    /// The time does not have exactly one `:`.
    InvalidTime,
    /// The time is no time of day.
    InvalidTimeFormat,
    /// The date does not have exactly two `-`, or is no calendar date.
    InvalidDate,
}

impl DueError {
    /// The message shown to the user.
    pub open spec fn message_text(&self) -> Seq<char> {
        match self {
            DueError::InvalidDateTimeFormat => "Invalid date and time format"@,
            DueError::InvalidTime => "Invalid time"@,
            DueError::InvalidTimeFormat => "Invalid time format"@,
            DueError::InvalidDate => "Invalid date"@,
        }
    }

    /// The message shown to the user.
    pub fn message(&self) -> (m: &'static str)
        ensures
            m@ == self.message_text(),
    {
        match self {
            DueError::InvalidDateTimeFormat => "Invalid date and time format",
            DueError::InvalidTime => "Invalid time",
            DueError::InvalidTimeFormat => "Invalid time format",
            DueError::InvalidDate => "Invalid date",
        }
    }
}

/// The two forms a due time can be given in.
pub enum DueShape {
    /// A time of day alone, as written and as read.
    Time { time: Seq<char>, clock: (u32, u32, u32, u32) },
    /// A date and a time of day, as written.
    DateTime { date: Seq<char>, time: Seq<char> },
}

/// The format in which a time of day is read.
pub open spec fn time_format() -> Seq<char> {
    "%H:%M"@
}

/// The format in which a date is read.
pub open spec fn date_format() -> Seq<char> {
    "%Y-%m-%d"@
}

/// The form of the due time `s`, or why it has none. The words are looked at
/// in this order: how many there are; the number of `-` in the date and of `:`
/// in the time; whether the date is a calendar date; whether the time is a
/// time of day.
pub open spec fn due_shape(s: Seq<char>) -> Result<DueShape, DueError> {
    let w = words(s);
    if w.len() == 0 || w.len() > 2 {
        Err(DueError::InvalidDateTimeFormat)
    } else if w.len() == 1 {
        if count(w[0], ':') != 1 {
            Err(DueError::InvalidTime)
        } else {
            match parsed_time(w[0], time_format()) {
                None => Err(DueError::InvalidTimeFormat),
                Some(clock) => Ok(DueShape::Time { time: w[0], clock }),
            }
        }
    } else {
        if count(w[0], '-') != 2 {
            Err(DueError::InvalidDate)
        } else if count(w[1], ':') != 1 {
            Err(DueError::InvalidTime)
        } else if parsed_date(w[0], date_format()) is None {
            Err(DueError::InvalidDate)
        } else if parsed_time(w[1], time_format()) is None {
            Err(DueError::InvalidTimeFormat)
        } else {
            Ok(DueShape::DateTime { date: w[0], time: w[1] })
        }
    }
}

/// Whether the time of day `clock` lies strictly before the time of day of
/// `now`.
pub open spec fn is_before(clock: (u32, u32, u32, u32), now: LocalTime) -> bool {
    ||| clock.0 < now.hour
    ||| clock.0 == now.hour && clock.1 < now.minute
    ||| clock.0 == now.hour && clock.1 == now.minute && clock.2 < now.second
    ||| clock.0 == now.hour && clock.1 == now.minute && clock.2 == now.second && clock.3
        < now.nano
}

/// The day on which the clock next shows `clock`, seen from `now`: tomorrow
/// if that time of day has passed, else today.
pub open spec fn due_day(clock: (u32, u32, u32, u32), now: LocalTime) -> (int, int, int) {
    if is_before(clock, now) {
        next_day(now.year as int, now.month as int, now.day as int)
    } else {
        (now.year as int, now.month as int, now.day as int)
    }
}

/// The due time of form `shape`, written out at the moment `now`.
pub open spec fn due_text(shape: DueShape, now: LocalTime) -> Seq<char> {
    match shape {
        DueShape::Time { time, clock } => {
            let day = due_day(clock, now);
            date_text(day.0, day.1, day.2) + seq!['T'] + time + seq![':', '0', '0']
        },
        DueShape::DateTime { date, time } => date + seq!['T'] + time + seq![':', '0', '0'],
    }
}

/// What the text `s` means as a due time at the moment `now`.
pub open spec fn due_at(s: Seq<char>, now: LocalTime) -> Result<Seq<char>, DueError> {
    match due_shape(s) {
        Ok(shape) => Ok(due_text(shape, now)),
        Err(e) => Err(e),
    }
}

/// A time of day that has not passed falls on today.
pub proof fn lemma_time_to_come_is_today(
    s: Seq<char>,
    now: LocalTime,
    time: Seq<char>,
    clock: (u32, u32, u32, u32),
)
    requires
        due_shape(s) == Ok::<DueShape, DueError>(DueShape::Time { time, clock }),
        !is_before(clock, now),
    ensures
        due_at(s, now) == Ok::<Seq<char>, DueError>(
            date_text(now.year as int, now.month as int, now.day as int) + seq!['T'] + time + seq![
                ':',
                '0',
                '0',
            ],
        ),
{
}

/// A time of day that has passed falls on tomorrow.
pub proof fn lemma_time_passed_is_tomorrow(
    s: Seq<char>,
    now: LocalTime,
    time: Seq<char>,
    clock: (u32, u32, u32, u32),
)
    requires
        due_shape(s) == Ok::<DueShape, DueError>(DueShape::Time { time, clock }),
        is_before(clock, now),
    ensures
        ({
            let day = next_day(now.year as int, now.month as int, now.day as int);
            due_at(s, now) == Ok::<Seq<char>, DueError>(
                date_text(day.0, day.1, day.2) + seq!['T'] + time + seq![':', '0', '0'],
            )
        }),
{
}

/// A date with a time of day is written out as it was given, with `T` between
/// the two and `:00` behind, whatever the clock shows.
pub proof fn lemma_date_and_time_pass_through(
    s: Seq<char>,
    now: LocalTime,
    date: Seq<char>,
    time: Seq<char>,
)
    requires
        due_shape(s) == Ok::<DueShape, DueError>(DueShape::DateTime { date, time }),
    ensures
        due_at(s, now) == Ok::<Seq<char>, DueError>(date + seq!['T'] + time + seq![':', '0', '0']),
{
}

/// A due time, written as date, `T`, time of day and `:00`.
#[derive(Debug)]
pub struct Due {
    text: String,
}

impl Clone for Due {
    fn clone(&self) -> (r: Due)
        ensures
            r@ == self@,
    {
        Due { text: self.text.clone() }
    }
}

impl View for Due {
    type V = Seq<char>;

    closed spec fn view(&self) -> Seq<char> {
        self.text@
    }
}

impl DeepView for Due {
    type V = Seq<char>;

    open spec fn deep_view(&self) -> Seq<char> {
        self@
    }
}

impl Due {
    /// The due time as text.
    pub fn as_str(&self) -> (s: &str)
        ensures
            s@ == self@,
    {
        self.text.as_str()
    }

    /// The due time as text.
    pub fn into_string(self) -> (s: String)
        ensures
            s@ == self@,
    {
        self.text
    }

    /// Reads the due time `s` as meant at the moment `now`.
    pub fn parse_at(s: &str, now: &LocalTime) -> (r: Result<Due, DueError>)
        requires
            now.wf(),
        ensures
            match r {
                Ok(d) => due_at(s@, *now) == Ok::<Seq<char>, DueError>(d@),
                Err(e) => due_at(s@, *now) == Err::<Seq<char>, DueError>(e),
            },
    {
        let chars = chars_of(s);
        let parts = split_words(&chars);
        assert(views(parts@).len() == parts@.len());
        if parts.len() > 2 || parts.len() == 0 {
            return Err(DueError::InvalidDateTimeFormat);
        }
        let mut out: Vec<char>;
        if parts.len() == 1 {
            let time = &parts[0];
            assert(views(parts@)[0] == time@);
            if count_char(time, ':') != 1 {
                return Err(DueError::InvalidTime);
            }
            let clock = match parse_time(string_from(time).as_str(), "%H:%M") {
                Some(clock) => clock,
                None => {
                    return Err(DueError::InvalidTimeFormat);
                },
            };
            let passed = clock.0 < now.hour || (clock.0 == now.hour && (clock.1 < now.minute || (
            clock.1 == now.minute && (clock.2 < now.second || (clock.2 == now.second && clock.3
                < now.nano)))));
            let day = if passed {
                tomorrow(now.year, now.month, now.day)
            } else {
                (now.year, now.month, now.day)
            };
            out = write_date(day.0, day.1, day.2);
            out.push('T');
            push_all(&mut out, time);
            assert(out@ + seq![':', '0', '0'] == due_text(
                DueShape::Time { time: time@, clock },
                *now,
            ));
        } else {
            let date = &parts[0];
            let time = &parts[1];
            assert(views(parts@)[0] == date@);
            assert(views(parts@)[1] == time@);
            if count_char(date, '-') != 2 {
                return Err(DueError::InvalidDate);
            }
            if count_char(time, ':') != 1 {
                return Err(DueError::InvalidTime);
            }
            if parse_date(string_from(date).as_str(), "%Y-%m-%d").is_none() {
                return Err(DueError::InvalidDate);
            }
            if parse_time(string_from(time).as_str(), "%H:%M").is_none() {
                return Err(DueError::InvalidTimeFormat);
            }
            out = Vec::new();
            push_all(&mut out, date);
            out.push('T');
            push_all(&mut out, time);
            assert(out@ + seq![':', '0', '0'] == due_text(
                DueShape::DateTime { date: date@, time: time@ },
                *now,
            ));
        }
        let ghost head = out@;
        out.push(':');
        out.push('0');
        out.push('0');
        assert(out@ == head + seq![':', '0', '0']);
        let text = string_from(&out);
        Ok(Due { text })
    }

    /// Reads the due time `s` as meant now, by the local clock.
    ///
    /// Whether `s` is a due time, and of which form, does not depend on the
    /// clock. A date with a time is written out as given; a time alone gets
    /// the date that some moment of the clock gives it.
    pub fn from_str(s: &str) -> (r: Result<Due, DueError>)
        ensures
            match due_shape(s@) {
                Err(e) => r == Err::<Due, DueError>(e),
                Ok(shape) => r matches Ok(d) && exists|now: LocalTime|
                    now.wf() && d@ == #[trigger] due_text(shape, now),
            },
    {
        let now = local_now();
        Due::parse_at(s, &now)
    }
}

} // verus!
