//! Calendar dates, times of day and instants in UTC.
//!
//! The values are plain numbers that this library checks and reads; the
//! calendar arithmetic itself (day of the year, shifting a local reading to
//! UTC, the time between two instants) is done by `chrono`.

use vstd::prelude::*;
use chrono::{Datelike, Timelike};

verus! {

/// The earliest year of a calendar date.
pub const MIN_YEAR: i32 = -262_143;

/// The latest year of a calendar date.
pub const MAX_YEAR: i32 = 262_142;

/// Seconds in one day.
pub const SECONDS_PER_DAY: u32 = 86_400;

/// Nanoseconds in one second.
pub const NANOSECONDS_PER_SECOND: u32 = 1_000_000_000;

/// Whether a year of the proleptic Gregorian calendar has a 29th of February.
pub open spec fn is_leap_year(year: int) -> bool {
    year % 4 == 0 && (year % 100 != 0 || year % 400 == 0)
}

/// The number of days of a month.
pub open spec fn days_in_month(year: int, month: int) -> int {
    if month == 2 {
        if is_leap_year(year) {
            29
        } else {
            28
        }
    } else if month == 4 || month == 6 || month == 9 || month == 11 {
        30
    } else {
        31
    }
}

/// The number of days of a year that lie before the first of a month.
pub open spec fn days_before_month(year: int, month: int) -> int
    decreases month,
{
    if month <= 1 {
        0
    } else {
        days_before_month(year, month - 1) + days_in_month(year, month - 1)
    }
}

/// The number of days between the first of January of year 1 and that of
/// `year`, negative for earlier years.
pub open spec fn days_before_year(year: int) -> int {
    365 * (year - 1) + (year - 1) / 4 - (year - 1) / 100 + (year - 1) / 400
}

/// What a calendar date stands for: a year, a month and a day of the month.
pub struct DateView {
    pub year: int,
    pub month: int,
    pub day: int,
}

/// The date view of a year, a month and a day.
pub open spec fn ymd(year: int, month: int, day: int) -> DateView {
    DateView { year, month, day }
}

impl DateView {
    /// The day exists in the proleptic Gregorian calendar and its year is
    /// within the supported range.
    pub open spec fn is_valid(self) -> bool {
        &&& MIN_YEAR <= self.year <= MAX_YEAR
        &&& 1 <= self.month <= 12
        &&& 1 <= self.day <= days_in_month(self.year, self.month)
    }

    /// The day of the year, 1 for the first of January.
    pub open spec fn day_of_year(self) -> int {
        days_before_month(self.year, self.month) + self.day
    }

    /// The number of days since the first of January of year 1.
    pub open spec fn day_number(self) -> int {
        days_before_year(self.year) + self.day_of_year() - 1
    }

    /// The day after this one.
    pub open spec fn next(self) -> DateView {
        if self.day < days_in_month(self.year, self.month) {
            DateView { year: self.year, month: self.month, day: self.day + 1 }
        } else if self.month < 12 {
            DateView { year: self.year, month: self.month + 1, day: 1 }
        } else {
            DateView { year: self.year + 1, month: 1, day: 1 }
        }
    }

    /// The day before this one.
    pub open spec fn previous(self) -> DateView {
        if self.day > 1 {
            DateView { year: self.year, month: self.month, day: self.day - 1 }
        } else if self.month > 1 {
            DateView {
                year: self.year,
                month: self.month - 1,
                day: days_in_month(self.year, self.month - 1),
            }
        } else {
            DateView { year: self.year - 1, month: 12, day: 31 }
        }
    }
}

/// What a time of day stands for: the whole seconds since midnight and the
/// nanoseconds since that second began.
pub struct TimeView {
    pub seconds: int,
    pub nanosecond: int,
}

impl TimeView {
    /// The seconds lie within one day and the nanoseconds within one second.
    pub open spec fn is_valid(self) -> bool {
        0 <= self.seconds < SECONDS_PER_DAY && 0 <= self.nanosecond < NANOSECONDS_PER_SECOND
    }
}

/// What an instant stands for: a date, the whole seconds since its midnight
/// and the nanoseconds since that second began, all in UTC.
pub struct DateTimeView {
    pub date: DateView,
    pub seconds: int,
    pub nanosecond: int,
}

impl DateTimeView {
    /// The date is valid, the seconds lie within one day and the nanoseconds
    /// within one second.
    pub open spec fn is_valid(self) -> bool {
        &&& self.date.is_valid()
        &&& 0 <= self.seconds < SECONDS_PER_DAY
        &&& 0 <= self.nanosecond < NANOSECONDS_PER_SECOND
    }

    /// The seconds from `earlier` to this instant between the two whole
    /// seconds that the instants lie in, negative if this one comes first.
    pub open spec fn whole_seconds_since(self, earlier: DateTimeView) -> int {
        (self.date.day_number() - earlier.date.day_number()) * SECONDS_PER_DAY + self.seconds
            - earlier.seconds
    }

    /// The seconds from `earlier` to this instant, negative if this one comes
    /// first; a fraction of a second is cut off towards zero.
    pub open spec fn seconds_since(self, earlier: DateTimeView) -> int {
        let whole = self.whole_seconds_since(earlier);
        if whole > 0 && self.nanosecond < earlier.nanosecond {
            whole - 1
        } else if whole < 0 && self.nanosecond > earlier.nanosecond {
            whole + 1
        } else {
            whole
        }
    }
}

/// The instant in UTC of a local reading: the reading less its zone's offset
/// east of UTC, which may fall on the day before or after; the nanoseconds
/// stay. There is none if the offset is a day or more, or if that day lies
/// beyond the supported years.
pub open spec fn utc_of_local(date: DateView, time: TimeView, offset_seconds: int) -> Option<
    DateTimeView,
> {
    let shifted = time.seconds - offset_seconds;
    let nanosecond = time.nanosecond;
    let utc = if shifted < 0 {
        DateTimeView { date: date.previous(), seconds: shifted + SECONDS_PER_DAY, nanosecond }
    } else if shifted >= SECONDS_PER_DAY {
        DateTimeView { date: date.next(), seconds: shifted - SECONDS_PER_DAY, nanosecond }
    } else {
        DateTimeView { date, seconds: shifted, nanosecond }
    };
    if -SECONDS_PER_DAY < offset_seconds < SECONDS_PER_DAY && utc.date.is_valid() {
        Some(utc)
    } else {
        None
    }
}

/// A day of the proleptic Gregorian calendar.
#[derive(Debug, Clone, Copy, PartialEq, Eq, Structural)]
pub struct CalendarDate {
    year: i32,
    month: u32,
    day: u32,
}

impl View for CalendarDate {
    type V = DateView;

    closed spec fn view(&self) -> DateView {
        DateView { year: self.year as int, month: self.month as int, day: self.day as int }
    }
}

/// A time of day, to the nanosecond. There is no leap second.
#[derive(Debug, Clone, Copy, PartialEq, Eq, Structural)]
pub struct ClockTime {
    seconds: u32,
    nanosecond: u32,
}

impl View for ClockTime {
    type V = TimeView;

    closed spec fn view(&self) -> TimeView {
        TimeView { seconds: self.seconds as int, nanosecond: self.nanosecond as int }
    }
}

/// An instant: a date and a time of day in UTC.
#[derive(Debug, Clone, Copy, PartialEq, Eq, Structural)]
pub struct UtcDateTime {
    pub date: CalendarDate,
    pub time: ClockTime,
}

impl View for UtcDateTime {
    type V = DateTimeView;

    open spec fn view(&self) -> DateTimeView {
        DateTimeView {
            date: self.date@,
            seconds: self.time@.seconds,
            nanosecond: self.time@.nanosecond,
        }
    }
}

/// `chrono::NaiveDate::from_ymd_opt`, then `chrono::Datelike::ordinal` on the
/// date it gave: the day of the year of a date that exists and whose year is
/// in range, nothing for any other triple.
#[verifier::external_body]
fn chrono_ordinal(year: i32, month: u32, day: u32) -> (ordinal: Option<u32>)
    ensures
        ymd(year as int, month as int, day as int).is_valid() ==> ordinal == Some(
            ymd(year as int, month as int, day as int).day_of_year() as u32,
        ),
        !ymd(year as int, month as int, day as int).is_valid() ==> ordinal.is_none(),
{
    match chrono::NaiveDate::from_ymd_opt(year, month, day) {
        Some(date) => Some(date.ordinal()),
        None => None,
    }
}

/// `chrono::NaiveDateTime::checked_sub_offset` with an offset made by
/// `chrono::FixedOffset::east_opt`, on a date and time made by
/// `chrono::NaiveDate::from_ymd_opt` and
/// `chrono::NaiveTime::from_num_seconds_from_midnight_opt`: the reading less
/// the offset, as year, month, day, seconds since midnight and nanoseconds,
/// with the day before or after where the time crosses midnight and the
/// nanoseconds as they were; nothing if the offset is a day or more or that day
/// is out of range.
#[verifier::external_body]
fn chrono_to_utc(date: &CalendarDate, time: &ClockTime, offset_seconds: i32) -> (utc: Option<
    (i32, u32, u32, u32, u32),
>)
    requires
        date@.is_valid(),
        time@.is_valid(),
    ensures
        match utc_of_local(date@, time@, offset_seconds as int) {
            Some(shifted) => utc == Some(
                (
                    shifted.date.year as i32,
                    shifted.date.month as u32,
                    shifted.date.day as u32,
                    shifted.seconds as u32,
                    shifted.nanosecond as u32,
                ),
            ),
            None => utc.is_none(),
        },
{
    let day = chrono::NaiveDate::from_ymd_opt(date.year, date.month, date.day)?;
    let clock =
        chrono::NaiveTime::from_num_seconds_from_midnight_opt(time.seconds, time.nanosecond)?;
    let offset = chrono::FixedOffset::east_opt(offset_seconds)?;
    let utc = chrono::NaiveDateTime::new(day, clock).checked_sub_offset(offset)?;
    Some((utc.year(), utc.month(), utc.day(), utc.num_seconds_from_midnight(), utc.nanosecond()))
}

/// `chrono::NaiveDateTime::signed_duration_since`, then
/// `chrono::TimeDelta::num_seconds` on the span it gave: the whole seconds from
/// `earlier` to `later`, counted over the days of the proleptic Gregorian
/// calendar, with a fraction of a second cut off towards zero.
#[verifier::external_body]
fn chrono_seconds_between(later: &UtcDateTime, earlier: &UtcDateTime) -> (elapsed: Option<i64>)
    requires
        later@.is_valid(),
        earlier@.is_valid(),
    ensures
        elapsed == Some(later@.seconds_since(earlier@) as i64),
{
    let end = chrono::NaiveDateTime::new(
        chrono::NaiveDate::from_ymd_opt(later.date.year, later.date.month, later.date.day)?,
        chrono::NaiveTime::from_num_seconds_from_midnight_opt(later.time.seconds, later.time.nanosecond)?,
    );
    let start = chrono::NaiveDateTime::new(
        chrono::NaiveDate::from_ymd_opt(earlier.date.year, earlier.date.month, earlier.date.day)?,
        chrono::NaiveTime::from_num_seconds_from_midnight_opt(earlier.time.seconds, earlier.time.nanosecond)?,
    );
    Some(end.signed_duration_since(start).num_seconds())
}

impl CalendarDate {
    /// Every date is one that exists, within the supported years.
    #[verifier::type_invariant]
    pub open spec fn well_formed(self) -> bool {
        self@.is_valid()
    }

    /// The date of a year, month and day, if there is such a day within the
    /// supported years.
    pub fn new(year: i32, month: u32, day: u32) -> (date: Option<CalendarDate>)
        ensures
            ymd(year as int, month as int, day as int).is_valid() ==> date.is_some()
                && date.unwrap()@ == ymd(year as int, month as int, day as int),
            !ymd(year as int, month as int, day as int).is_valid() ==> date.is_none(),
    {
        match chrono_ordinal(year, month, day) {
            Some(_) => Some(CalendarDate { year, month, day }),
            None => None,
        }
    }

    /// The year, 0 for the year before year 1.
    pub fn year(&self) -> (year: i32)
        ensures
            year == self@.year,
    {
        self.year
    }

    /// The month, 1 for January.
    pub fn month(&self) -> (month: u32)
        ensures
            month == self@.month,
    {
        self.month
    }

    /// The day of the month, from 1.
    pub fn day(&self) -> (day: u32)
        ensures
            day == self@.day,
    {
        self.day
    }

    /// Two dates with the same view are the same.
    pub proof fn lemma_view_decides(self, other: CalendarDate)
        ensures
            self@ == other@ <==> self == other,
    {
    }

    /// The day of the year, 1 for the first of January.
    pub fn ordinal(&self) -> (ordinal: u32)
        ensures
            ordinal == self@.day_of_year(),
            1 <= ordinal <= 366,
    {
        proof {
            use_type_invariant(self);
            lemma_day_of_year_bounds(self@);
        }
        match chrono_ordinal(self.year, self.month, self.day) {
            Some(ordinal) => ordinal,
            None => vstd::pervasive::unreached(),
        }
    }
}

/// The day of the year of a valid date lies between 1 and 366.
pub proof fn lemma_day_of_year_bounds(date: DateView)
    requires
        date.is_valid(),
    ensures
        1 <= date.day_of_year() <= 366,
        date.day_of_year() <= 365 || is_leap_year(date.year),
{
    reveal_with_fuel(days_before_month, 13);
}

/// The day after a valid date is one day further from year 1.
pub proof fn law_next_day(date: DateView)
    requires
        date.is_valid(),
    ensures
        date.next().day_number() == date.day_number() + 1,
        date.next().is_valid() || date == ymd(MAX_YEAR as int, 12, 31),
{
    reveal_with_fuel(days_before_month, 13);
}

/// The day before a valid date is one day nearer to year 1.
pub proof fn law_previous_day(date: DateView)
    requires
        date.is_valid(),
    ensures
        date.previous().day_number() == date.day_number() - 1,
        date.previous().is_valid() || date == ymd(MIN_YEAR as int, 1, 1),
{
    reveal_with_fuel(days_before_month, 13);
}

/// The instant in UTC of a local reading lies before the reading, taken as if
/// it were in UTC, by the offset.
pub proof fn law_utc_is_local_less_offset(date: DateView, time: TimeView, offset_seconds: int)
    requires
        date.is_valid(),
        time.is_valid(),
        utc_of_local(date, time, offset_seconds).is_some(),
    ensures
        utc_of_local(date, time, offset_seconds).unwrap().is_valid(),
        (DateTimeView { date, seconds: time.seconds, nanosecond: time.nanosecond }).seconds_since(
            utc_of_local(date, time, offset_seconds).unwrap(),
        ) == offset_seconds,
{
    law_next_day(date);
    law_previous_day(date);
}

/// The days before a year of the supported range stay within a hundred
/// million either way.
pub proof fn lemma_day_number_bounds(date: DateView)
    requires
        date.is_valid(),
    ensures
        -100_000_000 <= date.day_number() <= 100_000_000,
{
    lemma_day_of_year_bounds(date);
}

impl ClockTime {
    /// Every time of day lies within one day, and its nanoseconds within one
    /// second.
    #[verifier::type_invariant]
    pub open spec fn well_formed(self) -> bool {
        self@.is_valid()
    }

    /// The time of an hour, a minute and a second, if the hour is below 24 and
    /// minute and second are below 60.
    pub fn new(hour: u32, minute: u32, second: u32) -> (time: Option<ClockTime>)
        ensures
            hour < 24 && minute < 60 && second < 60 ==> time.is_some() && time.unwrap()@ == (
            TimeView { seconds: hour * 3600 + minute * 60 + second, nanosecond: 0 }),
            !(hour < 24 && minute < 60 && second < 60) ==> time.is_none(),
    {
        Self::from_hms_nano(hour, minute, second, 0)
    }

    /// The time of an hour, a minute, a second and the nanoseconds since that
    /// second began, if the hour is below 24, minute and second are below 60
    /// and the nanoseconds below a thousand million.
    pub fn from_hms_nano(hour: u32, minute: u32, second: u32, nanosecond: u32) -> (time: Option<
        ClockTime,
    >)
        ensures
            hour < 24 && minute < 60 && second < 60 && nanosecond < NANOSECONDS_PER_SECOND
                ==> time.is_some() && time.unwrap()@ == (TimeView {
                seconds: hour * 3600 + minute * 60 + second,
                nanosecond: nanosecond as int,
            }),
            !(hour < 24 && minute < 60 && second < 60 && nanosecond < NANOSECONDS_PER_SECOND)
                ==> time.is_none(),
    {
        if hour < 24 && minute < 60 && second < 60 && nanosecond < NANOSECONDS_PER_SECOND {
            Some(ClockTime { seconds: hour * 3600 + minute * 60 + second, nanosecond })
        } else {
            None
        }
    }

    /// The hour of the day.
    pub fn hour(&self) -> (hour: u32)
        ensures
            hour == self@.seconds / 3600,
            hour < 24,
    {
        proof {
            use_type_invariant(self);
        }
        self.seconds / 3600
    }

    /// The minute of the hour.
    pub fn minute(&self) -> (minute: u32)
        ensures
            minute == self@.seconds / 60 % 60,
            minute < 60,
    {
        self.seconds / 60 % 60
    }

    /// The second of the minute.
    pub fn second(&self) -> (second: u32)
        ensures
            second == self@.seconds % 60,
            second < 60,
    {
        self.seconds % 60
    }

    /// The nanoseconds since the second began.
    pub fn nanosecond(&self) -> (nanosecond: u32)
        ensures
            nanosecond == self@.nanosecond,
            nanosecond < NANOSECONDS_PER_SECOND,
    {
        proof {
            use_type_invariant(self);
        }
        self.nanosecond
    }

    /// The whole seconds since midnight.
    pub fn seconds_since_midnight(&self) -> (seconds: u32)
        ensures
            seconds == self@.seconds,
            seconds < SECONDS_PER_DAY,
    {
        proof {
            use_type_invariant(self);
        }
        self.seconds
    }

    /// Two times of day with the same view are the same.
    pub proof fn lemma_view_decides(self, other: ClockTime)
        ensures
            self@ == other@ <==> self == other,
    {
    }
}

impl UtcDateTime {
    /// Two instants with the same view are the same.
    pub proof fn lemma_view_decides(self, other: UtcDateTime)
        ensures
            self@ == other@ <==> self == other,
    {
        self.date.lemma_view_decides(other.date);
        self.time.lemma_view_decides(other.time);
    }

    /// The instant of a date and a time of day, both in UTC.
    pub fn new(date: CalendarDate, time: ClockTime) -> (instant: UtcDateTime)
        ensures
            instant.date == date,
            instant.time == time,
    {
        UtcDateTime { date, time }
    }

    /// The instant of a local reading in a zone `offset_seconds` east of UTC.
    /// There is none if the offset is a day or more, or if the instant falls on
    /// a day beyond the supported years.
    pub fn from_local(date: CalendarDate, time: ClockTime, offset_seconds: i32) -> (instant: Option<
        UtcDateTime,
    >)
        ensures
            match utc_of_local(date@, time@, offset_seconds as int) {
                Some(utc) => instant.is_some() && instant.unwrap()@ == utc,
                None => instant.is_none(),
            },
    {
        proof {
            use_type_invariant(&date);
            use_type_invariant(&time);
        }
        match chrono_to_utc(&date, &time, offset_seconds) {
            Some((year, month, day, seconds, nanosecond)) => Some(
                UtcDateTime {
                    date: CalendarDate { year, month, day },
                    time: ClockTime { seconds, nanosecond },
                },
            ),
            None => None,
        }
    }

    /// The whole seconds from `earlier` to this instant, negative if this one
    /// comes first; a fraction of a second is cut off towards zero.
    pub fn seconds_since(&self, earlier: &UtcDateTime) -> (elapsed: i64)
        ensures
            elapsed == self@.seconds_since(earlier@),
    {
        proof {
            use_type_invariant(&self.date);
            use_type_invariant(&self.time);
            use_type_invariant(&earlier.date);
            use_type_invariant(&earlier.time);
            lemma_day_number_bounds(self.date@);
            lemma_day_number_bounds(earlier.date@);
        }
        match chrono_seconds_between(self, earlier) {
            Some(elapsed) => elapsed,
            None => vstd::pervasive::unreached(),
        }
    }
}

} // verus!
