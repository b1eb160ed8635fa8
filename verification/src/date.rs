//! Dates as the service writes them, resolved against the local calendar.
//!
//! A date string is read as a wall-clock time without a zone and taken to be
//! local time already: an offset that the string carries is not applied.
//! Fields that the string leaves out are taken from the day on which it is
//! read. Only a date text is handed to the parser; any other text is reported
//! as unrecognized, and nothing here ever panics.

use crate::datetext::{is_date_text, looks_like_date_text};
use chrono::{Datelike, Days, Local, NaiveDate, NaiveTime, TimeZone, Timelike};
use vstd::prelude::*;
use vstd::string::*;

verus! {

/// A day of the proleptic Gregorian calendar.
#[derive(Clone, Copy, Debug, PartialEq, Eq, Structural)]
pub struct LocalDate {
    pub year: i32,
    pub month: u32,
    pub day: u32,
}

/// A wall-clock time on a day, without a zone and to the second.
#[derive(Clone, Copy, Debug, PartialEq, Eq, Structural)]
pub struct WallTime {
    pub date: LocalDate,
    pub hour: u32,
    pub minute: u32,
    pub second: u32,
}

/// Why a date string could not be resolved.
#[derive(Clone, Copy, Debug, PartialEq, Eq, Structural)]
pub enum DateError {
    /// The text is no date text, or the parser makes no date and time of it.
    Unrecognized,
}

/// The first year that a date can lie in.
pub const MIN_YEAR: i32 = -262143;

/// The last year that a date can lie in.
pub const MAX_YEAR: i32 = 262142;

/// Whether `year` has a 29th of February.
pub open spec fn is_leap_year(year: int) -> bool {
    year % 4 == 0 && (year % 100 != 0 || year % 400 == 0)
}

/// The number of days of `month` (1 to 12) in `year`; 0 for any other month.
pub open spec fn days_in_month(year: int, month: int) -> int {
    if month == 2 {
        if is_leap_year(year) { 29 } else { 28 }
    } else if month == 4 || month == 6 || month == 9 || month == 11 {
        30
    } else if 1 <= month <= 12 {
        31
    } else {
        0
    }
}

impl LocalDate {
    /// The date names a day that exists, in a year that can be represented.
    pub open spec fn valid(&self) -> bool {
        &&& MIN_YEAR <= self.year <= MAX_YEAR
        &&& 1 <= self.month <= 12
        &&& 1 <= self.day <= days_in_month(self.year as int, self.month as int)
    }

    /// Whether the date names a day that exists.
    pub fn is_valid(&self) -> (ok: bool)
        ensures
            ok == self.valid(),
    {
        if self.year < MIN_YEAR || self.year > MAX_YEAR || self.month < 1 || self.month > 12 {
            return false;
        }
        let leap = self.year % 4 == 0 && (self.year % 100 != 0 || self.year % 400 == 0);
        let days: u32 = if self.month == 2 {
            if leap {
                29
            } else {
                28
            }
        } else if self.month == 4 || self.month == 6 || self.month == 9 || self.month == 11 {
            30
        } else {
            31
        };
        1 <= self.day && self.day <= days
    }

    /// Whether this is the last representable day.
    pub open spec fn is_last(&self) -> bool {
        self.year == MAX_YEAR && self.month == 12 && self.day == 31
    }

    /// The day after this one.
    pub open spec fn successor(&self) -> LocalDate {
        if self.day < days_in_month(self.year as int, self.month as int) {
            LocalDate { year: self.year, month: self.month, day: (self.day + 1) as u32 }
        } else if self.month < 12 {
            LocalDate { year: self.year, month: (self.month + 1) as u32, day: 1 }
        } else {
            LocalDate { year: (self.year + 1) as i32, month: 1, day: 1 }
        }
    }
}

impl WallTime {
    /// The day exists and the time is one that a clock shows.
    pub open spec fn valid(&self) -> bool {
        &&& self.date.valid()
        &&& self.hour < 24
        &&& self.minute < 60
        &&& self.second < 60
    }

    /// Whether the day exists and the time is one that a clock shows.
    pub fn is_valid(&self) -> (ok: bool)
        ensures
            ok == self.valid(),
    {
        self.date.is_valid() && self.hour < 24 && self.minute < 60 && self.second < 60
    }
}

/// The character of one decimal digit.
pub open spec fn digit_char(digit: int) -> char {
    if digit == 0 { '0' }
    else if digit == 1 { '1' }
    else if digit == 2 { '2' }
    else if digit == 3 { '3' }
    else if digit == 4 { '4' }
    else if digit == 5 { '5' }
    else if digit == 6 { '6' }
    else if digit == 7 { '7' }
    else if digit == 8 { '8' }
    else { '9' }
}

/// A number below 100 in two digits, with a leading zero where needed.
pub open spec fn two_digits(n: int) -> Seq<char> {
    seq![digit_char(n / 10), digit_char(n % 10)]
}

/// The hour as a 12-hour clock shows it: 12 for midnight and noon.
pub open spec fn hour_on_dial(hour: int) -> int {
    if hour % 12 == 0 { 12 } else { hour % 12 }
}

/// A time of day on a 12-hour clock: `07:05 AM`, `12:30 PM`.
pub open spec fn clock_text(hour: int, minute: int) -> Seq<char> {
    two_digits(hour_on_dial(hour)) + seq![':'] + two_digits(minute) + seq![' ']
        + (if hour < 12 { seq!['A', 'M'] } else { seq!['P', 'M'] })
}

/// The English three-letter name of a month (1 to 12).
pub open spec fn month_abbrev(month: int) -> Seq<char> {
    if month == 1 { seq!['J', 'a', 'n'] }
    else if month == 2 { seq!['F', 'e', 'b'] }
    else if month == 3 { seq!['M', 'a', 'r'] }
    else if month == 4 { seq!['A', 'p', 'r'] }
    else if month == 5 { seq!['M', 'a', 'y'] }
    else if month == 6 { seq!['J', 'u', 'n'] }
    else if month == 7 { seq!['J', 'u', 'l'] }
    else if month == 8 { seq!['A', 'u', 'g'] }
    else if month == 9 { seq!['S', 'e', 'p'] }
    else if month == 10 { seq!['O', 'c', 't'] }
    else if month == 11 { seq!['N', 'o', 'v'] }
    else { seq!['D', 'e', 'c'] }
}

/// A day within its year: `Mar 09`.
pub open spec fn month_day_text(month: int, day: int) -> Seq<char> {
    month_abbrev(month) + seq![' '] + two_digits(day)
}

/// The error of the date parser.
#[verifier::external_type_specification]
#[verifier::external_body]
pub struct ExDateParseError(dtparse::ParseError);

/// The wall-clock time that the date parser reads in a date text on a day,
/// where it reads one. The day fills the fields that the text leaves out,
/// and its year decides the century of a year of two digits.
pub uninterp spec fn parsed_date_text(text: Seq<char>, year: i32, month: u32, day: u32) -> Option<
    WallTime,
>;

/// The century that a year lies in, as a year: 2000 for 2024.
pub open spec fn century_of(year: int) -> int {
    if year >= 0 {
        year / 100 * 100
    } else {
        -((-year) / 100 * 100)
    }
}

/// `dtparse::Parser::parse` on a date text, for a parser that is told the
/// current year and its century, with the given day as the default date and
/// no other option set; the zone offset it may find is left aside. With the
/// day and the year given, what the parser reads depends on the text and on
/// them alone. A time that it returns is one that exists: the month, the day
/// of that month, and the hour, minute and second are in range. Which time
/// it returns is not said: the parser bends some dates that do not exist to
/// ones that do. On text that is no date text in the year of the day the
/// parser can panic.
#[verifier::external_body]
fn parse_wall_time(raw: &str, today: LocalDate, century: i32) -> (parsed: Result<
    WallTime,
    dtparse::ParseError,
>)
    requires
        is_date_text(raw@, today.year as int),
        today.valid(),
        century == century_of(today.year as int),
    ensures
        match parsed {
            Ok(t) => parsed_date_text(raw@, today.year, today.month, today.day) == Some(t)
                && t.valid(),
            Err(_) => parsed_date_text(raw@, today.year, today.month, today.day) is None,
        },
{
    let mut info = dtparse::ParserInfo::default();
    info.year = today.year;
    info.century = century;
    let start = NaiveDate::from_ymd_opt(today.year, today.month, today.day)
        .unwrap_or_default()
        .and_time(NaiveTime::MIN);
    let none = std::collections::HashMap::new();
    let (naive, _, _) = dtparse::Parser::new(info)
        .parse(raw, None, None, false, false, Some(&start), false, &none)?;
    Ok(WallTime {
        date: LocalDate { year: naive.year(), month: naive.month(), day: naive.day() },
        hour: naive.hour(),
        minute: naive.minute(),
        second: naive.second(),
    })
}

/// `chrono::TimeZone::from_local_datetime` on the system's zone, and the date
/// of its single result. Where the wall-clock time maps to exactly one instant
/// that instant's local date is the date of the wall-clock time itself; where
/// it maps to none or to two, or cannot be represented, there is no result.
#[verifier::external_body]
fn zoned_date(t: &WallTime) -> (zoned: Option<LocalDate>)
    ensures
        zoned matches Some(d) ==> d == t.date,
{
    let naive = NaiveDate::from_ymd_opt(t.date.year, t.date.month, t.date.day)?
        .and_hms_opt(t.hour, t.minute, t.second)?;
    let date = Local.from_local_datetime(&naive).single()?.date_naive();
    Some(LocalDate { year: date.year(), month: date.month(), day: date.day() })
}

/// `chrono::Local::now`, and the local date of that instant: a day that exists.
#[verifier::external_body]
pub(crate) fn current_local_date() -> (today: LocalDate)
    ensures
        today.valid(),
{
    let date = Local::now().date_naive();
    LocalDate { year: date.year(), month: date.month(), day: date.day() }
}

/// `chrono::NaiveDate::checked_add_days` with one day: the next day of the
/// calendar, and nothing after the last representable day or for a date that
/// does not exist.
#[verifier::external_body]
fn day_after(date: LocalDate) -> (next: Option<LocalDate>)
    ensures
        next is Some <==> (date.valid() && !date.is_last()),
        next matches Some(d) ==> d == date.successor(),
{
    let next = NaiveDate::from_ymd_opt(date.year, date.month, date.day)?
        .checked_add_days(Days::new(1))?;
    Some(LocalDate { year: next.year(), month: next.month(), day: next.day() })
}

/// `chrono::NaiveTime::format` with `%I:%M %p`: the hour of a 12-hour clock and
/// the minute, two digits each, then `AM` or `PM`. No text for an hour or a
/// minute that no clock shows.
#[verifier::external_body]
fn clock_string(hour: u32, minute: u32) -> (text: Option<String>)
    ensures
        text is Some <==> (hour < 24 && minute < 60),
        text matches Some(s) ==> s@ == clock_text(hour as int, minute as int),
{
    let time = NaiveTime::from_hms_opt(hour, minute, 0)?;
    Some(time.format("%I:%M %p").to_string())
}

/// `chrono::NaiveDate::format` with `%b %d`: the month's English three-letter
/// name and the day in two digits. No text for a date that does not exist.
#[verifier::external_body]
fn month_day_string(date: LocalDate) -> (text: Option<String>)
    ensures
        text is Some <==> date.valid(),
        text matches Some(s) ==> s@ == month_day_text(date.month as int, date.day as int),
{
    let day = NaiveDate::from_ymd_opt(date.year, date.month, date.day)?;
    Some(day.format("%b %d").to_string())
}

/// The local date of a parsed time: the date that the system's zone gave for
/// it, and the date of the parsed time itself where the zone gave none.
pub open spec fn resolved_date(parsed: WallTime, zoned: Option<LocalDate>) -> LocalDate {
    match zoned {
        Some(date) => date,
        None => parsed.date,
    }
}

/// What a date string reads as on the day `today`: the wall-clock time that
/// the parser reads in a date text on that day, and nothing for any other
/// text, where the parser reads none, or on a day that does not exist.
pub open spec fn reading_of(text: Seq<char>, today: LocalDate) -> Result<WallTime, DateError> {
    if is_date_text(text, today.year as int) && today.valid() {
        match parsed_date_text(text, today.year, today.month, today.day) {
            Some(t) => Ok(t),
            None => Err(DateError::Unrecognized),
        }
    } else {
        Err(DateError::Unrecognized)
    }
}

/// The local date that a date string resolves to on the day `today`: the
/// date of the wall-clock time it reads as.
pub open spec fn resolution_of(text: Seq<char>, today: LocalDate) -> Result<LocalDate, DateError> {
    match reading_of(text, today) {
        Ok(t) => Ok(t.date),
        Err(e) => Err(e),
    }
}

/// Whether a date string that resolved as `resolved` falls on `today`.
pub open spec fn falls_on(resolved: Result<LocalDate, DateError>, today: LocalDate) -> bool {
    resolved == Ok::<LocalDate, DateError>(today)
}

/// What is shown for a date string: `Today`, `Tomorrow` or the month and day,
/// each followed by the time on a 12-hour clock, and `Invalid time` for a
/// string that did not parse, or for a day or a time that does not exist.
/// Days are compared as dates only.
pub open spec fn display_text(
    parsed: Result<WallTime, DateError>,
    zoned: Option<LocalDate>,
    today: LocalDate,
) -> Seq<char> {
    match parsed {
        Err(_) => "Invalid time"@,
        Ok(t) => {
            let date = resolved_date(t, zoned);
            let clock = clock_text(t.hour as int, t.minute as int);
            if !t.valid() || !date.valid() {
                "Invalid time"@
            } else if date == today {
                "Today "@ + clock
            } else if today.valid() && !today.is_last() && date == today.successor() {
                "Tomorrow "@ + clock
            } else {
                month_day_text(date.month as int, date.day as int) + " "@ + clock
            }
        },
    }
}

/// The century that a year lies in.
fn century(year: i32) -> (century: i32)
    requires
        MIN_YEAR <= year <= MAX_YEAR,
    ensures
        century == century_of(year as int),
{
    if year >= 0 {
        year / 100 * 100
    } else {
        0 - (0 - year) / 100 * 100
    }
}

/// Reads a date string, on the day `today`, as a wall-clock time without a
/// zone. Text that is no date text is not recognized.
pub fn read_wall_time(raw: &str, today: LocalDate) -> (parsed: Result<WallTime, DateError>)
    ensures
        parsed == reading_of(raw@, today),
        parsed matches Ok(t) ==> t.valid(),
{
    if !looks_like_date_text(raw, today.year) || !today.is_valid() {
        return Err(DateError::Unrecognized);
    }
    match parse_wall_time(raw, today, century(today.year)) {
        Ok(t) => Ok(t),
        Err(_) => Err(DateError::Unrecognized),
    }
}

/// The local date of a parsed time, given what the system's zone made of it.
pub fn local_date_of(parsed: &WallTime, zoned: Option<LocalDate>) -> (date: LocalDate)
    ensures
        date == resolved_date(*parsed, zoned),
{
    match zoned {
        Some(date) => date,
        None => parsed.date,
    }
}

/// Resolves a date string, on the day `today`, to the local date it falls
/// on. The time it names is taken as local wall-clock time; where the
/// system's zone has no single instant for it, the date is that of the
/// parsed time, which is the date that the zone gives wherever it gives one.
pub fn resolve_on(raw: &str, today: LocalDate) -> (resolved: Result<LocalDate, DateError>)
    ensures
        resolved == resolution_of(raw@, today),
        resolved matches Ok(date) ==> date.valid(),
{
    match read_wall_time(raw, today) {
        Ok(t) => {
            let zoned = zoned_date(&t);
            Ok(local_date_of(&t, zoned))
        },
        Err(e) => Err(e),
    }
}

/// Resolves a date string to the local date it falls on, read on the
/// current local date.
pub fn resolve_to_local_date(raw: &str) -> (resolved: Result<LocalDate, DateError>)
    ensures
        exists|today: LocalDate| today.valid() && resolved == #[trigger] resolution_of(raw@, today),
{
    resolve_on(raw, current_local_date())
}

/// Whether a resolved date string falls on `today`. A string that did not
/// resolve falls on no day.
pub fn is_today_at(resolved: &Result<LocalDate, DateError>, today: LocalDate) -> (hit: bool)
    ensures
        hit == falls_on(*resolved, today),
{
    match resolved {
        Ok(date) => *date == today,
        Err(_) => false,
    }
}

/// Whether a date string, read on the day `today`, falls on that day. A
/// string that does not parse falls on no day.
pub fn is_today_on(raw: &str, today: LocalDate) -> (hit: bool)
    ensures
        hit == falls_on(resolution_of(raw@, today), today),
{
    let resolved = resolve_on(raw, today);
    is_today_at(&resolved, today)
}

/// Whether a date string falls on the current local date. Never fails: a
/// string that does not parse is not today.
pub fn is_today(raw: &str) -> (hit: bool)
    ensures
        exists|today: LocalDate|
            today.valid() && hit == #[trigger] falls_on(resolution_of(raw@, today), today),
{
    is_today_on(raw, current_local_date())
}

/// The text shown for a parsed date string, on the day `today`.
pub fn display_for(
    parsed: &Result<WallTime, DateError>,
    zoned: Option<LocalDate>,
    today: LocalDate,
) -> (text: String)
    ensures
        text@ == display_text(*parsed, zoned, today),
{
    match parsed {
        Err(_) => String::from_str("Invalid time"),
        Ok(t) => {
            let date = local_date_of(t, zoned);
            if !t.is_valid() || !date.is_valid() {
                return String::from_str("Invalid time");
            }
            let clock = clock_string(t.hour, t.minute).unwrap();
            let tomorrow = day_after(today);
            if date == today {
                String::from_str("Today ").concat(clock.as_str())
            } else if tomorrow.is_some() && date == tomorrow.unwrap() {
                String::from_str("Tomorrow ").concat(clock.as_str())
            } else {
                let day = month_day_string(date).unwrap();
                day.concat(" ").concat(clock.as_str())
            }
        },
    }
}

/// The text shown for a date string on the day `today`: `Today`, `Tomorrow`
/// or the month and day, with the time; `Invalid time` for a string that
/// does not parse.
pub fn format_on(raw: &str, today: LocalDate) -> (text: String)
    ensures
        text@ == display_text(reading_of(raw@, today), None, today),
{
    let parsed = read_wall_time(raw, today);
    let zoned = match &parsed {
        Ok(t) => zoned_date(t),
        Err(_) => None,
    };
    proof {
        match parsed {
            Ok(t) => {
                assert(resolved_date(t, zoned) == resolved_date(t, None));
            },
            Err(_) => {},
        }
    }
    display_for(&parsed, zoned, today)
}

/// The text shown for a date string on the current local date.
pub fn format_for_display(raw: &str) -> (text: String)
    ensures
        exists|today: LocalDate|
            today.valid() && text@ == #[trigger] display_text(
                reading_of(raw@, today),
                None,
                today,
            ),
{
    format_on(raw, current_local_date())
}

/// A date string that reads as a time on `today` falls on today at whatever
/// time of day, and one that reads as a time on another day does not.
pub proof fn today_goes_by_the_date_alone(text: Seq<char>, t: WallTime, today: LocalDate)
    requires
        reading_of(text, today) == Ok::<WallTime, DateError>(t),
    ensures
        falls_on(resolution_of(text, today), today) <==> t.date == today,
{
}

/// The system's zone cannot move a wall-clock time to another day: the date
/// it gives for the time, where it gives one, is the date of the time.
pub proof fn the_zone_keeps_the_date(t: WallTime, zoned: Option<LocalDate>)
    requires
        zoned matches Some(date) ==> date == t.date,
    ensures
        resolved_date(t, zoned) == t.date,
{
}

/// A date string that does not parse falls on no day and is shown as
/// `Invalid time`.
pub proof fn unreadable_is_never_today(text: Seq<char>, today: LocalDate)
    requires
        reading_of(text, today) is Err,
    ensures
        !falls_on(resolution_of(text, today), today),
        display_text(reading_of(text, today), None, today) == "Invalid time"@,
{
}

/// `Invalid time` is shown for no date string that parses: what is shown for
/// a time that exists begins with `Today`, `Tomorrow` or the name of a month.
pub proof fn only_unreadable_text_is_invalid_time(t: WallTime, today: LocalDate)
    requires
        t.valid(),
    ensures
        display_text(Ok(t), None, today) != "Invalid time"@,
{
    reveal_strlit("Invalid time");
    reveal_strlit("Today ");
    reveal_strlit("Tomorrow ");
    let shown = display_text(Ok(t), None, today);
    let clock = clock_text(t.hour as int, t.minute as int);
    let month = month_abbrev(t.date.month as int);
    assert("Invalid time"@[0] == 'I');
    if t.date == today {
        assert(shown[0] == ("Today "@ + clock)[0]);
        assert(("Today "@ + clock)[0] == 'T');
    } else if today.valid() && !today.is_last() && t.date == today.successor() {
        assert(("Tomorrow "@ + clock)[0] == 'T');
    } else {
        assert(month[0] != 'I');
        assert(shown[0] == month[0]);
    }
}

/// Text that is no date text does not parse.
pub proof fn other_text_is_unreadable(text: Seq<char>, today: LocalDate)
    requires
        !is_date_text(text, today.year as int),
    ensures
        reading_of(text, today) is Err,
{
}

} // verus!
