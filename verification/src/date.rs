use vstd::prelude::*;
use chrono::Datelike;
use crate::utils::decimal;

verus! {

/// The earliest year a calendar date may carry.
pub const MIN_YEAR: i32 = -262143;

/// The latest year a calendar date may carry.
pub const MAX_YEAR: i32 = 262142;

/// Gregorian leap years: divisible by 4, except centuries not divisible by 400.
pub open spec fn is_leap_year(year: int) -> bool {
    year % 4 == 0 && (year % 100 != 0 || year % 400 == 0)
}

/// The number of days in `month` (1 to 12) of `year`.
pub open spec fn days_in_month(year: int, month: int) -> int {
    if month == 2 {
        if is_leap_year(year) {
            29
        } else {
            28
        }
    } else if month == 4 || month == 6 || month == 9 || month == 11 {
        30
    } else {
        31
    }
}

/// `(year, month, day)` names a day of the proleptic Gregorian calendar within the
/// supported range of years.
pub open spec fn valid_ymd(year: int, month: int, day: int) -> bool {
    &&& MIN_YEAR <= year <= MAX_YEAR
    &&& 1 <= month <= 12
    &&& 1 <= day <= days_in_month(year, month)
}

/// A calendar date without a time zone.
#[derive(Clone, Copy)]
pub struct Date {
    year: i32,
    month: u32,
    day: u32,
}

impl Date {
    /// Every `Date` names an existing day.
    #[verifier::type_invariant]
    closed spec fn inv(self) -> bool {
        valid_ymd(self.year as int, self.month as int, self.day as int)
    }

    pub closed spec fn spec_year(self) -> i32 {
        self.year
    }

    pub closed spec fn spec_month(self) -> u32 {
        self.month
    }

    pub closed spec fn spec_day(self) -> u32 {
        self.day
    }

    /// The date with the given year, month (1 to 12) and day of the month (from 1);
    /// `None` when no such day exists.
    pub fn from_ymd(year: i32, month: u32, day: u32) -> (r: Option<Date>)
        ensures
            r is Some <==> valid_ymd(year as int, month as int, day as int),
            r matches Some(d) ==> d.spec_year() == year && d.spec_month() == month && d.spec_day()
                == day,
    {
        if year < MIN_YEAR || year > MAX_YEAR || month < 1 || month > 12 || day < 1 {
            return None;
        }
        let leap = year % 4 == 0 && (year % 100 != 0 || year % 400 == 0);
        let last: u32 = if month == 2 {
            if leap {
                29
            } else {
                28
            }
        } else if month == 4 || month == 6 || month == 9 || month == 11 {
            30
        } else {
            31
        };
        if day > last {
            None
        } else {
            Some(Date { year, month, day })
        }
    }

    /// The year; together with the month and the day it names an existing day.
    pub fn year(&self) -> (r: i32)
        ensures
            r == self.spec_year(),
            valid_ymd(self.spec_year() as int, self.spec_month() as int, self.spec_day() as int),
    {
        proof {
            use_type_invariant(self);
        }
        self.year
    }

    pub fn month(&self) -> (r: u32)
        ensures
            r == self.spec_month(),
    {
        self.month
    }

    pub fn day(&self) -> (r: u32)
        ensures
            r == self.spec_day(),
    {
        self.day
    }
}

/// A time of day.
#[derive(Clone, Copy)]
pub struct TimeOfDay {
    pub hour: u32,
    pub minute: u32,
    pub second: u32,
    pub nano: u32,
}

/// A date together with a time of day, without a time zone.
#[derive(Clone, Copy)]
pub struct DateTime {
    pub date: Date,
    pub time: TimeOfDay,
}

impl DateTime {
    /// Combines a date and a time of day.
    pub fn new(date: Date, time: TimeOfDay) -> (r: DateTime)
        ensures
            r.date == date,
            r.time == time,
    {
        DateTime { date, time }
    }

    /// The date part.
    pub fn date(&self) -> (r: Date)
        ensures
            r == self.date,
    {
        self.date
    }
}

/// Midnight, `00:00:00`.
pub fn midnight() -> (r: TimeOfDay)
    ensures
        r.hour == 0 && r.minute == 0 && r.second == 0 && r.nano == 0,
{
    TimeOfDay { hour: 0, minute: 0, second: 0, nano: 0 }
}

/// Whether every `%` in `fmt` starts one of the strftime specifiers `%Y`, `%m`
/// or `%d`; all other characters are literal.
pub open spec fn date_format_ok(fmt: Seq<char>) -> bool {
    forall|i: int|
        0 <= i < fmt.len() && #[trigger] fmt[i] == '%' ==> i + 1 < fmt.len() && (fmt[i + 1] == 'Y'
            || fmt[i + 1] == 'm' || fmt[i + 1] == 'd')
}

/// `n` in decimal, with leading zeros up to `width` digits.
pub open spec fn zero_padded(n: nat, width: nat) -> Seq<char> {
    if decimal(n).len() >= width {
        decimal(n)
    } else {
        Seq::new((width - decimal(n).len()) as nat, |_i: int| '0') + decimal(n)
    }
}

/// How `%Y` writes a year: four digits with leading zeros for the years 0 to
/// 9999, and a sign in front of at least four digits for every other year.
pub open spec fn year_text(year: int) -> Seq<char> {
    if 0 <= year <= 9999 {
        zero_padded(year as nat, 4)
    } else if year > 9999 {
        seq!['+'] + zero_padded(year as nat, 4)
    } else {
        seq!['-'] + zero_padded((-year) as nat, 4)
    }
}

/// The text of the date `(year, month, day)` written with the format `fmt`, for a
/// format that `date_format_ok` accepts: `%Y` gives the year, `%m` the month and
/// `%d` the day, each of the last two as two digits; every other character is
/// copied.
pub open spec fn formatted_date(year: int, month: nat, day: nat, fmt: Seq<char>) -> Seq<char>
    decreases fmt.len(),
{
    if fmt.len() == 0 {
        Seq::empty()
    } else if fmt[0] == '%' && fmt.len() >= 2 {
        let field = if fmt[1] == 'Y' {
            year_text(year)
        } else if fmt[1] == 'm' {
            zero_padded(month, 2)
        } else {
            zero_padded(day, 2)
        };
        field + formatted_date(year, month, day, fmt.subrange(2, fmt.len() as int))
    } else {
        seq![fmt[0]] + formatted_date(year, month, day, fmt.subrange(1, fmt.len() as int))
    }
}

/// What chrono's `NaiveDate::parse_from_str(text, fmt)` yields, as
/// `(year, month, day)`; `None` where it reports an error.
pub uninterp spec fn chrono_parse_date(text: Seq<char>, fmt: Seq<char>) -> Option<(i32, u32, u32)>;


/// Calls chrono's `NaiveDate::parse_from_str`. Its result is named by
/// `chrono_parse_date`; a date that chrono returns is always a valid one, since a
/// `NaiveDate` can only hold existing days within chrono's year range. How chrono
/// reads the text is not stated.
#[verifier::external_body]
pub(crate) fn parse_date(text: &str, fmt: &str) -> (r: Option<Date>)
    ensures
        r matches Some(d) ==> chrono_parse_date(text@, fmt@) == Some(
            (d.spec_year(), d.spec_month(), d.spec_day()),
        ),
        r is None ==> chrono_parse_date(text@, fmt@) is None,
{
    match chrono::NaiveDate::parse_from_str(text, fmt) {
        Ok(d) => Some(Date { year: d.year(), month: d.month(), day: d.day() }),
        Err(_) => None,
    }
}

/// Calls chrono's `NaiveDate::format(fmt)` and renders the result. chrono reads the
/// format into literal text, which it copies, and specifiers: `%Y` is the year with
/// leading zeros to four digits and a sign outside 0 to 9999, `%m` and `%d` the
/// month and the day with leading zeros to two digits. The format must use only
/// these specifiers: for them the rendering cannot fail, while an unknown or
/// unfinished specifier would make `to_string` panic.
#[verifier::external_body]
pub(crate) fn format_date(date: &Date, fmt: &str) -> (r: String)
    requires
        date_format_ok(fmt@),
    ensures
        r@ == formatted_date(
            date.spec_year() as int,
            date.spec_month() as nat,
            date.spec_day() as nat,
            fmt@,
        ),
{
    match chrono::NaiveDate::from_ymd_opt(date.year, date.month, date.day) {
        Some(d) => d.format(fmt).to_string(),
        None => String::new(),
    }
}

} // verus!
