//! Calendar dates: validity, the following day, and the ISO 8601 text.

use chrono::{Datelike, NaiveDate};
use vstd::prelude::*;
use vstd::string::*;

verus! {

/// The earliest year a [`Date`] can fall in.
pub const MIN_YEAR: i32 = -262_143;

/// The latest year a [`Date`] can fall in.
pub const MAX_YEAR: i32 = 262_142;

/// Whether `year` has a 29th of February in the proleptic Gregorian calendar.
pub open spec fn is_leap_year(year: int) -> bool {
    year % 4 == 0 && (year % 100 != 0 || year % 400 == 0)
}

/// The number of days of `month` (1 to 12) in `year`.
pub open spec fn days_in_month(year: int, month: int) -> int {
    if month == 2 {
        if is_leap_year(year) {
            29
        } else {
            28
        }
    } else if month == 4 || month == 6 || month == 9 || month == 11 {
        30
    } else {
        31
    }
}

/// A calendar date as three numbers.
pub struct DateView {
    pub year: int,
    pub month: int,
    pub day: int,
}

/// Whether the three numbers name a day of the calendar within the
/// supported years.
pub open spec fn is_valid(date: DateView) -> bool {
    &&& MIN_YEAR <= date.year <= MAX_YEAR
    &&& 1 <= date.month <= 12
    &&& 1 <= date.day <= days_in_month(date.year, date.month)
}

/// The day after `date`, or `None` where `date` is the last supported day.
pub open spec fn successor(date: DateView) -> Option<DateView> {
    if date.day < days_in_month(date.year, date.month) {
        Some(DateView { year: date.year, month: date.month, day: date.day + 1 })
    } else if date.month < 12 {
        Some(DateView { year: date.year, month: date.month + 1, day: 1 })
    } else if date.year < MAX_YEAR {
        Some(DateView { year: date.year + 1, month: 1, day: 1 })
    } else {
        None
    }
}

/// The character that stands for the digit `n` (0 to 9).
pub open spec fn digit_char(n: int) -> char {
    if n == 0 {
        '0'
    } else if n == 1 {
        '1'
    } else if n == 2 {
        '2'
    } else if n == 3 {
        '3'
    } else if n == 4 {
        '4'
    } else if n == 5 {
        '5'
    } else if n == 6 {
        '6'
    } else if n == 7 {
        '7'
    } else if n == 8 {
        '8'
    } else {
        '9'
    }
}

/// `n` (0 to 99) written with two digits.
pub open spec fn two_digits(n: int) -> Seq<char> {
    seq![digit_char(n / 10), digit_char(n % 10)]
}

/// `n` written in decimal without leading zeros.
pub open spec fn decimal(n: nat) -> Seq<char>
    decreases n,
{
    if n < 10 {
        seq![digit_char(n as int)]
    } else {
        decimal(n / 10).push(digit_char((n % 10) as int))
    }
}

/// `n` (0 to 9999) written with four digits.
pub open spec fn four_digits(n: int) -> Seq<char> {
    two_digits(n / 100) + two_digits(n % 100)
}

/// The year as ISO 8601 writes it: four digits for the years 0 to 9999,
/// otherwise a sign and at least four digits.
pub open spec fn year_text(year: int) -> Seq<char> {
    if 0 <= year <= 9999 {
        four_digits(year)
    } else if year < 0 {
        seq!['-'] + (if -year <= 9999 {
            four_digits(-year)
        } else {
            decimal((-year) as nat)
        })
    } else {
        seq!['+'] + decimal(year as nat)
    }
}

/// The date as ISO 8601 writes it: year, month and day, joined by hyphens.
pub open spec fn iso_text(date: DateView) -> Seq<char> {
    year_text(date.year) + seq!['-'] + two_digits(date.month) + seq!['-'] + two_digits(date.day)
}

/// The date that `chrono` reads from `text` as a year, a month and a day
/// written one after the other (its format `%Y%m%d`), or `None` where it
/// reads none.
pub uninterp spec fn compact_date(text: Seq<char>) -> Option<DateView>;

/// A day of the proleptic Gregorian calendar between 1 January of
/// [`MIN_YEAR`] and 31 December of [`MAX_YEAR`].
#[derive(Clone, Copy, Debug, PartialEq, Eq)]
pub struct Date {
    year: i32,
    month: u32,
    day: u32,
}

impl View for Date {
    type V = DateView;

    closed spec fn view(&self) -> DateView {
        DateView { year: self.year as int, month: self.month as int, day: self.day as int }
    }
}

/// Whether `year` is a leap year.
pub fn leap_year(year: i32) -> (leap: bool)
    ensures
        leap == is_leap_year(year as int),
{
    year % 4 == 0 && (year % 100 != 0 || year % 400 == 0)
}

/// The length of `month` in `year`.
pub fn month_length(year: i32, month: u32) -> (days: u32)
    ensures
        days == days_in_month(year as int, month as int),
{
    if month == 2 {
        if leap_year(year) {
            29
        } else {
            28
        }
    } else if month == 4 || month == 6 || month == 9 || month == 11 {
        30
    } else {
        31
    }
}

/// Reads a date with `chrono::NaiveDate::parse_from_str` and the format
/// `%Y%m%d`, and copies its year, month and day.
///
/// Trusted: the outcome is a function of `text` alone, named
/// [`compact_date`]; a date that `chrono` hands out is a day of the calendar
/// between its `NaiveDate::MIN` and `NaiveDate::MAX`.
#[verifier::external_body]
pub(crate) fn parse_compact(text: &str) -> (date: Option<Date>)
    ensures
        date matches Some(d) ==> is_valid(d@) && compact_date(text@) == Some(d@),
        date is None ==> compact_date(text@) is None,
{
    match NaiveDate::parse_from_str(text, "%Y%m%d") {
        Ok(d) => Some(Date { year: d.year(), month: d.month(), day: d.day() }),
        Err(_) => None,
    }
}

fn digit_str(n: u32) -> (text: &'static str)
    requires
        n < 10,
    ensures
        text@ == seq![digit_char(n as int)],
{
    proof {
        reveal_strlit("0");
        reveal_strlit("1");
        reveal_strlit("2");
        reveal_strlit("3");
        reveal_strlit("4");
        reveal_strlit("5");
        reveal_strlit("6");
        reveal_strlit("7");
        reveal_strlit("8");
        reveal_strlit("9");
    }
    if n == 0 {
        "0"
    } else if n == 1 {
        "1"
    } else if n == 2 {
        "2"
    } else if n == 3 {
        "3"
    } else if n == 4 {
        "4"
    } else if n == 5 {
        "5"
    } else if n == 6 {
        "6"
    } else if n == 7 {
        "7"
    } else if n == 8 {
        "8"
    } else {
        "9"
    }
}

fn push_two_digits(text: &mut String, n: u32)
    requires
        n < 100,
    ensures
        final(text)@ == old(text)@ + two_digits(n as int),
{
    text.append(digit_str(n / 10));
    text.append(digit_str(n % 10));
}

fn push_decimal(text: &mut String, n: u32)
    ensures
        final(text)@ == old(text)@ + decimal(n as nat),
    decreases n,
{
    if n >= 10 {
        push_decimal(text, n / 10);
    }
    text.append(digit_str(n % 10));
}

fn push_year(text: &mut String, year: i32)
    requires
        MIN_YEAR <= year <= MAX_YEAR,
    ensures
        final(text)@ == old(text)@ + year_text(year as int),
{
    if 0 <= year && year <= 9999 {
        let y: u32 = year as u32;
        push_two_digits(text, y / 100);
        push_two_digits(text, y % 100);
    } else if year < 0 {
        let magnitude: u32 = (-year) as u32;
        proof {
            reveal_strlit("-");
        }
        text.append("-");
        if magnitude <= 9999 {
            push_two_digits(text, magnitude / 100);
            push_two_digits(text, magnitude % 100);
        } else {
            push_decimal(text, magnitude);
        }
    } else {
        proof {
            reveal_strlit("+");
        }
        text.append("+");
        push_decimal(text, year as u32);
    }
}

impl Date {
    #[verifier::type_invariant]
    spec fn well_formed(self) -> bool {
        is_valid(self@)
    }

    /// The date of the given year, month and day, if there is such a day.
    pub fn from_ymd(year: i32, month: u32, day: u32) -> (date: Option<Date>)
        ensures
            is_valid(DateView { year: year as int, month: month as int, day: day as int })
                ==> date is Some,
            date matches Some(d) ==> is_valid(d@) && d@ == (DateView {
                year: year as int,
                month: month as int,
                day: day as int,
            }),
    {
        if MIN_YEAR <= year && year <= MAX_YEAR && 1 <= month && month <= 12 && 1 <= day && day
            <= month_length(year, month) {
            Some(Date { year, month, day })
        } else {
            None
        }
    }

    /// The year.
    pub fn year(&self) -> (year: i32)
        ensures
            year == self@.year,
            is_valid(self@),
    {
        proof {
            use_type_invariant(self);
        }
        self.year
    }

    /// The month, from 1 for January.
    pub fn month(&self) -> (month: u32)
        ensures
            month == self@.month,
            is_valid(self@),
    {
        proof {
            use_type_invariant(self);
        }
        self.month
    }

    /// The day of the month, from 1.
    pub fn day(&self) -> (day: u32)
        ensures
            day == self@.day,
            is_valid(self@),
    {
        proof {
            use_type_invariant(self);
        }
        self.day
    }

    /// The following day, or `None` for 31 December of [`MAX_YEAR`].
    pub fn next_day(&self) -> (next: Option<Date>)
        ensures
            is_valid(self@),
            match next {
                Some(d) => is_valid(d@) && successor(self@) == Some(d@),
                None => successor(self@) is None,
            },
    {
        proof {
            use_type_invariant(self);
        }
        if self.day < month_length(self.year, self.month) {
            Some(Date { year: self.year, month: self.month, day: self.day + 1 })
        } else if self.month < 12 {
            Some(Date { year: self.year, month: self.month + 1, day: 1 })
        } else if self.year < MAX_YEAR {
            Some(Date { year: self.year + 1, month: 1, day: 1 })
        } else {
            None
        }
    }

    /// The date in ISO 8601 form, such as `2018-07-21`.
    pub fn to_iso(&self) -> (text: String)
        ensures
            is_valid(self@),
            text@ == iso_text(self@),
    {
        proof {
            use_type_invariant(self);
            reveal_strlit("-");
        }
        let mut text = String::new();
        push_year(&mut text, self.year);
        text.append("-");
        push_two_digits(&mut text, self.month);
        text.append("-");
        push_two_digits(&mut text, self.day);
        text
    }
}

} // verus!
