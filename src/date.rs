use vstd::prelude::*;
use chrono::Datelike;

verus! {

/// Smallest year that a chrono `NaiveDate` can hold.
pub const MIN_YEAR: i32 = -262143;

/// Largest year that a chrono `NaiveDate` can hold.
pub const MAX_YEAR: i32 = 262142;

pub open spec fn is_leap_year(y: int) -> bool {
    (y % 4 == 0 && y % 100 != 0) || y % 400 == 0
}

pub open spec fn days_in_month(y: int, m: int) -> int {
    if m == 2 {
        if is_leap_year(y) { 29 } else { 28 }
    } else if m == 4 || m == 6 || m == 9 || m == 11 {
        30
    } else {
        31
    }
}

/// A day of the proleptic Gregorian calendar within chrono's range.
pub open spec fn valid_ymd(y: int, m: int, d: int) -> bool {
    MIN_YEAR <= y <= MAX_YEAR && 1 <= m <= 12 && 1 <= d <= days_in_month(y, m)
}

/// Orders days as the calendar does: `y * 10000 + m * 100 + d`.
pub open spec fn day_key(y: int, m: int, d: int) -> int {
    y * 10000 + m * 100 + d
}

pub open spec fn is_digit(c: char) -> bool {
    '0' <= c && c <= '9'
}

pub open spec fn digit_value(c: char) -> int {
    c as int - '0' as int
}

pub open spec fn digit_char(n: int) -> char {
    if n == 0 { '0' }
    else if n == 1 { '1' }
    else if n == 2 { '2' }
    else if n == 3 { '3' }
    else if n == 4 { '4' }
    else if n == 5 { '5' }
    else if n == 6 { '6' }
    else if n == 7 { '7' }
    else if n == 8 { '8' }
    else { '9' }
}

/// `n` as two decimal digits, for `0 <= n < 100`.
pub open spec fn two_digits(n: int) -> Seq<char> {
    seq![digit_char(n / 10), digit_char(n % 10)]
}

/// `n` as four decimal digits, for `0 <= n < 10000`.
pub open spec fn four_digits(n: int) -> Seq<char> {
    two_digits(n / 100) + two_digits(n % 100)
}

/// `YYYY-MM-DD`, how a day of the years 0 to 9999 is written.
pub open spec fn iso_text(y: int, m: int, d: int) -> Seq<char> {
    four_digits(y) + seq!['-'] + two_digits(m) + seq!['-'] + two_digits(d)
}

/// Text of the exact shape `MM/DD/YYYY`, with ASCII digits.
pub open spec fn is_mdy_shaped(s: Seq<char>) -> bool {
    s.len() == 10 && s[2] == '/' && s[5] == '/'
        && is_digit(s[0]) && is_digit(s[1]) && is_digit(s[3]) && is_digit(s[4])
        && is_digit(s[6]) && is_digit(s[7]) && is_digit(s[8]) && is_digit(s[9])
}

/// The year, month and day that `MM/DD/YYYY` text spells.
pub open spec fn mdy_fields(s: Seq<char>) -> (int, int, int) {
    (
        digit_value(s[6]) * 1000 + digit_value(s[7]) * 100 + digit_value(s[8]) * 10
            + digit_value(s[9]),
        digit_value(s[0]) * 10 + digit_value(s[1]),
        digit_value(s[3]) * 10 + digit_value(s[4]),
    )
}

/// The day that chrono reads from `s` with the format `%m/%d/%Y`, if any.
pub uninterp spec fn mdy_date(s: Seq<char>) -> Option<(int, int, int)>;

#[verifier::external_type_specification]
#[verifier::external_body]
pub struct ExParseError(chrono::ParseError);

/// Relies on chrono's `NaiveDate::parse_from_str` with `%m/%d/%Y`. A date
/// that it returns is a valid `NaiveDate`; text of the exact shape
/// `MM/DD/YYYY` is read digit for digit and accepted when the day exists.
#[verifier::external_body]
fn chrono_parse_mdy(s: &str) -> (r: Result<(i32, u32, u32), chrono::ParseError>)
    ensures
        r is Err ==> mdy_date(s@) is None,
        r matches Ok(t) ==> mdy_date(s@) == Some((t.0 as int, t.1 as int, t.2 as int)),
        r matches Ok(t) ==> valid_ymd(t.0 as int, t.1 as int, t.2 as int),
        is_mdy_shaped(s@) ==> (r is Ok <==> valid_ymd(
            mdy_fields(s@).0,
            mdy_fields(s@).1,
            mdy_fields(s@).2,
        )),
        is_mdy_shaped(s@) && r is Ok ==> mdy_date(s@) == Some(mdy_fields(s@)),
{
    chrono::NaiveDate::parse_from_str(s, "%m/%d/%Y").map(|d| (d.year(), d.month(), d.day()))
}

/// Relies on chrono's `NaiveDate::from_ymd_opt`, which accepts every valid
/// day in its range, and on `NaiveDate`'s `Display`, which writes a day of
/// the years 0 to 9999 as `YYYY-MM-DD`.
#[verifier::external_body]
fn chrono_iso_text(year: i32, month: u32, day: u32) -> (r: Option<String>)
    ensures
        valid_ymd(year as int, month as int, day as int) ==> r is Some,
        r matches Some(t) ==> (0 <= year <= 9999 ==> t@ == iso_text(
            year as int,
            month as int,
            day as int,
        )),
{
    chrono::NaiveDate::from_ymd_opt(year, month, day).map(|d| d.to_string())
}

/// A calendar day.
#[derive(Clone, Copy, Debug, PartialEq, Eq)]
pub struct Date {
    pub year: i32,
    pub month: u32,
    pub day: u32,
}

impl View for Date {
    type V = (int, int, int);

    open spec fn view(&self) -> (int, int, int) {
        (self.year as int, self.month as int, self.day as int)
    }
}

impl Date {
    /// The day exists and lies in chrono's range.
    pub open spec fn wf(&self) -> bool {
        valid_ymd(self.year as int, self.month as int, self.day as int)
    }

    pub open spec fn key(&self) -> int {
        day_key(self.year as int, self.month as int, self.day as int)
    }

    /// Builds a day from its parts, if that day exists.
    pub fn from_ymd(year: i32, month: u32, day: u32) -> (r: Option<Date>)
        ensures
            r is Some <==> valid_ymd(year as int, month as int, day as int),
            r matches Some(d) ==> d.year == year && d.month == month && d.day == day,
    {
        if year < MIN_YEAR || year > MAX_YEAR || month < 1 || month > 12 || day < 1 {
            return None;
        }
        let leap = (year % 4 == 0 && year % 100 != 0) || year % 400 == 0;
        let last: u32 = if month == 2 {
            if leap { 29 } else { 28 }
        } else if month == 4 || month == 6 || month == 9 || month == 11 {
            30
        } else {
            31
        };
        if day > last {
            None
        } else {
            Some(Date { year, month, day })
        }
    }

    /// Reads `MM/DD/YYYY` text the way chrono's `%m/%d/%Y` does.
    pub fn parse_mdy(s: &str) -> (r: Option<Date>)
        ensures
            r is None <==> mdy_date(s@) is None,
            r matches Some(d) ==> d.wf() && mdy_date(s@) == Some(d@),
            is_mdy_shaped(s@) ==> (r is Some <==> valid_ymd(
                mdy_fields(s@).0,
                mdy_fields(s@).1,
                mdy_fields(s@).2,
            )),
            is_mdy_shaped(s@) ==> (r matches Some(d) ==> d@ == mdy_fields(s@)),
    {
        match chrono_parse_mdy(s) {
            Ok(t) => Some(Date { year: t.0, month: t.1, day: t.2 }),
            Err(_) => None,
        }
    }

    /// Writes the day as chrono does, `YYYY-MM-DD` for the years 0 to 9999.
    pub fn to_iso_string(&self) -> (r: String)
        requires
            self.wf(),
        ensures
            0 <= self.year <= 9999 ==> r@ == iso_text(
                self.year as int,
                self.month as int,
                self.day as int,
            ),
    {
        match chrono_iso_text(self.year, self.month, self.day) {
            Some(t) => t,
            None => String::new(),
        }
    }

    /// The calendar order of days, as one integer.
    pub fn ordinal_key(&self) -> (r: i64)
        ensures
            r == self.key(),
    {
        self.year as i64 * 10000 + self.month as i64 * 100 + self.day as i64
    }
}

} // verus!
