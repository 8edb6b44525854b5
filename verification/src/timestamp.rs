//! The `created_at` column as plain calendar fields, and its rendering to
//! the `YYYY-MM-DD HH:MM:SS` text that the user endpoint returns.

use vstd::prelude::*;

verus! {

/// The decimal digit character for `n` in `0..10`.
pub open spec fn digit_char(n: int) -> char {
    if n == 0 {
        '0'
    } else if n == 1 {
        '1'
    } else if n == 2 {
        '2'
    } else if n == 3 {
        '3'
    } else if n == 4 {
        '4'
    } else if n == 5 {
        '5'
    } else if n == 6 {
        '6'
    } else if n == 7 {
        '7'
    } else if n == 8 {
        '8'
    } else {
        '9'
    }
}

/// `n` in `0..100` as two zero-padded decimal digits.
pub open spec fn two_digits(n: int) -> Seq<char> {
    seq![digit_char(n / 10), digit_char(n % 10)]
}

/// `n` in `0..10000` as four zero-padded decimal digits.
pub open spec fn four_digits(n: int) -> Seq<char> {
    two_digits(n / 100) + two_digits(n % 100)
}

/// `YYYY-MM-DD HH:MM:SS`: the text a naive date-time with a whole second
/// count renders to.
pub open spec fn timestamp_text(y: int, mo: int, d: int, h: int, mi: int, s: int) -> Seq<char> {
    four_digits(y) + seq!['-'] + two_digits(mo) + seq!['-'] + two_digits(d) + seq![' ']
        + two_digits(h) + seq![':'] + two_digits(mi) + seq![':'] + two_digits(s)
}

pub open spec fn is_leap_year(y: int) -> bool {
    (y % 4 == 0 && y % 100 != 0) || y % 400 == 0
}

pub open spec fn days_in_month(y: int, mo: int) -> int {
    if mo == 2 {
        if is_leap_year(y) {
            29
        } else {
            28
        }
    } else if mo == 4 || mo == 6 || mo == 9 || mo == 11 {
        30
    } else {
        31
    }
}

/// A calendar timestamp held as plain fields: the shape in which the
/// `users` table's `created_at` value reaches the verified handlers.
#[derive(Clone, Copy, PartialEq, Eq, Structural, Debug)]
pub struct Timestamp {
    pub year: i32,
    pub month: u32,
    pub day: u32,
    pub hour: u32,
    pub minute: u32,
    pub second: u32,
}

impl Timestamp {
    /// A proper calendar date in years 0..=9999 with a whole-second time of
    /// day (leap seconds are out of scope).
    pub open spec fn wf(self) -> bool {
        &&& 0 <= self.year <= 9999
        &&& 1 <= self.month <= 12
        &&& 1 <= self.day <= days_in_month(self.year as int, self.month as int)
        &&& self.hour < 24
        &&& self.minute < 60
        &&& self.second < 60
    }

    /// Runtime check of `wf`, for callers outside the verified library.
    pub fn is_valid(&self) -> (r: bool)
        ensures
            r == self.wf(),
    {
        self.year >= 0 && self.year <= 9999 && self.month >= 1 && self.month <= 12
            && self.day >= 1 && self.day <= days_in_month_count(self.year, self.month)
            && self.hour < 24 && self.minute < 60 && self.second < 60
    }

    /// Renders the timestamp as `YYYY-MM-DD HH:MM:SS`.
    pub fn render(&self) -> (r: String)
        requires
            self.wf(),
        ensures
            r@ == timestamp_text(
                self.year as int,
                self.month as int,
                self.day as int,
                self.hour as int,
                self.minute as int,
                self.second as int,
            ),
    {
        chrono_render(self.year, self.month, self.day, self.hour, self.minute, self.second)
    }
}

/// The number of days in the given month.
fn days_in_month_count(year: i32, month: u32) -> (r: u32)
    requires
        0 <= year,
        1 <= month <= 12,
    ensures
        r == days_in_month(year as int, month as int),
{
    if month == 2 {
        if (year % 4 == 0 && year % 100 != 0) || year % 400 == 0 {
            29
        } else {
            28
        }
    } else if month == 4 || month == 6 || month == 9 || month == 11 {
        30
    } else {
        31
    }
}

/// Relies on chrono: `NaiveDate::from_ymd_opt` and `NaiveDate::and_hms_opt`
/// return `Some` for any proper calendar date in years 0..=9999 with a
/// whole-second time of day, and `NaiveDateTime`'s `Display` is documented
/// as `%Y-%m-%d %H:%M:%S%.f` — the year zero-padded to four digits in this
/// range, every other field to two, and the fractional part omitted when it
/// is zero.
#[verifier::external_body]
fn chrono_render(year: i32, month: u32, day: u32, hour: u32, minute: u32, second: u32) -> (r:
    String)
    requires
        0 <= year <= 9999,
        1 <= month <= 12,
        1 <= day <= days_in_month(year as int, month as int),
        hour < 24,
        minute < 60,
        second < 60,
    ensures
        r@ == timestamp_text(
            year as int,
            month as int,
            day as int,
            hour as int,
            minute as int,
            second as int,
        ),
{
    let date = chrono::NaiveDate::from_ymd_opt(year, month, day).unwrap();
    let moment = date.and_hms_opt(hour, minute, second).unwrap();
    moment.to_string()
}

} // verus!
