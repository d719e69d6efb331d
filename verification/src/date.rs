//! Calendar dates as plain year/month/day values, together with the
//! unambiguous wire text form (4-digit year, 2-digit month, 2-digit
//! day, dash-separated).  No timezone or time-of-day component exists
//! anywhere in the service's data.

use vstd::prelude::*;
use crate::Error;
use crate::wiretext::{
    spec_char_digit, spec_four_digits, spec_two_digits, four_digits, two_digits,
};

verus! {

/// A calendar date.  A well-formed value (see [`Date::wf`]) names a
/// real day of the proleptic Gregorian calendar with a 4-digit year.
#[derive(Debug, Clone, Copy, PartialEq, Eq, Structural)]
pub struct Date {
    pub year: u32,
    pub month: u8,
    pub day: u8,
}

pub open spec fn spec_is_leap_year(y: int) -> bool {
    y % 4 == 0 && (y % 100 != 0 || y % 400 == 0)
}

pub open spec fn spec_days_in_month(y: int, m: int) -> int {
    if m == 2 {
        if spec_is_leap_year(y) {
            29
        } else {
            28
        }
    } else if m == 4 || m == 6 || m == 9 || m == 11 {
        30
    } else {
        31
    }
}

impl Date {
    /// A real calendar day with a 4-digit year.
    pub open spec fn wf(self) -> bool {
        &&& self.year <= 9999
        &&& 1 <= self.month <= 12
        &&& 1 <= self.day <= spec_days_in_month(self.year as int, self.month as int)
    }

    /// Checked construction: yields a value exactly for real calendar
    /// days, and nothing otherwise.
    pub fn new(year: u32, month: u8, day: u8) -> (r: Option<Date>)
        ensures
            ({
                let d = Date { year, month, day };
                r == if d.wf() {
                    Some(d)
                } else {
                    None::<Date>
                }
            }),
    {
        if year <= 9999 && 1 <= month && month <= 12 && 1 <= day
            && day as i32 <= days_in_month(year, month) {
            Some(Date { year, month, day })
        } else {
            None
        }
    }

    /// Checked construction from caller-side values, classifying the
    /// failure: a date that cannot be rendered into wire date text —
    /// a negative year, a year beyond four digits, or no real
    /// calendar day — is refused with the format-date error.
    pub fn for_wire(year: i32, month: u8, day: u8) -> (r: Result<Date, Error>)
        ensures
            r matches Ok(d) ==> year >= 0 && d == (Date { year: year as u32, month, day })
                && d.wf(),
            r is Err <==> (year < 0 || !(Date { year: year as u32, month, day }).wf()),
            r matches Err(e) ==> e is FormatDateError,
    {
        if year < 0 {
            return Err(
                Error::FormatDateError(
                    String::from_str("the date cannot be rendered as wire date text"),
                ),
            );
        }
        match Date::new(year as u32, month, day) {
            Some(d) => Ok(d),
            None => Err(
                Error::FormatDateError(
                    String::from_str("the date cannot be rendered as wire date text"),
                ),
            ),
        }
    }

    pub fn year(&self) -> (r: u32)
        ensures
            r == self.year,
    {
        self.year
    }

    pub fn month(&self) -> (r: u8)
        ensures
            r == self.month,
    {
        self.month
    }

    pub fn day(&self) -> (r: u8)
        ensures
            r == self.day,
    {
        self.day
    }
}

/// The wire text of a date: 4-digit year, 2-digit month, 2-digit day,
/// dash-separated.
pub open spec fn spec_date_text(d: Date) -> Seq<char> {
    spec_four_digits(d.year as int) + seq!['-'] + spec_two_digits(d.month as int) + seq!['-']
        + spec_two_digits(d.day as int)
}

/// What wire date text means: exactly ten characters in the dashed
/// shape above, naming a real calendar day; anything else is rejected.
pub open spec fn spec_parse_date(s: Seq<char>) -> Option<Date> {
    if s.len() != 10 || s[4] != '-' || s[7] != '-' {
        None
    } else {
        match (spec_char_digit(s[0]), spec_char_digit(s[1]), spec_char_digit(s[2]),
            spec_char_digit(s[3]), spec_char_digit(s[5]), spec_char_digit(s[6]),
            spec_char_digit(s[8]), spec_char_digit(s[9])) {
            (Some(y3), Some(y2), Some(y1), Some(y0), Some(m1), Some(m0), Some(d1), Some(d0)) => {
                let d = Date {
                    year: ((y3 * 10 + y2) * 100 + (y1 * 10 + y0)) as u32,
                    month: (m1 * 10 + m0) as u8,
                    day: (d1 * 10 + d0) as u8,
                };
                if d.wf() {
                    Some(d)
                } else {
                    None
                }
            },
            _ => None,
        }
    }
}

impl Date {
    /// Renders the date into its wire text.
    pub fn to_wire(&self) -> (r: String)
        requires
            self.wf(),
        ensures
            r@ == spec_date_text(*self),
    {
        proof {
            reveal_strlit("-");
        }
        let mut s = four_digits(self.year);
        s.append("-");
        s.append(two_digits(self.month as u32).as_str());
        s.append("-");
        s.append(two_digits(self.day as u32).as_str());
        proof {
            assert(s@ =~= spec_date_text(*self));
        }
        s
    }

    /// Parses wire date text; yields a date exactly when the text has
    /// the dashed ten-character shape and names a real calendar day.
    pub fn from_wire(s: &str) -> (r: Option<Date>)
        ensures
            r == spec_parse_date(s@),
            r matches Some(d) ==> d.wf(),
    {
        if s.unicode_len() != 10 {
            return None;
        }
        if s.get_char(4) != '-' || s.get_char(7) != '-' {
            return None;
        }
        let y3 = char_digit(s.get_char(0));
        let y2 = char_digit(s.get_char(1));
        let y1 = char_digit(s.get_char(2));
        let y0 = char_digit(s.get_char(3));
        let m1 = char_digit(s.get_char(5));
        let m0 = char_digit(s.get_char(6));
        let d1 = char_digit(s.get_char(8));
        let d0 = char_digit(s.get_char(9));
        match (y3, y2, y1, y0, m1, m0, d1, d0) {
            (Some(y3), Some(y2), Some(y1), Some(y0), Some(m1), Some(m0), Some(d1), Some(d0)) => {
                let year: u32 = ((y3 as u32 * 10 + y2 as u32) * 100) + (y1 as u32 * 10 + y0 as u32);
                let month: u8 = m1 * 10 + m0;
                let day: u8 = d1 * 10 + d0;
                Date::new(year, month, day)
            },
            _ => None,
        }
    }
}

/// The digit value of one character of wire text, if it is a digit.
pub fn char_digit(c: char) -> (r: Option<u8>)
    ensures
        r matches Some(d) ==> d < 10 && spec_char_digit(c) == Some(d as int),
        r is None <==> spec_char_digit(c) is None,
{
    match c {
        '0' => Some(0),
        '1' => Some(1),
        '2' => Some(2),
        '3' => Some(3),
        '4' => Some(4),
        '5' => Some(5),
        '6' => Some(6),
        '7' => Some(7),
        '8' => Some(8),
        '9' => Some(9),
        _ => None,
    }
}

/// Round trip: rendering any real calendar date to wire text and
/// parsing that text back yields the identical date.
pub proof fn lemma_date_roundtrip(d: Date)
    requires
        d.wf(),
    ensures
        spec_parse_date(spec_date_text(d)) == Some(d),
{
    let s = spec_date_text(d);
    let y = d.year as int;
    let m = d.month as int;
    let dd = d.day as int;
    assert(s.len() == 10);
    assert(s[0] == crate::wiretext::spec_digit_char(y / 100 / 10));
    assert(s[1] == crate::wiretext::spec_digit_char(y / 100 % 10));
    assert(s[2] == crate::wiretext::spec_digit_char(y % 100 / 10));
    assert(s[3] == crate::wiretext::spec_digit_char(y % 100 % 10));
    assert(s[4] == '-');
    assert(s[5] == crate::wiretext::spec_digit_char(m / 10));
    assert(s[6] == crate::wiretext::spec_digit_char(m % 10));
    assert(s[7] == '-');
    assert(s[8] == crate::wiretext::spec_digit_char(dd / 10));
    assert(s[9] == crate::wiretext::spec_digit_char(dd % 10));
    crate::wiretext::lemma_digit_char_inverse(y / 100 / 10);
    crate::wiretext::lemma_digit_char_inverse(y / 100 % 10);
    crate::wiretext::lemma_digit_char_inverse(y % 100 / 10);
    crate::wiretext::lemma_digit_char_inverse(y % 100 % 10);
    crate::wiretext::lemma_digit_char_inverse(m / 10);
    crate::wiretext::lemma_digit_char_inverse(m % 10);
    crate::wiretext::lemma_digit_char_inverse(dd / 10);
    crate::wiretext::lemma_digit_char_inverse(dd % 10);
    assert((y / 100 / 10 * 10 + y / 100 % 10) * 100 + (y % 100 / 10 * 10 + y % 100 % 10) == y);
    assert(m / 10 * 10 + m % 10 == m);
    assert(dd / 10 * 10 + dd % 10 == dd);
}

pub fn is_leap_year(y: u32) -> (r: bool)
    ensures
        r == spec_is_leap_year(y as int),
{
    y % 4 == 0 && (y % 100 != 0 || y % 400 == 0)
}

pub fn days_in_month(y: u32, m: u8) -> (r: i32)
    ensures
        r == spec_days_in_month(y as int, m as int),
{
    if m == 2 {
        if is_leap_year(y) {
            29
        } else {
            28
        }
    } else if m == 4 || m == 6 || m == 9 || m == 11 {
        30
    } else {
        31
    }
}

} // verus!
