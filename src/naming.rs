//! The name a recording is stored under, derived from the wall-clock time of
//! its start with second resolution: `YYYY-MM-DD-HH-MM-SS.wav`.

use vstd::prelude::*;
use vstd::string::StrSliceExecFns;

verus! {

/// The decimal digits, in order.
pub const DIGITS: &'static str = "0123456789";

/// The suffix of every recording's name.
pub const SUFFIX: &'static str = ".wav";

/// A local date and time of day, to the second.
#[derive(Debug, Clone, Copy, PartialEq, Eq, Structural)]
pub struct Timestamp {
    pub year: u16,
    pub month: u8,
    pub day: u8,
    pub hour: u8,
    pub minute: u8,
    pub second: u8,
}

pub open spec fn is_leap_year(year: int) -> bool {
    (year % 4 == 0 && year % 100 != 0) || year % 400 == 0
}

/// The number of days of `month` in `year`.
pub open spec fn days_in_month(year: int, month: int) -> int {
    if month == 2 {
        if is_leap_year(year) { 29 } else { 28 }
    } else if month == 4 || month == 6 || month == 9 || month == 11 {
        30
    } else {
        31
    }
}

impl Timestamp {
    /// A real calendar date with a four-digit year, and a time of day.
    pub open spec fn wf(&self) -> bool {
        self.year <= 9999 && 1 <= self.month <= 12 && 1 <= self.day
            && self.day as int <= days_in_month(self.year as int, self.month as int)
            && self.hour <= 23 && self.minute <= 59 && self.second <= 59
    }

    /// The timestamp of these fields, or none where they name no real time.
    pub fn new(year: u16, month: u8, day: u8, hour: u8, minute: u8, second: u8) -> (r: Option<Timestamp>)
        ensures
            r is Some <==> (Timestamp { year, month, day, hour, minute, second }).wf(),
            r matches Some(t) ==> t == (Timestamp { year, month, day, hour, minute, second }),
    {
        if year > 9999 || month < 1 || month > 12 || day < 1 || hour > 23 || minute > 59 || second > 59 {
            return None;
        }
        let leap = (year % 4 == 0 && year % 100 != 0) || year % 400 == 0;
        let days: u8 = if month == 2 {
            if leap { 29 } else { 28 }
        } else if month == 4 || month == 6 || month == 9 || month == 11 {
            30
        } else {
            31
        };
        if day > days {
            return None;
        }
        Some(Timestamp { year, month, day, hour, minute, second })
    }
}

/// The character of the digit `d`.
pub open spec fn digit_char(d: int) -> char {
    DIGITS@[d]
}

/// `n` written with exactly two digits.
pub open spec fn two_digits(n: int) -> Seq<char> {
    seq![digit_char(n / 10), digit_char(n % 10)]
}

/// `n` written with exactly four digits.
pub open spec fn four_digits(n: int) -> Seq<char> {
    two_digits(n / 100) + two_digits(n % 100)
}

/// The name of a recording started at `t`.
pub open spec fn artifact_name_spec(t: Timestamp) -> Seq<char> {
    four_digits(t.year as int) + seq!['-'] + two_digits(t.month as int) + seq!['-']
        + two_digits(t.day as int) + seq!['-'] + two_digits(t.hour as int) + seq!['-']
        + two_digits(t.minute as int) + seq!['-'] + two_digits(t.second as int) + SUFFIX@
}

fn append_digit(s: &mut String, d: u16)
    requires
        d < 10,
    ensures
        final(s)@ == old(s)@.push(digit_char(d as int)),
{
    proof {
        reveal_strlit("0123456789");
    }
    let c = DIGITS.substring_char(d as usize, d as usize + 1);
    s.append(c);
    assert(c@ =~= seq![digit_char(d as int)]);
}

fn append_two_digits(s: &mut String, n: u16)
    requires
        n < 100,
    ensures
        final(s)@ == old(s)@ + two_digits(n as int),
{
    append_digit(s, n / 10);
    append_digit(s, n % 10);
    assert(final(s)@ =~= old(s)@ + two_digits(n as int));
}

fn append_dash(s: &mut String)
    ensures
        final(s)@ == old(s)@ + seq!['-'],
{
    proof {
        reveal_strlit("-");
    }
    s.append("-");
}

/// The name of a recording started at `t`: `YYYY-MM-DD-HH-MM-SS.wav`.
pub fn artifact_name(t: Timestamp) -> (r: String)
    requires
        t.wf(),
    ensures
        r@ == artifact_name_spec(t),
{
    let mut s = String::new();
    append_two_digits(&mut s, t.year / 100);
    append_two_digits(&mut s, t.year % 100);
    append_dash(&mut s);
    append_two_digits(&mut s, t.month as u16);
    append_dash(&mut s);
    append_two_digits(&mut s, t.day as u16);
    append_dash(&mut s);
    append_two_digits(&mut s, t.hour as u16);
    append_dash(&mut s);
    append_two_digits(&mut s, t.minute as u16);
    append_dash(&mut s);
    append_two_digits(&mut s, t.second as u16);
    s.append(SUFFIX);
    assert(s@ =~= artifact_name_spec(t));
    s
}

} // verus!
