//! UTC instants as calendar fields, and their iCalendar text forms.

use chrono::{Datelike, Timelike};
use vstd::prelude::*;
use vstd::string::StringExecFns;

verus! {

/// A UTC instant, held as its calendar fields (no sub-second part).
#[derive(Clone, Copy, Debug, PartialEq, Eq, Structural)]
pub struct UtcDateTime {
    pub year: i32,
    pub month: u32,
    pub day: u32,
    pub hour: u32,
    pub minute: u32,
    pub second: u32,
}

impl UtcDateTime {
    /// The fields lie in their calendar ranges.
    pub open spec fn wf(&self) -> bool {
        &&& 1 <= self.month <= 12
        &&& 1 <= self.day <= 31
        &&& self.hour < 24
        &&& self.minute < 60
        &&& self.second < 60
    }

    pub fn new(year: i32, month: u32, day: u32, hour: u32, minute: u32, second: u32) -> (r: Self)
        ensures
            r == (UtcDateTime { year, month, day, hour, minute, second }),
    {
        UtcDateTime { year, month, day, hour, minute, second }
    }

    /// Midnight at the start of the given day.
    pub fn from_ymd(year: i32, month: u32, day: u32) -> (r: Self)
        ensures
            r == (UtcDateTime { year, month, day, hour: 0, minute: 0, second: 0 }),
    {
        UtcDateTime { year, month, day, hour: 0, minute: 0, second: 0 }
    }
}

/// The decimal digit for `d` (for `d < 10`).
pub open spec fn digit_char(d: nat) -> char {
    if d == 0 { '0' }
    else if d == 1 { '1' }
    else if d == 2 { '2' }
    else if d == 3 { '3' }
    else if d == 4 { '4' }
    else if d == 5 { '5' }
    else if d == 6 { '6' }
    else if d == 7 { '7' }
    else if d == 8 { '8' }
    else { '9' }
}

/// The decimal digits of `n`, with leading zeros up to `width` digits.
pub open spec fn padded(n: nat, width: nat) -> Seq<char>
    decreases n + width,
{
    if n < 10 && width <= 1 {
        seq![digit_char(n)]
    } else {
        padded(n / 10, if width > 0 { (width - 1) as nat } else { 0 }).push(digit_char(n % 10))
    }
}

/// A year as `%Y` writes it: four digits within 0..=9999, else a sign and at
/// least four digits.
pub open spec fn year_text(y: int) -> Seq<char> {
    if 0 <= y < 10000 {
        padded(y as nat, 4)
    } else if y < 0 {
        seq!['-'] + padded((-y) as nat, 4)
    } else {
        seq!['+'] + padded(y as nat, 4)
    }
}

/// `YYYYMMDD`
pub open spec fn date_text(t: UtcDateTime) -> Seq<char> {
    year_text(t.year as int) + padded(t.month as nat, 2) + padded(t.day as nat, 2)
}

/// `YYYYMMDDTHHMMSSZ`
pub open spec fn date_time_text(t: UtcDateTime) -> Seq<char> {
    date_text(t) + seq!['T'] + padded(t.hour as nat, 2) + padded(t.minute as nat, 2)
        + padded(t.second as nat, 2) + seq!['Z']
}

fn digit_str(d: u64) -> (r: &'static str)
    requires
        d < 10,
    ensures
        r@ == seq![digit_char(d as nat)],
{
    proof {
        reveal_strlit("0");
        reveal_strlit("1");
        reveal_strlit("2");
        reveal_strlit("3");
        reveal_strlit("4");
        reveal_strlit("5");
        reveal_strlit("6");
        reveal_strlit("7");
        reveal_strlit("8");
        reveal_strlit("9");
    }
    if d == 0 { "0" }
    else if d == 1 { "1" }
    else if d == 2 { "2" }
    else if d == 3 { "3" }
    else if d == 4 { "4" }
    else if d == 5 { "5" }
    else if d == 6 { "6" }
    else if d == 7 { "7" }
    else if d == 8 { "8" }
    else { "9" }
}

/// Appends the digits of `n`, zero-padded to `width`.
fn push_padded(s: &mut String, n: u64, width: u64)
    ensures
        final(s)@ == old(s)@ + padded(n as nat, width as nat),
    decreases n + width,
{
    if n >= 10 || width > 1 {
        let w: u64 = if width > 0 { width - 1 } else { 0 };
        push_padded(s, n / 10, w);
    }
    s.append(digit_str(n % 10));
}

fn push_year(s: &mut String, y: i32)
    ensures
        final(s)@ == old(s)@ + year_text(y as int),
{
    if 0 <= y && y < 10000 {
        push_padded(s, y as u64, 4);
    } else if y < 0 {
        proof { reveal_strlit("-"); }
        s.append("-");
        let a: i64 = -(y as i64);
        push_padded(s, a as u64, 4);
        assert(s@ =~= old(s)@ + year_text(y as int));
    } else {
        proof { reveal_strlit("+"); }
        s.append("+");
        push_padded(s, y as u64, 4);
        assert(s@ =~= old(s)@ + year_text(y as int));
    }
}

/// Appends `YYYYMMDD`.
pub fn push_date(s: &mut String, t: &UtcDateTime)
    ensures
        final(s)@ == old(s)@ + date_text(*t),
{
    push_year(s, t.year);
    push_padded(s, t.month as u64, 2);
    push_padded(s, t.day as u64, 2);
    assert(s@ =~= old(s)@ + date_text(*t));
}

/// Appends `YYYYMMDDTHHMMSSZ`.
pub fn push_date_time(s: &mut String, t: &UtcDateTime)
    ensures
        final(s)@ == old(s)@ + date_time_text(*t),
{
    push_date(s, t);
    proof { reveal_strlit("T"); reveal_strlit("Z"); }
    s.append("T");
    push_padded(s, t.hour as u64, 2);
    push_padded(s, t.minute as u64, 2);
    push_padded(s, t.second as u64, 2);
    s.append("Z");
    assert(s@ =~= old(s)@ + date_time_text(*t));
}

/// The instant rendered as `YYYYMMDDTHHMMSSZ`.
pub fn format_date_time(t: &UtcDateTime) -> (r: String)
    ensures
        r@ == date_time_text(*t),
{
    let mut s = String::new();
    push_date_time(&mut s, t);
    assert(s@ =~= date_time_text(*t));
    s
}

/// The instant's calendar date rendered as `YYYYMMDD`.
pub fn format_date(t: &UtcDateTime) -> (r: String)
    ensures
        r@ == date_text(*t),
{
    let mut s = String::new();
    push_date(&mut s, t);
    assert(s@ =~= date_text(*t));
    s
}

/// Relies on chrono's `Utc::now` and its `Datelike` / `Timelike` accessors,
/// whose documented ranges are month 1..=12, day 1..=31, hour 0..=23, minute
/// and second 0..=59.
#[verifier::external_body]
pub(crate) fn clock_now() -> (r: UtcDateTime)
    ensures
        r.wf(),
{
    let t = chrono::Utc::now();
    UtcDateTime {
        year: t.year(),
        month: t.month(),
        day: t.day(),
        hour: t.hour(),
        minute: t.minute(),
        second: t.second(),
    }
}

} // verus!
