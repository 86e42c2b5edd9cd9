//! Calendar dates and the year arithmetic the age brackets are measured with.
//!
//! A date of birth and the season start are plain year-month-day values on the
//! proleptic Gregorian calendar; ages are whole calendar years before the
//! season start, so the only arithmetic needed is shifting a date by whole
//! years (clamping February 29 to February 28 in a non-leap year) and
//! comparing dates lexicographically.

use vstd::prelude::*;

verus! {

/// A proleptic Gregorian calendar date (year, month, day), no time component.
#[derive(Clone, Copy, Debug, PartialEq, Eq, Hash, Structural)]
pub struct Date {
    pub year: i32,
    pub month: u8,
    pub day: u8,
}

pub open spec fn is_leap_year(y: int) -> bool {
    (y % 4 == 0 && y % 100 != 0) || y % 400 == 0
}

/// Number of days of month `m` (1 to 12) of year `y`.
pub open spec fn days_in_month(y: int, m: int) -> int
    recommends
        1 <= m <= 12,
{
    if m == 2 {
        if is_leap_year(y) {
            29
        } else {
            28
        }
    } else if m == 4 || m == 6 || m == 9 || m == 11 {
        30
    } else {
        31
    }
}

/// Strict lexicographic order on (year, month, day) triples.
pub open spec fn triple_lt(a: (int, int, int), b: (int, int, int)) -> bool {
    ||| a.0 < b.0
    ||| (a.0 == b.0 && a.1 < b.1)
    ||| (a.0 == b.0 && a.1 == b.1 && a.2 < b.2)
}

pub open spec fn triple_le(a: (int, int, int), b: (int, int, int)) -> bool {
    triple_lt(a, b) || a == b
}

/// The date `k` whole years before `d`, as a (year, month, day) triple.
/// February 29 is clamped to February 28 when the target year is not a leap
/// year; every other day exists in every year.
pub open spec fn years_before(d: Date, k: int) -> (int, int, int) {
    let y = d.year - k;
    let day = if d.month == 2 && d.day == 29 && !is_leap_year(y) {
        28
    } else {
        d.day as int
    };
    (y, d.month as int, day)
}

impl Date {
    /// A well-formed date names a day that exists on the calendar.
    pub open spec fn wf(self) -> bool {
        &&& 1 <= self.month <= 12
        &&& 1 <= self.day <= days_in_month(self.year as int, self.month as int)
    }

    pub open spec fn triple(self) -> (int, int, int) {
        (self.year as int, self.month as int, self.day as int)
    }

    /// Strict "earlier than" on dates.
    pub open spec fn before(self, other: Date) -> bool {
        triple_lt(self.triple(), other.triple())
    }

    /// `Some` exactly on the (year, month, day) combinations that name a real day.
    pub fn from_ymd_opt(year: i32, month: u8, day: u8) -> (r: Option<Date>)
        ensures
            r is Some <==> (Date { year, month, day }).wf(),
            r is Some ==> r->Some_0 == (Date { year, month, day }),
    {
        if 1 <= month && month <= 12 && 1 <= day && day <= days_in(year as i64, month) {
            Some(Date { year, month, day })
        } else {
            None
        }
    }

    /// Strict comparison; `other` is the later date when this returns true.
    pub fn is_before(&self, other: &Date) -> (r: bool)
        ensures
            r == self.before(*other),
    {
        lt_ymd(self.year as i64, self.month, self.day, other.year as i64, other.month, other.day)
    }
}

impl Default for Date {
    /// The epoch date, year 1970, January 1.
    fn default() -> (r: Self)
        ensures
            r == (Date { year: 1970, month: 1, day: 1 }),
    {
        Date { year: 1970, month: 1, day: 1 }
    }
}

/// Leap-year test over a widened year, so that shifted years below `i32::MIN`
/// are still in range.
pub fn is_leap(y: i64) -> (r: bool)
    ensures
        r == is_leap_year(y as int),
{
    let m = if y >= 0 {
        y as u64
    } else {
        #[verifier::truncate] ((-(y as i128)) as u64)
    };
    proof {
        lemma_divisibility_by_magnitude(y as int, 4);
        lemma_divisibility_by_magnitude(y as int, 100);
        lemma_divisibility_by_magnitude(y as int, 400);
    }
    (m % 4 == 0 && m % 100 != 0) || m % 400 == 0
}

/// Divisibility is unchanged by negation.
proof fn lemma_neg_divisible(y: int, m: int)
    requires
        m > 0,
        y % m == 0,
    ensures
        (-y) % m == 0,
{
    vstd::arithmetic::div_mod::lemma_fundamental_div_mod(y, m);
    let q = y / m;
    assert(-y == (-q) * m + 0) by (nonlinear_arith)
        requires
            y == m * q + 0,
    ;
    vstd::arithmetic::div_mod::lemma_fundamental_div_mod_converse_mod(-y, m, -q, 0);
}

/// An integer is divisible exactly when its magnitude is.
proof fn lemma_divisibility_by_magnitude(y: int, m: int)
    requires
        m > 0,
    ensures
        (y % m == 0) <==> ((if y >= 0 { y } else { -y }) % m == 0),
{
    if y % m == 0 {
        lemma_neg_divisible(y, m);
    }
    if y < 0 && (-y) % m == 0 {
        lemma_neg_divisible(-y, m);
    }
}

/// Number of days of month `m` (1 to 12) of year `y`.
pub fn days_in(y: i64, m: u8) -> (r: u8)
    requires
        1 <= m <= 12,
    ensures
        r == days_in_month(y as int, m as int),
{
    if m == 2 {
        if is_leap(y) {
            29
        } else {
            28
        }
    } else if m == 4 || m == 6 || m == 9 || m == 11 {
        30
    } else {
        31
    }
}

/// Lexicographic strict comparison of (year, month, day) triples, with the
/// year widened so that shifted season years stay in range.
pub fn lt_ymd(y1: i64, m1: u8, d1: u8, y2: i64, m2: u8, d2: u8) -> (r: bool)
    ensures
        r == triple_lt((y1 as int, m1 as int, d1 as int), (y2 as int, m2 as int, d2 as int)),
{
    y1 < y2 || (y1 == y2 && (m1 < m2 || (m1 == m2 && d1 < d2)))
}

} // verus!
