//! Calendar dates of the proleptic Gregorian calendar, as far as chrono's
//! `NaiveDate` can represent them.
use vstd::prelude::*;

verus! {

/// The earliest year that chrono's `NaiveDate` represents.
pub const MIN_YEAR: i32 = -262143;

/// The latest year that chrono's `NaiveDate` represents.
pub const MAX_YEAR: i32 = 262142;

/// Gregorian leap-year rule: divisible by 4, but not by 100 unless by 400.
pub open spec fn is_leap_year(y: int) -> bool {
    y % 4 == 0 && (y % 100 != 0 || y % 400 == 0)
}

/// Number of days of month `m` (1 to 12) in year `y`.
pub open spec fn days_in_month(y: int, m: int) -> int {
    if m == 2 {
        if is_leap_year(y) { 29 } else { 28 }
    } else if m == 4 || m == 6 || m == 9 || m == 11 {
        30
    } else {
        31
    }
}

/// Whether `y` lies in the range of years that a date may have.
pub open spec fn year_in_range(y: int) -> bool {
    MIN_YEAR <= y <= MAX_YEAR
}

/// Whether year `y`, month `m` and day `d` name an existing, representable date.
pub open spec fn ymd_valid(y: int, m: int, d: int) -> bool {
    &&& year_in_range(y)
    &&& 1 <= m <= 12
    &&& 1 <= d <= days_in_month(y, m)
}

/// Days in the years before year `y`, counted from 0001-01-01 (day 1).
pub open spec fn days_before_year(y: int) -> int {
    365 * (y - 1) + (y - 1) / 4 - (y - 1) / 100 + (y - 1) / 400
}

/// Days in the months of year `y` before month `m`.
pub open spec fn days_before_month(y: int, m: int) -> int
    decreases m,
{
    if m <= 1 {
        0
    } else {
        days_before_month(y, m - 1) + days_in_month(y, m - 1)
    }
}

/// Serial number of a day: 0001-01-01 is day 1, and each day is one more
/// than the day before it.
pub open spec fn day_number(y: int, m: int, d: int) -> int {
    days_before_year(y) + days_before_month(y, m) + d
}

/// Chronological order of two dates given as year, month and day.
pub open spec fn ymd_before(y1: int, m1: int, d1: int, y2: int, m2: int, d2: int) -> bool {
    y1 < y2 || (y1 == y2 && (m1 < m2 || (m1 == m2 && d1 < d2)))
}

/// A calendar date. Its only constructor checks that the date exists.
#[derive(Debug, Clone, Copy, PartialEq, Eq, Structural, Hash, PartialOrd, Ord)]
pub struct Date {
    year: i32,
    month: u32,
    day: u32,
}

impl Date {
    pub closed spec fn spec_year(&self) -> i32 {
        self.year
    }

    pub closed spec fn spec_month(&self) -> u32 {
        self.month
    }

    pub closed spec fn spec_day(&self) -> u32 {
        self.day
    }

    /// The date exists in the calendar and lies in the representable range.
    pub open spec fn wf(&self) -> bool {
        ymd_valid(self.spec_year() as int, self.spec_month() as int, self.spec_day() as int)
    }

    /// Serial day number of the date.
    pub open spec fn serial(&self) -> int {
        day_number(self.spec_year() as int, self.spec_month() as int, self.spec_day() as int)
    }

    /// Whether `self` comes strictly before `other`.
    pub open spec fn spec_before(&self, other: Date) -> bool {
        ymd_before(
            self.spec_year() as int,
            self.spec_month() as int,
            self.spec_day() as int,
            other.spec_year() as int,
            other.spec_month() as int,
            other.spec_day() as int,
        )
    }

    /// The date with the given year, month and day, or `None` where no such
    /// date exists.
    pub fn from_ymd_opt(year: i32, month: u32, day: u32) -> (r: Option<Date>)
        ensures
            r is Some <==> ymd_valid(year as int, month as int, day as int),
            r matches Some(d) ==> d.wf() && d.spec_year() == year && d.spec_month() == month
                && d.spec_day() == day,
    {
        if date_exists(year, month, day) {
            Some(Date { year, month, day })
        } else {
            None
        }
    }

    #[verifier::when_used_as_spec(spec_year)]
    pub fn year(&self) -> (r: i32)
        ensures
            r == self.spec_year(),
    {
        self.year
    }

    #[verifier::when_used_as_spec(spec_month)]
    pub fn month(&self) -> (r: u32)
        ensures
            r == self.spec_month(),
    {
        self.month
    }

    #[verifier::when_used_as_spec(spec_day)]
    pub fn day(&self) -> (r: u32)
        ensures
            r == self.spec_day(),
    {
        self.day
    }

    /// Whether `self` comes strictly before `other`.
    pub fn is_before(&self, other: &Date) -> (r: bool)
        ensures
            r == self.spec_before(*other),
    {
        self.year < other.year || (self.year == other.year && (self.month < other.month || (
        self.month == other.month && self.day < other.day)))
    }
}

/// Relies on chrono's `NaiveDate::from_ymd_opt`: it returns `Some` exactly
/// for an existing calendar date whose year `NaiveDate` can represent.
#[verifier::external_body]
pub(crate) fn date_exists(year: i32, month: u32, day: u32) -> (r: bool)
    ensures
        r == ymd_valid(year as int, month as int, day as int),
{
    chrono::NaiveDate::from_ymd_opt(year, month, day).is_some()
}

impl Default for Date {
    /// 1970-01-01, the default date of chrono's `NaiveDate`.
    fn default() -> (r: Date)
        ensures
            r.wf(),
            r.year() == 1970 && r.month() == 1 && r.day() == 1,
    {
        Date { year: 1970, month: 1, day: 1 }
    }
}

/// Whole days from `start` to `end`; negative where `end` comes first.
pub open spec fn days_from(start: Date, end: Date) -> int {
    end.serial() - start.serial()
}

proof fn lemma_days_before_month_bounds(y: int, m: int)
    requires
        1 <= m <= 12,
    ensures
        0 <= days_before_month(y, m) <= 31 * (m - 1),
    decreases m,
{
    if m > 1 {
        lemma_days_before_month_bounds(y, m - 1);
    }
}

/// The serial number of a representable date is small enough that sums of a
/// few of them fit in 64 bits.
pub proof fn lemma_serial_bounds(d: Date)
    requires
        d.wf(),
    ensures
        -100_000_000 <= d.serial() <= 100_000_000,
{
    lemma_days_before_month_bounds(d.spec_year() as int, d.spec_month() as int);
}

/// Relies on chrono's `NaiveDate::signed_duration_since` and
/// `TimeDelta::num_days`: the number of whole days from `start` to `end`.
#[verifier::external_body]
pub(crate) fn days_between(start: &Date, end: &Date) -> (r: i64)
    requires
        start.wf(),
        end.wf(),
    ensures
        r == days_from(*start, *end),
{
    let s = chrono::NaiveDate::from_ymd_opt(start.year, start.month, start.day).unwrap();
    let e = chrono::NaiveDate::from_ymd_opt(end.year, end.month, end.day).unwrap();
    e.signed_duration_since(s).num_days()
}

/// Relies on chrono's `Month::num_days`: the length of a month in a given
/// year of `NaiveDate`'s range.
#[verifier::external_body]
pub(crate) fn month_length(year: i32, month: u32) -> (r: u32)
    requires
        year_in_range(year as int),
        1 <= month <= 12,
    ensures
        r == days_in_month(year as int, month as int),
{
    let m = chrono::Month::try_from(month as u8).unwrap();
    m.num_days(year).unwrap() as u32
}

} // verus!
