//! The 30-day-month conventions: 30/360, 30E/360, 30E/360 (ISDA) and
//! 30E+/360 (ISDA).
//!
//! Each takes year, month and day of both dates, adjusts the days by its own
//! rule, and divides
//! `360 (Y2 - Y1) + 30 (M2 - M1) + (D2 - D1)` by 360.
use vstd::prelude::*;

use crate::calendar::{get_last_day_of_month, is_last_day_of_feb, spec_is_last_day_of_feb};
use crate::date::{days_in_month, Date};
use crate::fraction::{DayCountFraction, DayCounter};

verus! {

/// The numerator of the 30-day-month formula, after the days were adjusted.
pub open spec fn thirty_numerator(y1: int, m1: int, d1: int, y2: int, m2: int, d2: int) -> int {
    360 * (y2 - y1) + 30 * (m2 - m1) + (d2 - d1)
}

/// Computes the numerator of the 30-day-month formula, with days between 1
/// and 31 and months between 1 and 13.
fn thirty_numerator_exec(y1: i32, m1: i32, d1: i32, y2: i32, m2: i32, d2: i32) -> (r: i64)
    requires
        crate::date::year_in_range(y1 as int),
        crate::date::year_in_range(y2 as int),
        1 <= m1 <= 13,
        1 <= m2 <= 13,
        1 <= d1 <= 31,
        1 <= d2 <= 31,
    ensures
        r == thirty_numerator(y1 as int, m1 as int, d1 as int, y2 as int, m2 as int, d2 as int),
{
    360 * (y2 as i64 - y1 as i64) + 30 * (m2 as i64 - m1 as i64) + (d2 as i64 - d1 as i64)
}

/// 30/360
///
/// If D1 is 31, it becomes 30. If D2 is 31 and D1 (after the first rule) is
/// 30 or 31, D2 becomes 30.
#[derive(Debug, Copy, Clone, Default, PartialEq, Eq)]
pub struct Thirty360;

impl DayCounter for Thirty360 {
    open spec fn spec_fraction(&self, start: Date, end: Date) -> (int, int) {
        let d1 = if start.day() == 31 { 30 } else { start.day() as int };
        let d2 = if end.day() == 31 && d1 >= 30 { 30 } else { end.day() as int };
        (thirty_numerator(start.year() as int, start.month() as int, d1, end.year() as int, end.month() as int, d2), 360)
    }

    open spec fn spec_name(&self) -> Seq<char> {
        "30/360"@
    }

    fn day_count_fraction(&self, start: &Date, end: &Date) -> (r: DayCountFraction<Self>) {
        let y1 = start.year();
        let m1 = start.month() as i32;
        let mut d1 = start.day() as i32;

        let y2 = end.year();
        let m2 = end.month() as i32;
        let mut d2 = end.day() as i32;

        if d1 == 31 {
            d1 = 30;
        }
        if d2 == 31 && d1 >= 30 {
            d2 = 30;
        }

        let numerator = thirty_numerator_exec(y1, m1, d1, y2, m2, d2);
        DayCountFraction::new(numerator, 360)
    }

    fn name(&self) -> (r: &'static str) {
        "30/360"
    }
}

/// 30E/360
///
/// If D1 is 31, it becomes 30. If D2 is 31, it becomes 30.
#[derive(Debug, Copy, Clone, Default, PartialEq, Eq)]
pub struct ThirtyE360;

impl DayCounter for ThirtyE360 {
    open spec fn spec_fraction(&self, start: Date, end: Date) -> (int, int) {
        let d1 = if start.day() == 31 { 30 } else { start.day() as int };
        let d2 = if end.day() == 31 { 30 } else { end.day() as int };
        (thirty_numerator(start.year() as int, start.month() as int, d1, end.year() as int, end.month() as int, d2), 360)
    }

    open spec fn spec_name(&self) -> Seq<char> {
        "30E/360"@
    }

    fn day_count_fraction(&self, start: &Date, end: &Date) -> (r: DayCountFraction<Self>) {
        let y1 = start.year();
        let m1 = start.month() as i32;
        let mut d1 = start.day() as i32;

        let y2 = end.year();
        let m2 = end.month() as i32;
        let mut d2 = end.day() as i32;

        if d1 == 31 {
            d1 = 30;
        }
        if d2 == 31 {
            d2 = 30;
        }

        let numerator = thirty_numerator_exec(y1, m1, d1, y2, m2, d2);
        DayCountFraction::new(numerator, 360)
    }

    fn name(&self) -> (r: &'static str) {
        "30E/360"
    }
}

/// 30E/360 (ISDA)
///
/// If D1 is the last day of its month, it becomes 30. If the end date is the
/// last day of February, and either it is not the termination date or D2 is
/// 31, D2 becomes 30.
#[derive(Debug, Copy, Clone, Default, PartialEq, Eq)]
pub struct ThirtyE360ISDA {
    /// The last date on which new obligations arise under the swap contract.
    pub termination_date: Date,
}

impl ThirtyE360ISDA {
    /// Create a 30E/360 (ISDA) convention with the given termination date.
    pub fn new(termination_date: Date) -> (r: Self)
        ensures
            r.termination_date == termination_date,
    {
        ThirtyE360ISDA { termination_date }
    }
}

impl DayCounter for ThirtyE360ISDA {
    open spec fn spec_fraction(&self, start: Date, end: Date) -> (int, int) {
        let d1 = if start.day() == days_in_month(start.year() as int, start.month() as int) {
            30
        } else {
            start.day() as int
        };
        let d2 = if spec_is_last_day_of_feb(end) && (self.termination_date != end || end.day() == 31) {
            30
        } else {
            end.day() as int
        };
        (thirty_numerator(start.year() as int, start.month() as int, d1, end.year() as int, end.month() as int, d2), 360)
    }

    open spec fn spec_name(&self) -> Seq<char> {
        "30E/360 (ISDA)"@
    }

    fn day_count_fraction(&self, start: &Date, end: &Date) -> (r: DayCountFraction<Self>) {
        let y1 = start.year();
        let m1 = start.month();
        let mut d1 = start.day() as i32;

        let y2 = end.year();
        let m2 = end.month();
        let mut d2 = end.day() as i32;

        if get_last_day_of_month(y1, m1) == d1 {
            d1 = 30;
        }

        if is_last_day_of_feb(*end) && (self.termination_date != *end || d2 == 31) {
            d2 = 30;
        }

        let numerator = thirty_numerator_exec(y1, m1 as i32, d1, y2, m2 as i32, d2);
        DayCountFraction::new(numerator, 360)
    }

    fn name(&self) -> (r: &'static str) {
        "30E/360 (ISDA)"
    }
}

/// 30E+/360 (ISDA)
///
/// If D1 is 31, it becomes 30. If D2 is 31, it becomes 1 and M2 becomes
/// M2 + 1; Y2 stays as it is.
#[derive(Debug, Copy, Clone, Default, PartialEq, Eq)]
pub struct ThirtyEPlus360ISDA;

impl DayCounter for ThirtyEPlus360ISDA {
    open spec fn spec_fraction(&self, start: Date, end: Date) -> (int, int) {
        let d1 = if start.day() == 31 { 30 } else { start.day() as int };
        let m2 = if end.day() == 31 { end.month() + 1 } else { end.month() as int };
        let d2 = if end.day() == 31 { 1 } else { end.day() as int };
        (thirty_numerator(start.year() as int, start.month() as int, d1, end.year() as int, m2, d2), 360)
    }

    open spec fn spec_name(&self) -> Seq<char> {
        "30E+/360 (ISDA)"@
    }

    fn day_count_fraction(&self, start: &Date, end: &Date) -> (r: DayCountFraction<Self>) {
        let y1 = start.year();
        let m1 = start.month() as i32;
        let mut d1 = start.day() as i32;

        let y2 = end.year();
        let mut m2 = end.month() as i32;
        let mut d2 = end.day() as i32;

        if d1 == 31 {
            d1 = 30;
        }
        if d2 == 31 {
            d2 = 1;
            m2 += 1;
        }

        let numerator = thirty_numerator_exec(y1, m1, d1, y2, m2, d2);
        DayCountFraction::new(numerator, 360)
    }

    fn name(&self) -> (r: &'static str) {
        "30E+/360 (ISDA)"
    }
}

} // verus!
