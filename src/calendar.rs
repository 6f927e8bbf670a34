//! Calendar questions that the conventions ask of their dates.
use vstd::prelude::*;

use crate::date::{days_in_month, is_leap_year, month_length, year_in_range, ymd_before, Date};

verus! {

/// Whether `d` is the last day of February of its year.
pub open spec fn spec_is_last_day_of_feb(d: Date) -> bool {
    d.month() == 2 && d.day() == days_in_month(d.year() as int, 2)
}

/// Whether 29 February of year `y` exists and falls after `start` and on or
/// before `end`.
pub open spec fn feb29_of_year_between(start: Date, end: Date, y: int) -> bool {
    &&& is_leap_year(y)
    &&& ymd_before(start.year() as int, start.month() as int, start.day() as int, y, 2, 29)
    &&& !ymd_before(end.year() as int, end.month() as int, end.day() as int, y, 2, 29)
}

/// Whether some 29 February falls after `start` and on or before `end`.
pub open spec fn spec_feb29_between(start: Date, end: Date) -> bool {
    exists|y: int| #[trigger] feb29_of_year_between(start, end, y)
}

/// The number of the last day of month `month` in year `year`.
pub fn get_last_day_of_month(year: i32, month: u32) -> (r: i32)
    requires
        year_in_range(year as int),
        1 <= month <= 12,
    ensures
        r == days_in_month(year as int, month as int),
{
    month_length(year, month) as i32
}

/// Whether `date` is the last day of February.
pub fn is_last_day_of_feb(date: Date) -> (r: bool)
    requires
        date.wf(),
    ensures
        r == spec_is_last_day_of_feb(date),
{
    if date.month() == 2 {
        get_last_day_of_month(date.year(), date.month()) == date.day() as i32
    } else {
        false
    }
}

/// Whether a 29 February falls after `date1` (exclusive) and on or before
/// `date2` (inclusive). Every year from the year of `date1` to the year of
/// `date2` is examined.
pub fn is_feb29_between_exc_inc(date1: Date, date2: Date) -> (r: bool)
    requires
        date1.wf(),
        date2.wf(),
    ensures
        r == spec_feb29_between(date1, date2),
{
    let mut current_year: i32 = date1.year();
    let end_year: i32 = date2.year();
    while current_year <= end_year
        invariant
            date1.wf(),
            date2.wf(),
            end_year == date2.year(),
            date1.year() <= current_year,
            current_year <= end_year + 1 || current_year == date1.year(),
            forall|y: int|
                date1.year() <= y < current_year ==> !#[trigger] feb29_of_year_between(
                    date1,
                    date2,
                    y,
                ),
        decreases end_year + 1 - current_year,
    {
        if let Some(feb_29) = Date::from_ymd_opt(current_year, 2, 29) {
            if date1.is_before(&feb_29) && !date2.is_before(&feb_29) {
                assert(feb29_of_year_between(date1, date2, current_year as int));
                return true;
            }
        }
        current_year += 1;
    }
    assert forall|y: int| !#[trigger] feb29_of_year_between(date1, date2, y) by {
        if y < date1.year() || y > end_year {
        }
    }
    false
}

} // verus!
