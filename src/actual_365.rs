//! The Actual/365 conventions: Fixed, and (A) whose denominator depends on a
//! 29 February in the period.
use vstd::prelude::*;

use crate::calendar::{is_feb29_between_exc_inc, spec_feb29_between};
use crate::date::{days_between, days_from, Date};
use crate::fraction::{DayCountFraction, DayCounter};

verus! {

/// Actual/365 (Fixed): the days from start to end, over 365.
#[derive(Debug, Copy, Clone, Default, PartialEq, Eq)]
pub struct Actual365Fixed;

impl DayCounter for Actual365Fixed {
    open spec fn spec_fraction(&self, start: Date, end: Date) -> (int, int) {
        (days_from(start, end), 365)
    }

    open spec fn spec_name(&self) -> Seq<char> {
        "Actual/365 (Fixed)"@
    }

    fn day_count_fraction(&self, start: &Date, end: &Date) -> (r: DayCountFraction<Self>) {
        DayCountFraction::new(days_between(start, end), 365)
    }

    fn name(&self) -> (r: &'static str) {
        "Actual/365 (Fixed)"
    }
}

/// Actual/365 (A): the days from start to end, over 366 where a 29 February falls
/// after start and on or before end, and over 365 otherwise.
#[derive(Debug, Copy, Clone, Default, PartialEq, Eq)]
pub struct Actual365A;

impl DayCounter for Actual365A {
    open spec fn spec_fraction(&self, start: Date, end: Date) -> (int, int) {
        (days_from(start, end), if spec_feb29_between(start, end) { 366 } else { 365 })
    }

    open spec fn spec_name(&self) -> Seq<char> {
        "Actual/365 (A)"@
    }

    fn day_count_fraction(&self, start: &Date, end: &Date) -> (r: DayCountFraction<Self>) {
        let denominator: i64 = if is_feb29_between_exc_inc(*start, *end) {
            366
        } else {
            365
        };
        DayCountFraction::new(days_between(start, end), denominator)
    }

    fn name(&self) -> (r: &'static str) {
        "Actual/365 (A)"
    }
}

} // verus!
