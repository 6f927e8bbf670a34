//! The Actual/360 conventions, with and without the last day of the period.
use vstd::prelude::*;

use crate::date::{days_between, days_from, lemma_serial_bounds, Date};
use crate::fraction::{DayCountFraction, DayCounter};

verus! {

/// Actual/360: the days from start to end (the last day excluded), over 360.
#[derive(Debug, Copy, Clone, Default, PartialEq, Eq)]
pub struct Actual360;

impl DayCounter for Actual360 {
    open spec fn spec_fraction(&self, start: Date, end: Date) -> (int, int) {
        (days_from(start, end), 360)
    }

    open spec fn spec_name(&self) -> Seq<char> {
        "Actual/360"@
    }

    fn day_count_fraction(&self, start: &Date, end: &Date) -> (r: DayCountFraction<Self>) {
        DayCountFraction::new(days_between(start, end), 360)
    }

    fn name(&self) -> (r: &'static str) {
        "Actual/360"
    }
}

/// Actual/360 (inc): the days from start to end with the last day included, over 360.
#[derive(Debug, Copy, Clone, Default, PartialEq, Eq)]
pub struct Actual360Inc;

impl DayCounter for Actual360Inc {
    open spec fn spec_fraction(&self, start: Date, end: Date) -> (int, int) {
        (days_from(start, end) + 1, 360)
    }

    open spec fn spec_name(&self) -> Seq<char> {
        "Actual/360 (inc)"@
    }

    fn day_count_fraction(&self, start: &Date, end: &Date) -> (r: DayCountFraction<Self>) {
        let days = days_between(start, end);
        proof {
            lemma_serial_bounds(*start);
            lemma_serial_bounds(*end);
        }
        DayCountFraction::new(days + 1, 360)
    }

    fn name(&self) -> (r: &'static str) {
        "Actual/360 (inc)"
    }
}

} // verus!
