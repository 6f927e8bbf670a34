//! The Actual/366 conventions, with and without the last day of the period.
use vstd::prelude::*;

use crate::date::{days_between, days_from, lemma_serial_bounds, Date};
use crate::fraction::{DayCountFraction, DayCounter};

verus! {

/// Actual/366: the days from start to end, over 366.
#[derive(Debug, Copy, Clone, Default, PartialEq, Eq)]
pub struct Actual366;

impl DayCounter for Actual366 {
    open spec fn spec_fraction(&self, start: Date, end: Date) -> (int, int) {
        (days_from(start, end), 366)
    }

    open spec fn spec_name(&self) -> Seq<char> {
        "Actual/366"@
    }

    fn day_count_fraction(&self, start: &Date, end: &Date) -> (r: DayCountFraction<Self>) {
        DayCountFraction::new(days_between(start, end), 366)
    }

    fn name(&self) -> (r: &'static str) {
        "Actual/366"
    }
}

/// Actual/366 (inc): the days from start to end with the last day included, over 366.
#[derive(Debug, Copy, Clone, Default, PartialEq, Eq)]
pub struct Actual366Inc;

impl DayCounter for Actual366Inc {
    open spec fn spec_fraction(&self, start: Date, end: Date) -> (int, int) {
        (days_from(start, end) + 1, 366)
    }

    open spec fn spec_name(&self) -> Seq<char> {
        "Actual/366 (inc)"@
    }

    fn day_count_fraction(&self, start: &Date, end: &Date) -> (r: DayCountFraction<Self>) {
        let days = days_between(start, end);
        proof {
            lemma_serial_bounds(*start);
            lemma_serial_bounds(*end);
        }
        DayCountFraction::new(days + 1, 366)
    }

    fn name(&self) -> (r: &'static str) {
        "Actual/366 (inc)"
    }
}

} // verus!
