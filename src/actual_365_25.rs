//! The Actual/365.25 conventions, with and without the last day of the period.
//!
//! The denominator 365.25 is held exactly: numerator and denominator are both
//! scaled by 4, so the fraction is `4 days / 1461`.
use vstd::prelude::*;

use crate::date::{days_between, days_from, lemma_serial_bounds, Date};
use crate::fraction::{DayCountFraction, DayCounter};

verus! {

/// Actual/365.25: the days from start to end, over 365.25.
#[derive(Debug, Copy, Clone, Default, PartialEq, Eq)]
pub struct Actual36525;

impl DayCounter for Actual36525 {
    open spec fn spec_fraction(&self, start: Date, end: Date) -> (int, int) {
        (4 * days_from(start, end), 1461)
    }

    open spec fn spec_name(&self) -> Seq<char> {
        "Actual/365.25"@
    }

    fn day_count_fraction(&self, start: &Date, end: &Date) -> (r: DayCountFraction<Self>) {
        let days = days_between(start, end);
        proof {
            lemma_serial_bounds(*start);
            lemma_serial_bounds(*end);
        }
        DayCountFraction::new(4 * days, 1461)
    }

    fn name(&self) -> (r: &'static str) {
        "Actual/365.25"
    }
}

/// Actual/365.25 (inc): the days from start to end with the last day included, over 365.25.
#[derive(Debug, Copy, Clone, Default, PartialEq, Eq)]
pub struct Actual36525Inc;

impl DayCounter for Actual36525Inc {
    open spec fn spec_fraction(&self, start: Date, end: Date) -> (int, int) {
        (4 * (days_from(start, end) + 1), 1461)
    }

    open spec fn spec_name(&self) -> Seq<char> {
        "Actual/365.25 (inc)"@
    }

    fn day_count_fraction(&self, start: &Date, end: &Date) -> (r: DayCountFraction<Self>) {
        let days = days_between(start, end);
        proof {
            lemma_serial_bounds(*start);
            lemma_serial_bounds(*end);
        }
        DayCountFraction::new(4 * (days + 1), 1461)
    }

    fn name(&self) -> (r: &'static str) {
        "Actual/365.25 (inc)"
    }
}

} // verus!
