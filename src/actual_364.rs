//! The Actual/364 convention.
use vstd::prelude::*;

use crate::date::{days_between, days_from, Date};
use crate::fraction::{DayCountFraction, DayCounter};

verus! {

/// Actual/364: the days from start to end, over 364.
#[derive(Debug, Copy, Clone, Default, PartialEq, Eq)]
pub struct Actual364;

impl DayCounter for Actual364 {
    open spec fn spec_fraction(&self, start: Date, end: Date) -> (int, int) {
        (days_from(start, end), 364)
    }

    open spec fn spec_name(&self) -> Seq<char> {
        "Actual/364"@
    }

    fn day_count_fraction(&self, start: &Date, end: &Date) -> (r: DayCountFraction<Self>) {
        DayCountFraction::new(days_between(start, end), 364)
    }

    fn name(&self) -> (r: &'static str) {
        "Actual/364"
    }
}

} // verus!
