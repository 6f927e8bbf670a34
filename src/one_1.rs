//! The 1/1 convention.
use vstd::prelude::*;

use crate::date::Date;
use crate::fraction::{DayCountFraction, DayCounter};

verus! {

/// 1/1: always one, whatever the dates.
#[derive(Debug, Copy, Clone, Default, PartialEq, Eq)]
pub struct OneOne;

impl DayCounter for OneOne {
    open spec fn spec_fraction(&self, start: Date, end: Date) -> (int, int) {
        (1, 1)
    }

    open spec fn spec_name(&self) -> Seq<char> {
        "1/1"@
    }

    fn day_count_fraction(&self, start: &Date, end: &Date) -> (r: DayCountFraction<Self>) {
        DayCountFraction::new(1, 1)
    }

    fn name(&self) -> (r: &'static str) {
        "1/1"
    }
}

} // verus!
