//! The NL/365 (no leap) convention.
use vstd::prelude::*;

use crate::calendar::{is_feb29_between_exc_inc, spec_feb29_between};
use crate::date::{days_between, days_from, lemma_serial_bounds, Date};
use crate::fraction::{DayCountFraction, DayCounter};

verus! {

/// NL/365: the days from start to end, less one where a 29 February falls after
/// start and on or before end, over 365.
#[derive(Debug, Copy, Clone, Default, PartialEq, Eq)]
pub struct NL365;

impl DayCounter for NL365 {
    open spec fn spec_fraction(&self, start: Date, end: Date) -> (int, int) {
        (days_from(start, end) - if spec_feb29_between(start, end) { 1int } else { 0int }, 365)
    }

    open spec fn spec_name(&self) -> Seq<char> {
        "NL/365"@
    }

    fn day_count_fraction(&self, start: &Date, end: &Date) -> (r: DayCountFraction<Self>) {
        let mut numerator = days_between(start, end);
        proof {
            lemma_serial_bounds(*start);
            lemma_serial_bounds(*end);
        }
        if is_feb29_between_exc_inc(*start, *end) {
            numerator -= 1;
        }
        DayCountFraction::new(numerator, 365)
    }

    fn name(&self) -> (r: &'static str) {
        "NL/365"
    }
}

} // verus!
