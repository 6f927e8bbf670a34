//! Properties that hold of the conventions over all dates.
use vstd::prelude::*;

use crate::actual_360::{Actual360, Actual360Inc};
use crate::actual_364::Actual364;
use crate::actual_365::{Actual365A, Actual365Fixed};
use crate::actual_365_25::{Actual36525, Actual36525Inc};
use crate::actual_366::{Actual366, Actual366Inc};
use crate::calendar::{spec_feb29_between, spec_is_last_day_of_feb};
use crate::date::Date;
use crate::fraction::DayCounter;
use crate::nl_365::NL365;
use crate::one_1::OneOne;
use crate::thirty_360::{Thirty360, ThirtyE360, ThirtyE360ISDA, ThirtyEPlus360ISDA};

verus! {

/// From a date to itself the actual-day conventions and NL/365 give zero,
/// the "(inc)" conventions give one over their denominator, and 30/360 and
/// 30E/360 give zero.
pub proof fn same_date_fractions(d: Date)
    requires
        d.wf(),
    ensures
        Actual360.spec_fraction(d, d) == (0int, 360int),
        Actual364.spec_fraction(d, d) == (0int, 364int),
        Actual365Fixed.spec_fraction(d, d) == (0int, 365int),
        Actual365A.spec_fraction(d, d) == (0int, 365int),
        Actual366.spec_fraction(d, d) == (0int, 366int),
        Actual36525.spec_fraction(d, d) == (0int, 1461int),
        NL365.spec_fraction(d, d) == (0int, 365int),
        Actual360Inc.spec_fraction(d, d) == (1int, 360int),
        Actual366Inc.spec_fraction(d, d) == (1int, 366int),
        Actual36525Inc.spec_fraction(d, d) == (4int, 1461int),
        Thirty360.spec_fraction(d, d) == (0int, 360int),
        ThirtyE360.spec_fraction(d, d) == (0int, 360int),
{
    assert(!spec_feb29_between(d, d));
}

/// From a date to itself 30E+/360 (ISDA) gives zero, unless the day is the
/// 31st.
pub proof fn same_date_thirty_e_plus(d: Date)
    requires
        d.wf(),
        d.day() != 31,
    ensures
        ThirtyEPlus360ISDA.spec_fraction(d, d) == (0int, 360int),
{
}

/// From a date to itself 30E/360 (ISDA) gives zero, unless the day is the
/// 31st or the date is both the last day of February and the termination
/// date.
pub proof fn same_date_thirty_e_isda(c: ThirtyE360ISDA, d: Date)
    requires
        d.wf(),
        d.day() != 31,
        !(spec_is_last_day_of_feb(d) && d == c.termination_date),
    ensures
        c.spec_fraction(d, d) == (0int, 360int),
{
}

/// 1/1 gives one for every pair of dates, in either order.
pub proof fn one_one_is_one(start: Date, end: Date)
    ensures
        OneOne.spec_fraction(start, end) == (1int, 1int),
{
}

/// The fixed-denominator actual-day conventions are antisymmetric:
/// exchanging the dates negates the numerator and keeps the denominator.
pub proof fn actual_fractions_antisymmetric(start: Date, end: Date)
    requires
        start.wf(),
        end.wf(),
    ensures
        Actual360.spec_fraction(start, end) == (-Actual360.spec_fraction(end, start).0, 360int),
        Actual364.spec_fraction(start, end) == (-Actual364.spec_fraction(end, start).0, 364int),
        Actual365Fixed.spec_fraction(start, end) == (
        -Actual365Fixed.spec_fraction(end, start).0,
        365int,
        ),
        Actual366.spec_fraction(start, end) == (-Actual366.spec_fraction(end, start).0, 366int),
        Actual36525.spec_fraction(start, end) == (
        -Actual36525.spec_fraction(end, start).0,
        1461int,
        ),
{
}

/// Actual/365 (A) and NL/365 are antisymmetric on a period in which no
/// 29 February falls after the earlier date and on or before the later one.
pub proof fn leap_conventions_antisymmetric_without_feb29(start: Date, end: Date)
    requires
        start.wf(),
        end.wf(),
        !spec_feb29_between(start, end),
        !spec_feb29_between(end, start),
    ensures
        Actual365A.spec_fraction(start, end) == (
        -Actual365A.spec_fraction(end, start).0,
        Actual365A.spec_fraction(end, start).1,
        ),
        NL365.spec_fraction(start, end) == (
        -NL365.spec_fraction(end, start).0,
        NL365.spec_fraction(end, start).1,
        ),
{
}

/// A 29 February cannot lie between two dates in both directions.
pub proof fn feb29_between_one_direction(start: Date, end: Date)
    requires
        start.wf(),
        end.wf(),
    ensures
        !(spec_feb29_between(start, end) && spec_feb29_between(end, start)),
{
    if spec_feb29_between(start, end) && spec_feb29_between(end, start) {
        let y1 = choose|y: int| #[trigger] crate::calendar::feb29_of_year_between(start, end, y);
        let y2 = choose|y: int| #[trigger] crate::calendar::feb29_of_year_between(end, start, y);
    }
}

/// The "(inc)" conventions count the last day in both directions, so the
/// numerators of the two directions add up to twice the count of one day.
pub proof fn inclusive_fractions_both_directions(start: Date, end: Date)
    requires
        start.wf(),
        end.wf(),
    ensures
        Actual360Inc.spec_fraction(start, end).0 + Actual360Inc.spec_fraction(end, start).0 == 2,
        Actual366Inc.spec_fraction(start, end).0 + Actual366Inc.spec_fraction(end, start).0 == 2,
        Actual36525Inc.spec_fraction(start, end).0 + Actual36525Inc.spec_fraction(end, start).0
            == 8,
{
}

} // verus!
