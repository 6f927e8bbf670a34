//! Day count conventions for financial applications.
//!
//! A day count convention maps a pair of calendar dates to a fraction of a
//! year, used to scale an interest rate into the interest accrued over a
//! period. Every convention here yields its fraction as an exact ratio of two
//! integers, tagged with the convention that produced it, so that fractions
//! of different conventions cannot be compared by mistake.
//!
//! Supported conventions: Actual/360, Actual/360 (inc), Actual/364,
//! Actual/365 (A), Actual/365 (Fixed), Actual/366, Actual/366 (inc),
//! Actual/365.25, Actual/365.25 (inc), NL/365, 1/1, 30/360, 30E/360,
//! 30E/360 (ISDA) and 30E+/360 (ISDA).
pub mod actual_360;
pub mod actual_364;
pub mod actual_365;
pub mod actual_365_25;
pub mod actual_366;
pub mod calendar;
pub mod date;
pub mod fraction;
pub mod laws;
pub mod nl_365;
pub mod one_1;
pub mod thirty_360;

pub use actual_360::{Actual360, Actual360Inc};
pub use actual_364::Actual364;
pub use actual_365::{Actual365A, Actual365Fixed};
pub use actual_365_25::{Actual36525, Actual36525Inc};
pub use actual_366::{Actual366, Actual366Inc};
pub use calendar::{get_last_day_of_month, is_feb29_between_exc_inc, is_last_day_of_feb};
pub use date::Date;
pub use fraction::{DayCountFraction, DayCounter};
pub use nl_365::NL365;
pub use one_1::OneOne;
pub use thirty_360::{Thirty360, ThirtyE360, ThirtyE360ISDA, ThirtyEPlus360ISDA};
