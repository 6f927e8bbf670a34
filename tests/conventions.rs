use day_count_conventions::{
    get_last_day_of_month, is_feb29_between_exc_inc, is_last_day_of_feb, Actual360,
    Actual360Inc, Actual364, Actual365A, Actual365Fixed, Actual36525, Actual36525Inc, Actual366,
    Actual366Inc, Date, DayCountFraction, DayCounter, Thirty360, ThirtyE360, ThirtyE360ISDA,
    ThirtyEPlus360ISDA, NL365, OneOne,
};

fn ymd(y: i32, m: u32, d: u32) -> Date {
    Date::from_ymd_opt(y, m, d).unwrap()
}

fn value<D: DayCounter>(f: &DayCountFraction<D>) -> f64 {
    f.numerator() as f64 / f.denominator() as f64
}

fn parts<D: DayCounter>(f: &DayCountFraction<D>) -> (i64, i64) {
    (f.numerator(), f.denominator())
}

#[test]
fn lib_comparison() {
    let day1 = ymd(2024, 1, 1);
    let day2 = ymd(2024, 7, 1);

    let dc1 = NL365::default();
    let dc2 = OneOne::default();

    let yf1 = dc1.day_count_fraction(&day1, &day2);
    let yf2 = dc2.day_count_fraction(&day1, &day2);

    assert_ne!(value(&yf1), value(&yf2));
}

#[test]
fn date_construction_checks_the_calendar() {
    assert!(Date::from_ymd_opt(2024, 2, 29).is_some());
    assert!(Date::from_ymd_opt(2023, 2, 29).is_none());
    assert!(Date::from_ymd_opt(1900, 2, 29).is_none());
    assert!(Date::from_ymd_opt(2000, 2, 29).is_some());
    assert!(Date::from_ymd_opt(2024, 4, 31).is_none());
    assert!(Date::from_ymd_opt(2024, 13, 1).is_none());
    assert!(Date::from_ymd_opt(2024, 0, 1).is_none());
    assert!(Date::from_ymd_opt(2024, 1, 0).is_none());
    assert!(Date::from_ymd_opt(262142, 12, 31).is_some());
    assert!(Date::from_ymd_opt(262143, 1, 1).is_none());
    assert!(Date::from_ymd_opt(-262143, 1, 1).is_some());
    assert!(Date::from_ymd_opt(-262144, 12, 31).is_none());
    let d = ymd(2024, 7, 15);
    assert_eq!((d.year(), d.month(), d.day()), (2024, 7, 15));
    let e = Date::default();
    assert_eq!((e.year(), e.month(), e.day()), (1970, 1, 1));
}

#[test]
fn date_order() {
    assert!(ymd(2023, 12, 31).is_before(&ymd(2024, 1, 1)));
    assert!(ymd(2024, 1, 31).is_before(&ymd(2024, 2, 1)));
    assert!(ymd(2024, 2, 28).is_before(&ymd(2024, 2, 29)));
    assert!(!ymd(2024, 2, 29).is_before(&ymd(2024, 2, 29)));
    assert!(!ymd(2024, 3, 1).is_before(&ymd(2024, 2, 29)));
}

#[test]
fn last_day_of_month() {
    assert_eq!(get_last_day_of_month(2024, 2), 29);
    assert_eq!(get_last_day_of_month(2023, 2), 28);
    assert_eq!(get_last_day_of_month(1900, 2), 28);
    assert_eq!(get_last_day_of_month(2000, 2), 29);
    assert_eq!(get_last_day_of_month(2024, 1), 31);
    assert_eq!(get_last_day_of_month(2024, 4), 30);
    assert_eq!(get_last_day_of_month(2024, 12), 31);
    assert_eq!(get_last_day_of_month(262142, 12), 31);
}

#[test]
fn last_day_of_february() {
    assert!(is_last_day_of_feb(ymd(2024, 2, 29)));
    assert!(!is_last_day_of_feb(ymd(2024, 2, 28)));
    assert!(is_last_day_of_feb(ymd(2023, 2, 28)));
    assert!(!is_last_day_of_feb(ymd(2024, 3, 31)));
    assert!(!is_last_day_of_feb(ymd(2024, 1, 29)));
}

#[test]
fn feb29_start_is_exclusive() {
    assert!(!is_feb29_between_exc_inc(ymd(2024, 2, 29), ymd(2024, 2, 29)));
}

#[test]
fn feb29_across_year_end() {
    assert!(is_feb29_between_exc_inc(ymd(2023, 12, 31), ymd(2024, 3, 1)));
}

#[test]
fn feb29_over_several_leap_years() {
    assert!(is_feb29_between_exc_inc(ymd(2019, 1, 1), ymd(2025, 1, 1)));
}

#[test]
fn feb29_more_cases() {
    assert!(is_feb29_between_exc_inc(ymd(2024, 2, 28), ymd(2024, 2, 29)));
    assert!(!is_feb29_between_exc_inc(ymd(2024, 3, 1), ymd(2027, 12, 31)));
    assert!(is_feb29_between_exc_inc(ymd(2025, 3, 1), ymd(2028, 2, 29)));
    assert!(!is_feb29_between_exc_inc(ymd(2025, 3, 1), ymd(2028, 2, 28)));
    assert!(!is_feb29_between_exc_inc(ymd(1900, 1, 1), ymd(1900, 12, 31)));
    assert!(!is_feb29_between_exc_inc(ymd(2024, 3, 1), ymd(2023, 12, 31)));
}

#[test]
fn actual_360_half_year() {
    let f = Actual360.day_count_fraction(&ymd(2024, 1, 1), &ymd(2024, 7, 1));
    assert_eq!(parts(&f), (182, 360));
    assert!((value(&f) - 0.505_555_555_555_555_6).abs() < 1e-15);
}

#[test]
fn actual_conventions_exact_values() {
    let s = ymd(2024, 1, 1);
    let e = ymd(2024, 7, 1);
    assert_eq!(parts(&Actual360Inc.day_count_fraction(&s, &e)), (183, 360));
    assert_eq!(parts(&Actual364.day_count_fraction(&s, &e)), (182, 364));
    assert_eq!(parts(&Actual365Fixed.day_count_fraction(&s, &e)), (182, 365));
    assert_eq!(parts(&Actual365A.day_count_fraction(&s, &e)), (182, 366));
    assert_eq!(parts(&Actual366.day_count_fraction(&s, &e)), (182, 366));
    assert_eq!(parts(&Actual366Inc.day_count_fraction(&s, &e)), (183, 366));
    assert_eq!(parts(&Actual36525.day_count_fraction(&s, &e)), (728, 1461));
    assert_eq!(parts(&Actual36525Inc.day_count_fraction(&s, &e)), (732, 1461));
    assert_eq!(parts(&NL365.day_count_fraction(&s, &e)), (181, 365));
    assert_eq!(parts(&OneOne.day_count_fraction(&s, &e)), (1, 1));
    assert!((value(&Actual36525.day_count_fraction(&s, &e)) - 182.0 / 365.25).abs() < 1e-15);
}

#[test]
fn actual_365_a_without_leap_day() {
    let f = Actual365A.day_count_fraction(&ymd(2024, 3, 1), &ymd(2025, 3, 1));
    assert_eq!(parts(&f), (365, 365));
    let g = NL365.day_count_fraction(&ymd(2024, 3, 1), &ymd(2025, 3, 1));
    assert_eq!(parts(&g), (365, 365));
}

#[test]
fn actual_days_over_long_periods() {
    let f = Actual365Fixed.day_count_fraction(&ymd(1614, 1, 1), &ymd(2014, 1, 1));
    assert_eq!(parts(&f), (146_097, 365));
    let g = Actual360.day_count_fraction(&ymd(-262143, 1, 1), &ymd(262142, 12, 31));
    assert_eq!(g.numerator(), 191_491_528);
}

#[test]
fn thirty_360_end_of_february() {
    let f = Thirty360.day_count_fraction(&ymd(2024, 1, 31), &ymd(2024, 2, 29));
    assert_eq!(parts(&f), (29, 360));
}

#[test]
fn thirty_360_day_rules() {
    // D2 = 31 becomes 30 only where D1 is 30 or 31.
    let f = Thirty360.day_count_fraction(&ymd(2024, 1, 30), &ymd(2024, 3, 31));
    assert_eq!(parts(&f), (60, 360));
    let g = Thirty360.day_count_fraction(&ymd(2024, 1, 15), &ymd(2024, 3, 31));
    assert_eq!(parts(&g), (76, 360));
    let h = Thirty360.day_count_fraction(&ymd(2023, 1, 31), &ymd(2024, 3, 31));
    assert_eq!(parts(&h), (420, 360));
}

#[test]
fn thirty_e_360_day_rules() {
    let f = ThirtyE360.day_count_fraction(&ymd(2024, 1, 15), &ymd(2024, 3, 31));
    assert_eq!(parts(&f), (75, 360));
    let g = ThirtyE360.day_count_fraction(&ymd(2024, 1, 31), &ymd(2024, 2, 29));
    assert_eq!(parts(&g), (29, 360));
}

#[test]
fn thirty_e_isda_termination_date_in_february() {
    let term = ymd(2024, 2, 29);
    let dc = ThirtyE360ISDA::new(term);
    assert_eq!(dc.termination_date, term);
    let f = dc.day_count_fraction(&ymd(2023, 11, 30), &ymd(2024, 2, 29));
    assert_eq!(parts(&f), (89, 360));
    let other = ThirtyE360ISDA::new(ymd(2025, 1, 1));
    let g = other.day_count_fraction(&ymd(2023, 11, 30), &ymd(2024, 2, 29));
    assert_eq!(parts(&g), (90, 360));
}

#[test]
fn thirty_e_isda_day_rules() {
    let dc = ThirtyE360ISDA::new(ymd(2030, 6, 30));
    // D1 on the last day of a 30-day month or of February becomes 30.
    let f = dc.day_count_fraction(&ymd(2023, 2, 28), &ymd(2023, 3, 15));
    assert_eq!(parts(&f), (15, 360));
    // D2 = 31 outside February is kept.
    let g = dc.day_count_fraction(&ymd(2024, 1, 15), &ymd(2024, 3, 31));
    assert_eq!(parts(&g), (76, 360));
    // 28 February of a leap year is not the last day of February.
    let h = dc.day_count_fraction(&ymd(2024, 1, 15), &ymd(2024, 2, 28));
    assert_eq!(parts(&h), (43, 360));
}

#[test]
fn thirty_e_plus_rolls_the_month() {
    let f = ThirtyEPlus360ISDA.day_count_fraction(&ymd(2024, 1, 31), &ymd(2024, 3, 31));
    assert_eq!(parts(&f), (61, 360));
    let g = ThirtyEPlus360ISDA.day_count_fraction(&ymd(2024, 1, 15), &ymd(2024, 12, 31));
    assert_eq!(parts(&g), (346, 360));
}

#[test]
fn same_date_gives_zero_or_one_day() {
    for d in [ymd(2024, 2, 29), ymd(2023, 1, 31), ymd(2023, 6, 15)] {
        assert_eq!(parts(&Actual360.day_count_fraction(&d, &d)), (0, 360));
        assert_eq!(parts(&Actual364.day_count_fraction(&d, &d)), (0, 364));
        assert_eq!(parts(&Actual365Fixed.day_count_fraction(&d, &d)), (0, 365));
        assert_eq!(parts(&Actual365A.day_count_fraction(&d, &d)), (0, 365));
        assert_eq!(parts(&Actual366.day_count_fraction(&d, &d)), (0, 366));
        assert_eq!(parts(&Actual36525.day_count_fraction(&d, &d)), (0, 1461));
        assert_eq!(parts(&NL365.day_count_fraction(&d, &d)), (0, 365));
        assert_eq!(parts(&Actual360Inc.day_count_fraction(&d, &d)), (1, 360));
        assert_eq!(parts(&Actual366Inc.day_count_fraction(&d, &d)), (1, 366));
        assert_eq!(value(&Actual36525Inc.day_count_fraction(&d, &d)), 4.0 / 1461.0);
        assert_eq!(parts(&Thirty360.day_count_fraction(&d, &d)), (0, 360));
        assert_eq!(parts(&ThirtyE360.day_count_fraction(&d, &d)), (0, 360));
    }
    let d = ymd(2023, 6, 15);
    assert_eq!(parts(&ThirtyEPlus360ISDA.day_count_fraction(&d, &d)), (0, 360));
    assert_eq!(parts(&ThirtyE360ISDA::new(d).day_count_fraction(&d, &d)), (0, 360));
}

#[test]
fn same_date_exceptions_of_the_e_conventions() {
    let d = ymd(2023, 1, 31);
    assert_eq!(parts(&ThirtyEPlus360ISDA.day_count_fraction(&d, &d)), (1, 360));
    let feb = ymd(2023, 2, 28);
    let at_term = ThirtyE360ISDA::new(feb);
    assert_eq!(parts(&at_term.day_count_fraction(&feb, &feb)), (-2, 360));
    let elsewhere = ThirtyE360ISDA::new(ymd(2030, 1, 1));
    assert_eq!(parts(&elsewhere.day_count_fraction(&feb, &feb)), (0, 360));
}

#[test]
fn one_one_is_always_one() {
    let a = ymd(2024, 7, 1);
    let b = ymd(2020, 1, 1);
    assert_eq!(value(&OneOne.day_count_fraction(&a, &b)), 1.0);
    assert_eq!(value(&OneOne.day_count_fraction(&b, &a)), 1.0);
    assert_eq!(value(&OneOne.day_count_fraction(&a, &a)), 1.0);
}

#[test]
fn reversed_dates_give_negative_fractions() {
    let s = ymd(2024, 1, 1);
    let e = ymd(2024, 7, 1);
    assert_eq!(parts(&Actual360.day_count_fraction(&e, &s)), (-182, 360));
    assert_eq!(parts(&Actual365Fixed.day_count_fraction(&e, &s)), (-182, 365));
    assert_eq!(parts(&Actual360Inc.day_count_fraction(&e, &s)), (-181, 360));
    assert_eq!(parts(&Thirty360.day_count_fraction(&e, &s)), (-180, 360));
}

#[test]
fn antisymmetry_does_not_hold_in_general() {
    let s = ymd(2023, 3, 1);
    let e = ymd(2024, 3, 1);
    assert_eq!(parts(&Actual365A.day_count_fraction(&s, &e)), (366, 366));
    assert_eq!(parts(&Actual365A.day_count_fraction(&e, &s)), (-366, 365));
    assert_eq!(parts(&NL365.day_count_fraction(&s, &e)), (365, 365));
    assert_eq!(parts(&NL365.day_count_fraction(&e, &s)), (-366, 365));
    let a = ymd(2024, 1, 15);
    let b = ymd(2024, 3, 31);
    assert_eq!(parts(&Thirty360.day_count_fraction(&a, &b)), (76, 360));
    assert_eq!(parts(&Thirty360.day_count_fraction(&b, &a)), (-75, 360));
    assert_eq!(parts(&Actual360.day_count_fraction(&a, &b)), (76, 360));
    assert_eq!(parts(&Actual360.day_count_fraction(&b, &a)), (-76, 360));
}

#[test]
fn fraction_round_trip() {
    let f = DayCountFraction::<Actual360>::new(7, 12);
    assert_eq!(f.numerator(), 7);
    assert_eq!(f.denominator(), 12);
    let g = DayCountFraction::<Actual360>::new(-i64::MAX, i64::MAX);
    assert_eq!(parts(&g), (-i64::MAX, i64::MAX));
}

#[test]
fn fractions_compare_by_value() {
    let a = DayCountFraction::<Actual365A>::new(366, 366);
    let b = DayCountFraction::<Actual365A>::new(365, 365);
    let c = DayCountFraction::<Actual365A>::new(364, 365);
    assert!(a == b);
    assert!(a != c);
    let big = DayCountFraction::<Actual365A>::new(i64::MAX, 1);
    let big2 = DayCountFraction::<Actual365A>::new(i64::MAX - 1, 1);
    assert!(big != big2);
    let x = Actual360.day_count_fraction(&ymd(2024, 1, 1), &ymd(2024, 7, 1));
    let y = Actual360.day_count_fraction(&ymd(2023, 1, 1), &ymd(2023, 7, 2));
    assert!(x == y);
}

#[test]
fn convention_names() {
    assert_eq!(Actual360.name(), "Actual/360");
    assert_eq!(Actual360Inc.name(), "Actual/360 (inc)");
    assert_eq!(Actual364.name(), "Actual/364");
    assert_eq!(Actual365Fixed.name(), "Actual/365 (Fixed)");
    assert_eq!(Actual365A.name(), "Actual/365 (A)");
    assert_eq!(Actual366.name(), "Actual/366");
    assert_eq!(Actual366Inc.name(), "Actual/366 (inc)");
    assert_eq!(Actual36525.name(), "Actual/365.25");
    assert_eq!(Actual36525Inc.name(), "Actual/365.25 (inc)");
    assert_eq!(NL365.name(), "NL/365");
    assert_eq!(OneOne.name(), "1/1");
    assert_eq!(Thirty360.name(), "30/360");
    assert_eq!(ThirtyE360.name(), "30E/360");
    assert_eq!(ThirtyE360ISDA::new(ymd(2024, 2, 29)).name(), "30E/360 (ISDA)");
    assert_eq!(ThirtyEPlus360ISDA.name(), "30E+/360 (ISDA)");
}
