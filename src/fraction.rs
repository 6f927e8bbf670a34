//! Fractions tagged with the convention that produced them, and the trait
//! that every convention implements.
use vstd::prelude::*;

use crate::date::Date;

verus! {

/// A day count convention: a rule that maps two dates to a fraction of a
/// year.
pub trait DayCounter: Sized + Copy {
    /// The fraction from `start` to `end` under this convention, as a
    /// numerator and a positive denominator.
    spec fn spec_fraction(&self, start: Date, end: Date) -> (int, int);

    /// The display name of the convention.
    spec fn spec_name(&self) -> Seq<char>;

    /// Given two dates, calculate the day count fraction between them.
    fn day_count_fraction(&self, start: &Date, end: &Date) -> (r: DayCountFraction<Self>)
        requires
            start.wf(),
            end.wf(),
        ensures
            r.numerator() == self.spec_fraction(*start, *end).0,
            r.denominator() == self.spec_fraction(*start, *end).1,
    ;

    /// The display name of the convention.
    fn name(&self) -> (r: &'static str)
        ensures
            r@ == self.spec_name(),
    ;
}

/// A day count fraction, held exactly as a numerator over a positive
/// denominator, together with the convention `D` that produced it. Only
/// fractions of the same convention can be compared with `==`.
pub struct DayCountFraction<D> {
    numerator: i64,
    denominator: i64,
    _marker: core::marker::PhantomData<D>,
}

impl<D> DayCountFraction<D> {
    pub closed spec fn spec_numerator(&self) -> i64 {
        self.numerator
    }

    pub closed spec fn spec_denominator(&self) -> i64 {
        self.denominator
    }

    /// The fraction as a rational number: numerator and denominator.
    pub open spec fn value(&self) -> (int, int) {
        (self.spec_numerator() as int, self.spec_denominator() as int)
    }

    /// Create the fraction `numerator / denominator` under convention `D`.
    pub fn new(numerator: i64, denominator: i64) -> (r: Self)
        requires
            denominator > 0,
        ensures
            r.numerator() == numerator,
            r.denominator() == denominator,
    {
        DayCountFraction { numerator, denominator, _marker: core::marker::PhantomData }
    }

    /// The numerator, exactly as given at construction.
    #[verifier::when_used_as_spec(spec_numerator)]
    pub fn numerator(&self) -> (r: i64)
        ensures
            r == self.spec_numerator(),
    {
        self.numerator
    }

    /// The denominator, exactly as given at construction.
    #[verifier::when_used_as_spec(spec_denominator)]
    pub fn denominator(&self) -> (r: i64)
        ensures
            r == self.spec_denominator(),
    {
        self.denominator
    }
}

/// Two fractions of one convention are equal when they stand for the same
/// rational number.
pub open spec fn same_value(a: (int, int), b: (int, int)) -> bool {
    a.0 * b.1 == b.0 * a.1
}

impl<D: DayCounter> PartialEq for DayCountFraction<D> {
    fn eq(&self, other: &Self) -> (r: bool) {
        let a = self.numerator as i128;
        let b = other.denominator as i128;
        let c = other.numerator as i128;
        let d = self.denominator as i128;
        proof {
            lemma_product_fits(a as int, b as int);
            lemma_product_fits(c as int, d as int);
        }
        a * b == c * d
    }
}

/// The product of two 64-bit integers fits in 128 bits.
proof fn lemma_product_fits(x: int, y: int)
    requires
        i64::MIN <= x <= i64::MAX,
        i64::MIN <= y <= i64::MAX,
    ensures
        i128::MIN <= x * y <= i128::MAX,
{
    assert(-0x4000_0000_0000_0000_0000_0000_0000_0000 <= x * y <= 0x4000_0000_0000_0000_0000_0000_0000_0000)
        by (nonlinear_arith)
        requires
            -0x8000_0000_0000_0000 <= x <= 0x7fff_ffff_ffff_ffff,
            -0x8000_0000_0000_0000 <= y <= 0x7fff_ffff_ffff_ffff,
    ;
}

impl<D: DayCounter> vstd::std_specs::cmp::PartialEqSpecImpl for DayCountFraction<D> {
    open spec fn obeys_eq_spec() -> bool {
        true
    }

    open spec fn eq_spec(&self, other: &Self) -> bool {
        same_value(self.value(), other.value())
    }
}

} // verus!
