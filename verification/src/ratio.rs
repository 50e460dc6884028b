//! Exact ratios of two dimensions, and their order.

use vstd::prelude::*;
use vstd::std_specs::cmp::{PartialEqSpecImpl, PartialOrdSpecImpl};
use core::cmp::Ordering;
use crate::error::ArithmeticError;

verus! {

/// The number `numerator / denominator`, kept unevaluated.
///
/// A ratio whose denominator is zero stands for no number: it equals nothing,
/// itself included, and is neither below nor above anything.
#[derive(Debug, Clone, Copy)]
pub struct Ratio {
    pub numerator: u32,
    pub denominator: u32,
}

/// `a * b`, widened so that it cannot overflow.
fn product(a: u32, b: u32) -> (p: u64)
    ensures
        p == a * b,
{
    assert(a * b <= 0xFFFF_FFFF * 0xFFFF_FFFF) by (nonlinear_arith)
        requires
            a <= 0xFFFF_FFFF,
            b <= 0xFFFF_FFFF,
    ;
    (a as u64) * (b as u64)
}

impl Ratio {
    /// Whether the ratio stands for a number.
    pub open spec fn wf(self) -> bool {
        self.denominator > 0
    }

    /// `self <= other` as numbers, decided by cross-multiplication.
    pub open spec fn at_most(self, other: Ratio) -> bool {
        self.numerator * other.denominator <= other.numerator * self.denominator
    }

    /// `self == other` as numbers, decided by cross-multiplication.
    pub open spec fn same(self, other: Ratio) -> bool {
        self.numerator * other.denominator == other.numerator * self.denominator
    }

    /// The smaller of two ratios; `self` where they are the same number.
    pub open spec fn lesser(self, other: Ratio) -> Ratio {
        if self.at_most(other) {
            self
        } else {
            other
        }
    }

    /// The larger of two ratios; `other` where they are the same number.
    pub open spec fn greater(self, other: Ratio) -> Ratio {
        if self.at_most(other) {
            other
        } else {
            self
        }
    }

    /// The multiplier that changes nothing.
    pub open spec fn unit() -> Ratio {
        Ratio { numerator: 1, denominator: 1 }
    }

    /// Checked division: the ratio `dividend / divisor`, or the failure where
    /// `divisor` is zero.
    pub fn new(dividend: u32, divisor: u32) -> (r: Result<Ratio, ArithmeticError>)
        ensures
            divisor == 0 ==> r == Err::<Ratio, ArithmeticError>(
                ArithmeticError::DivideByZero { dividend },
            ),
            divisor != 0 ==> r == Ok::<Ratio, ArithmeticError>(
                Ratio { numerator: dividend, denominator: divisor },
            ),
    {
        if divisor == 0 {
            Err(ArithmeticError::DivideByZero { dividend })
        } else {
            Ok(Ratio { numerator: dividend, denominator: divisor })
        }
    }

    /// The multiplier that changes nothing, `1 / 1`.
    #[must_use]
    pub fn one() -> (r: Ratio)
        ensures
            r == Ratio::unit(),
    {
        Ratio { numerator: 1, denominator: 1 }
    }

    /// The smaller of the two.
    #[must_use]
    pub fn min(self, other: Ratio) -> (r: Ratio)
        ensures
            r == self.lesser(other),
    {
        if product(self.numerator, other.denominator) <= product(
            other.numerator,
            self.denominator,
        ) {
            self
        } else {
            other
        }
    }

    /// The larger of the two.
    #[must_use]
    pub fn max(self, other: Ratio) -> (r: Ratio)
        ensures
            r == self.greater(other),
    {
        if product(self.numerator, other.denominator) <= product(
            other.numerator,
            self.denominator,
        ) {
            other
        } else {
            self
        }
    }

    /// Every ratio is at most itself.
    pub proof fn at_most_reflexive(self)
        ensures
            self.at_most(self),
    {
    }

    /// Of two ratios one is at most the other.
    pub proof fn at_most_total(self, other: Ratio)
        ensures
            self.at_most(other) || other.at_most(self),
    {
    }

    /// The order passes through a ratio that stands for a number.
    pub proof fn at_most_transitive(self, mid: Ratio, other: Ratio)
        requires
            self.wf(),
            mid.wf(),
            other.wf(),
            self.at_most(mid),
            mid.at_most(other),
        ensures
            self.at_most(other),
    {
        let (a, b) = (self.numerator as int, self.denominator as int);
        let (c, d) = (mid.numerator as int, mid.denominator as int);
        let (e, f) = (other.numerator as int, other.denominator as int);
        assert(a * f <= e * b) by (nonlinear_arith)
            requires
                a * d <= c * b,
                c * f <= e * d,
                0 <= a,
                0 <= c,
                0 <= e,
                0 < b,
                0 < d,
                0 < f,
        ;
    }

    /// The smaller of two ratios is one of them and at most both.
    pub proof fn lesser_is_lower_bound(self, other: Ratio)
        ensures
            self.lesser(other) == self || self.lesser(other) == other,
            self.lesser(other).at_most(self),
            self.lesser(other).at_most(other),
    {
    }

    /// The larger of two ratios is one of them and at least both.
    pub proof fn greater_is_upper_bound(self, other: Ratio)
        ensures
            self.greater(other) == self || self.greater(other) == other,
            self.at_most(self.greater(other)),
            other.at_most(self.greater(other)),
    {
    }
}

impl PartialEq for Ratio {
    /// Whether both stand for numbers, and for the same one.
    fn eq(&self, other: &Ratio) -> (equal: bool) {
        self.denominator != 0 && other.denominator != 0 && product(
            self.numerator,
            other.denominator,
        ) == product(other.numerator, self.denominator)
    }
}

impl PartialEqSpecImpl for Ratio {
    open spec fn obeys_eq_spec() -> bool {
        true
    }

    open spec fn eq_spec(&self, other: &Ratio) -> bool {
        self.wf() && other.wf() && self.same(*other)
    }
}

impl PartialOrd for Ratio {
    /// How the two numbers lie to each other; nothing where one of the two
    /// stands for no number.
    fn partial_cmp(&self, other: &Ratio) -> (order: Option<Ordering>) {
        if self.denominator == 0 || other.denominator == 0 {
            return None;
        }
        let left = product(self.numerator, other.denominator);
        let right = product(other.numerator, self.denominator);
        if left < right {
            Some(Ordering::Less)
        } else if left == right {
            Some(Ordering::Equal)
        } else {
            Some(Ordering::Greater)
        }
    }
}

impl PartialOrdSpecImpl for Ratio {
    open spec fn obeys_partial_cmp_spec() -> bool {
        true
    }

    open spec fn partial_cmp_spec(&self, other: &Ratio) -> Option<Ordering> {
        if !self.wf() || !other.wf() {
            None
        } else if self.numerator * other.denominator < other.numerator * self.denominator {
            Some(Ordering::Less)
        } else if self.same(*other) {
            Some(Ordering::Equal)
        } else {
            Some(Ordering::Greater)
        }
    }
}

} // verus!
