//! Exact fractions, the arithmetic in which logical screen coordinates are
//! computed: a physical pixel count divided by a monitor's scale factor is
//! rarely a whole number, and no rounding is applied anywhere.

use vstd::prelude::*;

verus! {

/// A mathematical fraction `num / den`. It denotes a number when `den > 0`.
pub struct Fraction {
    pub num: int,
    pub den: int,
}

impl Fraction {
    /// Numerator and denominator are both positive.
    pub open spec fn positive(self) -> bool {
        self.num > 0 && self.den > 0
    }

    /// The whole number `k` divided by the fraction `by`.
    pub open spec fn whole_over(k: int, by: Fraction) -> Fraction {
        Fraction { num: k * by.den, den: by.num }
    }

    /// `self - k` for a whole number `k`.
    pub open spec fn minus(self, k: int) -> Fraction {
        Fraction { num: self.num - k * self.den, den: self.den }
    }

    /// `self + k` for a whole number `k`.
    pub open spec fn plus(self, k: int) -> Fraction {
        Fraction { num: self.num + k * self.den, den: self.den }
    }

    /// `2 * self`.
    pub open spec fn twice(self) -> Fraction {
        Fraction { num: 2 * self.num, den: self.den }
    }

    /// `self / 2`.
    pub open spec fn half(self) -> Fraction {
        Fraction { num: self.num, den: 2 * self.den }
    }

    /// `self * other`.
    pub open spec fn times(self, other: Fraction) -> Fraction {
        Fraction { num: self.num * other.num, den: self.den * other.den }
    }

    /// Whether two fractions denote the same number.
    pub open spec fn same(self, other: Fraction) -> bool {
        self.num * other.den == other.num * self.den
    }

    /// Whether the fraction denotes the whole number `k`.
    pub open spec fn is_whole(self, k: int) -> bool {
        self.num == k * self.den
    }

    /// `self >= k` for a whole number `k`, given `self.den > 0`.
    pub open spec fn at_least(self, k: int) -> bool {
        self.num >= k * self.den
    }
}

/// A fraction held in machine integers, with a positive denominator. It is
/// kept as it was computed, not reduced: `==` compares numerators and
/// denominators, so `2/4` and `1/2` are different values of this type.
#[derive(Clone, Copy, Debug, PartialEq, Eq)]
pub struct Ratio {
    numer: i128,
    denom: u128,
}

impl View for Ratio {
    type V = Fraction;

    closed spec fn view(&self) -> Fraction {
        Fraction { num: self.numer as int, den: self.denom as int }
    }
}

impl Ratio {
    #[verifier::type_invariant]
    spec fn positive_denominator(self) -> bool {
        self.denom > 0
    }

    /// The fraction `numer / denom`, or `None` when `denom` is zero.
    pub fn new(numer: i128, denom: u128) -> (r: Option<Ratio>)
        ensures
            r is Some <==> denom > 0,
            r matches Some(q) ==> q@ == (Fraction { num: numer as int, den: denom as int }),
    {
        if denom > 0 {
            Some(Ratio { numer, denom })
        } else {
            None
        }
    }

    /// The numerator.
    pub fn numer(&self) -> (n: i128)
        ensures
            n == self@.num,
    {
        self.numer
    }

    /// The denominator, which is never zero.
    pub fn denom(&self) -> (d: u128)
        ensures
            d == self@.den,
            d > 0,
    {
        proof {
            use_type_invariant(self);
        }
        self.denom
    }

    /// Whether the fraction is below zero.
    pub fn is_negative(&self) -> (b: bool)
        ensures
            b == !self@.at_least(0),
    {
        self.numer < 0
    }
}

} // verus!
