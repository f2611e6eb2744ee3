//! The scale factor of a monitor: how many physical pixels make one logical
//! unit. It is held as an exact fraction, and read without loss from the
//! double-precision number in which window systems report it.

use vstd::prelude::*;
use vstd::arithmetic::power2::pow2;
use vstd::arithmetic::power2::lemma_pow2_pos;
use vstd::arithmetic::power2::lemma_pow2_unfold;
use vstd::arithmetic::power2::lemma_pow2_strictly_increases;
use vstd::arithmetic::power2::lemma2_to64;
use vstd::arithmetic::power2::lemma2_to64_rest;
use crate::fraction::Fraction;

verus! {

/// The sign bit of a 64-bit pattern read as an IEEE 754 double.
pub open spec fn binary64_sign(bits: u64) -> int {
    bits as int / 0x8000_0000_0000_0000
}

/// The eleven exponent bits of the pattern, biased by 1023.
pub open spec fn binary64_exponent(bits: u64) -> int {
    (bits as int / 0x10_0000_0000_0000) % 0x800
}

/// The 53-bit significand of a normal number: the hidden leading one and the
/// 52 stored bits.
pub open spec fn binary64_significand(bits: u64) -> int {
    0x10_0000_0000_0000 + bits as int % 0x10_0000_0000_0000
}

/// The pattern encodes a positive number from 2^-11 up to, but not
/// including, 2^64: the range in which its exact value fits in a
/// `ScaleFactor`.
pub open spec fn binary64_in_range(bits: u64) -> bool {
    binary64_sign(bits) == 0 && 1012 <= binary64_exponent(bits) <= 1086
}

/// The exact value of a pattern in that range: significand * 2^(exponent - 1075).
pub open spec fn binary64_value(bits: u64) -> Fraction {
    let e = binary64_exponent(bits);
    if e >= 1075 {
        Fraction { num: binary64_significand(bits) * pow2((e - 1075) as nat), den: 1 }
    } else {
        Fraction { num: binary64_significand(bits), den: pow2((1075 - e) as nat) as int }
    }
}

/// 2^k in a `u64`.
fn power_of_two(k: u64) -> (p: u64)
    requires
        k <= 63,
    ensures
        p == pow2(k as nat),
{
    let mut p: u64 = 1;
    let mut i: u64 = 0;
    proof {
        lemma2_to64();
    }
    while i < k
        invariant
            i <= k <= 63,
            p == pow2(i as nat),
        decreases k - i,
    {
        proof {
            lemma_pow2_unfold((i + 1) as nat);
            if i + 1 < 63 {
                lemma_pow2_strictly_increases((i + 1) as nat, 63);
            }
            lemma2_to64_rest();
        }
        p = p * 2;
        i = i + 1;
    }
    p
}

/// How many physical pixels make one logical unit: a positive fraction.
#[derive(Clone, Copy, Debug, PartialEq, Eq)]
pub struct ScaleFactor {
    numer: u64,
    denom: u64,
}

impl View for ScaleFactor {
    type V = Fraction;

    closed spec fn view(&self) -> Fraction {
        Fraction { num: self.numer as int, den: self.denom as int }
    }
}

impl ScaleFactor {
    #[verifier::type_invariant]
    spec fn is_positive(self) -> bool {
        self.numer > 0 && self.denom > 0
    }

    /// The scale factor `numer / denom`, or `None` unless both are positive.
    pub fn new(numer: u64, denom: u64) -> (r: Option<ScaleFactor>)
        ensures
            r is Some <==> numer > 0 && denom > 0,
            r matches Some(s) ==> s@ == (Fraction { num: numer as int, den: denom as int }),
            r matches Some(s) ==> s@.positive(),
    {
        if numer > 0 && denom > 0 {
            Some(ScaleFactor { numer, denom })
        } else {
            None
        }
    }

    /// The exact value of a scale factor that the window system reports as
    /// an IEEE 754 double, given by its bit pattern. `None` for zero,
    /// negative numbers, infinities, NaN, and whatever is below 2^-11 or
    /// not below 2^64.
    pub fn from_binary64(bits: u64) -> (r: Option<ScaleFactor>)
        ensures
            r is Some <==> binary64_in_range(bits),
            r matches Some(s) ==> s@ == binary64_value(bits),
            r matches Some(s) ==> s@.positive(),
    {
        let sign: u64 = bits / 0x8000_0000_0000_0000;
        let exponent: u64 = (bits / 0x10_0000_0000_0000) % 0x800;
        let significand: u64 = 0x10_0000_0000_0000 + bits % 0x10_0000_0000_0000;
        if sign != 0 || exponent < 1012 || exponent > 1086 {
            return None;
        }
        if exponent >= 1075 {
            let p: u64 = power_of_two(exponent - 1075);
            proof {
                lemma2_to64();
                if exponent - 1075 < 11 {
                    lemma_pow2_strictly_increases((exponent - 1075) as nat, 11);
                }
                assert(significand * p <= 0x1f_ffff_ffff_ffff * 0x800) by (nonlinear_arith)
                    requires
                        significand <= 0x1f_ffff_ffff_ffff,
                        p <= 0x800,
                ;
                assert(significand * p >= 1) by (nonlinear_arith)
                    requires
                        significand >= 1,
                        p >= 1,
                ;
            }
            Some(ScaleFactor { numer: significand * p, denom: 1 })
        } else {
            let p: u64 = power_of_two(1075 - exponent);
            proof {
                lemma_pow2_pos((1075 - exponent) as nat);
            }
            Some(ScaleFactor { numer: significand, denom: p })
        }
    }

    /// The numerator, which is never zero.
    pub fn numer(&self) -> (n: u64)
        ensures
            n == self@.num,
            n > 0,
    {
        proof {
            use_type_invariant(self);
        }
        self.numer
    }

    /// The denominator, which is never zero.
    pub fn denom(&self) -> (d: u64)
        ensures
            d == self@.den,
            d > 0,
    {
        proof {
            use_type_invariant(self);
        }
        self.denom
    }
}

} // verus!
