//! In-world units and integer interpolation.

use vstd::prelude::*;

verus! {

/// One whole, as a fraction in parts per million.
pub const FRAC_ONE: u32 = 1_000_000;

/// `x / FRAC_ONE`, rounded to the nearest integer, halves rounding up.
pub open spec fn round_frac(x: nat) -> nat {
    ((2 * x + FRAC_ONE as nat) as nat / (2 * FRAC_ONE as nat) as nat) as nat
}

/// The value at `w` (parts per million) of the way from `a` to `b`, rounded
/// to the nearest integer, halves rounding away from `a`.
pub open spec fn lerp_value(a: nat, b: nat, w: nat) -> nat {
    if a <= b {
        a + round_frac(((b - a) as nat) * w)
    } else {
        (a - round_frac(((a - b) as nat) * w)) as nat
    }
}

proof fn lemma_round_frac_le(d: nat, w: nat)
    requires
        w <= FRAC_ONE,
    ensures
        round_frac(d * w) <= d,
{
    let one = FRAC_ONE as nat;
    assert(d * w <= d * one) by (nonlinear_arith)
        requires
            w <= one,
    ;
    assert(2 * (d * w) + one < 2 * one * (d + 1)) by (nonlinear_arith)
        requires
            d * w <= d * one,
            one > 0,
    ;
    assert((2 * (d * w) + one) / (2 * one) <= d) by (nonlinear_arith)
        requires
            2 * (d * w) + one < 2 * one * (d + 1),
            one > 0,
    ;
}

/// Interpolation at zero gives the start and at one whole gives the end.
pub proof fn lemma_lerp_endpoints(a: nat, b: nat)
    ensures
        lerp_value(a, b, 0) == a,
        lerp_value(a, b, FRAC_ONE as nat) == b,
{
    let one = FRAC_ONE as nat;
    if a <= b {
        let d = (b - a) as nat;
        assert((2 * (d * one) + one) / (2 * one) == d) by (nonlinear_arith)
            requires
                one > 0,
        ;
    } else {
        let d = (a - b) as nat;
        assert((2 * (d * one) + one) / (2 * one) == d) by (nonlinear_arith)
            requires
                one > 0,
        ;
    }
}

/// Interpolation never leaves the interval between its two ends.
pub proof fn lemma_lerp_between(a: nat, b: nat, w: nat)
    requires
        w <= FRAC_ONE,
    ensures
        a <= b ==> a <= lerp_value(a, b, w) <= b,
        b < a ==> b <= lerp_value(a, b, w) <= a,
{
    if a <= b {
        lemma_round_frac_le((b - a) as nat, w);
    } else {
        lemma_round_frac_le((a - b) as nat, w);
    }
}

/// The integer `weight` (parts per million) of the way from `a` to `b`.
pub fn lerp_u32(a: u32, b: u32, weight: u32) -> (r: u32)
    requires
        weight <= FRAC_ONE,
    ensures
        r as nat == lerp_value(a as nat, b as nat, weight as nat),
{
    if a <= b {
        let d: u64 = (b - a) as u64;
        proof {
            lemma_round_frac_le(d as nat, weight as nat);
            assert(d * (weight as u64) <= 0xffff_ffff * (FRAC_ONE as u64)) by (nonlinear_arith)
                requires
                    weight <= FRAC_ONE,
                    d <= 0xffff_ffff,
            ;
        }
        let step: u64 = (2 * (d * weight as u64) + FRAC_ONE as u64) / (2 * FRAC_ONE as u64);
        a + step as u32
    } else {
        let d: u64 = (a - b) as u64;
        proof {
            lemma_round_frac_le(d as nat, weight as nat);
            assert(d * (weight as u64) <= 0xffff_ffff * (FRAC_ONE as u64)) by (nonlinear_arith)
                requires
                    weight <= FRAC_ONE,
                    d <= 0xffff_ffff,
            ;
        }
        let step: u64 = (2 * (d * weight as u64) + FRAC_ONE as u64) / (2 * FRAC_ONE as u64);
        a - step as u32
    }
}

/// A weight in ounces.
#[derive(Clone, Copy, Debug, PartialEq, Eq, Structural)]
pub struct Ounces(pub u32);

impl Ounces {
    /// The weight of `lbs` pounds and `ozs` ounces.
    pub fn from_lbs_ozs(lbs: u32, ozs: u32) -> (r: Ounces)
        requires
            lbs * 16 + ozs <= u32::MAX,
        ensures
            r.0 == lbs * 16 + ozs,
    {
        Ounces(lbs * 16 + ozs)
    }

    /// Whole pounds and the ounces left over.
    pub fn lbs_ozs(self) -> (r: (u32, u32))
        ensures
            r.0 == self.0 / 16,
            r.1 == self.0 % 16,
            r.0 * 16 + r.1 == self.0,
    {
        (self.0 / 16, self.0 % 16)
    }

    /// The weight `weight` (parts per million) of the way to `other`.
    pub fn lerp(&self, other: &Ounces, weight: u32) -> (r: Ounces)
        requires
            weight <= FRAC_ONE,
        ensures
            r.0 as nat == lerp_value(self.0 as nat, other.0 as nat, weight as nat),
    {
        Ounces(lerp_u32(self.0, other.0, weight))
    }
}

/// A length in inches; one inch is one world unit.
#[derive(Clone, Copy, Debug, PartialEq, Eq, Structural)]
pub struct Inches(pub u32);

impl Inches {
    /// The length of `ft` feet and `ins` inches.
    pub fn from_ft_ins(ft: u32, ins: u32) -> (r: Inches)
        requires
            ft * 12 + ins <= u32::MAX,
        ensures
            r.0 == ft * 12 + ins,
    {
        Inches(ft * 12 + ins)
    }

    /// Whole feet and the inches left over.
    pub fn ft_ins(&self) -> (r: (u32, u32))
        ensures
            r.0 == self.0 / 12,
            r.1 == self.0 % 12,
            r.0 * 12 + r.1 == self.0,
    {
        (self.0 / 12, self.0 % 12)
    }

    /// The length `weight` (parts per million) of the way to `other`.
    pub fn lerp(&self, other: &Inches, weight: u32) -> (r: Inches)
        requires
            weight <= FRAC_ONE,
        ensures
            r.0 as nat == lerp_value(self.0 as nat, other.0 as nat, weight as nat),
    {
        Inches(lerp_u32(self.0, other.0, weight))
    }
}

} // verus!
