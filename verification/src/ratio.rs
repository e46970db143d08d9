//! Exact fractions for settings that are not whole numbers.

use vstd::prelude::*;

verus! {

/// The fraction `numer / denom`. A denominator of zero marks an unusable setting.
#[derive(Clone, Copy, Debug, PartialEq, Eq, Structural)]
pub struct Ratio {
    pub numer: u64,
    pub denom: u64,
}

impl Ratio {
    /// The fraction lies strictly between zero and one.
    pub open spec fn is_proper(self) -> bool {
        0 < self.numer < self.denom
    }

    /// The largest whole number not above `count * numer / denom`.
    pub open spec fn floor_of(self, count: nat) -> nat
        recommends
            self.denom > 0,
    {
        ((count as int * self.numer as int) / (self.denom as int)) as nat
    }

    /// Builds `numer / denom`.
    pub fn new(numer: u64, denom: u64) -> (out: Self)
        ensures
            out.numer == numer,
            out.denom == denom,
    {
        Ratio { numer, denom }
    }

    /// Tells whether the fraction lies strictly between zero and one.
    pub fn proper(&self) -> (b: bool)
        ensures
            b == self.is_proper(),
    {
        0 < self.numer && self.numer < self.denom
    }

    /// Scales a count by a fraction of at most one and rounds down. The result
    /// never exceeds the count.
    pub(crate) fn floor_scaled(&self, count: usize) -> (out: usize)
        requires
            0 < self.denom,
            self.numer <= self.denom,
        ensures
            out == self.floor_of(count as nat),
            out <= count,
    {
        let wide: u128 = count as u128;
        let numer: u128 = self.numer as u128;
        let denom: u128 = self.denom as u128;
        assert(wide * numer <= wide * denom && wide * denom <= 0xffff_ffff_ffff_ffff
            * 0xffff_ffff_ffff_ffff) by (nonlinear_arith)
            requires
                numer <= denom,
                0 <= wide <= 0xffff_ffff_ffff_ffff,
                0 <= denom <= 0xffff_ffff_ffff_ffff,
        ;
        let scaled: u128 = wide * numer / denom;
        assert(0 <= scaled <= wide) by (nonlinear_arith)
            requires
                scaled as int == (wide as int * numer as int) / (denom as int),
                wide * numer <= wide * denom,
                0 < denom,
                0 <= wide,
                0 <= numer,
        ;
        scaled as usize
    }
}

/// A proper fraction of a count is a whole number between zero and the count.
pub proof fn floor_of_proper_is_bounded(fraction: Ratio, count: nat)
    requires
        fraction.is_proper(),
    ensures
        fraction.floor_of(count) <= count,
        count > 0 ==> fraction.floor_of(count) < count,
{
    let n = fraction.numer as int;
    let d = fraction.denom as int;
    let c = count as int;
    assert((c * n) / d <= c) by (nonlinear_arith)
        requires
            0 < n < d,
            0 <= c,
    ;
    if count > 0 {
        assert((c * n) / d < c) by (nonlinear_arith)
            requires
                0 < n < d,
                0 < c,
        ;
    }
}

} // verus!
