//! Exact rational numbers over `i128`, the value domain of the telemetry
//! encoder.
//!
//! Sensor readings are mapped onto an output range given in fixed-point
//! units; every intermediate value of that mapping is a quotient of two
//! machine integers, so the mapping can be computed and specified exactly,
//! with no rounding until a caller converts the result to its own number
//! format.

use vstd::prelude::*;

verus! {

/// The value `num / den`. Well-formed values have a positive denominator.
#[derive(Clone, Copy, Debug, PartialEq, Eq, Structural)]
pub struct Ratio {
    pub num: i128,
    pub den: i128,
}

/// The whole number `n` as a ratio.
pub open spec fn int_ratio(n: int) -> Ratio {
    Ratio { num: n as i128, den: 1 }
}

/// `v` forced into the inclusive interval `[lo, hi]`.
pub open spec fn clamp_ratio(v: Ratio, lo: int, hi: int) -> Ratio {
    if v.num < lo * v.den {
        int_ratio(lo)
    } else if v.num > hi * v.den {
        int_ratio(hi)
    } else {
        v
    }
}

impl Ratio {
    /// Denominators are kept positive so that comparisons need no sign
    /// analysis.
    pub open spec fn wf(self) -> bool {
        self.den > 0
    }

    /// Value comparison by cross-multiplication; meaningful for well-formed
    /// ratios.
    pub open spec fn le(self, other: Ratio) -> bool {
        self.num * other.den <= other.num * self.den
    }

    /// Value equality by cross-multiplication; meaningful for well-formed
    /// ratios.
    pub open spec fn eq_value(self, other: Ratio) -> bool {
        self.num * other.den == other.num * self.den
    }

    /// The whole number `n` as a ratio.
    pub fn from_i64(n: i64) -> (r: Ratio)
        ensures
            r == int_ratio(n as int),
            r.wf(),
    {
        Ratio { num: n as i128, den: 1 }
    }

    /// Value comparison. The `requires` rule out overflow of the cross
    /// products; they hold of every value the encoder produces.
    pub fn is_le(&self, other: &Ratio) -> (b: bool)
        requires
            self.wf(),
            other.wf(),
            i128::MIN <= self.num * other.den <= i128::MAX,
            i128::MIN <= other.num * self.den <= i128::MAX,
        ensures
            b == self.le(*other),
    {
        self.num * other.den <= other.num * self.den
    }

    /// Value equality. The `requires` rule out overflow of the cross
    /// products; they hold of every value the encoder produces.
    pub fn same_value(&self, other: &Ratio) -> (b: bool)
        requires
            self.wf(),
            other.wf(),
            i128::MIN <= self.num * other.den <= i128::MAX,
            i128::MIN <= other.num * self.den <= i128::MAX,
        ensures
            b == self.eq_value(*other),
    {
        self.num * other.den == other.num * self.den
    }
}

/// Clamping keeps the interval: the result lies between `lo` and `hi`.
pub proof fn lemma_clamp_bounds(v: Ratio, lo: int, hi: int)
    requires
        v.wf(),
        lo <= hi,
        i128::MIN <= lo <= i128::MAX,
        i128::MIN <= hi <= i128::MAX,
    ensures
        int_ratio(lo).le(clamp_ratio(v, lo, hi)),
        clamp_ratio(v, lo, hi).le(int_ratio(hi)),
        clamp_ratio(v, lo, hi).wf(),
{
    if v.num < lo * v.den {
        assert(int_ratio(lo).le(int_ratio(lo)));
        assert(int_ratio(lo).le(int_ratio(hi)));
    } else if v.num > hi * v.den {
        assert(int_ratio(lo).le(int_ratio(hi)));
        assert(int_ratio(hi).le(int_ratio(hi)));
    } else {
        assert(lo * v.den <= v.num * 1) by (nonlinear_arith)
            requires
                v.num >= lo * v.den,
        ;
        assert(v.num * 1 <= hi * v.den) by (nonlinear_arith)
            requires
                v.num <= hi * v.den,
        ;
    }
}

/// A value above the ceiling is not below the floor, so it clamps to the
/// ceiling.
proof fn lemma_above_hi_clamps_to_hi(v: Ratio, lo: int, hi: int)
    requires
        v.wf(),
        lo <= hi,
        v.num > hi * v.den,
    ensures
        clamp_ratio(v, lo, hi) == int_ratio(hi),
{
    assert(lo * v.den <= hi * v.den) by (nonlinear_arith)
        requires
            v.den > 0,
            lo <= hi,
    ;
}

/// Clamping two comparable values keeps their order.
pub proof fn lemma_clamp_monotone(v1: Ratio, v2: Ratio, lo: int, hi: int)
    requires
        v1.wf(),
        v2.wf(),
        lo <= hi,
        i128::MIN <= lo <= i128::MAX,
        i128::MIN <= hi <= i128::MAX,
        v1.le(v2),
    ensures
        clamp_ratio(v1, lo, hi).le(clamp_ratio(v2, lo, hi)),
{
    assert(lo as i128 == lo);
    assert(hi as i128 == hi);
    if v1.num < lo * v1.den {
        // v1 clamps to the floor; the floor is below every possible result.
        if v2.num < lo * v2.den {
        } else if v2.num > hi * v2.den {
            lemma_above_hi_clamps_to_hi(v2, lo, hi);
            assert(int_ratio(lo).le(int_ratio(hi)));
        } else {
            assert(int_ratio(lo).le(v2));
        }
    } else if v1.num > hi * v1.den {
        // v1 sits above the ceiling, so v2 does too: both clamp to hi.
        assert(v2.num > hi * v2.den) by (nonlinear_arith)
            requires
                v1.den > 0,
                v2.den > 0,
                v1.num * v2.den <= v2.num * v1.den,
                v1.num > hi * v1.den,
        ;
        lemma_above_hi_clamps_to_hi(v1, lo, hi);
        lemma_above_hi_clamps_to_hi(v2, lo, hi);
        assert(int_ratio(hi).le(int_ratio(hi)));
    } else {
        // v1 is inside the interval.
        if v2.num < lo * v2.den {
            // Impossible: v2 would lie strictly below v1's floor.
            assert(false) by (nonlinear_arith)
                requires
                    v1.den > 0,
                    v2.den > 0,
                    v1.num * v2.den <= v2.num * v1.den,
                    v2.num < lo * v2.den,
                    v1.num >= lo * v1.den,
            ;
        } else if v2.num > hi * v2.den {
            lemma_above_hi_clamps_to_hi(v2, lo, hi);
            assert(v1.le(int_ratio(hi)));
        }
    }
}

} // verus!
