//! The exact value of a finite coordinate.

use crate::geometry::{
    resized_frame, sides_toward, AxisMeasure, Edges, Point, Rect, ResizeMeasure,
};
use crate::scalar::{Scalar, INFINITY_BITS, SIGN_BIT};
use vstd::arithmetic::power2::{
    lemma2_to64, lemma2_to64_rest, lemma_pow2_adds, lemma_pow2_pos, lemma_pow2_strictly_increases,
    lemma_pow2_unfold, pow2,
};
use vstd::prelude::*;

verus! {

/// How many patterns share an exponent.
pub const FRACTIONS: u64 = 0x0010_0000_0000_0000;

/// How many of the least positive numbers make up one.
pub open spec fn unit() -> int {
    pow2(1074) as int
}

/// The number with the given pattern, which has no sign, in multiples of the
/// least positive number.
pub open spec fn magnitude_units(magnitude: int) -> int {
    let exponent = magnitude / FRACTIONS as int;
    let fraction = magnitude % FRACTIONS as int;
    if exponent == 0 {
        fraction
    } else {
        (FRACTIONS + fraction) * pow2((exponent - 1) as nat)
    }
}

impl Scalar {
    /// The pattern stands for a number other than the infinities.
    pub open spec fn finite(self) -> bool {
        self.magnitude() < INFINITY_BITS
    }

    /// The exact number that a finite pattern stands for, in multiples of the
    /// least positive number.
    pub open spec fn units(self) -> int {
        if self.bits < SIGN_BIT {
            magnitude_units(self.magnitude())
        } else {
            -magnitude_units(self.magnitude())
        }
    }
}

impl Point {
    pub open spec fn finite(self) -> bool {
        self.x.finite() && self.y.finite()
    }
}

impl Rect {
    pub open spec fn finite(self) -> bool {
        self.origin.finite() && self.size.width.finite() && self.size.height.finite()
    }
}

/// `edges` are exactly the sides of `rect`.
pub open spec fn exact_sides(rect: Rect, edges: Edges) -> bool {
    &&& rect.finite()
    &&& edges.min_x.finite() && edges.max_x.finite() && edges.min_y.finite()
        && edges.max_y.finite()
    &&& edges.min_x.units() == rect.origin.x.units()
    &&& edges.max_x.units() == rect.origin.x.units() + rect.size.width.units()
    &&& edges.min_y.units() == rect.origin.y.units()
    &&& edges.max_y.units() == rect.origin.y.units() + rect.size.height.units()
}

/// `point` lies within `rect`, by their exact values; the sides count.
pub open spec fn exactly_holds(rect: Rect, point: Point) -> bool {
    &&& rect.origin.x.units() <= point.x.units() <= rect.origin.x.units()
        + rect.size.width.units()
    &&& rect.origin.y.units() <= point.y.units() <= rect.origin.y.units()
        + rect.size.height.units()
}

/// `inner` lies within `outer`, by their exact values.
pub open spec fn exactly_inside(inner: Rect, outer: Rect) -> bool {
    &&& outer.origin.x.units() <= inner.origin.x.units()
    &&& inner.origin.x.units() + inner.size.width.units() <= outer.origin.x.units()
        + outer.size.width.units()
    &&& outer.origin.y.units() <= inner.origin.y.units()
    &&& inner.origin.y.units() + inner.size.height.units() <= outer.origin.y.units()
        + outer.size.height.units()
}

proof fn lemma_magnitude_bounds(m: int)
    requires
        0 <= m,
    ensures
        magnitude_units(m) < FRACTIONS * pow2((m / FRACTIONS as int) as nat),
        m / FRACTIONS as int > 0 ==> magnitude_units(m) >= FRACTIONS * pow2(
            (m / FRACTIONS as int - 1) as nat,
        ),
        magnitude_units(m) >= 0,
{
    let e = m / FRACTIONS as int;
    let f = m % FRACTIONS as int;
    assert(0 <= f < FRACTIONS);
    if e == 0 {
        lemma2_to64();
    } else {
        let p = pow2((e - 1) as nat) as int;
        lemma_pow2_pos((e - 1) as nat);
        lemma_pow2_unfold(e as nat);
        assert((FRACTIONS + f) * p < FRACTIONS * (2 * p)) by (nonlinear_arith)
            requires
                0 <= f < FRACTIONS,
                p > 0,
        ;
        assert((FRACTIONS + f) * p >= FRACTIONS * p) by (nonlinear_arith)
            requires
                0 <= f,
                p > 0,
        ;
        assert(FRACTIONS * p >= 0) by (nonlinear_arith)
            requires
                p > 0,
        ;
    }
}

proof fn lemma_magnitude_grows(m: int, n: int)
    requires
        0 <= m < n,
    ensures
        magnitude_units(m) < magnitude_units(n),
{
    let (em, f_m) = (m / FRACTIONS as int, m % FRACTIONS as int);
    let (en, f_n) = (n / FRACTIONS as int, n % FRACTIONS as int);
    lemma_magnitude_bounds(m);
    lemma_magnitude_bounds(n);
    if em == en {
        if em > 0 {
            let p = pow2((em - 1) as nat) as int;
            lemma_pow2_pos((em - 1) as nat);
            assert((FRACTIONS + f_m) * p < (FRACTIONS + f_n) * p) by (nonlinear_arith)
                requires
                    f_m < f_n,
                    p > 0,
            ;
        }
    } else {
        let low = pow2(em as nat) as int;
        let high = pow2((en - 1) as nat) as int;
        if em < en - 1 {
            lemma_pow2_strictly_increases(em as nat, (en - 1) as nat);
        }
        assert(FRACTIONS * low <= FRACTIONS * high) by (nonlinear_arith)
            requires
                low <= high,
        ;
    }
}

/// Finite numbers compare as their exact values do.
pub proof fn law_order_is_exact(a: Scalar, b: Scalar)
    requires
        a.finite(),
        b.finite(),
    ensures
        a.lt(b) <==> a.units() < b.units(),
        a.le(b) <==> a.units() <= b.units(),
        a.same_number(b) <==> a.units() == b.units(),
{
    let (m, n) = (a.magnitude(), b.magnitude());
    lemma_magnitude_bounds(m);
    lemma_magnitude_bounds(n);
    if m > 0 {
        lemma_magnitude_grows(0, m);
    }
    if n > 0 {
        lemma_magnitude_grows(0, n);
    }
    if m < n {
        lemma_magnitude_grows(m, n);
    } else if n < m {
        lemma_magnitude_grows(n, m);
    }
}

/// Zero and one have the exact values that their names say.
pub proof fn law_zero_and_one_are_exact()
    ensures
        Scalar::spec_zero().finite(),
        Scalar::spec_zero().units() == 0,
        Scalar::spec_one().finite(),
        Scalar::spec_one().units() == unit(),
        unit() > 0,
{
    lemma2_to64_rest();
    lemma_pow2_pos(1074);
    lemma_pow2_adds(52, 1022);
}

/// The low side in `measure` is exactly the high side of an axis less the
/// extent that goes with it.
pub open spec fn exact_low_side(begin: Scalar, extent: Scalar, measure: AxisMeasure) -> bool {
    &&& measure.low_side.units() + measure.low_extent.units() == begin.units() + extent.units()
    &&& measure.low_limit.units() + unit() == begin.units() + extent.units()
}

/// A resize leaves the edges opposite to the press exactly where they are: the
/// right and the bottom one for a press near the left and the top, the left and
/// the top one otherwise.
pub proof fn law_opposite_edges_stay_put(frame: Rect, anchor: Point, measure: ResizeMeasure)
    requires
        exact_low_side(frame.origin.x, frame.size.width, measure.x),
        exact_low_side(frame.origin.y, frame.size.height, measure.y),
    ensures
        ({
            let r = resized_frame(frame, anchor, measure);
            let sides = sides_toward(anchor, measure.center);
            &&& if sides.left {
                r.origin.x.units() + r.size.width.units() == frame.origin.x.units()
                    + frame.size.width.units()
            } else {
                r.origin.x == frame.origin.x
            }
            &&& if sides.top {
                r.origin.y.units() + r.size.height.units() == frame.origin.y.units()
                    + frame.size.height.units()
            } else {
                r.origin.y == frame.origin.y
            }
        }),
{
    law_zero_and_one_are_exact();
}

} // verus!
