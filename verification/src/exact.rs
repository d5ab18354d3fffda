//! The camera's numbers in exact arithmetic.
//!
//! The library carries numbers as binary32 bit patterns and compares them
//! by their bits. This module says what the patterns mean: the exact value
//! of a pattern, and that the order on the patterns is the order of the
//! values.
//!
//! It also says what the curves are. A curve plan leaves its blends to the
//! host, which does them in binary32 and so rounds each one. Here the same
//! blends are done in exact numbers: that is the curve the host follows up
//! to rounding, and of that curve it is shown where it starts and ends and
//! that the blends of a spline make a quadratic B-spline.

use vstd::prelude::*;
use crate::curve::lemma_quadratic_schedule;
use crate::curve::planned;
use crate::curve::schedule;
use crate::curve::BlendStep;
use crate::curve::CurvePlanView;
use crate::curve::SPLINE_FRACTION_CAP_BITS;
use crate::freecam::FreecamView;
use crate::freecam::NODE_PATH_DEFAULT_TIME_BITS;
use crate::freecam::NODE_PATH_STEP_BITS;
use crate::node::FreecamNode;
use crate::scalar::Scalar;
use crate::scalar::INFINITY_BITS;
use crate::scalar::ONE_BITS;
use crate::scalar::ZERO_BITS;

verus! {

/// The number of values that the fraction field of a pattern can take: `2^23`.
pub const FRACTION_SPAN: u32 = 0x80_0000;

/// Two to the power of `k`, for any whole `k`.
pub open spec fn pow2(k: int) -> real
    decreases
            (if k >= 0 {
                k
            } else {
                -k
            }),
{
    if k == 0 {
        1real
    } else if k > 0 {
        2real * pow2(k - 1)
    } else {
        pow2(k + 1) / 2real
    }
}

/// The value of the pattern with the magnitude `m`: with a biased exponent
/// `e` and a fraction `f`, that is `(2^23 + f) * 2^(e - 150)`, or
/// `f * 2^-149` where `e` is zero.
pub open spec fn magnitude_value(m: int) -> real {
    let e = m / (FRACTION_SPAN as int);
    let f = m % (FRACTION_SPAN as int);
    if e == 0 {
        (f as real) * pow2(-149)
    } else {
        ((FRACTION_SPAN + f) as real) * pow2(e - 150)
    }
}

impl Scalar {
    /// Whether the pattern is a number that is not infinite.
    pub open spec fn finite(self) -> bool {
        self.magnitude() < INFINITY_BITS
    }

    /// The exact value of a finite pattern. Of an infinity and of a NaN
    /// it says nothing of use.
    pub open spec fn value(self) -> real {
        if self.sign_negative() {
            -magnitude_value(self.magnitude() as int)
        } else {
            magnitude_value(self.magnitude() as int)
        }
    }
}

/// Each power of two is twice the one before it, and all are above zero.
pub proof fn lemma_pow2_step(k: int)
    ensures
        pow2(k + 1) == 2real * pow2(k),
        pow2(k) > 0real,
    decreases
            (if k >= 0 {
                k
            } else {
                -k
            }),
{
    if k > 0 {
        lemma_pow2_step(k - 1);
    } else if k < 0 {
        lemma_pow2_step(k + 1);
        if k + 1 < 0 {
            assert(pow2(k + 1) == pow2(k + 2) / 2real);
        }
    }
}

/// The value of the next magnitude is the larger one.
pub proof fn lemma_next_magnitude_is_larger(m: int)
    requires
        0 <= m,
    ensures
        magnitude_value(m) < magnitude_value(m + 1),
        0real <= magnitude_value(m),
{
    let span = FRACTION_SPAN as int;
    let e = m / span;
    let f = m % span;
    let e2 = (m + 1) / span;
    let f2 = (m + 1) % span;
    assert(m == e * span + f && 0 <= f < span);
    lemma_pow2_step(e - 150);
    lemma_pow2_step(-149);
    if f + 1 < span {
        assert(e2 == e && f2 == f + 1);
        if e == 0 {
            assert(((f + 1) as real) * pow2(-149) == (f as real) * pow2(-149) + pow2(-149))
                by (nonlinear_arith);
        } else {
            assert(((span + f + 1) as real) * pow2(e - 150) == ((span + f) as real) * pow2(e - 150)
                + pow2(e - 150)) by (nonlinear_arith);
            assert(0real <= ((span + f) as real) * pow2(e - 150)) by (nonlinear_arith)
                requires
                    0 <= span + f,
                    pow2(e - 150) > 0real,
            ;
        }
        if e == 0 {
            assert(0real <= (f as real) * pow2(-149)) by (nonlinear_arith)
                requires
                    0 <= f,
                    pow2(-149) > 0real,
            ;
        }
    } else {
        assert(e2 == e + 1 && f2 == 0);
        if e == 0 {
            assert(magnitude_value(m + 1) == (span as real) * pow2(-149));
            assert((f as real) * pow2(-149) < (span as real) * pow2(-149)) by (nonlinear_arith)
                requires
                    f < span,
                    pow2(-149) > 0real,
            ;
            assert(0real <= (f as real) * pow2(-149)) by (nonlinear_arith)
                requires
                    0 <= f,
                    pow2(-149) > 0real,
            ;
        } else {
            let p = pow2(e - 150);
            assert(pow2(e + 1 - 150) == 2real * p);
            assert(magnitude_value(m + 1) == (span as real) * (2real * p));
            assert(((span + f) as real) * p < (span as real) * (2real * p)) by (nonlinear_arith)
                requires
                    f < span,
                    p > 0real,
            ;
            assert(0real <= ((span + f) as real) * p) by (nonlinear_arith)
                requires
                    0 <= span + f,
                    p > 0real,
            ;
        }
    }
}

/// The larger magnitude has the larger value.
pub proof fn lemma_magnitudes_grow(a: int, b: int)
    requires
        0 <= a <= b,
    ensures
        a < b ==> magnitude_value(a) < magnitude_value(b),
        a == b ==> magnitude_value(a) == magnitude_value(b),
        0real <= magnitude_value(a),
        magnitude_value(0) == 0real,
    decreases b - a,
{
    lemma_next_magnitude_is_larger(a);
    if a < b {
        lemma_magnitudes_grow(a + 1, b);
    }
    assert(magnitude_value(0) == (0 as real) * pow2(-149));
    assert((0 as real) * pow2(-149) == 0real) by (nonlinear_arith);
}

/// The order on the patterns is the order of their values: of two finite
/// patterns, one is below the other exactly when its value is the smaller,
/// and the two are the same number exactly when their values are equal.
pub proof fn lemma_order_is_numeric(a: Scalar, b: Scalar)
    requires
        a.finite(),
        b.finite(),
    ensures
        a.less(b) <==> a.value() < b.value(),
        a.at_least(b) <==> a.value() >= b.value(),
        a.rank() == b.rank() <==> a.value() == b.value(),
{
    let ma = a.magnitude() as int;
    let mb = b.magnitude() as int;
    if ma <= mb {
        lemma_magnitudes_grow(ma, mb);
    } else {
        lemma_magnitudes_grow(mb, ma);
    }
    lemma_magnitudes_grow(0, ma);
    lemma_magnitudes_grow(0, mb);
}

/// Flipping the sign gives the opposite value, and leaves a pattern finite.
pub proof fn lemma_opposite_value(a: Scalar)
    requires
        a.finite(),
    ensures
        a.opposite().finite(),
        a.opposite().value() == -a.value(),
{
    assert(a.opposite().magnitude() == a.magnitude());
    if a.magnitude() == 0 {
        lemma_magnitudes_grow(0, 0);
    }
}

/// An infinity is beyond every finite number: the positive one above, the
/// negative one below.
pub proof fn lemma_infinities_bound(a: Scalar, inf: Scalar)
    requires
        a.finite(),
        inf.magnitude() == INFINITY_BITS,
    ensures
        !inf.nan(),
        inf.sign_negative() ==> inf.less(a),
        !inf.sign_negative() ==> a.less(inf),
{
}

/// The patterns of zero and one have the values zero and one.
pub proof fn lemma_zero_and_one()
    ensures
        (Scalar { bits: ZERO_BITS }).value() == 0real,
        (Scalar { bits: ONE_BITS }).value() == 1real,
{
    lemma_magnitudes_grow(0, 0);
    lemma_pow2_chain();
    let span = FRACTION_SPAN as int;
    assert(ONE_BITS as int / span == 127);
    assert(ONE_BITS as int % span == 0);
    assert((span as real) * pow2(-23) == 1real);
}

/// `2^23 * 2^-23` is one.
pub proof fn lemma_pow2_chain()
    ensures
        pow2(23) == 8388608real,
        (8388608real) * pow2(-23) == 1real,
        pow2(-23) * 8388608real == 1real,
{
    reveal_with_fuel(pow2, 30);
    assert(pow2(23) == 8388608real);
    assert(pow2(-23) == 1real / 8388608real);
}

/// The largest fraction that a spline is evaluated at is the binary32
/// number next to `0.999`: a little above it, and below one.
pub proof fn lemma_spline_cap_value()
    ensures
        (Scalar { bits: SPLINE_FRACTION_CAP_BITS }).finite(),
        (Scalar { bits: SPLINE_FRACTION_CAP_BITS }).value() == 16760439real / 16777216real,
        999real / 1000real < (Scalar { bits: SPLINE_FRACTION_CAP_BITS }).value() < 1real,
{
    let span = FRACTION_SPAN as int;
    let cap = Scalar { bits: SPLINE_FRACTION_CAP_BITS };
    assert(cap.magnitude() == SPLINE_FRACTION_CAP_BITS);
    assert(SPLINE_FRACTION_CAP_BITS as int / span == 126);
    assert(SPLINE_FRACTION_CAP_BITS as int % span == 8371831);
    lemma_pow2_chain();
    lemma_pow2_step(-24);
    let q = pow2(-24);
    assert(2real * q == pow2(-23));
    assert(q * 16777216real == 1real);
    assert(cap.value() == ((span + 8371831) as real) * pow2(126 - 150));
    assert(cap.value() == 16760439real * q);
    assert(cap.value() * 16777216real == 16760439real);
}

/// A path takes three seconds until its duration is changed, and the
/// step by which the duration is changed is a quarter of a second.
pub proof fn lemma_path_times()
    ensures
        (Scalar { bits: NODE_PATH_STEP_BITS }).finite(),
        (Scalar { bits: NODE_PATH_STEP_BITS }).value() == 1real / 4real,
        (Scalar { bits: NODE_PATH_DEFAULT_TIME_BITS }).finite(),
        (Scalar { bits: NODE_PATH_DEFAULT_TIME_BITS }).value() == 3real,
{
    let span = FRACTION_SPAN as int;
    let step = Scalar { bits: NODE_PATH_STEP_BITS };
    let time = Scalar { bits: NODE_PATH_DEFAULT_TIME_BITS };
    assert(step.magnitude() == NODE_PATH_STEP_BITS);
    assert(time.magnitude() == NODE_PATH_DEFAULT_TIME_BITS);
    assert(NODE_PATH_STEP_BITS as int / span == 125);
    assert(NODE_PATH_STEP_BITS as int % span == 0);
    assert(NODE_PATH_DEFAULT_TIME_BITS as int / span == 128);
    assert(NODE_PATH_DEFAULT_TIME_BITS as int % span == 4194304);
    lemma_pow2_chain();
    lemma_pow2_step(-24);
    lemma_pow2_step(-25);
    lemma_pow2_step(-23);
    let q = pow2(-25);
    assert(4real * q == pow2(-23));
    assert(step.value() == 8388608real * q);
    assert(4real * step.value() == 1real);
    let r = pow2(-22);
    assert(r == 2real * pow2(-23));
    assert(time.value() == 12582912real * r);
    assert(time.value() == 25165824real * pow2(-23));
    assert(25165824real == 3real * 8388608real);
}

/// What holds of every state, in numbers: the fraction played is a number
/// within `[0, 1]`, and a duration that is not infinite is at least a
/// quarter of a second, so a division by it is never a division by zero.
pub proof fn lemma_inv_in_numbers(v: FreecamView)
    requires
        v.inv(),
    ensures
        v.node_path_percent.finite(),
        0real <= v.node_path_percent.value() <= 1real,
        !v.node_path_time.nan(),
        v.node_path_time.finite() ==> v.node_path_time.value() >= 1real / 4real,
{
    lemma_zero_and_one();
    lemma_path_times();
    let zero = Scalar { bits: ZERO_BITS };
    let one = Scalar { bits: ONE_BITS };
    let step = Scalar { bits: NODE_PATH_STEP_BITS };
    assert(zero.finite() && one.finite());
    lemma_order_is_numeric(v.node_path_percent, zero);
    lemma_order_is_numeric(one, v.node_path_percent);
    if v.node_path_time.finite() {
        lemma_order_is_numeric(v.node_path_time, step);
    }
}

impl FreecamNode {
    /// One of the seven numbers of a pose: the position x, y, z, then the
    /// orientation x, y, z, w.
    pub open spec fn component(self, k: int) -> Scalar {
        if k == 0 {
            self.trans.x
        } else if k == 1 {
            self.trans.y
        } else if k == 2 {
            self.trans.z
        } else if k == 3 {
            self.rot.x
        } else if k == 4 {
            self.rot.y
        } else if k == 5 {
            self.rot.z
        } else {
            self.rot.w
        }
    }
}

/// The values of one component of all keyframes.
pub open spec fn values_of(nodes: Seq<FreecamNode>, k: int) -> Seq<real> {
    Seq::new(nodes.len(), |i: int| nodes[i].component(k).value())
}

/// One blend: `prev * (1 - alpha) + cur * alpha`.
pub open spec fn blended(prev: real, cur: real, alpha: real) -> real {
    prev * (1real - alpha) + cur * alpha
}

/// A point on the quadratic Bezier curve with the given control points.
pub open spec fn bezier(start: real, control: real, end: real, t: real) -> real {
    start * ((1real - t) * (1real - t)) + control * 2real * (1real - t) * t + end * (t * t)
}

/// A point on a segment of the uniform quadratic B-spline, `u` of the way
/// through the segment. The three weights are never below zero for `u`
/// within `[0, 1]`, and they add up to one.
pub open spec fn bspline(a: real, b: real, c: real, u: real) -> real {
    (a * ((1real - u) * (1real - u)) + b * (1real + 2real * u - 2real * (u * u)) + c * (u * u))
        / 2real
}

/// The values after one blend of a schedule, at the time `t` of the knot domain.
pub open spec fn step_applied(values: Seq<real>, step: BlendStep, t: real) -> Seq<real> {
    values.update(
        step.index as int,
        blended(
            values[step.index - 1],
            values[step.index as int],
            (t - step.index as real) / (step.span as real),
        ),
    )
}

/// The values after the blends of a schedule, done in order.
pub open spec fn steps_applied(values: Seq<real>, steps: Seq<BlendStep>, t: real) -> Seq<real>
    decreases steps.len(),
{
    if steps.len() == 0 {
        values
    } else {
        steps_applied(step_applied(values, steps[0], t), steps.drop_first(), t)
    }
}

/// The exact value of the component `k` of the pose that a plan gives.
/// `percent` is the fraction of the path that was played; a spline is
/// evaluated at the time `knot` of its knot domain.
pub open spec fn plan_value(plan: CurvePlanView, k: int, percent: real, knot: real) -> Option<real> {
    match plan {
        CurvePlanView::Empty => None,
        CurvePlanView::Hold { node } => Some(node.component(k).value()),
        CurvePlanView::Linear { first, last } => Some(
            blended(first.component(k).value(), last.component(k).value(), percent),
        ),
        CurvePlanView::Bezier { start, control, end } => Some(
            bezier(
                start.component(k).value(),
                control.component(k).value(),
                end.component(k).value(),
                percent,
            ),
        ),
        CurvePlanView::Spline { nodes, segment, steps } => Some(
            steps_applied(values_of(nodes, k), steps, knot)[segment as int],
        ),
    }
}

/// The time in the knot domain that a fraction of a path of `len`
/// keyframes is played at: the fraction, capped just below one, brought
/// from `[0, 1]` to `[2, len)`.
pub open spec fn knot_of(len: nat, percent: real) -> real {
    let cap = (Scalar { bits: SPLINE_FRACTION_CAP_BITS }).value();
    let capped = if percent < cap {
        percent
    } else {
        cap
    };
    capped * ((len - 2) as real) + 2real
}

/// A Bezier curve starts at its first control point and ends at its last.
pub proof fn lemma_bezier_ends(start: real, control: real, end: real)
    ensures
        bezier(start, control, end, 0real) == start,
        bezier(start, control, end, 1real) == end,
{
    assert(start * ((1real - 0real) * (1real - 0real)) + control * 2real * (1real - 0real) * 0real
        + end * (0real * 0real) == start) by (nonlinear_arith);
    assert(start * ((1real - 1real) * (1real - 1real)) + control * 2real * (1real - 1real) * 1real
        + end * (1real * 1real) == end) by (nonlinear_arith);
}

/// A segment of the spline starts half way between its first two
/// keyframes and ends half way between its last two.
pub proof fn lemma_bspline_joins(a: real, b: real, c: real)
    ensures
        bspline(a, b, c, 0real) == (a + b) / 2real,
        bspline(a, b, c, 1real) == (b + c) / 2real,
{
    assert(a * ((1real - 0real) * (1real - 0real)) + b * (1real + 2real * 0real - 2real * (0real
        * 0real)) + c * (0real * 0real) == a + b) by (nonlinear_arith);
    assert(a * ((1real - 1real) * (1real - 1real)) + b * (1real + 2real * 1real - 2real * (1real
        * 1real)) + c * (1real * 1real) == b + c) by (nonlinear_arith);
}

/// A path of up to three keyframes starts at its first keyframe.
pub proof fn lemma_path_starts_at_first_keyframe(
    nodes: Seq<FreecamNode>,
    segment: usize,
    k: int,
    knot: real,
)
    requires
        1 <= nodes.len() <= 3,
    ensures
        plan_value(planned(nodes, segment), k, 0real, knot) == Some(nodes[0].component(k).value()),
{
    let a = nodes[0].component(k).value();
    if nodes.len() == 2 {
        let b = nodes[1].component(k).value();
        assert(blended(a, b, 0real) == a) by (nonlinear_arith)
            requires
                blended(a, b, 0real) == a * (1real - 0real) + b * 0real,
        ;
    } else if nodes.len() == 3 {
        let b = nodes[1].component(k).value();
        let c = nodes[2].component(k).value();
        lemma_bezier_ends(a, b, c);
    }
}

/// A line is at the midpoint of its two keyframes when half of it is played.
pub proof fn lemma_line_midpoint(nodes: Seq<FreecamNode>, segment: usize, k: int, knot: real)
    requires
        nodes.len() == 2,
    ensures
        plan_value(planned(nodes, segment), k, 1real / 2real, knot) == Some(
            (nodes[0].component(k).value() + nodes[1].component(k).value()) / 2real,
        ),
{
    let a = nodes[0].component(k).value();
    let b = nodes[1].component(k).value();
    assert(blended(a, b, 1real / 2real) == (a + b) / 2real) by (nonlinear_arith)
        requires
            blended(a, b, 1real / 2real) == a * (1real - 1real / 2real) + b * (1real / 2real),
    ;
}

/// A path of three keyframes starts at the first and ends at the last.
pub proof fn lemma_bezier_end_points(nodes: Seq<FreecamNode>, segment: usize, k: int, knot: real)
    requires
        nodes.len() == 3,
    ensures
        plan_value(planned(nodes, segment), k, 0real, knot) == Some(nodes[0].component(k).value()),
        plan_value(planned(nodes, segment), k, 1real, knot) == Some(nodes[2].component(k).value()),
{
    lemma_bezier_ends(
        nodes[0].component(k).value(),
        nodes[1].component(k).value(),
        nodes[2].component(k).value(),
    );
}

/// The time in the knot domain never leaves the domain: for a fraction
/// that is not below zero, the time of a path of `len` keyframes lies in
/// `[2, len)`, so its whole part names a segment of the spline.
pub proof fn lemma_knot_in_domain(len: nat, percent: real, segment: int)
    requires
        len >= 4,
        percent >= 0real,
        segment as real <= knot_of(len, percent) < (segment + 1) as real,
    ensures
        2real <= knot_of(len, percent) < len as real,
        2 <= segment < len,
{
    lemma_spline_cap_value();
    let cap = (Scalar { bits: SPLINE_FRACTION_CAP_BITS }).value();
    let capped = if percent < cap {
        percent
    } else {
        cap
    };
    let width = (len - 2) as real;
    assert(0real <= capped < 1real);
    assert(width >= 2real);
    assert(0real <= capped * width) by (nonlinear_arith)
        requires
            0real <= capped,
            width >= 2real,
    ;
    assert(capped * width < width) by (nonlinear_arith)
        requires
            capped < 1real,
            width >= 2real,
    ;
    assert(width + 2real == len as real);
}

/// Products of three numbers may be grouped either way.
proof fn lemma_regroup(x: real, y: real, z: real)
    ensures
        (x * y) * z == x * (y * z),
{
    assert((x * y) * z == x * (y * z)) by (nonlinear_arith);
}

/// A product with a sum is the sum of the products.
proof fn lemma_spread(x: real, y: real, z: real)
    ensures
        x * (y + z) == x * y + x * z,
        (y + z) * x == y * x + z * x,
{
    assert(x * (y + z) == x * y + x * z) by (nonlinear_arith);
    assert((y + z) * x == y * x + z * x) by (nonlinear_arith);
}

/// Half of a product is the product with a half.
proof fn lemma_halve(x: real, k: real)
    ensures
        x * (k / 2real) == (x * k) / 2real,
        (x / 2real) * k == (x * k) / 2real,
{
    assert(x * (k / 2real) == (x * k) / 2real) by (nonlinear_arith);
    assert((x / 2real) * k == (x * k) / 2real) by (nonlinear_arith);
}

/// The algebra behind [`lemma_blends_make_bspline`]: two blends of the first
/// level and one of the second, written out, are the spline's three weights.
proof fn lemma_bspline_algebra(a: real, b: real, c: real, u: real)
    ensures
        blended(blended(a, b, (u + 1real) / 2real), blended(b, c, u / 2real), u) == bspline(
            a,
            b,
            c,
            u,
        ),
{
    let w = 1real - u;
    let h = (u + 1real) / 2real;
    let g = u / 2real;
    let p = blended(a, b, h);
    let q = blended(b, c, g);
    let pp = a * w + b * (1real + u);
    let qq = b * (2real - u) + c * u;
    // the first level
    assert(1real - h == w / 2real);
    assert(h == (1real + u) / 2real);
    lemma_halve(a, w);
    lemma_halve(b, 1real + u);
    assert(p == pp / 2real);
    assert(1real - g == (2real - u) / 2real);
    lemma_halve(b, 2real - u);
    lemma_halve(c, u);
    assert(q == qq / 2real);
    // the second level
    lemma_halve(pp, w);
    lemma_halve(qq, u);
    assert(blended(p, q, u) == (pp * w) / 2real + (qq * u) / 2real);
    // the weights
    lemma_spread(w, a * w, b * (1real + u));
    lemma_regroup(a, w, w);
    lemma_regroup(b, 1real + u, w);
    assert(pp * w == a * (w * w) + b * ((1real + u) * w));
    lemma_spread(u, b * (2real - u), c * u);
    lemma_regroup(b, 2real - u, u);
    lemma_regroup(c, u, u);
    assert(qq * u == b * ((2real - u) * u) + c * (u * u));
    lemma_spread(b, (1real + u) * w, (2real - u) * u);
    assert((1real + u) * (1real - u) == 1real - u * u) by (nonlinear_arith);
    assert((2real - u) * u == 2real * u - u * u) by (nonlinear_arith);
    assert((1real + u) * w + (2real - u) * u == 1real + 2real * u - 2real * (u * u));
    assert(pp * w + qq * u == a * (w * w) + b * (1real + 2real * u - 2real * (u * u)) + c * (u
        * u));
}

/// The three blends of a quadratic schedule make a point of the uniform
/// quadratic B-spline over the three keyframes that end at the segment.
pub proof fn lemma_blends_make_bspline(values: Seq<real>, segment: nat, t: real)
    requires
        2 <= segment < values.len(),
        segment < usize::MAX,
    ensures
        steps_applied(values, schedule(2, segment), t)[segment as int] == bspline(
            values[segment - 2],
            values[segment - 1],
            values[segment as int],
            t - segment as real,
        ),
{
    let s = segment as int;
    let steps = schedule(2, segment);
    lemma_quadratic_schedule(segment);
    let first = BlendStep { index: segment as usize, span: 2 };
    let second = BlendStep { index: (segment - 1) as usize, span: 2 };
    let third = BlendStep { index: segment as usize, span: 1 };
    assert(steps.len() == 3 && steps[0] == first && steps[1] == second && steps[2] == third);
    let rest1 = steps.drop_first();
    let rest2 = rest1.drop_first();
    let rest3 = rest2.drop_first();
    assert(rest1.len() == 2 && rest1[0] == second && rest1[1] == third);
    assert(rest2.len() == 1 && rest2[0] == third);
    assert(rest3.len() == 0);
    let v1 = step_applied(values, first, t);
    let v2 = step_applied(v1, second, t);
    let v3 = step_applied(v2, third, t);
    assert(steps_applied(values, steps, t) == steps_applied(v1, rest1, t));
    assert(steps_applied(v1, rest1, t) == steps_applied(v2, rest2, t));
    assert(steps_applied(v2, rest2, t) == steps_applied(v3, rest3, t));
    assert(steps_applied(v3, rest3, t) == v3);
    let a = values[s - 2];
    let b = values[s - 1];
    let c = values[s];
    let u = t - segment as real;
    let alpha1 = (t - segment as real) / 2real;
    let alpha2 = (t - (segment - 1) as real) / 2real;
    let alpha3 = (t - segment as real) / 1real;
    assert(alpha1 == u / 2real);
    assert(alpha2 == (u + 1real) / 2real);
    assert(alpha3 == u);
    let c1 = blended(b, c, alpha1);
    let b2 = blended(a, b, alpha2);
    assert(v1[s] == c1 && v1[s - 1] == b && v1[s - 2] == a);
    assert(v2[s - 1] == b2 && v2[s] == c1);
    assert(v3[s] == blended(b2, c1, alpha3));
    assert(blended(blended(a, b, (u + 1real) / 2real), blended(b, c, u / 2real), u) == bspline(
        a,
        b,
        c,
        u,
    )) by {
        lemma_bspline_algebra(a, b, c, u);
    }
}

/// A spline's pose is a point of the uniform quadratic B-spline: at the
/// time `t` of the segment `segment`, the keyframes `segment - 2`,
/// `segment - 1` and `segment` are weighed by `(1 - u)^2 / 2`,
/// `(1 + 2u - 2u^2) / 2` and `u^2 / 2`, with `u = t - segment`.
pub proof fn lemma_spline_pose(
    nodes: Seq<FreecamNode>,
    segment: usize,
    k: int,
    percent: real,
    knot: real,
)
    requires
        4 <= nodes.len() <= usize::MAX,
        2 <= segment < nodes.len(),
    ensures
        plan_value(planned(nodes, segment), k, percent, knot) == Some(
            bspline(
                nodes[segment - 2].component(k).value(),
                nodes[segment - 1].component(k).value(),
                nodes[segment as int].component(k).value(),
                knot - segment as real,
            ),
        ),
{
    lemma_blends_make_bspline(values_of(nodes, k), segment as nat, knot);
}

/// A spline starts half way between its first two keyframes: the start of
/// a path of four or more keyframes is the knot `2`, in the segment `2`.
pub proof fn lemma_spline_start(nodes: Seq<FreecamNode>, k: int)
    requires
        4 <= nodes.len() <= usize::MAX,
    ensures
        knot_of(nodes.len(), 0real) == 2real,
        plan_value(planned(nodes, 2), k, 0real, 2real) == Some(
            (nodes[0].component(k).value() + nodes[1].component(k).value()) / 2real,
        ),
{
    lemma_spline_cap_value();
    let len = nodes.len();
    assert(0real * ((len - 2) as real) == 0real) by (nonlinear_arith);
    lemma_spline_pose(nodes, 2, k, 0real, 2real);
    let a = nodes[0].component(k).value();
    let b = nodes[1].component(k).value();
    let c = nodes[2].component(k).value();
    lemma_bspline_joins(a, b, c);
}

/// The spline has no jumps: where one segment ends, the next one starts.
pub proof fn lemma_spline_is_continuous(nodes: Seq<FreecamNode>, segment: usize, k: int)
    requires
        4 <= nodes.len() <= usize::MAX,
        2 <= segment,
        segment + 1 < nodes.len(),
    ensures
        plan_value(planned(nodes, segment), k, 0real, (segment + 1) as real) == plan_value(
            planned(nodes, (segment + 1) as usize),
            k,
            0real,
            (segment + 1) as real,
        ),
{
    let t = (segment + 1) as real;
    lemma_spline_pose(nodes, segment, k, 0real, t);
    lemma_spline_pose(nodes, (segment + 1) as usize, k, 0real, t);
    let z = nodes[segment - 2].component(k).value();
    let a = nodes[segment - 1].component(k).value();
    let b = nodes[segment as int].component(k).value();
    let c = nodes[segment + 1].component(k).value();
    lemma_bspline_joins(z, a, b);
    lemma_bspline_joins(a, b, c);
    assert(t - segment as real == 1real);
    assert(t - (segment + 1) as real == 0real);
}

} // verus!
