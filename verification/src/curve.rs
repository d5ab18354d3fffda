//! Which curve a keyframe sequence is played along, and in what order the
//! blends of a spline are done.
//!
//! The curve depends on how many keyframes there are:
//!
//! | keyframes | curve |
//! |-----------|-------|
//! | 0 | none: there is no pose, and playback stops |
//! | 1 | that pose, held; playback stops at once |
//! | 2 | a straight line, `first*(1-t) + last*t` in every component |
//! | 3 | a quadratic Bezier curve, `start*(1-t)^2 + control*2t(1-t) + end*t^2` |
//! | 4 or more | a quadratic B-spline, by De Boor's recurrence |
//!
//! Orientations are blended like positions, component by component.
//! This module chooses the curve and lays out the recurrence; the host does
//! the arithmetic of each blend.

use vstd::prelude::*;
use crate::node::FreecamNode;
use crate::scalar::Scalar;

verus! {

/// The degree of the spline that four or more keyframes are played along.
pub const BSPLINE_DEGREE_QUADRATIC: usize = 2;

/// The pattern of `0.999`: the largest fraction of a path that a spline is
/// evaluated at, so that the last segment is never left.
pub const SPLINE_FRACTION_CAP_BITS: u32 = 0x3f7f_be77;

/// One blend of De Boor's recurrence, done in place on a copy of the keyframes:
///
/// `nodes[index] = nodes[index - 1] * (1 - alpha) + nodes[index] * alpha`,
/// with `alpha = (t - index) / span`, where `t` is the time in the knot domain.
#[derive(Clone, Copy, Debug, PartialEq, Eq, Structural)]
pub struct BlendStep {
    pub index: usize,
    pub span: usize,
}

/// The blends of one level of the recurrence: the indices run from `segment`
/// down to `segment - degree + level`, and every blend of the level has the
/// span `degree + 1 - level`, which is `(index + degree + 1 - level) - index`.
pub open spec fn level_steps(degree: nat, segment: nat, level: nat) -> Seq<BlendStep>
    recommends
        1 <= level <= degree + 1,
        degree <= segment,
{
    Seq::new(
        (degree + 1 - level) as nat,
        |k: int| BlendStep { index: (segment - k) as usize, span: (degree + 1 - level) as usize },
    )
}

/// The blends of the levels `1..=level`, in the order in which they are done.
pub open spec fn schedule_through(degree: nat, segment: nat, level: nat) -> Seq<BlendStep>
    decreases level,
{
    if level == 0 {
        Seq::empty()
    } else {
        schedule_through(degree, segment, (level - 1) as nat) + level_steps(degree, segment, level)
    }
}

/// All blends of the recurrence for a spline of the given degree, evaluated
/// in the segment `segment`. The level `degree + 1` is part of the loop and
/// holds no blend.
pub open spec fn schedule(degree: nat, segment: nat) -> Seq<BlendStep> {
    schedule_through(degree, segment, degree + 1)
}

/// How many blends the levels `1..=level` hold.
pub open spec fn schedule_len(degree: nat, level: nat) -> nat
    decreases level,
{
    if level == 0 {
        0
    } else {
        (schedule_len(degree, (level - 1) as nat) + (degree + 1 - level)) as nat
    }
}

/// Every blend of a schedule reads and writes inside the window of
/// `degree + 1` keyframes that ends at the segment, and divides by a span
/// that is at least one.
pub proof fn lemma_schedule_in_window(degree: nat, segment: nat, level: nat)
    requires
        degree <= segment,
        segment < usize::MAX,
        level <= degree + 1,
    ensures
        schedule_through(degree, segment, level).len() == schedule_len(degree, level),
        forall|k: int|
            0 <= k < schedule_through(degree, segment, level).len() ==> {
                let step = #[trigger] schedule_through(degree, segment, level)[k];
                &&& segment - degree < step.index <= segment
                &&& 1 <= step.span <= degree
            },
    decreases level,
{
    if level > 0 {
        lemma_schedule_in_window(degree, segment, (level - 1) as nat);
        let before = schedule_through(degree, segment, (level - 1) as nat);
        let here = level_steps(degree, segment, level);
        assert forall|k: int| 0 <= k < (before + here).len() implies {
            let step = #[trigger] (before + here)[k];
            &&& segment - degree < step.index <= segment
            &&& 1 <= step.span <= degree
        } by {
            if k >= before.len() {
                assert((before + here)[k] == here[k - before.len()]);
            }
        }
    }
}

/// The levels `1..=level` of a spline of degree `degree` hold
/// `level * (2 * degree + 1 - level) / 2` blends; the whole recurrence holds
/// `degree * (degree + 1) / 2`.
pub proof fn lemma_schedule_len(degree: nat, level: nat)
    requires
        level <= degree + 1,
    ensures
        2 * schedule_len(degree, level) == level * (2 * degree + 1 - level),
        level == degree + 1 ==> 2 * schedule_len(degree, level) == degree * (degree + 1),
    decreases level,
{
    let d = degree as int;
    let l = level as int;
    if level > 0 {
        lemma_schedule_len(degree, (level - 1) as nat);
        let before = schedule_len(degree, (level - 1) as nat) as int;
        assert(schedule_len(degree, level) == before + (d + 1 - l));
        assert(2 * before == (l - 1) * (2 * d + 1 - (l - 1)));
        assert(l * (2 * d + 1 - l) == (l - 1) * (2 * d + 1 - (l - 1)) + 2 * (d + 1 - l))
            by (nonlinear_arith);
    } else {
        assert(l * (2 * d + 1 - l) == 0) by (nonlinear_arith)
            requires
                l == 0,
        ;
    }
    if level == degree + 1 {
        assert(l * (2 * d + 1 - l) == d * (d + 1)) by (nonlinear_arith)
            requires
                l == d + 1,
        ;
    }
}

/// A quadratic spline takes three blends: two of the first level, with span
/// two, and one of the second, with span one.
pub proof fn lemma_quadratic_schedule(segment: nat)
    requires
        2 <= segment < usize::MAX,
    ensures
        schedule(2, segment) =~= seq![
            BlendStep { index: segment as usize, span: 2 },
            BlendStep { index: (segment - 1) as usize, span: 2 },
            BlendStep { index: segment as usize, span: 1 },
        ],
{
    reveal_with_fuel(schedule_through, 4);
}

/// Lays out De Boor's recurrence for one segment of a spline.
///
/// For each level `l` in `1..degree + 2`, the indices `i` run from `segment`
/// down to `segment - degree + l`; the last level holds no index.
pub fn de_boor_schedule(degree: usize, segment: usize) -> (steps: Vec<BlendStep>)
    requires
        degree <= segment,
        segment < usize::MAX,
    ensures
        steps@ == schedule(degree as nat, segment as nat),
        2 * steps@.len() == degree * (degree + 1),
        forall|k: int|
            0 <= k < steps@.len() ==> {
                &&& segment - degree < (#[trigger] steps@[k]).index <= segment
                &&& 1 <= steps@[k].span <= degree
            },
{
    let mut steps: Vec<BlendStep> = Vec::new();
    let mut level: usize = 1;
    while level <= degree
        invariant
            degree <= segment,
            segment < usize::MAX,
            1 <= level <= degree + 1,
            steps@ == schedule_through(degree as nat, segment as nat, (level - 1) as nat),
        decreases degree + 1 - level,
    {
        let span: usize = degree + 1 - level;
        let low: usize = segment - degree + level;
        let mut i: usize = segment + 1;
        let ghost before = steps@;
        while i > low
            invariant
                degree <= segment,
                segment < usize::MAX,
                1 <= level <= degree,
                span == degree + 1 - level,
                low == segment - degree + level,
                low <= i <= segment + 1,
                before == schedule_through(degree as nat, segment as nat, (level - 1) as nat),
                steps@ == before + level_steps(degree as nat, segment as nat, level as nat).take(
                    segment + 1 - i,
                ),
            decreases i,
        {
            i = i - 1;
            steps.push(BlendStep { index: i, span });
            proof {
                let all = level_steps(degree as nat, segment as nat, level as nat);
                let k = segment - i;
                assert(0 <= k < all.len());
                assert(all[k] == BlendStep { index: i, span });
                assert(all.take(k + 1) =~= all.take(k).push(all[k]));
                assert(steps@ =~= before + all.take(k + 1));
            }
        }
        proof {
            let all = level_steps(degree as nat, segment as nat, level as nat);
            assert(all.take(segment + 1 - i) =~= all);
        }
        level = level + 1;
    }
    proof {
        assert(level_steps(degree as nat, segment as nat, (degree + 1) as nat) =~= Seq::empty());
        assert(steps@ =~= schedule(degree as nat, segment as nat));
        lemma_schedule_in_window(degree as nat, segment as nat, (degree + 1) as nat);
        lemma_schedule_len(degree as nat, (degree + 1) as nat);
    }
    steps
}

/// The largest fraction of a path that a spline is evaluated at: the smaller
/// of `percent` and `0.999`.
pub fn clamp_spline_fraction(percent: Scalar) -> (r: Scalar)
    ensures
        r == percent.smaller(Scalar { bits: SPLINE_FRACTION_CAP_BITS }),
{
    percent.min(Scalar { bits: SPLINE_FRACTION_CAP_BITS })
}

/// Whether `segment` is a segment of a spline of the given degree over `len`
/// keyframes: the knot domain is `[degree, len)`.
pub open spec fn segment_in_domain(degree: nat, len: nat, segment: nat) -> bool {
    degree <= segment < len
}

/// The curve that a keyframe sequence is played along, with the keyframes
/// that it is made of.
#[derive(Debug, PartialEq, Eq)]
pub enum CurvePlan {
    /// No keyframe: there is no pose.
    Empty,
    /// One keyframe: the pose is that keyframe.
    Hold { node: FreecamNode },
    /// Two keyframes: a straight line from the first to the last.
    Linear { first: FreecamNode, last: FreecamNode },
    /// Three keyframes: the control points of a quadratic Bezier curve.
    Bezier { start: FreecamNode, control: FreecamNode, end: FreecamNode },
    /// Four or more: a copy of the keyframes, the segment that the time falls
    /// in, and the blends to do on the copy. The pose is `nodes[segment]`
    /// after the last blend.
    Spline { nodes: Vec<FreecamNode>, segment: usize, steps: Vec<BlendStep> },
}

/// What a [`CurvePlan`] holds, as mathematical values.
pub enum CurvePlanView {
    Empty,
    Hold { node: FreecamNode },
    Linear { first: FreecamNode, last: FreecamNode },
    Bezier { start: FreecamNode, control: FreecamNode, end: FreecamNode },
    Spline { nodes: Seq<FreecamNode>, segment: usize, steps: Seq<BlendStep> },
}

impl View for CurvePlan {
    type V = CurvePlanView;

    open spec fn view(&self) -> CurvePlanView {
        match *self {
            CurvePlan::Empty => CurvePlanView::Empty,
            CurvePlan::Hold { node } => CurvePlanView::Hold { node },
            CurvePlan::Linear { first, last } => CurvePlanView::Linear { first, last },
            CurvePlan::Bezier { start, control, end } => CurvePlanView::Bezier { start, control, end },
            CurvePlan::Spline { nodes, segment, steps } => CurvePlanView::Spline {
                nodes: nodes@,
                segment,
                steps: steps@,
            },
        }
    }
}

/// The curve for a keyframe sequence. `segment` matters only to a spline.
pub open spec fn planned(nodes: Seq<FreecamNode>, segment: usize) -> CurvePlanView {
    if nodes.len() == 0 {
        CurvePlanView::Empty
    } else if nodes.len() == 1 {
        CurvePlanView::Hold { node: nodes[0] }
    } else if nodes.len() == 2 {
        CurvePlanView::Linear { first: nodes[0], last: nodes[1] }
    } else if nodes.len() == 3 {
        CurvePlanView::Bezier { start: nodes[0], control: nodes[1], end: nodes[2] }
    } else {
        CurvePlanView::Spline {
            nodes,
            segment,
            steps: schedule(BSPLINE_DEGREE_QUADRATIC as nat, segment as nat),
        }
    }
}

impl CurvePlanView {
    /// Whether the curve gives a pose at all.
    pub open spec fn has_pose(self) -> bool {
        !(self is Empty)
    }

    /// Whether playback ends with the tick that chose this curve: a path of
    /// no or one keyframe cannot be played.
    pub open spec fn ends_playback(self) -> bool {
        self is Empty || self is Hold
    }
}

impl CurvePlan {
    /// Whether the curve gives a pose at all.
    pub fn has_pose(&self) -> (r: bool)
        ensures
            r == self@.has_pose(),
    {
        match self {
            CurvePlan::Empty => false,
            _ => true,
        }
    }

    /// Whether playback ends with the tick that chose this curve.
    pub fn ends_playback(&self) -> (r: bool)
        ensures
            r == self@.ends_playback(),
    {
        match self {
            CurvePlan::Empty => true,
            CurvePlan::Hold { .. } => true,
            _ => false,
        }
    }
}

/// A copy of a keyframe sequence.
pub fn copy_nodes(nodes: &Vec<FreecamNode>) -> (copy: Vec<FreecamNode>)
    ensures
        copy@ == nodes@,
{
    let mut copy: Vec<FreecamNode> = Vec::new();
    let mut i: usize = 0;
    while i < nodes.len()
        invariant
            i <= nodes.len(),
            copy@ == nodes@.take(i as int),
        decreases nodes.len() - i,
    {
        copy.push(nodes[i]);
        proof {
            assert(nodes@.take(i + 1) =~= nodes@.take(i as int).push(nodes@[i as int]));
        }
        i = i + 1;
    }
    proof {
        assert(nodes@.take(nodes.len() as int) =~= nodes@);
    }
    copy
}

/// Chooses the curve for a keyframe sequence.
///
/// For four or more keyframes `segment` is the whole part of the time in the
/// knot domain `[2, len)`; the keyframes are copied, and the sequence itself
/// stays as it is.
pub fn interpolate(nodes: &Vec<FreecamNode>, segment: usize) -> (plan: CurvePlan)
    requires
        nodes.len() >= 4 ==> segment_in_domain(
            BSPLINE_DEGREE_QUADRATIC as nat,
            nodes.len() as nat,
            segment as nat,
        ),
    ensures
        plan@ == planned(nodes@, segment),
{
    let len: usize = nodes.len();
    if len == 0 {
        CurvePlan::Empty
    } else if len == 1 {
        CurvePlan::Hold { node: nodes[0] }
    } else if len == 2 {
        CurvePlan::Linear { first: nodes[0], last: nodes[1] }
    } else if len == 3 {
        CurvePlan::Bezier { start: nodes[0], control: nodes[1], end: nodes[2] }
    } else {
        let steps: Vec<BlendStep> = de_boor_schedule(BSPLINE_DEGREE_QUADRATIC, segment);
        CurvePlan::Spline { nodes: copy_nodes(nodes), segment, steps }
    }
}

} // verus!
