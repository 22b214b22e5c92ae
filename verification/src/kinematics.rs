//! The formulas of one motion step, and what it means for a result to have
//! been computed from them.
//!
//! A step is either an arc (turning radius `R`, angular change `alpha`, arc
//! length `s`) or a straight line of length `s`. Both the pose update and its
//! derivative with respect to heading are stated here once, as terms over the
//! pose before and the step, so that the motion models share them.
use vstd::prelude::*;
use crate::arithmetic::{cos, evaluates, minus, neg, plus, sin, times, val, Operation, Term};
use crate::base::{JacobianModel2D, Model2D};
use crate::binary32::Real;
use crate::odometry_motion_model::ChangeParams;

verus! {

/// `R*sin(theta + alpha) - R*sin(theta) + x`.
pub open spec fn arc_x(p: Model2D, c: ChangeParams) -> Term {
    plus(
        minus(
            times(val(c.R), sin(plus(val(p.theta), val(c.alpha)))),
            times(val(c.R), sin(val(p.theta))),
        ),
        val(p.x),
    )
}

/// `R*cos(theta) - R*cos(theta + alpha) + y`.
pub open spec fn arc_y(p: Model2D, c: ChangeParams) -> Term {
    plus(
        minus(
            times(val(c.R), cos(val(p.theta))),
            times(val(c.R), cos(plus(val(p.theta), val(c.alpha)))),
        ),
        val(p.y),
    )
}

/// `theta + alpha`.
pub open spec fn arc_theta(p: Model2D, c: ChangeParams) -> Term {
    plus(val(p.theta), val(c.alpha))
}

/// `x + s*cos(theta)`.
pub open spec fn straight_x(p: Model2D, c: ChangeParams) -> Term {
    plus(val(p.x), times(val(c.s), cos(val(p.theta))))
}

/// `y + s*sin(theta)`.
pub open spec fn straight_y(p: Model2D, c: ChangeParams) -> Term {
    plus(val(p.y), times(val(c.s), sin(val(p.theta))))
}

/// Derivative of the arc's x with respect to theta:
/// `R*cos(theta + alpha) - R*cos(theta)`.
pub open spec fn arc_dx(p: Model2D, c: ChangeParams) -> Term {
    minus(
        times(val(c.R), cos(plus(val(p.theta), val(c.alpha)))),
        times(val(c.R), cos(val(p.theta))),
    )
}

/// Derivative of the arc's y with respect to theta:
/// `-R*sin(theta) + R*sin(theta + alpha)`.
pub open spec fn arc_dy(p: Model2D, c: ChangeParams) -> Term {
    plus(
        times(neg(val(c.R)), sin(val(p.theta))),
        times(val(c.R), sin(plus(val(p.theta), val(c.alpha)))),
    )
}

/// Derivative of the straight line's x with respect to theta: `-s*sin(theta)`.
pub open spec fn straight_dx(p: Model2D, c: ChangeParams) -> Term {
    times(neg(val(c.s)), sin(val(p.theta)))
}

/// Derivative of the straight line's y with respect to theta: `s*cos(theta)`.
pub open spec fn straight_dy(p: Model2D, c: ChangeParams) -> Term {
    times(val(c.s), cos(val(p.theta)))
}

/// `out` is the pose `p` moved along the arc `c`.
pub open spec fn arc_pose(
    may: spec_fn(Operation, Real) -> bool,
    p: Model2D,
    c: ChangeParams,
    out: Model2D,
) -> bool {
    &&& evaluates(may, arc_x(p, c), out.x)
    &&& evaluates(may, arc_y(p, c), out.y)
    &&& evaluates(may, arc_theta(p, c), out.theta)
}

/// `out` is the pose `p` moved straight ahead by `c.s`; the heading is kept
/// bit for bit.
pub open spec fn straight_pose(
    may: spec_fn(Operation, Real) -> bool,
    p: Model2D,
    c: ChangeParams,
    out: Model2D,
) -> bool {
    &&& evaluates(may, straight_x(p, c), out.x)
    &&& evaluates(may, straight_y(p, c), out.y)
    &&& out.theta == p.theta
}

/// `out` is the pose `p` moved by `step`: along the arc where the step is
/// `Ok`, straight ahead where it is `Err`.
pub open spec fn moved(
    may: spec_fn(Operation, Real) -> bool,
    p: Model2D,
    step: Result<ChangeParams, ChangeParams>,
    out: Model2D,
) -> bool {
    match step {
        Ok(c) => arc_pose(may, p, c, out),
        Err(c) => straight_pose(may, p, c, out),
    }
}

/// Only the heading column of `m` may be other than positive zero, and its
/// last entry is positive zero too: the first two columns and the last row
/// are zeros.
pub open spec fn heading_column_only(m: JacobianModel2D) -> bool {
    forall|i: int, j: int|
        0 <= i < 3 && 0 <= j < 3 && (j != 2 || i == 2) ==> m.entry(i, j) == Real::zero_spec()
}

/// `out` is the derivative of the arc update at `p`.
pub open spec fn arc_jacobian(
    may: spec_fn(Operation, Real) -> bool,
    p: Model2D,
    c: ChangeParams,
    out: JacobianModel2D,
) -> bool {
    &&& evaluates(may, arc_dx(p, c), out.entry(0, 2))
    &&& evaluates(may, arc_dy(p, c), out.entry(1, 2))
    &&& heading_column_only(out)
}

/// `out` is the derivative of the straight-line update at `p`.
pub open spec fn straight_jacobian(
    may: spec_fn(Operation, Real) -> bool,
    p: Model2D,
    c: ChangeParams,
    out: JacobianModel2D,
) -> bool {
    &&& evaluates(may, straight_dx(p, c), out.entry(0, 2))
    &&& evaluates(may, straight_dy(p, c), out.entry(1, 2))
    &&& heading_column_only(out)
}

/// `out` is the derivative of the update by `step` at `p`, by the branch that
/// [`moved`] takes for the same step.
pub open spec fn differentiated(
    may: spec_fn(Operation, Real) -> bool,
    p: Model2D,
    step: Result<ChangeParams, ChangeParams>,
    out: JacobianModel2D,
) -> bool {
    match step {
        Ok(c) => arc_jacobian(may, p, c, out),
        Err(c) => straight_jacobian(may, p, c, out),
    }
}

} // verus!
