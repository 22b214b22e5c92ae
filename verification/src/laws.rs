//! What holds of the motion models for all inputs.
//!
//! The library asks nothing of the unit it is given but that it accepts every
//! operation, so a law that rests on a fact of arithmetic names that fact as
//! a property of what the unit may return: that each operation has one
//! result, or that zeros are treated as IEEE-754 arithmetic treats them. Each
//! property of the second sort holds of correctly rounded binary32 arithmetic
//! in every rounding mode.
use vstd::prelude::*;
use crate::arithmetic::{evaluates, Operation, Term};
use crate::base::{JacobianModel2D, Model2D};
use crate::binary32::{lemma_negated, lemma_two_is_regular, Real};
use crate::kinematics::{
    arc_dx, arc_dy, arc_theta, arc_x, arc_y, differentiated, moved, straight_dx, straight_dy,
    straight_pose, straight_x, straight_y,
};
use crate::odometry_motion_model::{
    angular_change, arc_length, lemma_same_state, solves, stepped, ChangeParams, OdometryModel,
};
use crate::velocity_motion_model::{velocity_stepped, wheel_velocity, VelocityMotionModel};

verus! {

/// Magnitude bits from which on doubling a number overflows: biased exponent
/// 254, fraction zero.
pub const DOUBLING_LIMIT: u32 = 0x7f00_0000;

/// The difference of two finite numbers that are equal is a zero.
pub open spec fn cancels(may: spec_fn(Operation, Real) -> bool) -> bool {
    forall|a: Real, b: Real, v: Real|
        a.is_finite() && a.same_number(b) && #[trigger] may(Operation::Sub(a, b), v)
            ==> v.is_zero_spec()
}

/// A zero divided by a number other than zero is a zero.
pub open spec fn divides_zero(may: spec_fn(Operation, Real) -> bool) -> bool {
    forall|a: Real, b: Real, v: Real|
        a.is_zero_spec() && !b.is_zero_spec() && !b.is_nan() && #[trigger] may(
            Operation::Div(a, b),
            v,
        ) ==> v.is_zero_spec()
}

/// The sum of two zeros is a zero, and a zero added to a number gives that
/// number.
pub open spec fn adds_zero(may: spec_fn(Operation, Real) -> bool) -> bool {
    &&& forall|a: Real, b: Real, v: Real|
        a.is_zero_spec() && b.is_zero_spec() && #[trigger] may(Operation::Add(a, b), v)
            ==> v.is_zero_spec()
    &&& forall|a: Real, b: Real, v: Real|
        !a.is_nan() && b.is_zero_spec() && #[trigger] may(Operation::Add(a, b), v)
            ==> v.same_number(a)
}

/// A zero times a finite number is a zero.
pub open spec fn multiplies_zero(may: spec_fn(Operation, Real) -> bool) -> bool {
    forall|a: Real, b: Real, v: Real|
        a.is_zero_spec() && b.is_finite() && #[trigger] may(Operation::Mul(a, b), v)
            ==> v.is_zero_spec()
}

/// Sine and cosine of a finite number are finite.
pub open spec fn bounds_trigonometry(may: spec_fn(Operation, Real) -> bool) -> bool {
    &&& forall|a: Real, v: Real|
        a.is_finite() && #[trigger] may(Operation::Sin(a), v) ==> v.is_finite()
    &&& forall|a: Real, v: Real|
        a.is_finite() && #[trigger] may(Operation::Cos(a), v) ==> v.is_finite()
}

/// Half of the sum of a number with itself is that number, where the sum does
/// not overflow.
pub open spec fn halves_doubles(may: spec_fn(Operation, Real) -> bool) -> bool {
    forall|a: Real, b: Real, sum: Real, v: Real|
        a.magnitude() < DOUBLING_LIMIT && a.same_number(b) && #[trigger] may(
            Operation::Add(a, b),
            sum,
        ) && #[trigger] may(Operation::Div(sum, Real::two_spec()), v) ==> v.same_number(a)
}

/// Each operation has one result: the arithmetic is a function of its
/// operands.
pub open spec fn functional(may: spec_fn(Operation, Real) -> bool) -> bool {
    forall|op: Operation, v: Real, w: Real| #[trigger] may(op, v) && #[trigger] may(op, w) ==> v == w
}

/// The arithmetic treats zeros as IEEE-754 arithmetic does.
pub open spec fn exact_on_zero(may: spec_fn(Operation, Real) -> bool) -> bool {
    &&& cancels(may)
    &&& divides_zero(may)
    &&& adds_zero(may)
    &&& multiplies_zero(may)
    &&& bounds_trigonometry(may)
}

/// A formula has one value where each operation has one result.
pub proof fn law_value_is_determined(
    may: spec_fn(Operation, Real) -> bool,
    t: Term,
    v: Real,
    w: Real,
)
    requires
        functional(may),
        evaluates(may, t, v),
        evaluates(may, t, w),
    ensures
        v == w,
    decreases t,
{
    match t {
        Term::Value(c) => {},
        Term::Neg(a) => {
            law_value_is_determined(may, *a, v.negated(), w.negated());
            lemma_negated(v);
            lemma_negated(w);
        },
        Term::Add(a, b) => {
            let (x, y) = choose|x: Real, y: Real|
                #![trigger may(Operation::Add(x, y), v)]
                evaluates(may, *a, x) && evaluates(may, *b, y) && may(Operation::Add(x, y), v);
            let (x2, y2) = choose|x: Real, y: Real|
                #![trigger may(Operation::Add(x, y), w)]
                evaluates(may, *a, x) && evaluates(may, *b, y) && may(Operation::Add(x, y), w);
            law_value_is_determined(may, *a, x, x2);
            law_value_is_determined(may, *b, y, y2);
        },
        Term::Sub(a, b) => {
            let (x, y) = choose|x: Real, y: Real|
                #![trigger may(Operation::Sub(x, y), v)]
                evaluates(may, *a, x) && evaluates(may, *b, y) && may(Operation::Sub(x, y), v);
            let (x2, y2) = choose|x: Real, y: Real|
                #![trigger may(Operation::Sub(x, y), w)]
                evaluates(may, *a, x) && evaluates(may, *b, y) && may(Operation::Sub(x, y), w);
            law_value_is_determined(may, *a, x, x2);
            law_value_is_determined(may, *b, y, y2);
        },
        Term::Mul(a, b) => {
            let (x, y) = choose|x: Real, y: Real|
                #![trigger may(Operation::Mul(x, y), v)]
                evaluates(may, *a, x) && evaluates(may, *b, y) && may(Operation::Mul(x, y), v);
            let (x2, y2) = choose|x: Real, y: Real|
                #![trigger may(Operation::Mul(x, y), w)]
                evaluates(may, *a, x) && evaluates(may, *b, y) && may(Operation::Mul(x, y), w);
            law_value_is_determined(may, *a, x, x2);
            law_value_is_determined(may, *b, y, y2);
        },
        Term::Div(a, b) => {
            let (x, y) = choose|x: Real, y: Real|
                #![trigger may(Operation::Div(x, y), v)]
                evaluates(may, *a, x) && evaluates(may, *b, y) && may(Operation::Div(x, y), v);
            let (x2, y2) = choose|x: Real, y: Real|
                #![trigger may(Operation::Div(x, y), w)]
                evaluates(may, *a, x) && evaluates(may, *b, y) && may(Operation::Div(x, y), w);
            law_value_is_determined(may, *a, x, x2);
            law_value_is_determined(may, *b, y, y2);
        },
        Term::Sin(a) => {
            let x = choose|x: Real|
                #![trigger may(Operation::Sin(x), v)]
                evaluates(may, *a, x) && may(Operation::Sin(x), v);
            let x2 = choose|x: Real|
                #![trigger may(Operation::Sin(x), w)]
                evaluates(may, *a, x) && may(Operation::Sin(x), w);
            law_value_is_determined(may, *a, x, x2);
        },
        Term::Cos(a) => {
            let x = choose|x: Real|
                #![trigger may(Operation::Cos(x), v)]
                evaluates(may, *a, x) && may(Operation::Cos(x), v);
            let x2 = choose|x: Real|
                #![trigger may(Operation::Cos(x), w)]
                evaluates(may, *a, x) && may(Operation::Cos(x), w);
            law_value_is_determined(may, *a, x, x2);
        },
    }
}

/// The step is a function of the readings: it is classified from the current
/// readings and the last commit alone, so two steps for the same readings are
/// the same step, where each operation has one result.
pub proof fn law_step_is_determined(
    may: spec_fn(Operation, Real) -> bool,
    prev_l: Real,
    prev_r: Real,
    l: Real,
    r: Real,
    divisor: Real,
    first: Result<ChangeParams, ChangeParams>,
    second: Result<ChangeParams, ChangeParams>,
)
    requires
        functional(may),
        solves(may, prev_l, prev_r, l, r, divisor, first),
        solves(may, prev_l, prev_r, l, r, divisor, second),
    ensures
        first == second,
{
    let (a, b) = choose|diff_l: Real, diff_r: Real|
        #![trigger may(Operation::Sub(l, prev_l), diff_l), may(Operation::Sub(r, prev_r), diff_r)]
        may(Operation::Sub(l, prev_l), diff_l) && may(Operation::Sub(r, prev_r), diff_r)
            && stepped(may, diff_l, diff_r, divisor, first);
    let (a2, b2) = choose|diff_l: Real, diff_r: Real|
        #![trigger may(Operation::Sub(l, prev_l), diff_l), may(Operation::Sub(r, prev_r), diff_r)]
        may(Operation::Sub(l, prev_l), diff_l) && may(Operation::Sub(r, prev_r), diff_r)
            && stepped(may, diff_l, diff_r, divisor, second);
    assert(a == a2 && b == b2);
    let alpha_1 = angular_change_of(may, a, b, divisor, first);
    let alpha_2 = angular_change_of(may, a, b, divisor, second);
    law_value_is_determined(may, angular_change(a, b, divisor), alpha_1, alpha_2);
    let c1 = match first { Ok(c) => c, Err(c) => c };
    let c2 = match second { Ok(c) => c, Err(c) => c };
    law_value_is_determined(may, arc_length(a, b), c1.s, c2.s);
}

/// The angular change that a step was classified by: the step's own where it
/// is an arc, a zero where it is straight.
proof fn angular_change_of(
    may: spec_fn(Operation, Real) -> bool,
    a: Real,
    b: Real,
    divisor: Real,
    step: Result<ChangeParams, ChangeParams>,
) -> (alpha: Real)
    requires
        stepped(may, a, b, divisor, step),
    ensures
        evaluates(may, angular_change(a, b, divisor), alpha),
        alpha.is_zero_spec() <==> step is Err,
        step is Ok ==> alpha == step->Ok_0.alpha,
{
    match step {
        Ok(c) => c.alpha,
        Err(c) => choose|alpha: Real|
            #![trigger evaluates(may, angular_change(a, b, divisor), alpha)]
            evaluates(may, angular_change(a, b, divisor), alpha) && alpha.is_zero_spec(),
    }
}

/// The moved pose is a function of the pose before and the step, where each
/// operation has one result.
pub proof fn law_move_is_determined(
    may: spec_fn(Operation, Real) -> bool,
    p: Model2D,
    step: Result<ChangeParams, ChangeParams>,
    first: Model2D,
    second: Model2D,
)
    requires
        functional(may),
        moved(may, p, step, first),
        moved(may, p, step, second),
    ensures
        first == second,
{
    match step {
        Ok(c) => {
            law_value_is_determined(may, arc_x(p, c), first.x, second.x);
            law_value_is_determined(may, arc_y(p, c), first.y, second.y);
            law_value_is_determined(may, arc_theta(p, c), first.theta, second.theta);
        },
        Err(c) => {
            law_value_is_determined(may, straight_x(p, c), first.x, second.x);
            law_value_is_determined(may, straight_y(p, c), first.y, second.y);
        },
    }
}

/// The Jacobian is a function of the pose and the step, entry by entry, where
/// each operation has one result.
pub proof fn law_jacobian_is_determined(
    may: spec_fn(Operation, Real) -> bool,
    p: Model2D,
    step: Result<ChangeParams, ChangeParams>,
    first: JacobianModel2D,
    second: JacobianModel2D,
)
    requires
        functional(may),
        differentiated(may, p, step, first),
        differentiated(may, p, step, second),
    ensures
        forall|i: int, j: int| 0 <= i < 3 && 0 <= j < 3 ==> first.entry(i, j) == second.entry(i, j),
{
    match step {
        Ok(c) => {
            law_value_is_determined(may, arc_dx(p, c), first.entry(0, 2), second.entry(0, 2));
            law_value_is_determined(may, arc_dy(p, c), first.entry(1, 2), second.entry(1, 2));
        },
        Err(c) => {
            law_value_is_determined(may, straight_dx(p, c), first.entry(0, 2), second.entry(0, 2));
            law_value_is_determined(may, straight_dy(p, c), first.entry(1, 2), second.entry(1, 2));
        },
    }
}

/// Wheel deltas that are equal give a straight step: where `diff_l` and
/// `diff_r` are the same finite number and the divisor is a number other than
/// zero, the step is `Err`. Where the arithmetic halves what it doubled, and
/// the sum of the deltas does not overflow, the length of the step is the
/// delta.
pub proof fn law_equal_deltas_go_straight(
    may: spec_fn(Operation, Real) -> bool,
    diff_l: Real,
    diff_r: Real,
    divisor: Real,
    step: Result<ChangeParams, ChangeParams>,
)
    requires
        cancels(may),
        divides_zero(may),
        diff_l.is_finite(),
        diff_l.same_number(diff_r),
        !divisor.is_zero_spec(),
        !divisor.is_nan(),
        stepped(may, diff_l, diff_r, divisor, step),
    ensures
        step is Err,
        halves_doubles(may) && diff_l.magnitude() < DOUBLING_LIMIT ==> step->Err_0.s.same_number(
            diff_l,
        ),
{
    reveal_with_fuel(evaluates, 3);
    assert(diff_r.is_finite());
    assert(diff_r.same_number(diff_l));
    if step is Ok {
        // An arc needs an angular change other than zero, and this one is
        // zero over the divisor.
        assert(step->Ok_0.alpha.is_zero_spec());
    }
}

/// A straight step moves the pose along its heading and keeps the heading:
/// what [`moved`] gives for an `Err` step is the straight-line update by the
/// step's length, whatever the arithmetic.
pub proof fn law_straight_step_translates(
    may: spec_fn(Operation, Real) -> bool,
    p: Model2D,
    step: Result<ChangeParams, ChangeParams>,
    out: Model2D,
)
    requires
        step is Err,
        moved(may, p, step, out),
    ensures
        straight_pose(may, p, step->Err_0, out),
        out.theta == p.theta,
{
}

/// Equal wheel travel moves the robot straight ahead: where the deltas of the
/// two wheels against the last commit are the same finite number, the
/// stateless update of a well-formed model keeps the heading and moves the
/// pose along it by the length of a straight step. Where the arithmetic
/// halves what it doubled, and the sum of the deltas does not overflow, that
/// length is the delta of the left wheel.
pub proof fn law_equal_travel_translates(
    may: spec_fn(Operation, Real) -> bool,
    before: OdometryModel,
    p: Model2D,
    l: Real,
    r: Real,
    out: Model2D,
    after: OdometryModel,
)
    requires
        cancels(may),
        divides_zero(may),
        before.well_formed(),
        forall|diff_l: Real, diff_r: Real|
            #![trigger may(Operation::Sub(l, before.left_reading()), diff_l), may(Operation::Sub(r, before.right_reading()), diff_r)]
            may(Operation::Sub(l, before.left_reading()), diff_l) && may(
                Operation::Sub(r, before.right_reading()),
                diff_r,
            ) ==> diff_l.is_finite() && diff_l.same_number(diff_r),
        OdometryModel::advances_from(may, before, p, l, r, out, after),
    ensures
        out.theta == p.theta,
        exists|diff_l: Real, c: ChangeParams|
            #![trigger may(Operation::Sub(l, before.left_reading()), diff_l), straight_pose(may, p, c, out)]
            may(Operation::Sub(l, before.left_reading()), diff_l) && straight_pose(may, p, c, out)
                && (halves_doubles(may) && diff_l.magnitude() < DOUBLING_LIMIT
                ==> c.s.same_number(diff_l)),
{
    let step = choose|step: Result<ChangeParams, ChangeParams>|
        before.steps(may, l, r, step) && #[trigger] moved(may, p, step, out);
    let (diff_l, diff_r) = choose|diff_l: Real, diff_r: Real|
        #![trigger may(Operation::Sub(l, before.left_reading()), diff_l), may(Operation::Sub(r, before.right_reading()), diff_r)]
        may(Operation::Sub(l, before.left_reading()), diff_l) && may(
            Operation::Sub(r, before.right_reading()),
            diff_r,
        ) && stepped(may, diff_l, diff_r, before.wheelbase(), step);
    law_equal_deltas_go_straight(may, diff_l, diff_r, before.wheelbase(), step);
    law_straight_step_translates(may, p, step, out);
    assert(straight_pose(may, p, step->Err_0, out));
}

/// A straight step of length zero leaves the pose where it is: for a pose of
/// numbers with a finite heading, the new coordinates are the same numbers and
/// the heading is kept bit for bit.
pub proof fn law_zero_length_keeps_pose(
    may: spec_fn(Operation, Real) -> bool,
    p: Model2D,
    c: ChangeParams,
    out: Model2D,
)
    requires
        adds_zero(may),
        multiplies_zero(may),
        bounds_trigonometry(may),
        c.s.is_zero_spec(),
        !p.x.is_nan(),
        !p.y.is_nan(),
        p.theta.is_finite(),
        straight_pose(may, p, c, out),
    ensures
        out.x.same_number(p.x),
        out.y.same_number(p.y),
        out.theta == p.theta,
{
    reveal_with_fuel(evaluates, 4);
}

/// Readings that are the numbers of the last commit give a straight step of
/// length zero, for a divisor that is a number other than zero.
pub proof fn law_no_travel_is_zero_step(
    may: spec_fn(Operation, Real) -> bool,
    prev_l: Real,
    prev_r: Real,
    l: Real,
    r: Real,
    divisor: Real,
    step: Result<ChangeParams, ChangeParams>,
)
    requires
        cancels(may),
        divides_zero(may),
        adds_zero(may),
        l.is_finite(),
        r.is_finite(),
        l.same_number(prev_l),
        r.same_number(prev_r),
        !divisor.is_zero_spec(),
        !divisor.is_nan(),
        solves(may, prev_l, prev_r, l, r, divisor, step),
    ensures
        step is Err,
        step->Err_0.s.is_zero_spec(),
{
    reveal_with_fuel(evaluates, 3);
    let (diff_l, diff_r) = choose|diff_l: Real, diff_r: Real|
        #![trigger may(Operation::Sub(l, prev_l), diff_l), may(Operation::Sub(r, prev_r), diff_r)]
        may(Operation::Sub(l, prev_l), diff_l) && may(Operation::Sub(r, prev_r), diff_r)
            && stepped(may, diff_l, diff_r, divisor, step);
    assert(diff_l.is_zero_spec());
    assert(diff_r.is_zero_spec());
    law_equal_deltas_go_straight(may, diff_l, diff_r, divisor, step);
    lemma_two_is_regular();
    assert(evaluates(may, arc_length(diff_l, diff_r), step->Err_0.s));
}

/// Identity under no motion: where the readings are the numbers of the last
/// commit, the stateless update returns the pose it was given. The
/// coordinates come back as the same numbers (a negative zero may come back
/// positive), the heading bit for bit.
///
/// This holds of a well-formed model for finite readings and a pose of
/// numbers with a finite heading; outside of these the arithmetic gives
/// not-a-number.
pub proof fn law_no_motion_keeps_pose(
    may: spec_fn(Operation, Real) -> bool,
    before: OdometryModel,
    p: Model2D,
    l: Real,
    r: Real,
    out: Model2D,
    after: OdometryModel,
)
    requires
        exact_on_zero(may),
        l.is_finite(),
        r.is_finite(),
        before.well_formed(),
        l.same_number(before.left_reading()),
        r.same_number(before.right_reading()),
        !p.x.is_nan(),
        !p.y.is_nan(),
        p.theta.is_finite(),
        OdometryModel::advances_from(may, before, p, l, r, out, after),
    ensures
        out.x.same_number(p.x),
        out.y.same_number(p.y),
        out.theta == p.theta,
{
    let step = choose|step: Result<ChangeParams, ChangeParams>|
        before.steps(may, l, r, step) && #[trigger] moved(may, p, step, out);
    law_no_travel_is_zero_step(
        may,
        before.left_reading(),
        before.right_reading(),
        l,
        r,
        before.wheelbase(),
        step,
    );
    law_zero_length_keeps_pose(may, p, step->Err_0, out);
}

/// Committing the same readings twice collapses the next step to no motion:
/// after a commit of `l` and `r`, an update with `l` and `r` again returns
/// the pose it was given.
pub proof fn law_repeated_readings_keep_pose(
    may: spec_fn(Operation, Real) -> bool,
    before: OdometryModel,
    committed: OdometryModel,
    p: Model2D,
    l: Real,
    r: Real,
    out: Model2D,
    after: OdometryModel,
)
    requires
        exact_on_zero(may),
        before.well_formed(),
        l.is_finite(),
        r.is_finite(),
        !p.x.is_nan(),
        !p.y.is_nan(),
        p.theta.is_finite(),
        committed.committed(before, l, r),
        OdometryModel::advances_from(may, committed, p, l, r, out, after),
    ensures
        out.x.same_number(p.x),
        out.y.same_number(p.y),
        out.theta == p.theta,
{
    law_no_motion_keeps_pose(may, committed, p, l, r, out, after);
}

/// A Jacobian query followed by an update gives the pose, and leaves the
/// model, that the update alone gives, where each operation has one result.
pub proof fn law_update_after_jacobian_is_update(
    may: spec_fn(Operation, Real) -> bool,
    before: OdometryModel,
    p: Model2D,
    l: Real,
    r: Real,
    jacobian: JacobianModel2D,
    between: OdometryModel,
    with_query: Model2D,
    after_with_query: OdometryModel,
    alone: Model2D,
    after_alone: OdometryModel,
)
    requires
        functional(may),
        OdometryModel::queried(may, before, p, l, r, jacobian, between),
        OdometryModel::advances_from(may, between, p, l, r, with_query, after_with_query),
        OdometryModel::advances_from(may, before, p, l, r, alone, after_alone),
    ensures
        with_query == alone,
        after_with_query == after_alone,
{
    let first = choose|step: Result<ChangeParams, ChangeParams>|
        between.steps(may, l, r, step) && #[trigger] moved(may, p, step, with_query);
    let second = choose|step: Result<ChangeParams, ChangeParams>|
        before.steps(may, l, r, step) && #[trigger] moved(may, p, step, alone);
    law_step_is_determined(
        may,
        before.left_reading(),
        before.right_reading(),
        l,
        r,
        before.wheelbase(),
        first,
        second,
    );
    law_move_is_determined(may, p, first, with_query, alone);
    lemma_same_state(after_with_query, after_alone);
}

/// Evaluating the Jacobian changes nothing that a later update can see: where
/// `between` is the model after a Jacobian query on `before`, an update on
/// `between` returns `out` and ends in `after` exactly where the same update
/// on `before` does, for the stateless update and for the stateful one.
pub proof fn law_jacobian_keeps_update(
    may: spec_fn(Operation, Real) -> bool,
    before: OdometryModel,
    p: Model2D,
    l: Real,
    r: Real,
    jacobian: JacobianModel2D,
    between: OdometryModel,
    q: Model2D,
    a: Real,
    b: Real,
    out: Model2D,
    after: OdometryModel,
)
    requires
        OdometryModel::queried(may, before, p, l, r, jacobian, between),
    ensures
        OdometryModel::advances_from(may, between, q, a, b, out, after)
            <==> OdometryModel::advances_from(may, before, q, a, b, out, after),
        OdometryModel::advances(may, between, a, b, out, after) <==> OdometryModel::advances(
            may,
            before,
            a,
            b,
            out,
            after,
        ),
{
}

/// Wheel velocities that are equal give a straight step, as equal wheel
/// deltas do: where `v_l` and `v_r` are the same finite number and the divisor
/// is a number other than zero, the step is `Err`. Where the arithmetic halves
/// what it doubled, and the sum of the velocities does not overflow, the
/// linear velocity of the step is the wheel velocity.
pub proof fn law_equal_velocities_go_straight(
    may: spec_fn(Operation, Real) -> bool,
    v_l: Real,
    v_r: Real,
    divisor: Real,
    step: Result<ChangeParams, ChangeParams>,
)
    requires
        cancels(may),
        divides_zero(may),
        v_l.is_finite(),
        v_l.same_number(v_r),
        !divisor.is_zero_spec(),
        !divisor.is_nan(),
        velocity_stepped(may, v_l, v_r, divisor, step),
    ensures
        step is Err,
        halves_doubles(may) && v_l.magnitude() < DOUBLING_LIMIT ==> step->Err_0.s.same_number(
            v_l,
        ),
{
    reveal_with_fuel(evaluates, 3);
    assert(v_r.is_finite());
    assert(v_r.same_number(v_l));
    if step is Ok {
        assert(step->Ok_0.alpha.is_zero_spec());
    }
}

/// Identity under no motion for the velocity model: where the readings are
/// the numbers that the model has stored, the update returns the pose it was
/// given, as the same numbers and with the heading kept bit for bit.
///
/// This holds of a well-formed model for finite readings and a pose of
/// numbers with a finite heading.
pub proof fn law_velocity_no_motion_keeps_pose(
    may: spec_fn(Operation, Real) -> bool,
    model: VelocityMotionModel,
    p: Model2D,
    l: Real,
    r: Real,
    out: Model2D,
)
    requires
        exact_on_zero(may),
        l.is_finite(),
        r.is_finite(),
        model.well_formed(),
        l.same_number(model.left_reading()),
        r.same_number(model.right_reading()),
        !p.x.is_nan(),
        !p.y.is_nan(),
        p.theta.is_finite(),
        model.advances_from(may, p, l, r, out),
    ensures
        out.x.same_number(p.x),
        out.y.same_number(p.y),
        out.theta == p.theta,
{
    reveal_with_fuel(evaluates, 3);
    let step = choose|step: Result<ChangeParams, ChangeParams>|
        model.steps(may, l, r, step) && #[trigger] moved(may, p, step, out);
    let prev_l = model.left_reading();
    let prev_r = model.right_reading();
    let dt = model.sample_time();
    let (v_l, v_r) = choose|v_l: Real, v_r: Real|
        #![trigger evaluates(may, wheel_velocity(l, prev_l, dt), v_l), evaluates(may, wheel_velocity(r, prev_r, dt), v_r)]
        evaluates(may, wheel_velocity(l, prev_l, dt), v_l) && evaluates(
            may,
            wheel_velocity(r, prev_r, dt),
            v_r,
        ) && velocity_stepped(may, v_l, v_r, model.wheelbase(), step);
    assert(v_l.is_zero_spec());
    assert(v_r.is_zero_spec());
    law_equal_velocities_go_straight(may, v_l, v_r, model.wheelbase(), step);
    lemma_two_is_regular();
    assert(evaluates(may, arc_length(v_l, v_r), step->Err_0.s));
    law_zero_length_keeps_pose(may, p, step->Err_0, out);
}

} // verus!
