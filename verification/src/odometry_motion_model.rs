//! Pose integration from the cumulative distances travelled by the two wheels.
use vstd::prelude::*;
use crate::arithmetic::{apply, evaluates, minus, outcomes, over, plus, total, val, Operation, Term};
use crate::base::{JacobianModel2D, Model2D, MotionUpdate2D};
use crate::binary32::{lemma_negated, Real};
use crate::kinematics::{
    arc_jacobian, arc_pose, differentiated, moved, straight_jacobian, straight_pose,
};

verus! {

/// The parameters of one motion step: turning radius, angular change, and arc
/// length. For a straight step only `s` is meaningful.
#[allow(non_snake_case)]
#[derive(Clone, Copy, Debug)]
pub struct ChangeParams {
    pub R: Real,
    pub alpha: Real,
    pub s: Real,
}

impl ChangeParams {
    #[allow(non_snake_case)]
    pub fn new(R: Real, alpha: Real, s: Real) -> (r: ChangeParams)
        ensures
            r == (ChangeParams { R, alpha, s }),
    {
        ChangeParams { R, alpha, s }
    }
}

/// `(b - a) / divisor`: the angular change for wheel travels `a` (left) and
/// `b` (right).
pub open spec fn angular_change(a: Real, b: Real, divisor: Real) -> Term {
    over(minus(val(b), val(a)), val(divisor))
}

/// `(a + b) / 2`: the distance covered by the midpoint of the axle.
pub open spec fn arc_length(a: Real, b: Real) -> Term {
    over(plus(val(a), val(b)), val(Real::two_spec()))
}

/// `c` holds the angular change and arc length for wheel travels `a` and `b`,
/// and the angular change is not zero.
pub open spec fn turning(
    may: spec_fn(Operation, Real) -> bool,
    a: Real,
    b: Real,
    divisor: Real,
    c: ChangeParams,
) -> bool {
    &&& evaluates(may, angular_change(a, b, divisor), c.alpha)
    &&& !c.alpha.is_zero_spec()
    &&& evaluates(may, arc_length(a, b), c.s)
}

/// The angular change for wheel travels `a` and `b` came out as zero, and `c`
/// holds the arc length, with radius and angle set to positive zero.
pub open spec fn straight(
    may: spec_fn(Operation, Real) -> bool,
    a: Real,
    b: Real,
    divisor: Real,
    c: ChangeParams,
) -> bool {
    &&& c.R == Real::zero_spec()
    &&& c.alpha == Real::zero_spec()
    &&& evaluates(may, arc_length(a, b), c.s)
    &&& exists|alpha: Real|
        #![trigger evaluates(may, angular_change(a, b, divisor), alpha)]
        evaluates(may, angular_change(a, b, divisor), alpha) && alpha.is_zero_spec()
}

/// `out` is the step for the wheel deltas `diff_l` and `diff_r`: `Err` with
/// the arc length where the angular change compares equal to zero, else `Ok`
/// with radius `diff_l / alpha`.
pub open spec fn stepped(
    may: spec_fn(Operation, Real) -> bool,
    diff_l: Real,
    diff_r: Real,
    divisor: Real,
    out: Result<ChangeParams, ChangeParams>,
) -> bool {
    match out {
        Ok(c) => turning(may, diff_l, diff_r, divisor, c) && may(
            Operation::Div(diff_l, c.alpha),
            c.R,
        ),
        Err(c) => straight(may, diff_l, diff_r, divisor, c),
    }
}

/// `out` is the step from the last readings `prev_l`, `prev_r` to the new
/// readings `l`, `r`: the step for the deltas `l - prev_l` and `r - prev_r`.
pub open spec fn solves(
    may: spec_fn(Operation, Real) -> bool,
    prev_l: Real,
    prev_r: Real,
    l: Real,
    r: Real,
    divisor: Real,
    out: Result<ChangeParams, ChangeParams>,
) -> bool {
    exists|diff_l: Real, diff_r: Real|
        #![trigger may(Operation::Sub(l, prev_l), diff_l), may(Operation::Sub(r, prev_r), diff_r)]
        may(Operation::Sub(l, prev_l), diff_l) && may(Operation::Sub(r, prev_r), diff_r)
            && stepped(may, diff_l, diff_r, divisor, out)
}

/// As [`solves`], with twice the wheelbase as the divisor.
pub open spec fn solves_halved(
    may: spec_fn(Operation, Real) -> bool,
    prev_l: Real,
    prev_r: Real,
    l: Real,
    r: Real,
    wheelbase: Real,
    out: Result<ChangeParams, ChangeParams>,
) -> bool {
    exists|divisor: Real|
        #![trigger may(Operation::Mul(Real::two_spec(), wheelbase), divisor)]
        may(Operation::Mul(Real::two_spec(), wheelbase), divisor) && solves(
            may,
            prev_l,
            prev_r,
            l,
            r,
            divisor,
            out,
        )
}

/// A differential-drive robot. `odometry_l` and `odometry_r` are the distances
/// covered by the wheels (wheel radius times angle turned), not encoder
/// readings.
pub struct OdometryModel {
    odometry_l: Real,
    odometry_r: Real,
    pub x_t: Model2D,
    x_tprev: Model2D,
    base_length: Real,
}

impl OdometryModel {
    /// The left wheel's reading at the last commit.
    pub closed spec fn left_reading(self) -> Real {
        self.odometry_l
    }

    /// The right wheel's reading at the last commit.
    pub closed spec fn right_reading(self) -> Real {
        self.odometry_r
    }

    /// The current pose, `x_t`.
    pub closed spec fn pose(self) -> Model2D {
        self.x_t
    }

    /// The pose before the last stateful update.
    pub closed spec fn previous_pose(self) -> Model2D {
        self.x_tprev
    }

    /// The distance between the wheels.
    pub closed spec fn wheelbase(self) -> Real {
        self.base_length
    }

    /// The wheelbase is greater than zero. The formulas divide by it; a model
    /// that is not well formed is accepted and computes infinities or
    /// not-a-number.
    pub open spec fn well_formed(self) -> bool {
        self.wheelbase().is_positive()
    }

    /// `out` is the step that the readings `l`, `r` give in the state `self`.
    pub open spec fn steps(
        self,
        may: spec_fn(Operation, Real) -> bool,
        l: Real,
        r: Real,
        out: Result<ChangeParams, ChangeParams>,
    ) -> bool {
        solves(may, self.left_reading(), self.right_reading(), l, r, self.wheelbase(), out)
    }

    /// `self` is `before` but for the wheel readings, which are `l` and `r`.
    pub open spec fn committed(self, before: OdometryModel, l: Real, r: Real) -> bool {
        &&& self.left_reading() == l
        &&& self.right_reading() == r
        &&& self.pose() == before.pose()
        &&& self.previous_pose() == before.previous_pose()
        &&& self.wheelbase() == before.wheelbase()
    }

    /// `self` is `before` but for the pose, which is `pose`, with the pose of
    /// `before` kept as the previous one.
    pub open spec fn repositioned(self, before: OdometryModel, pose: Model2D) -> bool {
        &&& self.left_reading() == before.left_reading()
        &&& self.right_reading() == before.right_reading()
        &&& self.pose() == pose
        &&& self.previous_pose() == before.pose()
        &&& self.wheelbase() == before.wheelbase()
    }

    /// `out` is the pose of `before` moved by the step that the readings `l`,
    /// `r` give, and `after` is `before` with that pose and those readings.
    pub open spec fn advances(
        may: spec_fn(Operation, Real) -> bool,
        before: OdometryModel,
        l: Real,
        r: Real,
        out: Model2D,
        after: OdometryModel,
    ) -> bool {
        &&& exists|step: Result<ChangeParams, ChangeParams>|
            #![trigger moved(may, before.pose(), step, out)]
            before.steps(may, l, r, step) && moved(may, before.pose(), step, out)
        &&& after.left_reading() == l
        &&& after.right_reading() == r
        &&& after.pose() == out
        &&& after.previous_pose() == before.pose()
        &&& after.wheelbase() == before.wheelbase()
    }

    /// `out` is `pos` moved by the step that the readings `l`, `r` give, and
    /// `after` is `before` with those readings.
    pub open spec fn advances_from(
        may: spec_fn(Operation, Real) -> bool,
        before: OdometryModel,
        pos: Model2D,
        l: Real,
        r: Real,
        out: Model2D,
        after: OdometryModel,
    ) -> bool {
        &&& exists|step: Result<ChangeParams, ChangeParams>|
            #![trigger moved(may, pos, step, out)]
            before.steps(may, l, r, step) && moved(may, pos, step, out)
        &&& after.committed(before, l, r)
    }

    /// `out` is the derivative at `pos` of the move by the step that the
    /// readings `l`, `r` give in the state `before`, and `after` is the model
    /// that asking for it leaves: `before` itself.
    pub open spec fn queried(
        may: spec_fn(Operation, Real) -> bool,
        before: OdometryModel,
        pos: Model2D,
        l: Real,
        r: Real,
        out: JacobianModel2D,
        after: OdometryModel,
    ) -> bool {
        &&& exists|step: Result<ChangeParams, ChangeParams>|
            #![trigger differentiated(may, pos, step, out)]
            before.steps(may, l, r, step) && differentiated(may, pos, step, out)
        &&& after == before
    }

    /// A robot at the origin, heading along the x axis, whose wheels have not
    /// moved yet.
    pub fn new(base_length: Real) -> (r: OdometryModel)
        ensures
            r.left_reading() == Real::zero_spec(),
            r.right_reading() == Real::zero_spec(),
            r.pose() == (Model2D {
                x: Real::zero_spec(),
                y: Real::zero_spec(),
                theta: Real::zero_spec(),
            }),
            r.previous_pose() == r.pose(),
            r.wheelbase() == base_length,
            r.well_formed() <==> base_length.is_positive(),
    {
        OdometryModel {
            odometry_l: Real::zero(),
            odometry_r: Real::zero(),
            x_t: Model2D::new(Real::zero(), Real::zero(), Real::zero()),
            x_tprev: Model2D::new(Real::zero(), Real::zero(), Real::zero()),
            base_length,
        }
    }

    /// The readings of the left and the right wheel at the last commit.
    pub fn odometry_readings(&self) -> (r: (Real, Real))
        ensures
            r.0 == self.left_reading(),
            r.1 == self.right_reading(),
    {
        (self.odometry_l, self.odometry_r)
    }

    /// The current pose.
    pub fn current_pose(&self) -> (r: Model2D)
        ensures
            r == self.pose(),
    {
        self.x_t
    }

    /// The pose before the last stateful update.
    pub fn x_tprev(&self) -> (r: Model2D)
        ensures
            r == self.previous_pose(),
    {
        self.x_tprev
    }

    /// The distance between the wheels.
    pub fn base_length(&self) -> (r: Real)
        ensures
            r == self.wheelbase(),
    {
        self.base_length
    }

    /// The step for given wheel deltas and a given divisor of their
    /// difference.
    fn step_from_deltas<F: Fn(Operation) -> Real>(
        unit: &F,
        diff_l: Real,
        diff_r: Real,
        divisor: Real,
    ) -> (r: Result<ChangeParams, ChangeParams>)
        requires
            total(unit),
        ensures
            stepped(outcomes(unit), diff_l, diff_r, divisor, r),
    {
        let difference = apply(unit, Operation::Sub(diff_r, diff_l));
        let alpha = apply(unit, Operation::Div(difference, divisor));
        let sum = apply(unit, Operation::Add(diff_l, diff_r));
        let delta_s = apply(unit, Operation::Div(sum, Real::two()));
        proof {
            reveal_with_fuel(evaluates, 3);
            assert(evaluates(outcomes(unit), angular_change(diff_l, diff_r, divisor), alpha));
            assert(evaluates(outcomes(unit), arc_length(diff_l, diff_r), delta_s));
        }
        if alpha.is_zero() {
            return Err(ChangeParams::new(Real::zero(), Real::zero(), delta_s));
        }
        let radius = apply(unit, Operation::Div(diff_l, alpha));
        Ok(ChangeParams::new(radius, alpha, delta_s))
    }

    /// Returns radius of turning, angle of turn and distance travelled for
    /// the readings `odometry_l`, `odometry_r`, measured against the readings
    /// of the last commit. If motion is in a straight line, returns
    /// `Err` with the distance travelled. The angle of turn is the difference
    /// of the wheel deltas divided by the wheelbase; the line is straight
    /// where that quotient compares equal to zero exactly.
    ///
    /// The model is left as it was: to take the readings over, call
    /// [`OdometryModel::update_odometry_readings`].
    pub fn update_get_radius_angle_distance<F: Fn(Operation) -> Real>(
        &mut self,
        unit: &F,
        odometry_l: Real,
        odometry_r: Real,
    ) -> (r: Result<ChangeParams, ChangeParams>)
        requires
            total(unit),
        ensures
            *final(self) == *old(self),
            old(self).steps(outcomes(unit), odometry_l, odometry_r, r),
    {
        let diff_l = apply(unit, Operation::Sub(odometry_l, self.odometry_l));
        let diff_r = apply(unit, Operation::Sub(odometry_r, self.odometry_r));
        Self::step_from_deltas(unit, diff_l, diff_r, self.base_length)
    }

    /// As [`OdometryModel::update_get_radius_angle_distance`], but with the
    /// other convention for the angle of turn: the difference of the wheel
    /// deltas is divided by twice the wheelbase. Prefer the former; this one
    /// is kept for callers that were tuned to it.
    pub fn update_get_radius_angle_distance_depr<F: Fn(Operation) -> Real>(
        &mut self,
        unit: &F,
        odometry_l: Real,
        odometry_r: Real,
    ) -> (r: Result<ChangeParams, ChangeParams>)
        requires
            total(unit),
        ensures
            *final(self) == *old(self),
            solves_halved(
                outcomes(unit),
                old(self).left_reading(),
                old(self).right_reading(),
                odometry_l,
                odometry_r,
                old(self).wheelbase(),
                r,
            ),
    {
        let diff_l = apply(unit, Operation::Sub(odometry_l, self.odometry_l));
        let diff_r = apply(unit, Operation::Sub(odometry_r, self.odometry_r));
        let divisor = apply(unit, Operation::Mul(Real::two(), self.base_length));
        Self::step_from_deltas(unit, diff_l, diff_r, divisor)
    }

    /// Takes `odometry_l` and `odometry_r` over as the last readings seen.
    /// Nothing else does this but the trait's two update methods: the
    /// functions that return a Jacobian must not change the state.
    pub fn update_odometry_readings(&mut self, odometry_l: Real, odometry_r: Real)
        ensures
            final(self).committed(*old(self), odometry_l, odometry_r),
    {
        self.odometry_l = odometry_l;
        self.odometry_r = odometry_r;
    }

    /// Moves the model's pose along the arc `pos_change` and returns the new
    /// pose. The pose before is kept as the previous one.
    pub fn update_position_coords<F: Fn(Operation) -> Real>(
        &mut self,
        unit: &F,
        pos_change: ChangeParams,
    ) -> (r: Model2D)
        requires
            total(unit),
        ensures
            arc_pose(outcomes(unit), old(self).pose(), pos_change, r),
            final(self).repositioned(*old(self), r),
    {
        let new = Self::update_position_coords_stateless(unit, self.x_t, pos_change);
        self.x_tprev = self.x_t;
        self.x_t = new;
        new
    }

    /// Moves the pose `state` along the arc `pos_change` and returns the new
    /// pose.
    pub fn update_position_coords_stateless<F: Fn(Operation) -> Real>(
        unit: &F,
        state: Model2D,
        pos_change: ChangeParams,
    ) -> (r: Model2D)
        requires
            total(unit),
        ensures
            arc_pose(outcomes(unit), state, pos_change, r),
    {
        let start_cos = apply(unit, Operation::Cos(state.theta));
        let from = apply(unit, Operation::Mul(pos_change.R, start_cos));
        let end = apply(unit, Operation::Add(state.theta, pos_change.alpha));
        let end_cos = apply(unit, Operation::Cos(end));
        let to = apply(unit, Operation::Mul(pos_change.R, end_cos));
        let rise = apply(unit, Operation::Sub(from, to));
        let y_new = apply(unit, Operation::Add(rise, state.y));

        let end = apply(unit, Operation::Add(state.theta, pos_change.alpha));
        let end_sin = apply(unit, Operation::Sin(end));
        let to = apply(unit, Operation::Mul(pos_change.R, end_sin));
        let start_sin = apply(unit, Operation::Sin(state.theta));
        let from = apply(unit, Operation::Mul(pos_change.R, start_sin));
        let run = apply(unit, Operation::Sub(to, from));
        let x_new = apply(unit, Operation::Add(run, state.x));

        let theta_new = apply(unit, Operation::Add(state.theta, pos_change.alpha));
        proof {
            reveal_with_fuel(evaluates, 6);
        }
        Model2D::new(x_new, y_new, theta_new)
    }

    /// Moves the model's pose straight ahead by `distance.s` and returns the
    /// new pose. The pose before is kept as the previous one. This is the
    /// update for a step without turning, where the arc's radius is not
    /// defined.
    pub fn update_position_coords_straight_line<F: Fn(Operation) -> Real>(
        &mut self,
        unit: &F,
        distance: ChangeParams,
    ) -> (r: Model2D)
        requires
            total(unit),
        ensures
            straight_pose(outcomes(unit), old(self).pose(), distance, r),
            final(self).repositioned(*old(self), r),
    {
        let new = Self::update_position_coords_straight_line_stateless(unit, self.x_t, distance);
        self.x_tprev = self.x_t;
        self.x_t = new;
        new
    }

    /// Moves the pose `state` straight ahead by `distance.s` and returns the
    /// new pose.
    pub fn update_position_coords_straight_line_stateless<F: Fn(Operation) -> Real>(
        unit: &F,
        state: Model2D,
        distance: ChangeParams,
    ) -> (r: Model2D)
        requires
            total(unit),
        ensures
            straight_pose(outcomes(unit), state, distance, r),
    {
        let sin = apply(unit, Operation::Sin(state.theta));
        let rise = apply(unit, Operation::Mul(distance.s, sin));
        let y_new = apply(unit, Operation::Add(state.y, rise));
        let cos = apply(unit, Operation::Cos(state.theta));
        let run = apply(unit, Operation::Mul(distance.s, cos));
        let x_new = apply(unit, Operation::Add(state.x, run));
        proof {
            reveal_with_fuel(evaluates, 5);
        }
        Model2D::new(x_new, y_new, state.theta)
    }

    /// The derivative at `state` of the move along the arc `pos_change`. Only
    /// the derivative with respect to the heading is filled in. For a step
    /// without turning the radius is not defined: use
    /// [`OdometryModel::update_get_jacobian_straight_line_stateless`].
    pub fn update_get_jacobian_stateless<F: Fn(Operation) -> Real>(
        unit: &F,
        state: Model2D,
        pos_change: ChangeParams,
    ) -> (r: JacobianModel2D)
        requires
            total(unit),
        ensures
            arc_jacobian(outcomes(unit), state, pos_change, r),
    {
        let mut data = JacobianModel2D::zeros();
        let start_sin = apply(unit, Operation::Sin(state.theta));
        let from = apply(unit, Operation::Mul(pos_change.R.neg(), start_sin));
        let end = apply(unit, Operation::Add(state.theta, pos_change.alpha));
        let end_sin = apply(unit, Operation::Sin(end));
        let to = apply(unit, Operation::Mul(pos_change.R, end_sin));
        let y_jacobian = apply(unit, Operation::Add(from, to));

        let end = apply(unit, Operation::Add(state.theta, pos_change.alpha));
        let end_cos = apply(unit, Operation::Cos(end));
        let to = apply(unit, Operation::Mul(pos_change.R, end_cos));
        let start_cos = apply(unit, Operation::Cos(state.theta));
        let from = apply(unit, Operation::Mul(pos_change.R, start_cos));
        let x_jacobian = apply(unit, Operation::Sub(to, from));

        let theta_jacobian = Real::zero();
        let _ = data.column(2, (x_jacobian, y_jacobian, theta_jacobian));
        proof {
            lemma_negated(pos_change.R);
            reveal_with_fuel(evaluates, 6);
        }
        data
    }

    /// The derivative at `state` of the move straight ahead by `distance.s`.
    /// Only the derivative with respect to the heading is filled in.
    pub fn update_get_jacobian_straight_line_stateless<F: Fn(Operation) -> Real>(
        unit: &F,
        state: Model2D,
        distance: ChangeParams,
    ) -> (r: JacobianModel2D)
        requires
            total(unit),
        ensures
            straight_jacobian(outcomes(unit), state, distance, r),
    {
        let mut data = JacobianModel2D::zeros();
        let cos = apply(unit, Operation::Cos(state.theta));
        let y_jacobian = apply(unit, Operation::Mul(distance.s, cos));
        let sin = apply(unit, Operation::Sin(state.theta));
        let x_jacobian = apply(unit, Operation::Mul(distance.s.neg(), sin));

        let theta_jacobian = Real::zero();
        let _ = data.column(2, (x_jacobian, y_jacobian, theta_jacobian));
        proof {
            lemma_negated(distance.s);
            reveal_with_fuel(evaluates, 5);
        }
        data
    }

    /// Converts the angles turned by the wheels to the distances they covered.
    pub fn angle_to_distance<F: Fn(Operation) -> Real>(
        unit: &F,
        angle_l: Real,
        angle_r: Real,
        wheel_radius: Real,
    ) -> (r: (Real, Real))
        requires
            total(unit),
        ensures
            outcomes(unit)(Operation::Mul(angle_l, wheel_radius), r.0),
            outcomes(unit)(Operation::Mul(angle_r, wheel_radius), r.1),
    {
        let left = apply(unit, Operation::Mul(angle_l, wheel_radius));
        let right = apply(unit, Operation::Mul(angle_r, wheel_radius));
        (left, right)
    }
}

/// Two models with the same readings, poses and wheelbase are the same model.
pub proof fn lemma_same_state(a: OdometryModel, b: OdometryModel)
    requires
        a.left_reading() == b.left_reading(),
        a.right_reading() == b.right_reading(),
        a.pose() == b.pose(),
        a.previous_pose() == b.previous_pose(),
        a.wheelbase() == b.wheelbase(),
    ensures
        a == b,
{
}

impl MotionUpdate2D for OdometryModel {
    fn update_coords_odometry<F: Fn(Operation) -> Real>(
        &mut self,
        unit: &F,
        odom_l: Real,
        odom_r: Real,
    ) -> (r: Model2D)
        ensures
            OdometryModel::advances(outcomes(unit), *old(self), odom_l, odom_r, r, *final(self)),
    {
        let step = self.update_get_radius_angle_distance(unit, odom_l, odom_r);
        let params = match step {
            Ok(v) => self.update_position_coords(unit, v),
            Err(e) => self.update_position_coords_straight_line(unit, e),
        };
        self.update_odometry_readings(odom_l, odom_r);
        proof {
            assert(moved(outcomes(unit), old(self).pose(), step, params));
        }
        params
    }

    /// Stateless as to the pose only: the wheel readings of the model are
    /// read, and replaced by the new ones.
    fn update_coords_odometry_stateless<F: Fn(Operation) -> Real>(
        &mut self,
        unit: &F,
        pos: Model2D,
        odom_l: Real,
        odom_r: Real,
    ) -> (r: Model2D)
        ensures
            OdometryModel::advances_from(
                outcomes(unit),
                *old(self),
                pos,
                odom_l,
                odom_r,
                r,
                *final(self),
            ),
    {
        let step = self.update_get_radius_angle_distance(unit, odom_l, odom_r);
        let params = match step {
            Ok(v) => Self::update_position_coords_stateless(unit, pos, v),
            Err(e) => Self::update_position_coords_straight_line_stateless(unit, pos, e),
        };
        self.update_odometry_readings(odom_l, odom_r);
        proof {
            assert(moved(outcomes(unit), pos, step, params));
        }
        params
    }

    /// Where both the Jacobian and the updated pose are wanted for the same
    /// readings, get the Jacobian first: the update replaces the readings
    /// that the Jacobian is computed against.
    fn get_jacobian_stateless<F: Fn(Operation) -> Real>(
        &mut self,
        unit: &F,
        pos: Model2D,
        odom_l: Real,
        odom_r: Real,
    ) -> (r: JacobianModel2D)
        ensures
            OdometryModel::queried(
                outcomes(unit),
                *old(self),
                pos,
                odom_l,
                odom_r,
                r,
                *final(self),
            ),
    {
        let step = self.update_get_radius_angle_distance(unit, odom_l, odom_r);
        let params = match step {
            Ok(v) => Self::update_get_jacobian_stateless(unit, pos, v),
            Err(e) => Self::update_get_jacobian_straight_line_stateless(unit, pos, e),
        };
        proof {
            assert(differentiated(outcomes(unit), pos, step, params));
        }
        params
    }
}

} // verus!
