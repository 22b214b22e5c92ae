//! Pose integration from wheel travel sampled at a fixed time step: the
//! travel is turned into wheel velocities first, and linear and angular
//! velocity take the place of arc length and angular change.
use vstd::prelude::*;
use crate::arithmetic::{apply, evaluates, minus, outcomes, over, total, val, Operation, Term};
use crate::base::{JacobianModel2D, Model2D};
use crate::binary32::Real;
use crate::kinematics::{differentiated, moved};
use crate::odometry_motion_model::{
    angular_change, arc_length, straight, turning, ChangeParams, OdometryModel,
};

verus! {

/// `(reading - prev) / time_step`: the velocity of one wheel.
pub open spec fn wheel_velocity(reading: Real, prev: Real, time_step: Real) -> Term {
    over(minus(val(reading), val(prev)), val(time_step))
}

/// `out` is the step for the wheel velocities `v_l` and `v_r`: `Err` with the
/// linear velocity where the angular velocity compares equal to zero, else
/// `Ok` with radius `v / omega`.
pub open spec fn velocity_stepped(
    may: spec_fn(Operation, Real) -> bool,
    v_l: Real,
    v_r: Real,
    divisor: Real,
    out: Result<ChangeParams, ChangeParams>,
) -> bool {
    match out {
        Ok(c) => turning(may, v_l, v_r, divisor, c) && may(Operation::Div(c.s, c.alpha), c.R),
        Err(c) => straight(may, v_l, v_r, divisor, c),
    }
}

/// `out` is the step from the stored readings `prev_l`, `prev_r` to the new
/// readings `l`, `r`, taken over the time `time_step`.
pub open spec fn velocity_solves(
    may: spec_fn(Operation, Real) -> bool,
    prev_l: Real,
    prev_r: Real,
    time_step: Real,
    l: Real,
    r: Real,
    divisor: Real,
    out: Result<ChangeParams, ChangeParams>,
) -> bool {
    exists|v_l: Real, v_r: Real|
        #![trigger evaluates(may, wheel_velocity(l, prev_l, time_step), v_l), evaluates(may, wheel_velocity(r, prev_r, time_step), v_r)]
        evaluates(may, wheel_velocity(l, prev_l, time_step), v_l) && evaluates(
            may,
            wheel_velocity(r, prev_r, time_step),
            v_r,
        ) && velocity_stepped(may, v_l, v_r, divisor, out)
}

/// A differential-drive robot whose wheel travel is sampled every
/// `time_step`. The stored readings are zero from construction on: nothing
/// replaces them, so each sample is measured from zero.
pub struct VelocityMotionModel {
    odom_l: Real,
    odom_r: Real,
    time_step: Real,
    base_length: Real,
    wheel_radius: Real,
}

impl VelocityMotionModel {
    /// The left wheel's stored reading.
    pub closed spec fn left_reading(self) -> Real {
        self.odom_l
    }

    /// The right wheel's stored reading.
    pub closed spec fn right_reading(self) -> Real {
        self.odom_r
    }

    /// The time between two samples.
    pub closed spec fn sample_time(self) -> Real {
        self.time_step
    }

    /// The distance between the wheels.
    pub closed spec fn wheelbase(self) -> Real {
        self.base_length
    }

    /// The radius of a wheel. It takes no part in the formulas: the caller
    /// converts wheel angles to distances.
    pub closed spec fn wheel(self) -> Real {
        self.wheel_radius
    }

    /// The wheelbase is greater than zero and the time step is a number other
    /// than zero. The formulas divide by both; a model that is not well
    /// formed is accepted and computes infinities or not-a-number.
    pub open spec fn well_formed(self) -> bool {
        &&& self.wheelbase().is_positive()
        &&& !self.sample_time().is_zero_spec()
        &&& !self.sample_time().is_nan()
    }

    /// `out` is the step that the readings `l`, `r` give in the state `self`.
    pub open spec fn steps(
        self,
        may: spec_fn(Operation, Real) -> bool,
        l: Real,
        r: Real,
        out: Result<ChangeParams, ChangeParams>,
    ) -> bool {
        velocity_solves(
            may,
            self.left_reading(),
            self.right_reading(),
            self.sample_time(),
            l,
            r,
            self.wheelbase(),
            out,
        )
    }

    /// `out` is `pos` moved by the step that the readings `l`, `r` give in the
    /// state `self`.
    pub open spec fn advances_from(
        self,
        may: spec_fn(Operation, Real) -> bool,
        pos: Model2D,
        l: Real,
        r: Real,
        out: Model2D,
    ) -> bool {
        exists|step: Result<ChangeParams, ChangeParams>|
            #![trigger moved(may, pos, step, out)]
            self.steps(may, l, r, step) && moved(may, pos, step, out)
    }

    /// `out` is the derivative at `pos` of the move by the step that the
    /// readings `l`, `r` give in the state `self`.
    pub open spec fn differentiates(
        self,
        may: spec_fn(Operation, Real) -> bool,
        pos: Model2D,
        l: Real,
        r: Real,
        out: JacobianModel2D,
    ) -> bool {
        exists|step: Result<ChangeParams, ChangeParams>|
            #![trigger differentiated(may, pos, step, out)]
            self.steps(may, l, r, step) && differentiated(may, pos, step, out)
    }

    /// A robot whose wheels have not moved yet.
    pub fn new(base_length: Real, wheel_radius: Real, time_step: Real) -> (r: VelocityMotionModel)
        ensures
            r.left_reading() == Real::zero_spec(),
            r.right_reading() == Real::zero_spec(),
            r.sample_time() == time_step,
            r.wheelbase() == base_length,
            r.wheel() == wheel_radius,
            r.well_formed() <==> base_length.is_positive() && !time_step.is_zero_spec()
                && !time_step.is_nan(),
    {
        VelocityMotionModel {
            odom_l: Real::zero(),
            odom_r: Real::zero(),
            time_step,
            base_length,
            wheel_radius,
        }
    }

    /// The stored readings of the left and the right wheel.
    pub fn odometry_readings(&self) -> (r: (Real, Real))
        ensures
            r.0 == self.left_reading(),
            r.1 == self.right_reading(),
    {
        (self.odom_l, self.odom_r)
    }

    /// The time between two samples.
    pub fn time_step(&self) -> (r: Real)
        ensures
            r == self.sample_time(),
    {
        self.time_step
    }

    /// The distance between the wheels.
    pub fn base_length(&self) -> (r: Real)
        ensures
            r == self.wheelbase(),
    {
        self.base_length
    }

    /// The radius of a wheel.
    pub fn wheel_radius(&self) -> (r: Real)
        ensures
            r == self.wheel(),
    {
        self.wheel_radius
    }

    /// Returns radius of turning, angular velocity and linear velocity for
    /// the readings `odom_l`, `odom_r`. If motion is in a straight line,
    /// returns `Err` with the linear velocity. The line is straight where the
    /// angular velocity compares equal to zero exactly. The model is left as
    /// it was.
    pub fn update_get_radius_angle_distance<F: Fn(Operation) -> Real>(
        &mut self,
        unit: &F,
        odom_l: Real,
        odom_r: Real,
    ) -> (r: Result<ChangeParams, ChangeParams>)
        requires
            total(unit),
        ensures
            *final(self) == *old(self),
            old(self).steps(outcomes(unit), odom_l, odom_r, r),
    {
        let travel_l = apply(unit, Operation::Sub(odom_l, self.odom_l));
        let diff_v_l = apply(unit, Operation::Div(travel_l, self.time_step));
        let travel_r = apply(unit, Operation::Sub(odom_r, self.odom_r));
        let diff_v_r = apply(unit, Operation::Div(travel_r, self.time_step));

        let difference = apply(unit, Operation::Sub(diff_v_r, diff_v_l));
        let omega = apply(unit, Operation::Div(difference, self.base_length));
        let sum = apply(unit, Operation::Add(diff_v_l, diff_v_r));
        let v = apply(unit, Operation::Div(sum, Real::two()));
        proof {
            reveal_with_fuel(evaluates, 3);
            assert(evaluates(outcomes(unit), wheel_velocity(odom_l, self.odom_l, self.time_step), diff_v_l));
            assert(evaluates(outcomes(unit), wheel_velocity(odom_r, self.odom_r, self.time_step), diff_v_r));
            assert(evaluates(outcomes(unit), angular_change(diff_v_l, diff_v_r, self.base_length), omega));
            assert(evaluates(outcomes(unit), arc_length(diff_v_l, diff_v_r), v));
        }
        if omega.is_zero() {
            return Err(ChangeParams::new(Real::zero(), Real::zero(), v));
        }
        let radius = apply(unit, Operation::Div(v, omega));
        Ok(ChangeParams::new(radius, omega, v))
    }

    /// Moves the pose `state` by the step that the readings give. The model
    /// is left as it was.
    pub fn update_coords_odometry_stateless<F: Fn(Operation) -> Real>(
        &mut self,
        unit: &F,
        state: Model2D,
        odom_l: Real,
        odom_r: Real,
    ) -> (r: Model2D)
        requires
            total(unit),
        ensures
            *final(self) == *old(self),
            old(self).advances_from(outcomes(unit), state, odom_l, odom_r, r),
    {
        let step = self.update_get_radius_angle_distance(unit, odom_l, odom_r);
        let new = match step {
            Ok(pos_change) => OdometryModel::update_position_coords_stateless(
                unit,
                state,
                pos_change,
            ),
            Err(distance) => OdometryModel::update_position_coords_straight_line_stateless(
                unit,
                state,
                distance,
            ),
        };
        proof {
            assert(moved(outcomes(unit), state, step, new));
        }
        new
    }

    /// The derivative at `state` of the move that the readings give, by the
    /// branch that the move itself takes. The model is left as it was.
    pub fn update_get_jacobian_stateless<F: Fn(Operation) -> Real>(
        &mut self,
        unit: &F,
        state: Model2D,
        odom_l: Real,
        odom_r: Real,
    ) -> (r: JacobianModel2D)
        requires
            total(unit),
        ensures
            *final(self) == *old(self),
            old(self).differentiates(outcomes(unit), state, odom_l, odom_r, r),
    {
        let step = self.update_get_radius_angle_distance(unit, odom_l, odom_r);
        let data = match step {
            Ok(omega_change) => OdometryModel::update_get_jacobian_stateless(
                unit,
                state,
                omega_change,
            ),
            Err(velocity) => OdometryModel::update_get_jacobian_straight_line_stateless(
                unit,
                state,
                velocity,
            ),
        };
        proof {
            assert(differentiated(outcomes(unit), state, step, data));
        }
        data
    }
}

} // verus!
