//! The data shared by the motion models: a pose, and the matrix of partial
//! derivatives of an updated pose with respect to the pose before.
use vstd::prelude::*;
use crate::arithmetic::{total, Operation};
use crate::binary32::Real;

verus! {

/// A pose in the plane: position and heading (radians, not normalized).
#[derive(Clone, Copy, Debug)]
pub struct Model2D {
    pub x: Real,
    pub y: Real,
    pub theta: Real,
}

impl Model2D {
    pub fn new(x: Real, y: Real, theta: Real) -> (r: Model2D)
        ensures
            r == (Model2D { x, y, theta }),
    {
        Model2D { x, y, theta }
    }
}

/// A 3x3 matrix: entry `(i, j)` is the derivative of component `i` of the
/// updated pose with respect to component `j` of the pose before, the
/// components taken in the order x, y, theta.
pub struct JacobianModel2D {
    pub data: [[Real; 3]; 3],
}

impl JacobianModel2D {
    /// The entry in row `i`, column `j`.
    pub open spec fn entry(self, i: int, j: int) -> Real {
        self.data[i][j]
    }

    /// The three components of `value`, by position.
    pub open spec fn component(value: (Real, Real, Real), k: int) -> Real {
        if k == 0 {
            value.0
        } else if k == 1 {
            value.1
        } else {
            value.2
        }
    }

    /// Every entry is positive zero.
    pub open spec fn is_zeros(self) -> bool {
        forall|i: int, j: int| 0 <= i < 3 && 0 <= j < 3 ==> self.entry(i, j) == Real::zero_spec()
    }

    /// The matrix of zeros.
    pub fn zeros() -> (r: JacobianModel2D)
        ensures
            r.is_zeros(),
    {
        JacobianModel2D { data: [[Real::zero(); 3]; 3] }
    }

    /// Overwrites row `index` with `value`. An index of three or more is
    /// refused and leaves the matrix as it was.
    pub fn row(&mut self, index: usize, value: (Real, Real, Real)) -> (r: Result<(), ()>)
        ensures
            index < 3 ==> r is Ok && forall|i: int, j: int|
                0 <= i < 3 && 0 <= j < 3 ==> final(self).entry(i, j) == if i == index {
                    Self::component(value, j)
                } else {
                    old(self).entry(i, j)
                },
            index >= 3 ==> r is Err && *final(self) == *old(self),
    {
        if index < 3 {
            self.data[index][0] = value.0;
            self.data[index][1] = value.1;
            self.data[index][2] = value.2;
        } else {
            return Err(());
        }
        Ok(())
    }

    /// Overwrites column `index` with `value`. An index of three or more is
    /// refused and leaves the matrix as it was.
    pub fn column(&mut self, index: usize, value: (Real, Real, Real)) -> (r: Result<(), ()>)
        ensures
            index < 3 ==> r is Ok && forall|i: int, j: int|
                0 <= i < 3 && 0 <= j < 3 ==> final(self).entry(i, j) == if j == index {
                    Self::component(value, i)
                } else {
                    old(self).entry(i, j)
                },
            index >= 3 ==> r is Err && *final(self) == *old(self),
    {
        if index < 3 {
            self.data[0][index] = value.0;
            self.data[1][index] = value.1;
            self.data[2][index] = value.2;
        } else {
            return Err(());
        }
        Ok(())
    }
}

/// What every motion model in the plane offers: it takes the total distance
/// travelled by each wheel and gives the new pose, or the derivative of the
/// new pose with respect to the old one. Each model states in its own
/// contract what it computes.
pub trait MotionUpdate2D {
    /// Moves the model's own pose by the step that the readings give, and
    /// takes the readings over as the last ones seen.
    fn update_coords_odometry<F: Fn(Operation) -> Real>(
        &mut self,
        unit: &F,
        odom_l: Real,
        odom_r: Real,
    ) -> Model2D
        requires
            total(unit),
    ;

    /// Moves the pose `pos` by the step that the readings give, and takes the
    /// readings over as the last ones seen. The model's own pose is not used.
    fn update_coords_odometry_stateless<F: Fn(Operation) -> Real>(
        &mut self,
        unit: &F,
        pos: Model2D,
        odom_l: Real,
        odom_r: Real,
    ) -> Model2D
        requires
            total(unit),
    ;

    /// The derivative at `pos` of the move that the readings give. The model
    /// is left as it was.
    fn get_jacobian_stateless<F: Fn(Operation) -> Real>(
        &mut self,
        unit: &F,
        pos: Model2D,
        odom_l: Real,
        odom_r: Real,
    ) -> JacobianModel2D
        requires
            total(unit),
    ;
}

} // verus!
