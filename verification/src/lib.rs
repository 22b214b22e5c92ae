//! Pose integration for differential-drive robots, with the derivative of the
//! pose update with respect to heading.
//!
//! A robot's pose (x, y, heading) is advanced from the distances that its two
//! wheels have covered. One step is either an arc or, where the heading does
//! not change, a straight line; the kinematic step solver decides which, and
//! the pose update and its Jacobian both go by that decision.
//!
//! Numbers are binary32 values held as bit patterns ([`binary32::Real`]). What
//! is exact on the bits is done here: the comparison with zero that selects
//! the branch, negation, the constants. Every operation that rounds is
//! requested from an arithmetic unit that the caller passes in
//! ([`arithmetic`]), and each contract says which formula the result was
//! computed from through that unit ([`kinematics`]). What follows from the
//! formulas for arithmetic that is exact on zeros is proved in [`laws`].
pub mod arithmetic;
pub mod base;
pub mod binary32;
pub mod kinematics;
pub mod laws;
pub mod odometry_motion_model;
pub mod velocity_motion_model;
