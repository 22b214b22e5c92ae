use motion_models::arithmetic::{apply, Operation};
use motion_models::base::{JacobianModel2D, Model2D};
use motion_models::binary32::{Real, INFINITY_BITS, MAGNITUDE_MASK, SIGN_MASK, TWO_BITS};
use motion_models::laws::DOUBLING_LIMIT;
use motion_models::odometry_motion_model::ChangeParams;
use motion_models::velocity_motion_model::VelocityMotionModel;

fn enc(v: f32) -> Real {
    Real::from_bits(v.to_bits())
}

fn dec(r: Real) -> f32 {
    f32::from_bits(r.to_bits())
}

fn fpu(op: Operation) -> Real {
    match op {
        Operation::Add(a, b) => enc(dec(a) + dec(b)),
        Operation::Sub(a, b) => enc(dec(a) - dec(b)),
        Operation::Mul(a, b) => enc(dec(a) * dec(b)),
        Operation::Div(a, b) => enc(dec(a) / dec(b)),
        Operation::Sin(a) => enc(dec(a).sin()),
        Operation::Cos(a) => enc(dec(a).cos()),
    }
}

fn samples() -> Vec<f32> {
    vec![
        0.0,
        -0.0,
        1.0,
        -1.0,
        0.1,
        20.9,
        -21.0,
        1.57,
        1.0e-40,
        -1.0e-40,
        f32::MIN_POSITIVE,
        1.0e30,
        1.7e38,
        -1.7e38,
        f32::MAX,
        f32::MIN,
        f32::INFINITY,
        f32::NEG_INFINITY,
        f32::NAN,
    ]
}

fn entries(m: &JacobianModel2D) -> [[u32; 3]; 3] {
    let mut out = [[0u32; 3]; 3];
    for i in 0..3 {
        for j in 0..3 {
            out[i][j] = m.data[i][j].to_bits();
        }
    }
    out
}

#[test]
fn bits_round_trip() {
    for v in samples() {
        assert_eq!(enc(v).to_bits(), v.to_bits());
        assert_eq!(Real::from_bits(v.to_bits()).bits, v.to_bits());
    }
}

#[test]
fn constants_are_the_numbers_they_name() {
    assert_eq!(dec(Real::zero()), 0.0);
    assert!(dec(Real::zero()).is_sign_positive());
    assert_eq!(dec(Real::two()), 2.0);
    assert_eq!(TWO_BITS, 2.0f32.to_bits());
    assert_eq!(INFINITY_BITS, f32::INFINITY.to_bits());
    assert_eq!(SIGN_MASK, (-0.0f32).to_bits());
    assert_eq!(MAGNITUDE_MASK, !SIGN_MASK);
    // Doubling overflows from 2^127 on.
    assert_eq!(DOUBLING_LIMIT, 2.0f32.powi(127).to_bits());
    assert!((f32::from_bits(DOUBLING_LIMIT - 1) * 2.0).is_finite());
    assert!((f32::from_bits(DOUBLING_LIMIT) * 2.0).is_infinite());
}

#[test]
fn zero_test_is_comparison_with_zero() {
    for v in samples() {
        assert_eq!(enc(v).is_zero(), v == 0.0, "{}", v);
    }
    assert!(enc(0.0).is_zero());
    assert!(enc(-0.0).is_zero());
    assert!(!enc(f32::NAN).is_zero());
    assert!(!enc(1.0e-45).is_zero());
}

#[test]
fn negation_flips_the_sign_only() {
    for v in samples() {
        assert_eq!(enc(v).neg().to_bits(), (-v).to_bits(), "{}", v);
        assert_eq!(enc(v).neg().neg().to_bits(), v.to_bits());
    }
    assert_eq!(dec(enc(2.5).neg()), -2.5);
    assert!(dec(enc(0.0).neg()).is_sign_negative());
}

#[test]
fn apply_hands_the_operation_to_the_unit() {
    assert_eq!(dec(apply(&fpu, Operation::Add(enc(1.5), enc(2.25)))), 3.75);
    assert_eq!(dec(apply(&fpu, Operation::Sub(enc(1.5), enc(2.25)))), -0.75);
    assert_eq!(dec(apply(&fpu, Operation::Mul(enc(1.5), enc(2.0)))), 3.0);
    assert_eq!(dec(apply(&fpu, Operation::Div(enc(1.5), enc(2.0)))), 0.75);
    assert_eq!(dec(apply(&fpu, Operation::Sin(enc(0.0)))), 0.0);
    assert_eq!(dec(apply(&fpu, Operation::Cos(enc(0.0)))), 1.0);
    let seven = |_op: Operation| Real::from_bits(7);
    assert_eq!(apply(&seven, Operation::Cos(enc(0.0))).to_bits(), 7);
}

#[test]
fn single_precision_arithmetic_is_exact_on_zero() {
    let all = samples();
    for &a in &all {
        for &b in &all {
            if a.is_finite() && a == b {
                assert_eq!(dec(fpu(Operation::Sub(enc(a), enc(b)))), 0.0);
            }
            if a == 0.0 && b != 0.0 && !b.is_nan() {
                assert_eq!(dec(fpu(Operation::Div(enc(a), enc(b)))), 0.0);
            }
            if a == 0.0 && b == 0.0 {
                assert_eq!(dec(fpu(Operation::Add(enc(a), enc(b)))), 0.0);
            }
            if !a.is_nan() && b == 0.0 {
                assert_eq!(dec(fpu(Operation::Add(enc(a), enc(b)))), a);
            }
            if a == 0.0 && b.is_finite() {
                assert_eq!(dec(fpu(Operation::Mul(enc(a), enc(b)))), 0.0);
            }
        }
        if a.is_finite() {
            assert!(dec(fpu(Operation::Sin(enc(a)))).is_finite());
            assert!(dec(fpu(Operation::Cos(enc(a)))).is_finite());
        }
        if (a.to_bits() & MAGNITUDE_MASK) < DOUBLING_LIMIT {
            let sum = fpu(Operation::Add(enc(a), enc(a)));
            assert_eq!(dec(fpu(Operation::Div(sum, Real::two()))), a);
        }
    }
}

#[test]
fn pose_and_step_hold_what_they_are_given() {
    let p = Model2D::new(enc(1.0), enc(2.0), enc(3.0));
    assert_eq!((dec(p.x), dec(p.y), dec(p.theta)), (1.0, 2.0, 3.0));
    let c = ChangeParams::new(enc(4.0), enc(5.0), enc(6.0));
    assert_eq!((dec(c.R), dec(c.alpha), dec(c.s)), (4.0, 5.0, 6.0));
}

#[test]
fn zeros_is_all_positive_zero() {
    let m = JacobianModel2D::zeros();
    assert_eq!(entries(&m), [[0; 3]; 3]);
}

#[test]
fn row_overwrites_one_row() {
    for index in 0..3 {
        let mut m = JacobianModel2D::zeros();
        assert_eq!(m.column(1, (enc(7.0), enc(8.0), enc(9.0))), Ok(()));
        assert_eq!(m.row(index, (enc(1.0), enc(2.0), enc(3.0))), Ok(()));
        for i in 0..3 {
            for j in 0..3 {
                let expected = if i == index {
                    [1.0, 2.0, 3.0][j]
                } else if j == 1 {
                    [7.0, 8.0, 9.0][i]
                } else {
                    0.0
                };
                assert_eq!(dec(m.data[i][j]), expected);
            }
        }
    }
}

#[test]
fn column_overwrites_one_column() {
    for index in 0..3 {
        let mut m = JacobianModel2D::zeros();
        assert_eq!(m.row(1, (enc(7.0), enc(8.0), enc(9.0))), Ok(()));
        assert_eq!(m.column(index, (enc(1.0), enc(2.0), enc(3.0))), Ok(()));
        for i in 0..3 {
            for j in 0..3 {
                let expected = if j == index {
                    [1.0, 2.0, 3.0][i]
                } else if i == 1 {
                    [7.0, 8.0, 9.0][j]
                } else {
                    0.0
                };
                assert_eq!(dec(m.data[i][j]), expected);
            }
        }
    }
}

#[test]
fn row_and_column_refuse_an_index_out_of_range() {
    let mut m = JacobianModel2D::zeros();
    assert_eq!(m.row(0, (enc(1.0), enc(2.0), enc(3.0))), Ok(()));
    let before = entries(&m);
    assert_eq!(m.row(3, (enc(4.0), enc(5.0), enc(6.0))), Err(()));
    assert_eq!(m.column(3, (enc(4.0), enc(5.0), enc(6.0))), Err(()));
    assert_eq!(m.row(usize::MAX, (enc(4.0), enc(5.0), enc(6.0))), Err(()));
    assert_eq!(m.column(usize::MAX, (enc(4.0), enc(5.0), enc(6.0))), Err(()));
    assert_eq!(entries(&m), before);
}

#[test]
fn velocity_model_keeps_its_constants() {
    let model = VelocityMotionModel::new(enc(0.5), enc(0.021), enc(0.1));
    assert_eq!(dec(model.base_length()), 0.5);
    assert_eq!(dec(model.wheel_radius()), 0.021);
    assert_eq!(dec(model.time_step()), 0.1);
    let (l, r) = model.odometry_readings();
    assert_eq!((l.to_bits(), r.to_bits()), (0, 0));
}

#[test]
fn velocity_solver_divides_by_the_time_step() {
    // Travel (0.5, 1.0) over 0.5 s: wheel velocities 1 and 2, wheelbase 0.5:
    // omega = 2, v = 1.5, R = v / omega = 0.75.
    let mut model = VelocityMotionModel::new(enc(0.5), enc(0.021), enc(0.5));
    let c = model.update_get_radius_angle_distance(&fpu, enc(0.5), enc(1.0)).unwrap();
    assert_eq!(dec(c.alpha), 2.0);
    assert_eq!(dec(c.s), 1.5);
    assert_eq!(dec(c.R), 0.75);
}

#[test]
fn velocity_solver_goes_straight_on_equal_travel() {
    let mut model = VelocityMotionModel::new(enc(0.5), enc(0.021), enc(0.5));
    let c = model.update_get_radius_angle_distance(&fpu, enc(1.0), enc(1.0)).unwrap_err();
    assert_eq!(c.R.to_bits(), 0);
    assert_eq!(c.alpha.to_bits(), 0);
    assert_eq!(dec(c.s), 2.0);
}

#[test]
fn velocity_solver_with_zero_time_step_is_not_straight() {
    // 0/0 is not a number, and not-a-number does not compare equal to zero.
    let mut model = VelocityMotionModel::new(enc(0.5), enc(0.021), enc(0.0));
    let step = model.update_get_radius_angle_distance(&fpu, enc(0.0), enc(0.0));
    assert!(dec(step.unwrap().alpha).is_nan());
}

#[test]
fn velocity_update_follows_the_arc_formulas() {
    let mut model = VelocityMotionModel::new(enc(0.5), enc(0.021), enc(0.5));
    let p = Model2D::new(enc(1.0), enc(2.0), enc(0.3));
    let out = model.update_coords_odometry_stateless(&fpu, p, enc(0.5), enc(1.0));
    let (r, omega, theta) = (0.75f32, 2.0f32, 0.3f32);
    assert_eq!(dec(out.x), r * (theta + omega).sin() - r * theta.sin() + 1.0);
    assert_eq!(dec(out.y), r * theta.cos() - r * (theta + omega).cos() + 2.0);
    assert_eq!(dec(out.theta), theta + omega);
}

#[test]
fn velocity_update_follows_the_straight_formulas() {
    let mut model = VelocityMotionModel::new(enc(0.5), enc(0.021), enc(0.5));
    let p = Model2D::new(enc(1.0), enc(2.0), enc(0.3));
    let out = model.update_coords_odometry_stateless(&fpu, p, enc(1.0), enc(1.0));
    assert_eq!(dec(out.x), 1.0 + 2.0 * 0.3f32.cos());
    assert_eq!(dec(out.y), 2.0 + 2.0 * 0.3f32.sin());
    assert_eq!(out.theta.to_bits(), p.theta.to_bits());
}

#[test]
fn velocity_jacobian_follows_the_formulas() {
    let mut model = VelocityMotionModel::new(enc(0.5), enc(0.021), enc(0.5));
    let p = Model2D::new(enc(1.0), enc(2.0), enc(0.3));
    let j = model.update_get_jacobian_stateless(&fpu, p, enc(0.5), enc(1.0));
    let (r, omega, theta) = (0.75f32, 2.0f32, 0.3f32);
    assert_eq!(dec(j.data[0][2]), r * (theta + omega).cos() - r * theta.cos());
    assert_eq!(dec(j.data[1][2]), -r * theta.sin() + r * (theta + omega).sin());
    assert_eq!(j.data[2][2].to_bits(), 0);

    let j = model.update_get_jacobian_stateless(&fpu, p, enc(1.0), enc(1.0));
    assert_eq!(dec(j.data[0][2]), -2.0 * 0.3f32.sin());
    assert_eq!(dec(j.data[1][2]), 2.0 * 0.3f32.cos());
    assert_eq!(j.data[2][2].to_bits(), 0);
    for i in 0..3 {
        for k in 0..2 {
            assert_eq!(j.data[i][k].to_bits(), 0);
        }
    }
}

#[test]
fn velocity_model_is_never_changed() {
    let mut model = VelocityMotionModel::new(enc(0.5), enc(0.021), enc(0.5));
    let p = Model2D::new(enc(1.0), enc(2.0), enc(0.3));
    let first = model.update_coords_odometry_stateless(&fpu, p, enc(0.5), enc(1.0));
    let _ = model.update_get_jacobian_stateless(&fpu, p, enc(0.5), enc(1.0));
    let second = model.update_coords_odometry_stateless(&fpu, p, enc(0.5), enc(1.0));
    assert_eq!(first.x.to_bits(), second.x.to_bits());
    assert_eq!(first.y.to_bits(), second.y.to_bits());
    assert_eq!(first.theta.to_bits(), second.theta.to_bits());
    let (l, r) = model.odometry_readings();
    assert_eq!((l.to_bits(), r.to_bits()), (0, 0));
}

#[test]
fn velocity_no_motion_keeps_the_pose() {
    let mut model = VelocityMotionModel::new(enc(0.5), enc(0.021), enc(0.5));
    let p = Model2D::new(enc(1.5), enc(-2.25), enc(1.57));
    let out = model.update_coords_odometry_stateless(&fpu, p, enc(0.0), enc(0.0));
    assert_eq!((dec(out.x), dec(out.y), dec(out.theta)), (1.5, -2.25, 1.57));
}
