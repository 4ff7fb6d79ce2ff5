use approx::Relative;
use liealg::linalg::{Col3, Mat3};
use liealg::{so3, AdjSO3, Adjoint, Algebra, Group, Point, Real, Vec3, Vector, SO3};
use std::f64::consts::{FRAC_PI_2, PI};

/// Double precision as the scalar of the library.
#[derive(Clone, Copy, Debug, PartialEq)]
struct F(f64);

impl Real for F {
    fn zero_spec() -> Self {
        F(0.0)
    }

    fn one_spec() -> Self {
        F(1.0)
    }

    fn epsilon_spec() -> Self {
        F(f64::EPSILON)
    }

    fn pi_spec() -> Self {
        F(PI)
    }

    fn add_spec(self, rhs: Self) -> Self {
        F(self.0 + rhs.0)
    }

    fn sub_spec(self, rhs: Self) -> Self {
        F(self.0 - rhs.0)
    }

    fn mul_spec(self, rhs: Self) -> Self {
        F(self.0 * rhs.0)
    }

    fn div_spec(self, rhs: Self) -> Self {
        F(self.0 / rhs.0)
    }

    fn neg_spec(self) -> Self {
        F(-self.0)
    }

    fn sqrt_spec(self) -> Self {
        F(self.0.sqrt())
    }

    fn sin_spec(self) -> Self {
        F(self.0.sin())
    }

    fn cos_spec(self) -> Self {
        F(self.0.cos())
    }

    fn acos_spec(self) -> Self {
        F(self.0.acos())
    }

    fn tan_spec(self) -> Self {
        F(self.0.tan())
    }

    fn lt_spec(self, rhs: Self) -> bool {
        self.0 < rhs.0
    }

    fn le_spec(self, rhs: Self) -> bool {
        self.0 <= rhs.0
    }

    fn zero() -> Self {
        F(0.0)
    }

    fn one() -> Self {
        F(1.0)
    }

    fn epsilon() -> Self {
        F(f64::EPSILON)
    }

    fn pi() -> Self {
        F(PI)
    }

    fn add(self, rhs: Self) -> Self {
        F(self.0 + rhs.0)
    }

    fn sub(self, rhs: Self) -> Self {
        F(self.0 - rhs.0)
    }

    fn mul(self, rhs: Self) -> Self {
        F(self.0 * rhs.0)
    }

    fn div(self, rhs: Self) -> Self {
        F(self.0 / rhs.0)
    }

    fn neg(self) -> Self {
        F(-self.0)
    }

    fn sqrt(self) -> Self {
        F(self.0.sqrt())
    }

    fn sin(self) -> Self {
        F(self.0.sin())
    }

    fn cos(self) -> Self {
        F(self.0.cos())
    }

    fn acos(self) -> Self {
        F(self.0.acos())
    }

    fn tan(self) -> Self {
        F(self.0.tan())
    }

    fn lt(self, rhs: Self) -> bool {
        self.0 < rhs.0
    }

    fn le(self, rhs: Self) -> bool {
        self.0 <= rhs.0
    }
}

/// The matrix with the given entries, listed row by row.
#[allow(dead_code)]
fn m3(a: [f64; 9]) -> Mat3<F> {
    Mat3::new(F(a[0]), F(a[1]), F(a[2]), F(a[3]), F(a[4]), F(a[5]), F(a[6]), F(a[7]), F(a[8]))
}

/// The entries of a matrix, listed row by row.
#[allow(dead_code)]
fn rows3(m: &Mat3<F>) -> [f64; 9] {
    [m.m00.0, m.m01.0, m.m02.0, m.m10.0, m.m11.0, m.m12.0, m.m20.0, m.m21.0, m.m22.0]
}

#[allow(dead_code)]
fn c3(x: f64, y: f64, z: f64) -> Col3<F> {
    Col3::new(F(x), F(y), F(z))
}

#[allow(dead_code)]
fn xyz(v: &Col3<F>) -> [f64; 3] {
    [v.x.0, v.y.0, v.z.0]
}

/// Equality up to the relative tolerance that `approx` takes by default.
#[allow(dead_code)]
fn close(a: &[f64], b: &[f64]) -> bool {
    Relative::default().eq(a, b)
}

/// Equality up to the absolute and relative tolerance `tol`.
#[allow(dead_code)]
fn close_to(a: &[f64], b: &[f64], tol: f64) -> bool {
    Relative::default().epsilon(tol).max_relative(tol).eq(a, b)
}

const QUARTER_TURN: [f64; 9] = [0., -1., 0., 1., 0., 0., 0., 0., 1.];

#[test]
fn test_approx() {
    assert_ne!(Point::new(F(0.1 + 0.2), F(0.), F(0.)), Point::new(F(0.3), F(0.), F(0.)));
    let a = Point::new(F(0.1 + 0.2), F(0.), F(0.));
    let b = Point::new(F(0.3), F(0.), F(0.));
    assert!(close(&xyz(&a.val), &xyz(&b.val)));
}

#[test]
fn vector_hat() {
    let v = Vec3 { val: c3(0., 0., FRAC_PI_2) };
    let so3 = v.hat();
    assert!(close(&xyz(&so3.val), &[0., 0., FRAC_PI_2]));
}

#[test]
fn so3_exp() {
    let so3 = so3 { val: c3(0., 0., FRAC_PI_2) };
    let rot_mat = so3.exp();
    assert!(close(&rows3(&rot_mat.val), &QUARTER_TURN));
}

#[test]
fn so3_vee() {
    let so3 = so3 { val: c3(0., 0., FRAC_PI_2) };
    let v = so3.vee();
    assert!(close(&xyz(&v.val), &[0., 0., FRAC_PI_2]));
}

#[test]
fn test_new() {
    let roll = FRAC_PI_2;
    let rot = SO3::<F>::from_euler_angles(F(roll), F(0.), F(0.));
    assert!(close(&rows3(&rot.val), &[1., 0., 0., 0., 0., -1., 0., 1., 0.]));
}

#[test]
fn test_log() {
    let rot = SO3 { val: m3(QUARTER_TURN) };
    let so3 = rot.log();
    let v = Vec3 { val: c3(0., 0., FRAC_PI_2) };
    assert!(close(&xyz(&v.hat().val), &xyz(&so3.val)));
}

#[test]
fn test_adjoint() {
    let rot = SO3 { val: m3(QUARTER_TURN) };
    let adj = rot.adjoint();
    assert!(close(&rows3(&adj.val), &rows3(&rot.val)));
}

#[test]
fn adjoint_test_adjoint() {
    let adj = AdjSO3::<F> { val: Mat3::identity() };
    let _ = adj.act(&so3 { val: c3(1., 2., 3.) });
}

#[test]
fn test_inv() {
    let rot = SO3 { val: m3(QUARTER_TURN) };
    let inv = rot.inv();
    assert!(close(&rows3(&inv.val), &rows3(&rot.val.transpose())));
}

#[test]
fn test_mat_mul() {
    let rot1 = SO3 { val: m3(QUARTER_TURN) };
    let rot2 = SO3 { val: Mat3::identity() };
    let rot3 = rot1.mat_mul(&rot2);
    assert!(close(&rows3(&rot3.val), &QUARTER_TURN));
}

#[test]
fn test_act() {
    let rot = SO3 { val: m3(QUARTER_TURN) };
    let v = Point { val: c3(1., 2., 3.) };
    let v_rot = rot.act(&v);
    assert!(close(&xyz(&v_rot.val), &[-2., 1., 3.]));
}
