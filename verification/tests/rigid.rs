use approx::Relative;
use liealg::linalg::{Col3, Mat3, Mat4};
use liealg::{AdjSE3, Adjoint, Algebra, Group, Point, Real, Vec3, Vec6, Vector, SE3};
use std::f64::consts::{FRAC_PI_2, PI};

/// Double precision as the scalar of the library.
#[derive(Clone, Copy, Debug, PartialEq)]
struct F(f64);

impl Real for F {
    fn zero_spec() -> Self {
        F(0.0)
    }

    fn one_spec() -> Self {
        F(1.0)
    }

    fn epsilon_spec() -> Self {
        F(f64::EPSILON)
    }

    fn pi_spec() -> Self {
        F(PI)
    }

    fn add_spec(self, rhs: Self) -> Self {
        F(self.0 + rhs.0)
    }

    fn sub_spec(self, rhs: Self) -> Self {
        F(self.0 - rhs.0)
    }

    fn mul_spec(self, rhs: Self) -> Self {
        F(self.0 * rhs.0)
    }

    fn div_spec(self, rhs: Self) -> Self {
        F(self.0 / rhs.0)
    }

    fn neg_spec(self) -> Self {
        F(-self.0)
    }

    fn sqrt_spec(self) -> Self {
        F(self.0.sqrt())
    }

    fn sin_spec(self) -> Self {
        F(self.0.sin())
    }

    fn cos_spec(self) -> Self {
        F(self.0.cos())
    }

    fn acos_spec(self) -> Self {
        F(self.0.acos())
    }

    fn tan_spec(self) -> Self {
        F(self.0.tan())
    }

    fn lt_spec(self, rhs: Self) -> bool {
        self.0 < rhs.0
    }

    fn le_spec(self, rhs: Self) -> bool {
        self.0 <= rhs.0
    }

    fn zero() -> Self {
        F(0.0)
    }

    fn one() -> Self {
        F(1.0)
    }

    fn epsilon() -> Self {
        F(f64::EPSILON)
    }

    fn pi() -> Self {
        F(PI)
    }

    fn add(self, rhs: Self) -> Self {
        F(self.0 + rhs.0)
    }

    fn sub(self, rhs: Self) -> Self {
        F(self.0 - rhs.0)
    }

    fn mul(self, rhs: Self) -> Self {
        F(self.0 * rhs.0)
    }

    fn div(self, rhs: Self) -> Self {
        F(self.0 / rhs.0)
    }

    fn neg(self) -> Self {
        F(-self.0)
    }

    fn sqrt(self) -> Self {
        F(self.0.sqrt())
    }

    fn sin(self) -> Self {
        F(self.0.sin())
    }

    fn cos(self) -> Self {
        F(self.0.cos())
    }

    fn acos(self) -> Self {
        F(self.0.acos())
    }

    fn tan(self) -> Self {
        F(self.0.tan())
    }

    fn lt(self, rhs: Self) -> bool {
        self.0 < rhs.0
    }

    fn le(self, rhs: Self) -> bool {
        self.0 <= rhs.0
    }
}

/// The matrix with the given entries, listed row by row.
#[allow(dead_code)]
fn m3(a: [f64; 9]) -> Mat3<F> {
    Mat3::new(F(a[0]), F(a[1]), F(a[2]), F(a[3]), F(a[4]), F(a[5]), F(a[6]), F(a[7]), F(a[8]))
}

/// The entries of a matrix, listed row by row.
#[allow(dead_code)]
fn rows3(m: &Mat3<F>) -> [f64; 9] {
    [m.m00.0, m.m01.0, m.m02.0, m.m10.0, m.m11.0, m.m12.0, m.m20.0, m.m21.0, m.m22.0]
}

#[allow(dead_code)]
fn c3(x: f64, y: f64, z: f64) -> Col3<F> {
    Col3::new(F(x), F(y), F(z))
}

#[allow(dead_code)]
fn xyz(v: &Col3<F>) -> [f64; 3] {
    [v.x.0, v.y.0, v.z.0]
}

/// Equality up to the relative tolerance that `approx` takes by default.
#[allow(dead_code)]
fn close(a: &[f64], b: &[f64]) -> bool {
    Relative::default().eq(a, b)
}

/// Equality up to the absolute and relative tolerance `tol`.
#[allow(dead_code)]
fn close_to(a: &[f64], b: &[f64], tol: f64) -> bool {
    Relative::default().epsilon(tol).max_relative(tol).eq(a, b)
}

/// The matrix with the given entries, listed row by row.
#[allow(dead_code)]
fn m4(a: [f64; 16]) -> Mat4<F> {
    Mat4::new(
        F(a[0]),
        F(a[1]),
        F(a[2]),
        F(a[3]),
        F(a[4]),
        F(a[5]),
        F(a[6]),
        F(a[7]),
        F(a[8]),
        F(a[9]),
        F(a[10]),
        F(a[11]),
        F(a[12]),
        F(a[13]),
        F(a[14]),
        F(a[15]),
    )
}

/// The entries of a matrix, listed row by row.
#[allow(dead_code)]
fn rows4(m: &Mat4<F>) -> [f64; 16] {
    [
        m.m00.0, m.m01.0, m.m02.0, m.m03.0, m.m10.0, m.m11.0, m.m12.0, m.m13.0, m.m20.0, m.m21.0,
        m.m22.0, m.m23.0, m.m30.0, m.m31.0, m.m32.0, m.m33.0,
    ]
}

#[allow(dead_code)]
fn f3(a: [f64; 3]) -> [F; 3] {
    [F(a[0]), F(a[1]), F(a[2])]
}

#[allow(dead_code)]
fn plain(a: &[F]) -> Vec<f64> {
    a.iter().map(|x| x.0).collect()
}

/// The 36 entries of a 6×6 matrix given row by row, listed column by column.
#[allow(dead_code)]
fn columns6(rows: [f64; 36]) -> [F; 36] {
    let mut out = [F(0.); 36];
    for i in 0..6 {
        for j in 0..6 {
            out[6 * j + i] = F(rows[6 * i + j]);
        }
    }
    out
}

const QUARTER_TURN: [f64; 9] = [0., -1., 0., 1., 0., 0., 0., 0., 1.];

const IDENTITY4: [f64; 16] = [1., 0., 0., 0., 0., 1., 0., 0., 0., 0., 1., 0., 0., 0., 0., 1.];

#[test]
fn clone_test() {
    let p = Point::new(F(1.), F(2.), F(3.));
    let _ = p.clone();
    let v = Vec3::new(F(1.), F(2.), F(3.));
    let _ = v.clone();
    let so3 = v.hat();
    let _ = so3.clone();
    let mat = so3.exp();
    let _ = mat.clone();
    let adj = mat.adjoint();
    let _ = adj.clone();

    let v = Vec6::new(f3([1., 2., 3.]), f3([4., 5., 6.]));
    let _ = v.clone();
    let se3 = v.hat();
    let _ = se3.clone();
    let mat = se3.exp();
    let _ = mat.clone();
    let adj = mat.adjoint();
    let _ = adj.clone();
}

#[test]
fn adjoint_test_new() {
    let mut identity = [F(0.); 36];
    for i in 0..6 {
        identity[6 * i + i] = F(1.);
    }
    let adj = AdjSE3 { val: identity };
    assert_eq!(adj.val, identity);
}

#[test]
fn se3_exp() {
    let se3 = Vec6::new(f3([0., 0., 1.]), f3([1., 0., 0.])).hat() * F(FRAC_PI_2);
    let v = se3.exp();

    let s = SE3 {
        val: m4([0., -1., 0., 1., 1., 0., 0., 1., 0., 0., 1., 0., 0., 0., 0., 1.]),
    };
    assert!(close(&rows4(&v.val), &rows4(&s.val)));
}

#[test]
fn group_test_new() {
    let se3 = SE3::<F> { val: Mat4::identity() };
    assert_eq!(se3.val, m4(IDENTITY4));
}

#[test]
fn test_rp() {
    let se3 = SE3 {
        val: m4([1., 0., 0., 1., 0., 1., 0., 2., 0., 0., 1., 3., 0., 0., 0., 1.]),
    };
    let (r, p) = se3.rp();
    assert_eq!(r, m3([1., 0., 0., 0., 1., 0., 0., 0., 1.]));
    assert_eq!(p, c3(1., 2., 3.));
}

#[test]
fn test_from_rp() {
    let se3 = SE3::from_rp(&m3([1., 0., 0., 0., 1., 0., 0., 0., 1.]), &c3(1., 2., 3.));
    assert_eq!(
        se3.val,
        m4([1., 0., 0., 1., 0., 1., 0., 2., 0., 0., 1., 3., 0., 0., 0., 1.])
    );
}

#[test]
fn group_test_log() {
    let se3 = SE3::from_rp(&m3(QUARTER_TURN), &c3(1., 1., 0.)).log().vee();
    let expected: Vec<f64> = [0., 0., 1., 1., 0., 0.].iter().map(|x| x * FRAC_PI_2).collect();
    assert!(close(&plain(&se3.val), &expected));
}

#[test]
fn group_test_adjoint() {
    let se3 = SE3::from_rp(&m3(QUARTER_TURN), &c3(1., 1., 0.)).adjoint();
    let expected = columns6([
        0., -1., 0., 0., 0., 0., 1., 0., 0., 0., 0., 0., 0., 0., 1., 0., 0., 0., 0., 0., 1., 0.,
        -1., 0., 0., 0., -1., 1., 0., 0., 1., 1., 0., 0., 0., 1.,
    ]);
    assert!(close(&plain(&se3.val), &plain(&expected)));
}

#[test]
fn group_test_inv() {
    let se3 = SE3::from_rp(&m3(QUARTER_TURN), &c3(1., 1., 0.));
    assert!(close(&rows4(&se3.mat_mul(&se3.inv()).val), &IDENTITY4));
}

#[test]
fn vector_test_new() {
    let r = f3([1.0, 2.0, 3.0]);
    let v = f3([4.0, 5.0, 6.0]);
    let vec = Vec6::new(r, v);
    assert_eq!(vec.val, [F(1.0), F(2.0), F(3.0), F(4.0), F(5.0), F(6.0)]);
}

#[test]
fn test_r() {
    let r = f3([1.0, 2.0, 3.0]);
    let v = f3([4.0, 5.0, 6.0]);
    let vec = Vec6::new(r, v);
    assert_eq!(vec.r(), f3([1.0, 2.0, 3.0]));
}

#[test]
fn test_p() {
    let r = f3([1.0, 2.0, 3.0]);
    let v = f3([4.0, 5.0, 6.0]);
    let vec = Vec6::new(r, v);
    assert_eq!(vec.p(), f3([4.0, 5.0, 6.0]));
}

#[test]
fn test_hat() {
    let r = f3([1.0, 2.0, 3.0]);
    let v = f3([4.0, 5.0, 6.0]);
    let vec = Vec6::new(r, v);
    let algebra = vec.hat();
    assert_eq!(algebra.val, vec.val);
}
