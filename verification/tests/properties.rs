use approx::Relative;
use liealg::linalg::{Col3, Mat3, Mat4};
use liealg::{approx_zero, approx_zero_vec, axis_angle, hat, length};
use liealg::{
    se3, so3, AdjSE3, AdjSO3, Adjoint, Algebra, Group, Point, Real, Vec3, Vec6, Vector, SE3, SO3,
};
use std::f64::consts::{FRAC_PI_2, FRAC_PI_3, FRAC_PI_4, PI};

/// Double precision as the scalar of the library.
#[derive(Clone, Copy, Debug, PartialEq)]
struct F(f64);

impl Real for F {
    fn zero_spec() -> Self {
        F(0.0)
    }

    fn one_spec() -> Self {
        F(1.0)
    }

    fn epsilon_spec() -> Self {
        F(f64::EPSILON)
    }

    fn pi_spec() -> Self {
        F(PI)
    }

    fn add_spec(self, rhs: Self) -> Self {
        F(self.0 + rhs.0)
    }

    fn sub_spec(self, rhs: Self) -> Self {
        F(self.0 - rhs.0)
    }

    fn mul_spec(self, rhs: Self) -> Self {
        F(self.0 * rhs.0)
    }

    fn div_spec(self, rhs: Self) -> Self {
        F(self.0 / rhs.0)
    }

    fn neg_spec(self) -> Self {
        F(-self.0)
    }

    fn sqrt_spec(self) -> Self {
        F(self.0.sqrt())
    }

    fn sin_spec(self) -> Self {
        F(self.0.sin())
    }

    fn cos_spec(self) -> Self {
        F(self.0.cos())
    }

    fn acos_spec(self) -> Self {
        F(self.0.acos())
    }

    fn tan_spec(self) -> Self {
        F(self.0.tan())
    }

    fn lt_spec(self, rhs: Self) -> bool {
        self.0 < rhs.0
    }

    fn le_spec(self, rhs: Self) -> bool {
        self.0 <= rhs.0
    }

    fn zero() -> Self {
        F(0.0)
    }

    fn one() -> Self {
        F(1.0)
    }

    fn epsilon() -> Self {
        F(f64::EPSILON)
    }

    fn pi() -> Self {
        F(PI)
    }

    fn add(self, rhs: Self) -> Self {
        F(self.0 + rhs.0)
    }

    fn sub(self, rhs: Self) -> Self {
        F(self.0 - rhs.0)
    }

    fn mul(self, rhs: Self) -> Self {
        F(self.0 * rhs.0)
    }

    fn div(self, rhs: Self) -> Self {
        F(self.0 / rhs.0)
    }

    fn neg(self) -> Self {
        F(-self.0)
    }

    fn sqrt(self) -> Self {
        F(self.0.sqrt())
    }

    fn sin(self) -> Self {
        F(self.0.sin())
    }

    fn cos(self) -> Self {
        F(self.0.cos())
    }

    fn acos(self) -> Self {
        F(self.0.acos())
    }

    fn tan(self) -> Self {
        F(self.0.tan())
    }

    fn lt(self, rhs: Self) -> bool {
        self.0 < rhs.0
    }

    fn le(self, rhs: Self) -> bool {
        self.0 <= rhs.0
    }
}

/// The matrix with the given entries, listed row by row.
#[allow(dead_code)]
fn m3(a: [f64; 9]) -> Mat3<F> {
    Mat3::new(F(a[0]), F(a[1]), F(a[2]), F(a[3]), F(a[4]), F(a[5]), F(a[6]), F(a[7]), F(a[8]))
}

/// The entries of a matrix, listed row by row.
#[allow(dead_code)]
fn rows3(m: &Mat3<F>) -> [f64; 9] {
    [m.m00.0, m.m01.0, m.m02.0, m.m10.0, m.m11.0, m.m12.0, m.m20.0, m.m21.0, m.m22.0]
}

#[allow(dead_code)]
fn c3(x: f64, y: f64, z: f64) -> Col3<F> {
    Col3::new(F(x), F(y), F(z))
}

#[allow(dead_code)]
fn xyz(v: &Col3<F>) -> [f64; 3] {
    [v.x.0, v.y.0, v.z.0]
}

/// Equality up to the relative tolerance that `approx` takes by default.
#[allow(dead_code)]
fn close(a: &[f64], b: &[f64]) -> bool {
    Relative::default().eq(a, b)
}

/// Equality up to the absolute and relative tolerance `tol`.
#[allow(dead_code)]
fn close_to(a: &[f64], b: &[f64], tol: f64) -> bool {
    Relative::default().epsilon(tol).max_relative(tol).eq(a, b)
}

/// The entries of a matrix, listed row by row.
#[allow(dead_code)]
fn rows4(m: &Mat4<F>) -> [f64; 16] {
    [
        m.m00.0, m.m01.0, m.m02.0, m.m03.0, m.m10.0, m.m11.0, m.m12.0, m.m13.0, m.m20.0, m.m21.0,
        m.m22.0, m.m23.0, m.m30.0, m.m31.0, m.m32.0, m.m33.0,
    ]
}

#[allow(dead_code)]
fn f3(a: [f64; 3]) -> [F; 3] {
    [F(a[0]), F(a[1]), F(a[2])]
}

#[allow(dead_code)]
fn plain(a: &[F]) -> Vec<f64> {
    a.iter().map(|x| x.0).collect()
}

#[allow(dead_code)]
fn det(m: &Mat3<F>) -> f64 {
    let r = rows3(m);
    r[0] * (r[4] * r[8] - r[5] * r[7]) - r[1] * (r[3] * r[8] - r[5] * r[6])
        + r[2] * (r[3] * r[7] - r[4] * r[6])
}

const IDENTITY3: [f64; 9] = [1., 0., 0., 0., 1., 0., 0., 0., 1.];

const IDENTITY4: [f64; 16] = [1., 0., 0., 0., 0., 1., 0., 0., 0., 0., 1., 0., 0., 0., 0., 1.];

const TOL: f64 = 1e-9;

/// Rotation vectors of assorted directions and angles below π.
fn rotation_vectors() -> Vec<[f64; 3]> {
    vec![
        [0.3, 0., 0.],
        [0., -1.2, 0.],
        [0., 0., 2.5],
        [0.1, 0.2, 0.3],
        [-1., 1., 0.5],
        [1.5, -1.5, 1.5],
        [1e-3, -2e-3, 3e-3],
        [1.8, 1.8, -1.8],
    ]
}

fn twists() -> Vec<([f64; 3], [f64; 3])> {
    vec![
        ([0.3, 0., 0.], [1., 2., 3.]),
        ([0., 0., 2.5], [-1., 0.5, 0.]),
        ([0.1, 0.2, 0.3], [0., 0., 0.]),
        ([-1., 1., 0.5], [4., -5., 6.]),
        ([1.5, -1.5, 1.5], [0.1, 0.2, 0.3]),
    ]
}

#[test]
fn rotation_round_trip() {
    for w in rotation_vectors() {
        let v = Vec3::new(F(w[0]), F(w[1]), F(w[2]));
        let back = v.hat().exp().log().vee();
        assert!(close_to(&xyz(&back.val), &w, TOL), "{:?} came back as {:?}", w, back);
    }
}

#[test]
fn rotation_round_trip_below_tolerance() {
    let w = [1e-17, -1e-17, 0.];
    let back = Vec3::new(F(w[0]), F(w[1]), F(w[2])).hat().exp().log().vee();
    assert_eq!(xyz(&back.val), [0., 0., 0.]);
    assert!(close_to(&xyz(&back.val), &w, f64::EPSILON));
}

#[test]
fn twist_round_trip() {
    for (w, v) in twists() {
        let back = Vec6::new(f3(w), f3(v)).hat().exp().log().vee();
        let expected = [w[0], w[1], w[2], v[0], v[1], v[2]];
        assert!(close_to(&plain(&back.val), &expected, TOL), "{:?} {:?}: {:?}", w, v, back);
    }
}

#[test]
fn exp_of_zero_is_identity() {
    let rot = Vec3::new(F(0.), F(0.), F(0.)).hat().exp();
    assert_eq!(rows3(&rot.val), IDENTITY3);
    let motion = se3::<F>::identity().exp();
    assert_eq!(rows4(&motion.val), IDENTITY4);
}

#[test]
fn identity_motion_keeps_points() {
    let id = SE3::<F> { val: Mat4::identity() };
    for p in [[1., 2., 3.], [-4.5, 0., 7.25], [0., 0., 0.]] {
        let q = id.act(&Point::new(F(p[0]), F(p[1]), F(p[2])));
        assert_eq!(xyz(&q.val), p);
    }
    let id = SO3::<F> { val: Mat3::identity() };
    let q = id.act(&Point::new(F(1.), F(2.), F(3.)));
    assert_eq!(xyz(&q.val), [1., 2., 3.]);
}

#[test]
fn exp_is_orthonormal() {
    for w in rotation_vectors() {
        let r = Vec3::new(F(w[0]), F(w[1]), F(w[2])).hat().exp();
        let rtr = r.inv().mat_mul(&r);
        assert!(close_to(&rows3(&rtr.val), &IDENTITY3, TOL));
        assert!(close_to(&[det(&r.val)], &[1.], TOL));
    }
}

#[test]
fn rotation_times_inverse_is_identity() {
    for w in rotation_vectors() {
        let g = Vec3::new(F(w[0]), F(w[1]), F(w[2])).hat().exp();
        assert!(close_to(&rows3(&g.mat_mul(&g.inv()).val), &IDENTITY3, TOL));
    }
}

#[test]
fn motion_times_inverse_is_identity() {
    for (w, v) in twists() {
        let g = Vec6::new(f3(w), f3(v)).hat().exp();
        assert!(close_to(&rows4(&g.mat_mul(&g.inv()).val), &IDENTITY4, TOL));
        assert!(close_to(&rows4(&g.inv().mat_mul(&g).val), &IDENTITY4, TOL));
    }
}

#[test]
fn adjoint_moves_twists_by_blocks() {
    for (w, v) in twists() {
        let g = Vec6::new(f3(w), f3(v)).hat().exp();
        let (r, p) = g.rp();
        let xi = se3::new(f3([0.4, -0.7, 1.1]), f3([2., 3., -5.]));
        let out = g.adjoint().act(&xi);
        let omega = c3(0.4, -0.7, 1.1);
        let nu = c3(2., 3., -5.);
        let top = r.mul_vec(omega);
        let a = hat(&p).mat_mul(r).mul_vec(omega);
        let b = r.mul_vec(nu);
        let expected = [top.x.0, top.y.0, top.z.0, a.x.0 + b.x.0, a.y.0 + b.y.0, a.z.0 + b.z.0];
        assert!(close_to(&plain(&out.val), &expected, TOL));
    }
}

#[test]
fn adjoint_of_rotation_rotates_the_generator() {
    let rot = SO3 { val: m3([0., -1., 0., 1., 0., 0., 0., 0., 1.]) };
    let out = rot.adjoint().act(&so3::new(F(1.), F(2.), F(3.)));
    assert_eq!(xyz(&out.val), [-2., 1., 3.]);
}

#[test]
fn kernel_values() {
    assert!(approx_zero(F(0.)));
    assert!(approx_zero(F(1e-17)));
    assert!(approx_zero(F(-1.)));
    assert!(!approx_zero(F(f64::EPSILON)));
    assert!(!approx_zero(F(1.)));
    assert_eq!(length(&c3(3., 4., 12.)).0, 13.);
    assert!(approx_zero_vec(&c3(0., 0., 0.)));
    assert!(!approx_zero_vec(&c3(0., 1e-3, 0.)));
    let (axis, angle) = axis_angle(&c3(0., 0., 2.));
    assert_eq!(xyz(&axis), [0., 0., 1.]);
    assert_eq!(angle.0, 2.);
    assert_eq!(rows3(&hat(&c3(1., 2., 3.))), [0., -3., 2., 3., 0., -1., -2., 1., 0.]);
}

#[test]
fn exp_about_the_x_axis() {
    let r = so3::new(F(FRAC_PI_3), F(0.), F(0.)).exp();
    let (s, c) = (FRAC_PI_3.sin(), FRAC_PI_3.cos());
    assert!(close_to(&rows3(&r.val), &[1., 0., 0., 0., c, -s, 0., s, c], TOL));
}

#[test]
fn euler_angles_compose_yaw_pitch_roll() {
    let yaw = SO3::from_euler_angles(F(0.), F(0.), F(FRAC_PI_2));
    assert!(close(&rows3(&yaw.val), &[0., -1., 0., 1., 0., 0., 0., 0., 1.]));
    let pitch = SO3::from_euler_angles(F(0.), F(FRAC_PI_2), F(0.));
    assert!(close(&rows3(&pitch.val), &[0., 0., 1., 0., 1., 0., -1., 0., 0.]));
    let (roll, pitch, yaw) = (0.3, -0.4, 1.2);
    let all = SO3::from_euler_angles(F(roll), F(pitch), F(yaw));
    let product = SO3::from_euler_angles(F(0.), F(0.), F(yaw))
        .mat_mul(&SO3::from_euler_angles(F(0.), F(pitch), F(0.)))
        .mat_mul(&SO3::from_euler_angles(F(roll), F(0.), F(0.)));
    assert!(close_to(&rows3(&all.val), &rows3(&product.val), TOL));
}

#[test]
fn euler_angles_give_rotations() {
    for (roll, pitch, yaw) in [(0.3, -0.4, 1.2), (0., 0., 0.), (3., 1.5, -2.), (-0.1, 2.9, 0.7)] {
        let r = SO3::from_euler_angles(F(roll), F(pitch), F(yaw));
        assert!(close_to(&rows3(&r.inv().mat_mul(&r).val), &IDENTITY3, TOL));
        assert!(close_to(&rows3(&r.mat_mul(&r.inv()).val), &IDENTITY3, TOL));
        assert!(close_to(&[det(&r.val)], &[1.], TOL));
    }
}

#[test]
fn products_of_rotations_are_rotations() {
    let all = rotation_vectors();
    for w in &all {
        for u in &all {
            let a = Vec3::new(F(w[0]), F(w[1]), F(w[2])).hat().exp();
            let b = Vec3::new(F(u[0]), F(u[1]), F(u[2])).hat().exp();
            let ab = a.mat_mul(&b);
            assert!(close_to(&rows3(&ab.inv().mat_mul(&ab).val), &IDENTITY3, TOL));
            assert!(close_to(&[det(&ab.val)], &[1.], TOL));
            let c = SO3::from_euler_angles(F(0.5), F(-0.25), F(2.));
            let left = a.mat_mul(&b).mat_mul(&c);
            let right = a.mat_mul(&b.mat_mul(&c));
            assert!(close_to(&rows3(&left.val), &rows3(&right.val), TOL));
        }
    }
}

#[test]
fn products_of_motions_are_motions() {
    let all = twists();
    for (w, v) in &all {
        for (w2, v2) in &all {
            let g = Vec6::new(f3(*w), f3(*v)).hat().exp();
            let h = Vec6::new(f3(*w2), f3(*v2)).hat().exp();
            let gh = g.mat_mul(&h);
            let (r, _) = gh.rot_trans();
            assert!(close_to(&rows3(&r.inv().mat_mul(&r).val), &IDENTITY3, TOL));
            assert!(close_to(&[det(&r.val)], &[1.], TOL));
            assert_eq!(
                [gh.val.m30.0, gh.val.m31.0, gh.val.m32.0, gh.val.m33.0],
                [0., 0., 0., 1.]
            );
            let p = Point::new(F(0.5), F(-1.5), F(2.5));
            assert!(close_to(&xyz(&gh.act(&p).val), &xyz(&g.act(&h.act(&p)).val), TOL));
        }
    }
}

#[test]
fn log_of_identity_is_zero() {
    let w = SO3::<F> { val: Mat3::identity() }.log();
    assert_eq!(xyz(&w.val), [0., 0., 0.]);
    let xi = SE3::from_rp(&Mat3::identity(), &c3(1., 2., 3.)).log();
    assert_eq!(plain(&xi.val), [0., 0., 0., 1., 2., 3.]);
}

#[test]
fn log_of_half_turns() {
    // About the y axis: 1 + R[2,2] is zero, so the third column is taken.
    let about_y = SO3 { val: m3([-1., 0., 0., 0., 1., 0., 0., 0., -1.]) }.log();
    assert!(about_y.val.x.0.is_nan() && about_y.val.y.0.is_nan() && about_y.val.z.0.is_nan());
    // About the z axis: 1 + R[2,2] is two and 1 + R[1,1] is zero, so the second column is taken.
    let about_z = SO3 { val: m3([-1., 0., 0., 0., -1., 0., 0., 0., 1.]) }.log();
    assert!(about_z.val.x.0.is_nan() && about_z.val.y.0.is_nan() && about_z.val.z.0.is_nan());
    // About the axis (1/2, 1/2, 1/√2): no `1 + R[i,i]` is zero, so the first column is taken.
    let h = 0.5f64.sqrt();
    let half_turn = SO3 { val: m3([-0.5, 0.5, h, 0.5, -0.5, h, h, h, 0.]) }.log();
    assert!(close_to(&xyz(&half_turn.val), &[0.5 * PI, 0.5 * PI, h * PI], TOL));
    // The first column of R + I, whatever the matrix:
    // (1 + R[0,0], R[1,0], R[2,0]) / sqrt(2·(1 + R[0,0])) · π.
    let any = SO3 { val: m3([-0.5, 9., 9., 0.25, -0.5, 9., 0.75, 9., -0.5]) }.log();
    assert!(close_to(&xyz(&any.val), &[0.5 * PI, 0.25 * PI, 0.75 * PI], TOL));
    // A negative `1 + R[2,2]` counts as near zero: the third column is taken.
    let third = SO3 { val: m3([0., 0., 3., 0., 0., 4., 0., 0., -3.]) }.log();
    assert!(third.val.x.0.is_nan());
}

#[test]
fn exp_of_pure_translation() {
    let g = se3::new(f3([0., 0., 0.]), f3([1., -2., 3.])).exp();
    assert_eq!(
        rows4(&g.val),
        [1., 0., 0., 1., 0., 1., 0., -2., 0., 0., 1., 3., 0., 0., 0., 1.]
    );
}

#[test]
fn motion_acts_by_rotation_then_translation() {
    let g = SE3::new(&SO3 { val: m3([0., -1., 0., 1., 0., 0., 0., 0., 1.]) }, f3([10., 20., 30.]));
    let q = g.act(&Point::new(F(1.), F(2.), F(3.)));
    assert_eq!(xyz(&q.val), [8., 21., 33.]);
    let (rot, p) = g.rot_trans();
    assert_eq!(rows3(&rot.val), [0., -1., 0., 1., 0., 0., 0., 0., 1.]);
    assert_eq!(p, f3([10., 20., 30.]));
}

#[test]
fn motions_compose_as_matrices() {
    let a = SE3::from_rp(&m3([0., -1., 0., 1., 0., 0., 0., 0., 1.]), &c3(1., 0., 0.));
    let b = SE3::from_rp(&m3([1., 0., 0., 0., 0., -1., 0., 1., 0.]), &c3(0., 2., 0.));
    let ab = a.mat_mul(&b);
    assert_eq!(
        rows4(&ab.val),
        [0., 0., 1., -1., 1., 0., 0., 0., 0., 1., 0., 0., 0., 0., 0., 1.]
    );
    let p = Point::new(F(1.), F(2.), F(3.));
    assert_eq!(xyz(&ab.act(&p).val), xyz(&a.act(&b.act(&p)).val));
}

#[test]
fn inverse_of_a_motion_in_closed_form() {
    let g = SE3::from_rp(&m3([0., -1., 0., 1., 0., 0., 0., 0., 1.]), &c3(1., 2., 3.));
    assert_eq!(
        rows4(&g.inv().val),
        [0., 1., 0., -2., -1., 0., 0., 1., 0., 0., 1., -3., 0., 0., 0., 1.]
    );
}

#[test]
fn unchecked_constructors_read_columns() {
    let cols = [1., 2., 3., 4., 5., 6., 7., 8., 9., 10.];
    let data: Vec<F> = cols.iter().map(|x| F(*x)).collect();
    let rot = SO3::new_unchecked(&data);
    assert_eq!(rows3(&rot.val), [1., 4., 7., 2., 5., 8., 3., 6., 9.]);
    let adj = AdjSO3::new_unchecked(&data[..9]);
    assert_eq!(rows3(&adj.val), [1., 4., 7., 2., 5., 8., 3., 6., 9.]);
    let big: Vec<F> = (0..40).map(|i| F(i as f64)).collect();
    let adj = AdjSE3::new_unchecked(&big);
    assert_eq!(plain(adj.as_slice()), plain(&big[..36]));
    let t = adj.transpose();
    for i in 0..6 {
        for j in 0..6 {
            assert_eq!(t.val[6 * j + i], adj.val[6 * i + j]);
        }
    }
    assert_eq!(plain(&t.transpose().val), plain(&adj.val));
}

#[test]
fn vectors_give_their_parts() {
    let v = Vec6::new(f3([1., 2., 3.]), f3([4., 5., 6.]));
    assert_eq!(plain(&v.as_array()), [1., 2., 3., 4., 5., 6.]);
    assert_eq!(plain(v.as_slice()), [1., 2., 3., 4., 5., 6.]);
    assert_eq!(plain(&Vec3::new(F(7.), F(8.), F(9.)).get()), [7., 8., 9.]);
    let p = Point::new(F(1.), F(2.), F(3.));
    assert_eq!([p.x().0, p.y().0, p.z().0], [1., 2., 3.]);
    assert_eq!(plain(&v.hat().vee().val), plain(&v.val));
}

#[test]
fn scaling_and_adding() {
    let v = Vec3::new(F(1.), F(-2.), F(3.)) * F(2.);
    assert_eq!(xyz(&v.val), [2., -4., 6.]);
    let w = so3::new(F(1.), F(-2.), F(3.)) * F(0.5);
    assert_eq!(xyz(&w.val), [0.5, -1., 1.5]);
    let v = Vec6::new(f3([1., 2., 3.]), f3([4., 5., 6.]));
    let k = F(3.);
    assert_eq!(plain(&(&v * k).val), [3., 6., 9., 12., 15., 18.]);
    assert_eq!(plain(&(&v * &k).val), [3., 6., 9., 12., 15., 18.]);
    assert_eq!(plain(&(v.clone() * &k).val), [3., 6., 9., 12., 15., 18.]);
    assert_eq!(plain(&(v * k).val), [3., 6., 9., 12., 15., 18.]);
    let a = se3::new(f3([1., 2., 3.]), f3([4., 5., 6.]));
    let b = se3::new(f3([10., 20., 30.]), f3([40., 50., 60.]));
    assert_eq!(plain(&(a.clone() * &k).val), [3., 6., 9., 12., 15., 18.]);
    assert_eq!(plain(&(a + b).val), [11., 22., 33., 44., 55., 66.]);
}

#[test]
fn quarter_turn_with_translation() {
    let g = (Vec6::new(f3([0., 0., 1.]), f3([0., -1., 0.])) * F(FRAC_PI_4 * 2.)).hat().exp();
    let p = g.act(&Point::new(F(1.), F(2.), F(3.)));
    assert!(close_to(&xyz(&p.val), &[-1., 0., 3.], TOL));
}
