use rps_simulator::{Deg, Rad, Transform};
use std::f32::consts;

fn epsilon_eq(epsilon: f32, x: f32, y: f32) -> bool {
    (x - y).abs() <= epsilon
}

fn transform_epsilon_eq(epsilon: f32, x: Transform, y: Transform) -> bool {
    (0..9).all(|i| epsilon_eq(epsilon, f32::from_bits(x.0[i]), f32::from_bits(y.0[i])))
}

fn row(vals: [f32; 9]) -> Transform {
    Transform::row_major(vals.map(|v| v.to_bits()))
}

#[test]
fn deg_to_rad() {
    // good enough just to check if the angle is correct
    const EPSILON: f32 = consts::PI / 180.0;

    fn rad(deg: f32) -> f32 {
        f32::from_bits(Rad::from(Deg(deg.to_bits())).0)
    }

    assert!(epsilon_eq(EPSILON, rad(180.0), consts::PI));
    assert!(epsilon_eq(EPSILON, rad(90.0), consts::FRAC_PI_2));
    assert!(epsilon_eq(EPSILON, rad(45.0), consts::FRAC_PI_4));
    assert!(epsilon_eq(EPSILON, rad(30.0), consts::FRAC_PI_6));
}

#[test]
fn rad_to_deg() {
    // good enough just to check if the angle is correct
    const EPSILON: f32 = 1.0;

    fn deg(rad: f32) -> f32 {
        f32::from_bits(Deg::from(Rad(rad.to_bits())).0)
    }

    assert!(epsilon_eq(EPSILON, deg(consts::PI), 180.0));
    assert!(epsilon_eq(EPSILON, deg(consts::FRAC_PI_2), 90.0));
    assert!(epsilon_eq(EPSILON, deg(consts::FRAC_PI_4), 45.0));
    assert!(epsilon_eq(EPSILON, deg(consts::FRAC_PI_6), 30.0));
}

#[test]
fn transform_mat3x3_multiplication() {
    const EPSILON: f32 = 1e-2;

    let identity = Transform::identity();

    let x = row([1.0, 2.0, 3.0, 4.0, 5.0, 6.0, 7.0, 8.0, 9.0]);
    let y = row([1.1, 8.3, 1.0, 6.4, 5.2, 6.0, 3.9, 4.3, 7.1]);
    let z = row([25.6, 31.6, 34.3, 59.8, 85.0, 76.6, 94.0, 138.4, 118.9]);

    assert_eq!(x.mul(identity), x);
    assert_eq!(y.mul(identity), y);
    assert_eq!(z.mul(identity), z);
    assert!(transform_epsilon_eq(EPSILON, x.mul(y), z));
}

#[test]
fn affine_transformations() {
    const EPSILON: f32 = f32::EPSILON;

    let deg45 = f32::from_bits(Rad::from(Deg(45.0f32.to_bits())).0);
    let (sin45, cos45) = deg45.sin_cos();
    let (sin_n, cos_n) = (-2.23f32).sin_cos();

    let t0 = Transform::identity();
    let t1 = t0.scale([2.3f32.to_bits(), 1.7f32.to_bits()]);
    let t2 = t1.rotate(sin45.to_bits(), cos45.to_bits());
    let t3 = t2.translate([33.8f32.to_bits(), 4.9f32.to_bits()]);
    let t4 = t3.rotate(sin_n.to_bits(), cos_n.to_bits());

    let t1_expected = row([2.3, 0.0, 0.0, 0.0, 1.7, 0.0, 0.0, 0.0, 1.0]);
    let t2_expected = row([
        1.6263455, -1.2020816, 0.0, 1.6263455, 1.2020816, 0.0, 0.0, 0.0, 1.0,
    ]);
    let t3_expected = row([
        1.6263455, -1.2020816, 33.8, 1.6263455, 1.2020816, 4.9, 0.0, 0.0, 1.0,
    ]);
    let t4_expected = row([
        0.28947747,
        1.6864817,
        -16.828728,
        -2.2817101,
        0.21396166,
        -29.719418,
        0.0,
        0.0,
        1.0,
    ]);

    assert!(transform_epsilon_eq(EPSILON, t1, t1_expected));
    assert!(transform_epsilon_eq(EPSILON, t2, t2_expected));
    assert!(transform_epsilon_eq(EPSILON, t3, t3_expected));
    assert!(transform_epsilon_eq(EPSILON, t4, t4_expected));
}

#[test]
fn identity_operation_laws() {
    let t = row([1.5, 2.0, 3.25, 4.0, 5.5, 6.0, 7.0, 8.0, 9.0]);

    assert_eq!(t.translate([0.0f32.to_bits(), 0.0f32.to_bits()]), t);
    assert_eq!(t.scale([1.0f32.to_bits(), 1.0f32.to_bits()]), t);
    assert_eq!(t.rotate(0.0f32.to_bits(), 1.0f32.to_bits()), t);
    assert_eq!(Transform::identity().mul(t), t);
    assert_eq!(t.mul(Transform::identity()), t);
}

#[test]
fn row_and_col_major_layouts() {
    let vals: [u32; 9] = [1, 2, 3, 4, 5, 6, 7, 8, 9];
    let c = Transform::col_major(vals);
    assert_eq!(c.0, vals);
    let r = Transform::row_major(vals);
    assert_eq!(r.0, [1, 4, 7, 2, 5, 8, 3, 6, 9]);
}
