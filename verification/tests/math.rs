use sandbox3d::fixed::{add_fx, div_fx, half_fx, mul_fx, neg_fx, sub_fx};
use sandbox3d::matrix::Matrix4D;
use sandbox3d::trig::{cos_e, deg_to_rad_e, sin_e};
use sandbox3d::vec3::{Quaternion, Vector3D};

#[test]
fn fixed_point_basics() {
    assert_eq!(add_fx(1500, 250), 1750);
    assert_eq!(sub_fx(1500, 250), 1250);
    assert_eq!(neg_fx(1500), -1500);
    // 1.5 * 2.0 == 3.0; 3.0 / 2.0 == 1.5
    assert_eq!(mul_fx(1500, 2000), 3000);
    assert_eq!(div_fx(3000, 2000), 1500);
    assert_eq!(half_fx(3000), 1500);
    // truncation toward zero on both signs
    assert_eq!(mul_fx(1, 1), 0);
    assert_eq!(mul_fx(-1, 1), 0);
    assert_eq!(half_fx(-3), -1);
}

#[test]
fn fixed_point_saturates() {
    assert_eq!(add_fx(i64::MAX, 1), i64::MAX);
    assert_eq!(sub_fx(i64::MIN, 1), i64::MIN);
    assert_eq!(neg_fx(i64::MIN), i64::MAX);
    assert_eq!(mul_fx(i64::MAX, 2000), i64::MAX);
}

#[test]
fn vector_ops() {
    let a = Vector3D::new(1000, 2000, 3000);
    let b = Vector3D::new(4000, 5000, 6000);
    assert_eq!(a.add(&b), Vector3D::new(5000, 7000, 9000));
    assert_eq!(b.sub(&a), Vector3D::new(3000, 3000, 3000));
    assert_eq!(a.neg(), Vector3D::new(-1000, -2000, -3000));
    assert_eq!(a.scale(2000), Vector3D::new(2000, 4000, 6000));
    // 1*4 + 2*5 + 3*6 = 32
    assert_eq!(a.dot(&b), 32000);
    // (1,0,0) x (0,1,0) = (0,0,1)
    let x = Vector3D::new(1000, 0, 0);
    let y = Vector3D::new(0, 1000, 0);
    assert_eq!(x.cross(&y), Vector3D::new(0, 0, 1000));
}

#[test]
fn vector_length_and_normalize() {
    // a 3-4-0 triangle has length 5
    let v = Vector3D::new(3000, 4000, 0);
    assert_eq!(v.length(), 5000);
    assert_eq!(v.normalize(), Vector3D::new(600, 800, 0));
}

#[test]
fn normalize_degenerate_returns_zero() {
    // the zero vector is the only representable one shorter than the grid
    let z = Vector3D::new(0, 0, 0);
    assert_eq!(z.normalize(), Vector3D::new(0, 0, 0));
    assert_eq!(z.length(), 0);
    assert_eq!(z.projectionXOZ(), Vector3D::new(0, 0, 0));
}

#[test]
fn projection_flattens_and_normalizes() {
    let v = Vector3D::new(3000, 9000, 4000);
    assert_eq!(v.projectionXOZ(), Vector3D::new(600, 0, 800));
}

#[test]
fn quaternion_rotation_quarter_turn() {
    // rotate (1,0,0) a quarter turn about the vertical axis:
    // half angle 45 degrees = 785 mrad; sin/cos on the fixed-point grid
    let mut v = Vector3D::new(1000, 0, 0);
    let axis = Vector3D::new(0, 1000, 0);
    let half = deg_to_rad_e(45_000);
    v.rotate(sin_e(half), cos_e(half), &axis);
    // lands on the z axis up to grid error
    assert!(v.x.abs() < 20, "x = {}", v.x);
    assert_eq!(v.y, 0);
    assert!((v.z.abs() - 1000).abs() < 20, "z = {}", v.z);
}

#[test]
fn quaternion_product_units() {
    let i = Quaternion { a: 0, vector: Vector3D::new(1000, 0, 0) };
    let j = Quaternion { a: 0, vector: Vector3D::new(0, 1000, 0) };
    let k = i.mul(&j);
    assert_eq!(k.a, 0);
    assert_eq!(k.vector, Vector3D::new(0, 0, 1000));
    assert_eq!(i.neg().vector, Vector3D::new(-1000, 0, 0));
}

#[test]
fn trig_grid_values() {
    assert_eq!(sin_e(0), 0);
    assert_eq!(sin_e(1571), 1000);
    assert_eq!(cos_e(0), 1000);
    assert_eq!(deg_to_rad_e(180_000), 3141);
}

#[test]
fn identity_matrix_fixes_points() {
    let m = Matrix4D::InitIdentity();
    let v = Vector3D::new(5000, -6000, 7000);
    assert_eq!(m.transform(&v), v);
}

#[test]
fn translation_then_scale() {
    let t = Matrix4D::Translation(&Vector3D::new(1000, 2000, 3000));
    let s = Matrix4D::Scale(&Vector3D::new(2000, 2000, 2000));
    let v = Vector3D::new(1000, 1000, 1000);
    assert_eq!(t.transform(&v), Vector3D::new(2000, 3000, 4000));
    assert_eq!(s.transform(&v), Vector3D::new(2000, 2000, 2000));
    let ts = t.mul(&s);
    // the right factor applies to the point first: scale, then translate
    assert_eq!(ts.transform(&v), Vector3D::new(3000, 4000, 5000));
}

#[test]
fn rotation_matrix_quarter_turn() {
    // a quarter turn about Y carries (1,0,0) onto the z axis
    let s = sin_e(1571);
    let c = cos_e(1571);
    let m = Matrix4D::Rotate(0, 1000, s, c, 0, 1000);
    let v = Vector3D::new(1000, 0, 0);
    let r = m.transform(&v);
    assert_eq!(r.y, 0);
    assert!(r.x.abs() < 20, "x = {}", r.x);
    assert!((r.z.abs() - 1000).abs() < 20, "z = {}", r.z);
}
