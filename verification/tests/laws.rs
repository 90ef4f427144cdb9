//! Tests for the stated properties of the vector operations: identities,
//! symmetry, the degenerate-input policy of normalization, and the binary32
//! edge cases around zero, infinity and NaN.

use vec3::bits::{NEG_ZERO, ONE_BITS, POS_INF, POS_ZERO};
use vec3::Vec3;

fn v3(x: f32, y: f32, z: f32) -> Vec3 {
    Vec3::new(x.to_bits(), y.to_bits(), z.to_bits())
}

fn as_floats(v: Vec3) -> (f32, f32, f32) {
    (f32::from_bits(v.x), f32::from_bits(v.y), f32::from_bits(v.z))
}

fn float_eq3(a: Vec3, b: Vec3) -> bool {
    let (ax, ay, az) = as_floats(a);
    let (bx, by, bz) = as_floats(b);
    ax == bx && ay == by && az == bz
}

#[test]
fn dot_commutes() {
    let a = v3(1.5, -2.25, 3.0);
    let b = v3(4.0, 0.5, -8.0);
    assert_eq!(a.dot(&b), b.dot(&a));
    let c = v3(0.1, 0.2, 0.3);
    let d = v3(-7.25, 1e30, 1e-30);
    assert_eq!(c.dot(&d), d.dot(&c));
}

#[test]
fn cross_anticommutes() {
    let a = v3(3.0, 6.0, 2.0);
    let b = v3(5.0, 7.0, 1.0);
    assert_eq!(a.cross(&b), b.cross(&a).neg());
    let c = v3(0.5, -1.25, 2.5);
    let d = v3(-3.5, 4.0, 0.125);
    assert!(float_eq3(c.cross(&d), d.cross(&c).neg()));
}

#[test]
fn self_dot_is_squared_magnitude() {
    let v = v3(3.0, 4.0, 12.0);
    assert_eq!(v.dot(&v), 169.0_f32.to_bits());
    assert_eq!(v.mag(), 13.0_f32.to_bits());
    let w = v3(1.1, -2.2, 3.3);
    let m = f32::from_bits(w.mag());
    let d = f32::from_bits(w.dot(&w));
    assert!((m * m - d).abs() <= 1e-4 * d.abs());
}

#[test]
fn additive_identity() {
    let v = v3(1.25, -3.5, 0.0);
    assert!(float_eq3(v.add(Vec3::fill(POS_ZERO)), v));
    let w = Vec3::new(NEG_ZERO, 7.5_f32.to_bits(), POS_INF);
    assert!(float_eq3(w.add(Vec3::fill(POS_ZERO)), w));
}

#[test]
fn multiplicative_identity() {
    let v = v3(1.25, -3.5, 0.0);
    assert_eq!(v.mul(Vec3::fill(ONE_BITS)), v);
    let w = Vec3::new(NEG_ZERO, f32::MAX.to_bits(), POS_INF);
    assert_eq!(w.mul(Vec3::fill(ONE_BITS)), w);
}

#[test]
fn double_negation_restores_bits() {
    let v = v3(1.0, -2.5, 0.0);
    assert_eq!(v.neg().neg(), v);
    let w = Vec3::new(NEG_ZERO, f32::NAN.to_bits(), POS_INF);
    assert_eq!(w.neg().neg(), w);
}

#[test]
fn norm_of_zero_is_zero() {
    let z = Vec3::fill(POS_ZERO);
    assert_eq!(z.norm(), Vec3::fill(POS_ZERO));
}

#[test]
fn norm_of_degenerate_inputs_is_zero() {
    let huge = v3(f32::MAX, f32::MAX, f32::MAX);
    assert_eq!(huge.norm(), Vec3::fill(POS_ZERO));
    let nan = Vec3::fill(f32::NAN.to_bits());
    assert_eq!(nan.norm(), Vec3::fill(POS_ZERO));
}

#[test]
fn norm_has_unit_magnitude_and_keeps_direction() {
    let v = v3(12.0, -5.0, 0.5);
    let n = v.norm();
    let m = f32::from_bits(n.mag());
    assert!((m - 1.0).abs() <= 1e-5);
    let (nx, ny, nz) = as_floats(n);
    let (vx, vy, vz) = as_floats(v);
    assert!(nx * vx > 0.0 && ny * vy > 0.0 && nz * vz > 0.0);
}

#[test]
fn zero_mutates_in_place() {
    let mut v = v3(4.5, -1.0, f32::NAN);
    let alias = &mut v;
    alias.zero();
    assert_eq!(v, Vec3::fill(0.0_f32.to_bits()));
}

#[test]
fn division_by_zero_follows_ieee_rules() {
    let v = v3(1.0, -1.0, 0.0);
    let q = v.div(Vec3::fill(POS_ZERO));
    assert_eq!(q.x, f32::INFINITY.to_bits());
    assert_eq!(q.y, f32::NEG_INFINITY.to_bits());
    assert!(f32::from_bits(q.z).is_nan());
}

#[test]
fn dist_and_dist2_agree() {
    let a = v3(3.0, -6.0, 3.0);
    let b = v3(5.0, 7.0, -4.0);
    assert_eq!(a.dist(b), a.dist2(b));
    let c = v3(0.1, 0.2, 0.3);
    let d = v3(-1.7, 2.9, -0.4);
    assert_eq!(c.dist2(d), c.dist(d));
}

#[test]
fn magnitude_edge_cases() {
    let v = v3(f32::INFINITY, 1.0, 2.0);
    assert_eq!(v.mag(), f32::INFINITY.to_bits());
    let w = v3(f32::NAN, 1.0, 2.0);
    assert!(f32::from_bits(w.mag()).is_nan());
}

#[test]
fn scalar_forms_apply_componentwise() {
    let v = v3(1.0, 2.0, 3.0);
    assert_eq!(v.add_scalar(1.0_f32.to_bits()), v3(2.0, 3.0, 4.0));
    assert_eq!(v.sub_scalar(1.0_f32.to_bits()), v3(0.0, 1.0, 2.0));
    assert_eq!(v.mul_scalar(2.0_f32.to_bits()), v3(2.0, 4.0, 6.0));
    assert_eq!(v.div_scalar(2.0_f32.to_bits()), v3(0.5, 1.0, 1.5));
}

#[test]
fn parts_returns_the_components() {
    let v = v3(1.0, 2.0, 3.0);
    assert_eq!(v.parts(), (1.0_f32.to_bits(), 2.0_f32.to_bits(), 3.0_f32.to_bits()));
}

#[test]
fn cross_of_parallel_vectors_is_zero() {
    let a = v3(2.0, -3.0, 4.0);
    assert!(float_eq3(a.cross(&a), Vec3::fill(POS_ZERO)));
    let b = v3(4.0, -6.0, 8.0);
    assert!(float_eq3(a.cross(&b), Vec3::fill(POS_ZERO)));
}
