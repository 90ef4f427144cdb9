//! The original unit tests of the vector type, expressed over bit patterns.

use vec3::Vec3;

fn v3(x: f32, y: f32, z: f32) -> Vec3 {
    Vec3::new(x.to_bits(), y.to_bits(), z.to_bits())
}

fn fill3(x: f32) -> Vec3 {
    Vec3::fill(x.to_bits())
}

#[test]
fn test_norm() {
    let v1 = v3(12.0, -5.0, 0.0);
    println!("v1.norm(): {:?}", v1.norm());
    assert_eq!(v1.norm(), v3(0.923077, -0.3846154, 0.0));
}

#[test]
fn test_dist() {
    let v1 = v3(3.0, -6.0, 3.0);
    let v2 = v3(5.0, 7.0, -4.0);
    println!("v1.dist(v2): {:?}", v1.dist(v2));
    assert_eq!(v1.dist(v2), 222.0_f32.sqrt().to_bits());
}

#[test]
fn test_cross() {
    let v1 = v3(3.0, 6.0, 2.0);
    let v2 = v3(5.0, 7.0, 1.0);
    println!("v2.dot(&v2): {:?}", v2.cross(&v1));
    assert_eq!(v1.cross(&v2), v3(-8.0, 7.0, -9.0));
}

#[test]
fn test_dot() {
    let v1 = v3(1.0, 1.0, 1.0);
    let v2 = v3(1.0, 2.0, 3.0);
    assert_eq!(v1.dot(&v1), 3.0_f32.to_bits());
    assert_eq!(v2.dot(&v2), 14.0_f32.to_bits());
    assert_eq!(v1.dot(&v2), 6.0_f32.to_bits());
    println!("v1.dot(&v2) -> {}", f32::from_bits(v1.dot(&v2)));
}

#[test]
fn test_mag() {
    let v1 = v3(2.0, 3.0, 4.0);
    assert_eq!(v1.mag(), f32::from_bits(v1.dot(&v1)).sqrt().to_bits());
}

#[test]
fn test_vec3_add() {
    let mut v1 = v3(1.0, 2.0, 3.0);
    let v2 = v3(1.0, 1.0, 1.0);
    assert_eq!(v1.add(v2), v3(2.0, 3.0, 4.0));
    v1.add_assign(v2);
    assert_eq!(v1, v3(2.0, 3.0, 4.0));
    v1.add_assign_scalar(0.1_f32.to_bits());
    assert_eq!(v1, v3(2.1, 3.1, 4.1));
}

#[test]
fn test_fill_vec3() {
    let v1 = fill3(1.0);
    let v2 = fill3(2.0);
    assert_eq!(v1.add(v2), v3(3.0, 3.0, 3.0));
}

#[test]
fn test_vec3_sub() {
    let mut v1 = v3(1.0, 2.0, 3.0);
    let v2 = v3(1.0, 1.0, 1.0);
    assert_eq!(v1.sub(v2), v3(0.0, 1.0, 2.0));
    v1.sub_assign(v2);
    assert_eq!(v1, v3(0.0, 1.0, 2.0));
    v1.sub_assign_scalar(0.1_f32.to_bits());
    assert_eq!(v1, v3(-0.1, 0.9, 1.9));
}

#[test]
fn test_vec3_mul() {
    let mut v1 = v3(1.0, 2.0, 3.0);
    let v2 = v3(2.0, 2.0, 2.0);
    assert_eq!(v1.mul(v2), v3(2.0, 4.0, 6.0));
    v1.mul_assign(v2);
    assert_eq!(v1, v3(2.0, 4.0, 6.0));
    v1.mul_assign_scalar(2.0_f32.to_bits());
    assert_eq!(v1, v3(4.0, 8.0, 12.0));
}

#[test]
fn test_vec3_div() {
    let mut v1 = v3(1.0, 2.0, 3.0);
    let v2 = v3(1.0, 1.0, 1.0);
    assert_eq!(v1.div(v2), v3(1.0, 2.0, 3.0));
    v1.div_assign(v2);
    assert_eq!(v1, v3(1.0, 2.0, 3.0));
    v1.div_assign_scalar(2.0_f32.to_bits());
    assert_eq!(v1, v3(0.5, 1.0, 1.5));
}

#[test]
fn test_from() {
    let v = v3(1.0, 1.0, 1.0);
    let mut v2 = Vec3::from(v);
    v2.x = 3.0_f32.to_bits();
    assert_eq!(v2.x, 3.0_f32.to_bits());
    assert_eq!(v2, v3(3.0, 1.0, 1.0))
}

#[test]
fn test_neg() {
    let v = v3(1.0, 2.0, 3.0);
    assert_eq!(v.neg(), v3(-1.0, -2.0, -3.0));
}

#[test]
fn it_works() {
    let v1 = v3(1.0, 1.0, 1.0);
    assert_eq!(v1, fill3(1.0));
    let mut v2 = Vec3::from(v1);
    v2.x = 3.0_f32.to_bits();
    assert_eq!(v2.x, 3.0_f32.to_bits());
    v2 = v2.neg();
    println!("{:#?}", v2);
    assert_eq!(v2, v3(-3.0, -1.0, -1.0));
    v2.zero();
    assert_eq!(v2, fill3(0.0));
}
