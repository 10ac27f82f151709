//! Cross-checks of the exact rational transforms against the same
//! constructions carried out in 64-bit floating point with nalgebra, the
//! numeric engine a renderer would use.  Angles are rationalised through the
//! half-angle tangent, so a small tolerance covers the rationalisation.

use nalgebra::base::{Matrix5 as NaMatrix5, Vector4 as NaVector4, Vector6 as NaVector6};
use viewer4d::matrix::Matrix5;
use viewer4d::transform4d::{full_transform, rotation_full, rotation_single, Rotation6, Rotor, Vector4};

type Mat5 = NaMatrix5<f64>;

fn rotor_of_angle(angle: f64, scale: i128) -> Rotor {
    let t = (angle / 2.0).tan();
    let p = (t * scale as f64).round() as i128;
    Rotor::from_half_tangent(p, scale).unwrap()
}

// Six rotor denominators multiply along the composition, so each one is
// kept small enough for the product to stay well inside 128 bits.
const COMPOSE_SCALE: i128 = 512;

fn rotation6_of_angles(a: [f64; 6]) -> Rotation6 {
    Rotation6::new(
        rotor_of_angle(a[0], COMPOSE_SCALE),
        rotor_of_angle(a[1], COMPOSE_SCALE),
        rotor_of_angle(a[2], COMPOSE_SCALE),
        rotor_of_angle(a[3], COMPOSE_SCALE),
        rotor_of_angle(a[4], COMPOSE_SCALE),
        rotor_of_angle(a[5], COMPOSE_SCALE),
    )
}

fn to_floats(m: &Matrix5) -> Mat5 {
    let mut out = Mat5::zeros();
    for i in 0..5 {
        for j in 0..5 {
            let e = m.entry(i, j);
            out[(i, j)] = e.num as f64 / e.den as f64;
        }
    }
    out
}

fn na_rotation_single(angle: f64, from: usize, into: usize) -> Mat5 {
    let mut result = Mat5::identity();
    result[(from, from)] = angle.cos();
    result[(from, into)] = -angle.sin();
    result[(into, from)] = angle.sin();
    result[(into, into)] = angle.cos();
    result
}

fn na_rotation_full(angles: NaVector6<f64>) -> Mat5 {
    na_rotation_single(angles[5], 2, 3)
        * na_rotation_single(angles[4], 1, 3)
        * na_rotation_single(angles[3], 1, 2)
        * na_rotation_single(angles[2], 0, 3)
        * na_rotation_single(angles[1], 0, 2)
        * na_rotation_single(angles[0], 0, 1)
}

fn na_shift(v: NaVector4<f64>) -> Mat5 {
    let mut m = Mat5::identity();
    m[(0, 4)] = v[0];
    m[(1, 4)] = v[1];
    m[(2, 4)] = v[2];
    m[(3, 4)] = v[3];
    m
}

fn na_scale(v: NaVector4<f64>) -> Mat5 {
    let mut m = Mat5::identity();
    m[(0, 0)] = v[0];
    m[(1, 1)] = v[1];
    m[(2, 2)] = v[2];
    m[(3, 3)] = v[3];
    m
}

fn close(a: &Mat5, b: &Mat5, tolerance: f64) -> bool {
    for i in 0..5 {
        for j in 0..5 {
            if (a[(i, j)] - b[(i, j)]).abs() > tolerance {
                return false;
            }
        }
    }
    true
}

#[test]
fn single_plane_rotation_matches_the_float_engine() {
    let angle = 0.7f64;
    let rot = rotor_of_angle(angle, 1 << 24);
    let exact = rotation_single(&rot, 0, 2);
    let float = na_rotation_single(angle, 0, 2);
    assert!(close(&to_floats(&exact), &float, 1e-6));
}

#[test]
fn composed_rotation_matches_the_float_engine() {
    let angles = [0.3f64, -0.8, 1.1, 0.05, 2.4, -1.9];
    let exact = rotation_full(&rotation6_of_angles(angles)).unwrap();
    let float = na_rotation_full(NaVector6::from_row_slice(&angles));
    assert!(close(&to_floats(&exact), &float, 5e-2));
}

#[test]
fn full_transform_matches_the_float_engine() {
    let angles = [0.25f64, 0.5, -0.75, 1.0, -1.25, 1.5];
    let pos = Vector4::from_ints(2, -1, 0, 3);
    let size = Vector4::from_ints(2, 1, 1, 1);
    let exact = full_transform(&pos, &size, &rotation6_of_angles(angles)).unwrap();
    let float = na_shift(NaVector4::new(2.0, -1.0, 0.0, 3.0))
        * na_rotation_full(NaVector6::from_row_slice(&angles))
        * na_scale(NaVector4::new(2.0, 1.0, 1.0, 1.0));
    assert!(close(&to_floats(&exact), &float, 5e-2));
}
