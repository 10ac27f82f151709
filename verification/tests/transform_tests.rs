use viewer4d::inverse::{inverse, pose_inverse};
use viewer4d::matrix::{mat_mul, Matrix5};
use viewer4d::rational::Rat;
use viewer4d::transform4d::{
    full_transform, matrix_to_array, perspective_matrix, rotation_full, rotation_full_inv,
    rotation_single, scale, scale_shift, shift, Rotation6, Rotor, Vector4,
};

fn rat(n: i128, d: i128) -> Rat {
    Rat::new(n, d).unwrap()
}

fn rat_is(r: &Rat, n: i128, d: i128) -> bool {
    r.num * d == n * r.den
}

fn entry_is(m: &Matrix5, i: usize, j: usize, n: i128, d: i128) -> bool {
    let e = m.entry(i, j);
    rat_is(&e, n, d)
}

fn mats_same_value(a: &Matrix5, b: &Matrix5) -> bool {
    for i in 0..5 {
        for j in 0..5 {
            let ea = a.entry(i, j);
            let eb = b.entry(i, j);
            if ea.num * eb.den != eb.num * ea.den {
                return false;
            }
        }
    }
    true
}

fn sample_rotation() -> Rotation6 {
    Rotation6::new(
        Rotor::new(3, 4, 5).unwrap(),
        Rotor::new(5, 12, 13).unwrap(),
        Rotor::new(8, 15, 17).unwrap(),
        Rotor::new(-3, 4, 5).unwrap(),
        Rotor::new(20, 21, 29).unwrap(),
        Rotor::new(12, -5, 13).unwrap(),
    )
}

#[test]
fn rat_new_normalizes_the_sign() {
    let r = Rat::new(3, -6).unwrap();
    assert!(r.den > 0);
    assert!(rat_is(&r, -1, 2));
    assert!(Rat::new(1, 0).is_none());
    assert_eq!(Rat::from_int(7).num, 7);
    assert_eq!(Rat::from_int(7).den, 1);
}

#[test]
fn rat_arithmetic() {
    let a = rat(1, 2);
    let b = rat(-3, 4);
    let p = a.mul(b).unwrap();
    assert!(rat_is(&p, -3, 8));
    let n = b.neg().unwrap();
    assert!(rat_is(&n, 3, 4));
    let r = b.recip().unwrap();
    assert!(rat_is(&r, -4, 3));
    assert!(rat(0, 5).recip().is_none());
}

#[test]
fn rotor_demands_a_point_on_the_unit_circle() {
    assert!(Rotor::new(3, 4, 5).is_some());
    assert!(Rotor::new(1, 1, 1).is_none());
    assert!(Rotor::new(3, 4, -5).is_none());
    let r = Rotor::identity();
    assert_eq!((r.c, r.s, r.d), (1, 0, 1));
}

#[test]
fn rotor_from_half_tangent_is_exact() {
    let r = Rotor::from_half_tangent(1, 2).unwrap();
    assert_eq!((r.c, r.s, r.d), (3, 4, 5));
    let n = r.neg();
    assert_eq!((n.c, n.s, n.d), (3, -4, 5));
    assert!(Rotor::from_half_tangent(1, 0).is_none());
}

#[test]
fn plane_rotation_of_angle_zero_is_the_identity() {
    for a in 0..4usize {
        for b in 0..4usize {
            if a != b {
                let m = rotation_single(&Rotor::identity(), a, b);
                assert!(m.is_identity());
            }
        }
    }
}

#[test]
fn quarter_turn_maps_the_first_axis_to_the_second() {
    // A 90-degree rotor: cos 0, sin 1.
    let quarter = Rotor::new(0, 1, 1).unwrap();
    let m = rotation_single(&quarter, 0, 1);
    let p = shift(&Vector4::from_ints(1, 0, 0, 0)).unwrap();
    let moved = mat_mul(&m, &p).unwrap();
    assert!(entry_is(&moved, 0, 4, 0, 1));
    assert!(entry_is(&moved, 1, 4, 1, 1));
    assert!(entry_is(&moved, 2, 4, 0, 1));
    assert!(entry_is(&moved, 3, 4, 0, 1));
    assert!(entry_is(&moved, 4, 4, 1, 1));
}

#[test]
fn shift_holds_the_offset_in_the_last_column() {
    let v = Vector4::new(rat(1, 2), rat(-3, 1), rat(5, 1), rat(7, 3));
    let m = shift(&v).unwrap();
    assert!(entry_is(&m, 0, 4, 1, 2));
    assert!(entry_is(&m, 1, 4, -3, 1));
    assert!(entry_is(&m, 2, 4, 5, 1));
    assert!(entry_is(&m, 3, 4, 7, 3));
    for i in 0..5 {
        assert!(entry_is(&m, i, i, 1, 1));
    }
    assert!(entry_is(&m, 1, 0, 0, 1));
}

#[test]
fn scale_holds_the_factors_on_the_diagonal() {
    let v = Vector4::new(rat(2, 1), rat(1, 3), rat(-4, 1), rat(9, 2));
    let m = scale(&v).unwrap();
    assert!(entry_is(&m, 0, 0, 2, 1));
    assert!(entry_is(&m, 1, 1, 1, 3));
    assert!(entry_is(&m, 2, 2, -4, 1));
    assert!(entry_is(&m, 3, 3, 9, 2));
    assert!(entry_is(&m, 4, 4, 1, 1));
    assert!(entry_is(&m, 0, 4, 0, 1));
}

#[test]
fn scale_shift_is_the_product_of_translation_and_scale() {
    let s = Vector4::new(rat(2, 1), rat(1, 3), rat(-4, 1), rat(9, 2));
    let t = Vector4::new(rat(1, 2), rat(-3, 1), rat(5, 1), rat(7, 3));
    let combined = scale_shift(&s, &t).unwrap();
    let product = mat_mul(&shift(&t).unwrap(), &scale(&s).unwrap()).unwrap();
    assert!(mats_same_value(&combined, &product));
    assert!(entry_is(&combined, 0, 0, 2, 1));
    assert!(entry_is(&combined, 0, 4, 1, 2));
}

#[test]
fn translation_cancels_against_the_opposite_translation() {
    let v = Vector4::new(rat(1, 2), rat(-3, 1), rat(5, 1), rat(7, 3));
    let vn = v.neg().unwrap();
    let prod = mat_mul(&shift(&v).unwrap(), &shift(&vn).unwrap()).unwrap();
    assert!(prod.is_identity());
}

#[test]
fn composed_rotation_is_orthogonal() {
    let m = rotation_full(&sample_rotation()).unwrap();
    let mt = m.transpose();
    assert!(mat_mul(&m, &mt).unwrap().is_identity());
    assert!(mat_mul(&mt, &m).unwrap().is_identity());
}

#[test]
fn reversed_composition_of_opposite_angles_is_the_transpose() {
    let rs = sample_rotation();
    let forward_t = rotation_full(&rs).unwrap().transpose();
    let reversed = rotation_full_inv(&rs.neg()).unwrap();
    assert_eq!(reversed.nums, forward_t.nums);
    assert_eq!(reversed.den, forward_t.den);
}

#[test]
fn with_all_sines_zero_the_reversed_composition_is_its_own_transpose() {
    // Half-turns only: every sine is zero, so negating the angles changes
    // nothing and the reversed composition equals the forward transpose
    // without negation.
    let half_turn = Rotor::new(-1, 0, 1).unwrap();
    let rs = Rotation6::new(
        half_turn,
        Rotor::identity(),
        half_turn,
        Rotor::identity(),
        half_turn,
        Rotor::identity(),
    );
    let forward_t = rotation_full(&rs).unwrap().transpose();
    let reversed = rotation_full_inv(&rs).unwrap();
    assert_eq!(reversed.nums, forward_t.nums);
    assert_eq!(reversed.den, forward_t.den);
}

#[test]
fn full_transform_is_shift_times_rotation_times_scale() {
    let pos = Vector4::from_ints(2, -1, 0, 3);
    let size = Vector4::new(rat(2, 1), rat(1, 1), rat(1, 2), rat(1, 1));
    let rs = sample_rotation();
    let pose = full_transform(&pos, &size, &rs).unwrap();
    let by_hand = mat_mul(
        &shift(&pos).unwrap(),
        &mat_mul(&rotation_full(&rs).unwrap(), &scale(&size).unwrap()).unwrap(),
    )
    .unwrap();
    assert_eq!(pose.nums, by_hand.nums);
    assert_eq!(pose.den, by_hand.den);
}

#[test]
fn perspective_with_unit_tangent_has_unit_focal_cell() {
    // A 90-degree field of view: tan(45 degrees) = 1.
    let m = perspective_matrix(&rat(1, 1), &rat(1, 1), &rat(1, 100), &rat(100, 1), &rat(0, 1))
        .unwrap();
    assert!(entry_is(&m, 0, 0, 1, 1));
    assert!(entry_is(&m, 1, 1, 1, 1));
    assert!(entry_is(&m, 3, 3, 1, 1));
    assert!(entry_is(&m, 4, 2, -1, 1));
    assert!(entry_is(&m, 4, 3, 0, 1));
    assert!(entry_is(&m, 4, 4, 0, 1));
    // -(far + near) / (far - near) with far 100 and near 1/100.
    assert!(entry_is(&m, 2, 2, -10001, 9999));
    // -2 far near / (far - near).
    assert!(entry_is(&m, 2, 4, -20000, 999900));
}

#[test]
fn perspective_blend_weighs_the_fourth_axis() {
    let m = perspective_matrix(&rat(1, 1), &rat(1, 1), &rat(1, 100), &rat(100, 1), &rat(1, 1))
        .unwrap();
    assert!(entry_is(&m, 4, 3, -1, 1));
    assert!(entry_is(&m, 4, 2, -1, 1));
    let half = perspective_matrix(&rat(1, 1), &rat(1, 1), &rat(1, 100), &rat(100, 1), &rat(1, 2))
        .unwrap();
    assert!(entry_is(&half, 4, 3, -1, 2));
}

#[test]
fn duplicate_copies_every_cell() {
    let v = Vector4::from_ints(4, 5, 6, 7);
    let m = shift(&v).unwrap();
    let copy = m.duplicate();
    assert_eq!(copy.nums, m.nums);
    assert_eq!(copy.den, m.den);
}

#[test]
fn matrix_to_array_packs_row_major() {
    let v = Vector4::from_ints(4, 5, 6, 7);
    let m = shift(&v).unwrap();
    let cells = matrix_to_array(&m);
    assert_eq!(cells.len(), 25);
    assert!(rat_is(&cells[4], 4, 1));
    assert!(rat_is(&cells[9], 5, 1));
    assert!(rat_is(&cells[14], 6, 1));
    assert!(rat_is(&cells[19], 7, 1));
    assert!(rat_is(&cells[0], 1, 1));
    assert!(rat_is(&cells[1], 0, 1));
}

#[test]
fn inverting_twice_gives_the_pose_back() {
    let pos = Vector4::from_ints(2, -1, 0, 3);
    let size = Vector4::from_ints(1, 1, 1, 1);
    let rs = Rotation6::new(
        Rotor::new(3, 4, 5).unwrap(),
        Rotor::identity(),
        Rotor::identity(),
        Rotor::identity(),
        Rotor::identity(),
        Rotor::new(0, 1, 1).unwrap(),
    );
    let pose = full_transform(&pos, &size, &rs).unwrap();
    let once = inverse(&pose).unwrap();
    assert!(mat_mul(&pose, &once).unwrap().is_identity());
    assert!(mat_mul(&once, &pose).unwrap().is_identity());
    let twice = inverse(&once).unwrap();
    assert!(mats_same_value(&twice, &pose));
}

#[test]
fn multiplication_reports_when_the_exact_product_cannot_be_held() {
    let huge = Vector4::from_ints(1 << 60, 1, 1, 1);
    let m = scale(&huge).unwrap();
    let squared = mat_mul(&m, &m).unwrap();
    let fourth = mat_mul(&squared, &squared);
    assert!(fourth.is_none());
}

#[test]
fn oversized_denominators_are_refused_at_construction() {
    let tiny = Rat::new(1, 1 << 62).unwrap();
    let v = Vector4::new(tiny, tiny, tiny, tiny);
    assert!(shift(&v).is_none());
}

#[test]
fn a_mirrored_pose_with_negative_determinant_still_inverts() {
    let mirror = scale(&Vector4::from_ints(-1, 2, 1, 1)).unwrap();
    let inv = inverse(&mirror).unwrap();
    assert!(mat_mul(&mirror, &inv).unwrap().is_identity());
    assert!(mat_mul(&inv, &mirror).unwrap().is_identity());
    assert!(inv.den > 0);
}

#[test]
fn inversion_reports_when_the_determinant_cannot_be_held() {
    let vast = scale(&Vector4::from_ints(1i128 << 100, 1i128 << 100, 1, 1)).unwrap();
    assert!(inverse(&vast).is_none());
}

#[test]
fn singular_matrix_has_no_inverse() {
    let z = Vector4::from_ints(0, 0, 0, 0);
    let m = scale(&z).unwrap();
    assert!(inverse(&m).is_none());
}

#[test]
fn analytic_pose_inverse_undoes_the_pose() {
    let pos = Vector4::new(rat(1, 2), rat(-3, 1), rat(5, 1), rat(7, 3));
    let size = Vector4::new(rat(2, 1), rat(1, 3), rat(-4, 1), rat(9, 2));
    let rs = sample_rotation();
    let pose = full_transform(&pos, &size, &rs).unwrap();
    let inv = pose_inverse(&pos, &size, &rs).unwrap();
    assert!(mat_mul(&pose, &inv).unwrap().is_identity());
    assert!(mat_mul(&inv, &pose).unwrap().is_identity());
    assert!(pose_inverse(&pos, &Vector4::from_ints(1, 0, 1, 1), &rs).is_none());
}

#[test]
fn zw_quarter_turn_rotates_z_into_w() {
    let rs = Rotation6::new(
        Rotor::identity(),
        Rotor::identity(),
        Rotor::identity(),
        Rotor::identity(),
        Rotor::identity(),
        Rotor::new(0, 1, 1).unwrap(),
    );
    let m = rotation_full(&rs).unwrap();
    let p = shift(&Vector4::from_ints(0, 0, 1, 0)).unwrap();
    let moved = mat_mul(&m, &p).unwrap();
    assert!(entry_is(&moved, 0, 4, 0, 1));
    assert!(entry_is(&moved, 1, 4, 0, 1));
    assert!(entry_is(&moved, 2, 4, 0, 1));
    assert!(entry_is(&moved, 3, 4, 1, 1));
    assert!(entry_is(&moved, 4, 4, 1, 1));
}
