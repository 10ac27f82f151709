use viewer4d::camera::{axis_remap, camera_to_world, render_matrix, world_to_camera, CameraState};
use viewer4d::matrix::{mat_mul, Matrix5};
use viewer4d::rational::Rat;
use viewer4d::transform4d::{full_transform, Rotation6, Rotor, Vector4};

fn rat(n: i128, d: i128) -> Rat {
    Rat::new(n, d).unwrap()
}

fn entry_is(m: &Matrix5, i: usize, j: usize, n: i128, d: i128) -> bool {
    let e = m.entry(i, j);
    e.num * d == n * e.den
}

fn tilted_camera() -> CameraState {
    CameraState::new(
        Vector4::new(rat(1, 2), rat(-3, 1), rat(5, 1), rat(7, 3)),
        Rotation6::new(
            Rotor::new(3, 4, 5).unwrap(),
            Rotor::new(5, 12, 13).unwrap(),
            Rotor::identity(),
            Rotor::new(8, 15, 17).unwrap(),
            Rotor::identity(),
            Rotor::new(0, 1, 1).unwrap(),
        ),
    )
}

#[test]
fn world_to_camera_inverts_camera_to_world() {
    let c = tilted_camera();
    let c2w = camera_to_world(&c).unwrap();
    let w2c = world_to_camera(&c).unwrap();
    assert!(mat_mul(&w2c, &c2w).unwrap().is_identity());
    assert!(mat_mul(&c2w, &w2c).unwrap().is_identity());
}

#[test]
fn world_to_camera_of_the_resting_camera_is_the_identity() {
    let c = CameraState::new(Vector4::from_ints(0, 0, 0, 0), Rotation6::identity());
    let w2c = world_to_camera(&c).unwrap();
    assert!(w2c.is_identity());
}

#[test]
fn axis_remap_swings_forward_to_minus_z() {
    let m = axis_remap();
    // Engine +y becomes renderer +x, +z becomes +y, +x becomes -z.
    assert!(entry_is(&m, 0, 1, 1, 1));
    assert!(entry_is(&m, 1, 2, 1, 1));
    assert!(entry_is(&m, 2, 0, -1, 1));
    assert!(entry_is(&m, 3, 3, 1, 1));
    assert!(entry_is(&m, 4, 4, 1, 1));
    assert!(entry_is(&m, 0, 0, 0, 1));
    assert!(entry_is(&m, 2, 2, 0, 1));
}

#[test]
fn object_two_ahead_projects_onto_the_view_axis() {
    // Camera at the origin with no rotation, no w-perspective; one object
    // two units down the engine's forward (+x) axis.
    let camera = CameraState::new(Vector4::from_ints(0, 0, 0, 0), Rotation6::identity());
    let remap = axis_remap();
    let render = render_matrix(
        &camera,
        &rat(1, 1),
        &rat(1, 1),
        &rat(1, 100),
        &rat(100, 1),
        &rat(0, 1),
        &remap,
    )
    .unwrap();
    let pose = full_transform(
        &Vector4::from_ints(2, 0, 0, 0),
        &Vector4::from_ints(1, 1, 1, 1),
        &Rotation6::identity(),
    )
    .unwrap();
    let combined = mat_mul(&render, &pose).unwrap();
    // The object's local origin, in clip terms: centred on screen, depth
    // divisor 2 (the camera-space distance), clip depth just under the
    // divisor, fourth axis untouched.
    assert!(entry_is(&combined, 0, 4, 0, 1));
    assert!(entry_is(&combined, 1, 4, 0, 1));
    assert!(entry_is(&combined, 2, 4, 19802, 9999));
    assert!(entry_is(&combined, 3, 4, 0, 1));
    assert!(entry_is(&combined, 4, 4, 2, 1));
    // The depth-to-divisor ratio is positive and below one.
    let z = combined.entry(2, 4);
    let w = combined.entry(4, 4);
    assert!(z.num > 0 && w.num > 0);
    assert!(z.num * w.den < w.num * z.den);
}

#[test]
fn render_matrix_follows_the_camera_position() {
    // Moving the camera one unit forward halves nothing else: the same
    // object now sits one unit ahead, so the divisor drops to 1.
    let camera = CameraState::new(Vector4::from_ints(1, 0, 0, 0), Rotation6::identity());
    let remap = axis_remap();
    let render = render_matrix(
        &camera,
        &rat(1, 1),
        &rat(1, 1),
        &rat(1, 100),
        &rat(100, 1),
        &rat(0, 1),
        &remap,
    )
    .unwrap();
    let pose = full_transform(
        &Vector4::from_ints(2, 0, 0, 0),
        &Vector4::from_ints(1, 1, 1, 1),
        &Rotation6::identity(),
    )
    .unwrap();
    let combined = mat_mul(&render, &pose).unwrap();
    assert!(entry_is(&combined, 4, 4, 1, 1));
}
