//! The camera rig: world-to-camera derivation and the final render matrix.
//!
//! The camera's pose is its position and its six plane angles.  Its
//! camera-to-world matrix is `shift(position) * rotation_full_inv(rotation)`
//! (the analytically reversed composition, so that per-tick movement can use
//! the forward composition without double inversion).  The world-to-camera
//! matrix is derived analytically rather than numerically: the forward
//! composition of the opposite angles times the opposite translation, and it
//! is proved to invert the camera-to-world matrix for every camera state.
//! The render matrix is `perspective * axis_remap * world_to_camera`.

use vstd::prelude::*;

use crate::algebra::{lemma_cancel_middle, lemma_equiv_trans};
use crate::laws::{
    lemma_compose_forward_orthogonal, lemma_compose_inverse_is_transpose, lemma_rot_full_wf,
    lemma_shift_cancel, lemma_shift_mat_wf, lemma_transpose_wf, v4_neg_of,
};
use crate::matrix::{m_equiv, m_ident, m_mul, m_transpose, m_wf, mat_mul, mul_fits, MatS, Matrix5};
use crate::rational::{rat_wf, Rat};
use crate::transform4d::{
    perspective_matrix, persp_fits, persp_mat, rot6_neg_of, rot6_neg_val, rot6_wf, rot_full_fits,
    rot_full_inv_fits, rot_full_inv_mat, rot_full_mat, rotation_full, rotation_full_inv, shift,
    shift_mat, v4_mat_fits, v4_neg_val, v4_wf, Rotation6, Vector4,
};

verus! {

/// The camera's pose: a position in 4-space and six plane angles.
#[derive(Clone, Copy)]
pub struct CameraState {
    pub position: Vector4,
    pub rotation: Rotation6,
}

/// Well-formedness of a camera state.
pub open spec fn cam_wf(c: CameraState) -> bool {
    v4_wf(c.position) && rot6_wf(c.rotation)
}

impl CameraState {
    /// Bundles a camera position and orientation.
    pub fn new(position: Vector4, rotation: Rotation6) -> (r: CameraState)
        ensures
            r.position == position,
            r.rotation == rotation,
    {
        CameraState { position, rotation }
    }
}

/// The camera-to-world matrix of a camera state.
pub open spec fn camera_to_world_mat(c: CameraState) -> MatS {
    m_mul(shift_mat(c.position), rot_full_inv_mat(c.rotation))
}

/// The value computed by `world_to_camera`: the forward composition of the
/// opposite angles times the translation by the opposite position.
pub open spec fn world_to_camera_mat(c: CameraState) -> MatS {
    m_mul(rot_full_mat(rot6_neg_val(c.rotation)), shift_mat(v4_neg_val(c.position)))
}

/// The camera-to-world matrix `shift(position) * rotation_full_inv(rotation)`.
/// `None` exactly when an intermediate does not fit in `i128`.
pub fn camera_to_world(c: &CameraState) -> (r: Option<Matrix5>)
    requires
        cam_wf(*c),
    ensures
        r is Some <==> v4_mat_fits(c.position) && rot_full_inv_fits(c.rotation) && mul_fits(
            shift_mat(c.position),
            rot_full_inv_mat(c.rotation),
        ),
        r is Some ==> m_wf(r->Some_0@) && r->Some_0@ == camera_to_world_mat(*c),
{
    let t = shift(&c.position)?;
    let rm = rotation_full_inv(&c.rotation)?;
    mat_mul(&t, &rm)
}

/// The analytic world-to-camera matrix inverts the camera-to-world matrix,
/// in both orders, for every camera position and orientation.
pub proof fn lemma_world_to_camera(c: CameraState, pn: Vector4, rn: Rotation6)
    requires
        cam_wf(c),
        v4_wf(pn),
        rot6_wf(rn),
        v4_neg_of(pn, c.position),
        v4_neg_of(c.position, pn),
        rot6_neg_of(rn, c.rotation),
        rot6_neg_of(c.rotation, rn),
    ensures
        m_equiv(
            m_mul(m_mul(rot_full_mat(rn), shift_mat(pn)), camera_to_world_mat(c)),
            m_ident(),
        ),
        m_equiv(
            m_mul(camera_to_world_mat(c), m_mul(rot_full_mat(rn), shift_mat(pn))),
            m_ident(),
        ),
{
    let t = shift_mat(c.position);
    let tn = shift_mat(pn);
    let w = rot_full_mat(rn);
    let rinv = rot_full_inv_mat(c.rotation);
    lemma_shift_mat_wf(c.position);
    lemma_shift_mat_wf(pn);
    lemma_rot_full_wf(rn);
    lemma_rot_full_wf(c.rotation);
    // rot_full_inv of the angles is the transpose of rot_full of the
    // opposite angles, so the two compositions cancel by orthogonality.
    lemma_compose_inverse_is_transpose(rn, c.rotation);
    assert(rinv == m_transpose(w));
    lemma_compose_forward_orthogonal(rn);
    lemma_shift_cancel(pn, c.position);
    lemma_shift_cancel(c.position, pn);
    // (w tn) (t rinv) ~ w rinv ~ I
    lemma_cancel_middle(w, tn, t, rinv);
    lemma_equiv_trans(
        m_mul(m_mul(w, tn), m_mul(t, rinv)),
        m_mul(w, rinv),
        m_ident(),
    );
    // (t rinv) (w tn) ~ t tn ~ I
    lemma_cancel_middle(t, rinv, w, tn);
    lemma_equiv_trans(
        m_mul(m_mul(t, rinv), m_mul(w, tn)),
        m_mul(t, tn),
        m_ident(),
    );
}

/// Every step of the world-to-camera derivation fits in 128-bit integers.
pub open spec fn world_to_camera_fits(c: CameraState) -> bool {
    let pn = v4_neg_val(c.position);
    let rn = rot6_neg_val(c.rotation);
    &&& c.position.x.num > i128::MIN
    &&& c.position.y.num > i128::MIN
    &&& c.position.z.num > i128::MIN
    &&& c.position.w.num > i128::MIN
    &&& rot_full_fits(rn)
    &&& v4_mat_fits(pn)
    &&& mul_fits(rot_full_mat(rn), shift_mat(pn))
}

/// The world-to-camera matrix, derived analytically: the inverse of
/// `shift(position) * rotation_full_inv(rotation)`, computed as the forward
/// composition of the opposite angles times the opposite translation.  A
/// `Some` answer is proved to invert the camera-to-world matrix in both
/// orders; `None` comes exactly when an intermediate does not fit in `i128`.
pub fn world_to_camera(c: &CameraState) -> (r: Option<Matrix5>)
    requires
        cam_wf(*c),
    ensures
        r is Some <==> world_to_camera_fits(*c),
        r is Some ==> {
            let wc = r->Some_0@;
            &&& m_wf(wc)
            &&& wc == world_to_camera_mat(*c)
            &&& m_equiv(m_mul(wc, camera_to_world_mat(*c)), m_ident())
            &&& m_equiv(m_mul(camera_to_world_mat(*c), wc), m_ident())
        },
{
    let pn = c.position.neg()?;
    proof {
        assert(pn == v4_neg_val(c.position));
    }
    let rn = c.rotation.neg();
    proof {
        assert(rn == rot6_neg_val(c.rotation));
    }
    let w = rotation_full(&rn)?;
    let t = shift(&pn)?;
    let r = mat_mul(&w, &t)?;
    proof {
        lemma_world_to_camera(*c, pn, rn);
    }
    Some(r)
}

/// The fixed change of axis conventions between the engine (+x forward,
/// +y right, +z up, w the fourth axis) and the renderer (+x right, +y up,
/// -z forward, w the fourth axis): engine y to renderer x, engine z to
/// renderer y, engine x to renderer -z.
pub open spec fn axis_remap_mat() -> MatS {
    MatS {
        n: Seq::new(
            25,
            |k: int|
                if k == 1 {
                    1int
                } else if k == 7 {
                    1int
                } else if k == 10 {
                    -1int
                } else if k == 18 {
                    1int
                } else if k == 24 {
                    1int
                } else {
                    0int
                },
        ),
        d: 1,
    }
}

/// Builds the fixed axis-convention matrix.
pub fn axis_remap() -> (r: Matrix5)
    ensures
        m_wf(r@),
        r@ == axis_remap_mat(),
{
    let mut nums = crate::matrix::diag_cells(0);
    let ghost base = nums@;
    nums.set(1, 1);
    nums.set(7, 1);
    nums.set(10, -1);
    nums.set(18, 1);
    nums.set(24, 1);
    let r = Matrix5 { nums, den: 1 };
    proof {
        assert forall|k: int| 0 <= k < 25 implies r@.n[k] == axis_remap_mat().n[k] by {
            assert(r@.n[k] == nums@[k] as int);
            if k != 1 && k != 7 && k != 10 && k != 18 && k != 24 {
                assert(nums@[k] == base[k]);
                assert(crate::matrix::ints(base)[k] == base[k] as int);
            }
        }
        assert(r@.n =~= axis_remap_mat().n);
    }
    r
}

/// Every step of the render-matrix composition fits in 128-bit integers.
pub open spec fn render_matrix_fits(
    c: CameraState,
    tan_half: Rat,
    aspect: Rat,
    near: Rat,
    far: Rat,
    w_blend: Rat,
    remap: MatS,
) -> bool {
    &&& world_to_camera_fits(c)
    &&& persp_fits(tan_half, aspect, near, far, w_blend)
    &&& mul_fits(remap, world_to_camera_mat(c))
    &&& mul_fits(
        persp_mat(tan_half, aspect, near, far, w_blend),
        m_mul(remap, world_to_camera_mat(c)),
    )
}

/// The final render matrix: `perspective * axis_remap * world_to_camera`.
/// `None` exactly when a step does not fit in `i128`.  A `Some` answer is
/// exactly that composition.
pub fn render_matrix(
    c: &CameraState,
    tan_half: &Rat,
    aspect: &Rat,
    near: &Rat,
    far: &Rat,
    w_blend: &Rat,
    remap: &Matrix5,
) -> (r: Option<Matrix5>)
    requires
        cam_wf(*c),
        m_wf(remap@),
        rat_wf(*tan_half),
        rat_wf(*aspect),
        rat_wf(*near),
        rat_wf(*far),
        rat_wf(*w_blend),
        tan_half.num > 0,
        aspect.num > 0,
        near.num > 0,
        near.num * far.den < far.num * near.den,
    ensures
        r is Some <==> render_matrix_fits(*c, *tan_half, *aspect, *near, *far, *w_blend, remap@),
        r is Some ==> m_wf(r->Some_0@) && r->Some_0@ == m_mul(
            persp_mat(*tan_half, *aspect, *near, *far, *w_blend),
            m_mul(remap@, world_to_camera_mat(*c)),
        ),
{
    let wc = world_to_camera(c)?;
    let pm = perspective_matrix(tan_half, aspect, near, far, w_blend)?;
    let rw = mat_mul(remap, &wc)?;
    mat_mul(&pm, &rw)
}

} // verus!
