//! Inversion of pose matrices.
//!
//! [`inverse`] inverts an arbitrary matrix: it computes a candidate by the
//! adjugate (exact integer cofactors, no division) and then certifies it by
//! exact multiplication, so its correctness does not rest on the cofactor
//! algebra; its success condition [`inverse_works`] mirrors the computation
//! step by step, so `None` comes exactly from a zero determinant, an
//! intermediate outside `i128`, or a failed certification.
//! [`pose_inverse`] inverts a translate-rotate-scale pose
//! analytically - reciprocal scale, transposed rotation, opposite
//! translation - and its success is proved, not checked: the product with
//! the pose is shown to be the identity for every position, scale and
//! orientation.

use vstd::prelude::*;

use crate::algebra::{lemma_cancel_middle, lemma_equiv_trans, lemma_mul_assoc, lemma_mul_wf};
use crate::laws::{
    lemma_compose_forward_orthogonal, lemma_compose_inverse_is_transpose, lemma_rot_full_wf,
    lemma_scale_cancel, lemma_scale_mat_wf, lemma_shift_cancel, lemma_shift_mat_wf,
    lemma_transpose_wf, v4_neg_of, v4_recip_of,
};
use crate::matrix::{ints, m_equiv, m_ident, m_mul, m_transpose, m_wf, mat_mul, mul_fits, Matrix5, MatS};
use crate::rational::in_i128;
use vstd::arithmetic::div_mod::lemma_fundamental_div_mod_converse;
use crate::transform4d::{
    full_transform_mat, rot6_neg_of, rot6_neg_val, rot6_wf, rot_full_inv_fits, rot_full_inv_mat,
    rot_full_mat, rotation_full_inv, scale, scale_mat, shift, shift_mat, v4_mat_fits, v4_neg_val,
    v4_recip_val, v4_wf, Rotation6, Vector4,
};

verus! {

/// Which source column feeds position `c` of a block that skips column
/// `skip`: the skipped column is passed over.
pub open spec fn skip_idx(c: int, skip: int) -> int {
    if c < skip {
        c
    } else {
        c + 1
    }
}

/// The row-major 3x3 block of a row-major 4x4 block, without its first row
/// and without column `skip`.
pub open spec fn sub3_val(w: Seq<int>, skip: int) -> Seq<int> {
    Seq::new(9, |t: int| w[(1 + t / 3) * 4 + skip_idx(t % 3, skip)])
}

/// Determinant of a row-major 3x3 block, grouped exactly as `det3`
/// computes it.
pub open spec fn det3_val(w: Seq<int>) -> int {
    w[0] * (w[4] * w[8] - w[5] * w[7]) - w[1] * (w[3] * w[8] - w[5] * w[6]) + w[2] * (w[3] * w[7]
        - w[4] * w[6])
}

/// Every intermediate of the 3x3 determinant, in evaluation order, fits in
/// an `i128`.
pub open spec fn det3_fits(w: Seq<int>) -> bool {
    let m1 = w[4] * w[8] - w[5] * w[7];
    let m2 = w[3] * w[8] - w[5] * w[6];
    let m3 = w[3] * w[7] - w[4] * w[6];
    &&& in_i128(w[4] * w[8])
    &&& in_i128(w[5] * w[7])
    &&& in_i128(m1)
    &&& in_i128(w[3] * w[8])
    &&& in_i128(w[5] * w[6])
    &&& in_i128(m2)
    &&& in_i128(w[3] * w[7])
    &&& in_i128(w[4] * w[6])
    &&& in_i128(m3)
    &&& in_i128(w[0] * m1)
    &&& in_i128(w[1] * m2)
    &&& in_i128(w[2] * m3)
    &&& in_i128(w[0] * m1 - w[1] * m2)
    &&& in_i128(w[0] * m1 - w[1] * m2 + w[2] * m3)
}

/// Determinant of a 3x3 block given row-major, checked; `None` exactly when
/// an intermediate leaves the `i128` range.
fn det3(w: &Vec<i128>) -> (r: Option<i128>)
    requires
        w@.len() == 9,
    ensures
        r is Some <==> det3_fits(ints(w@)),
        r is Some ==> r->Some_0 as int == det3_val(ints(w@)),
{
    let m1 = w[4].checked_mul(w[8])?.checked_sub(w[5].checked_mul(w[7])?)?;
    let m2 = w[3].checked_mul(w[8])?.checked_sub(w[5].checked_mul(w[6])?)?;
    let m3 = w[3].checked_mul(w[7])?.checked_sub(w[4].checked_mul(w[6])?)?;
    let t1 = w[0].checked_mul(m1)?;
    let t2 = w[1].checked_mul(m2)?;
    let t3 = w[2].checked_mul(m3)?;
    t1.checked_sub(t2)?.checked_add(t3)
}

/// The 3x3 block of a row-major 4x4 block without its first row and without
/// column `skip`.
fn sub3(w: &Vec<i128>, skip: usize) -> (r: Vec<i128>)
    requires
        w@.len() == 16,
        skip < 4,
    ensures
        r@.len() == 9,
        ints(r@) == sub3_val(ints(w@), skip as int),
{
    let mut out: Vec<i128> = Vec::new();
    let mut row: usize = 1;
    while row < 4
        invariant
            1 <= row <= 4,
            w@.len() == 16,
            skip < 4,
            out@.len() == (row - 1) * 3,
            forall|t: int| 0 <= t < out@.len() ==> ints(out@)[t] == sub3_val(ints(w@), skip as int)[t],
        decreases 4 - row,
    {
        let mut col: usize = 0;
        let mut taken: usize = 0;
        while col < 4
            invariant
                col <= 4,
                1 <= row < 4,
                w@.len() == 16,
                skip < 4,
                taken <= 3,
                taken == (if col <= skip { col as int } else { col - 1 }),
                out@.len() == (row - 1) * 3 + taken,
                forall|t: int|
                    0 <= t < out@.len() ==> ints(out@)[t] == sub3_val(ints(w@), skip as int)[t],
            decreases 4 - col,
        {
            if col != skip {
                let ghost pos = out@.len() as int;
                let ghost pre = out@;
                out.push(w[row * 4 + col]);
                proof {
                    lemma_fundamental_div_mod_converse(pos, 3, row as int - 1, taken as int);
                    assert(skip_idx(taken as int, skip as int) == col as int);
                    assert forall|t: int| 0 <= t < out@.len() implies ints(out@)[t] == sub3_val(
                        ints(w@),
                        skip as int,
                    )[t] by {
                        if t < pos {
                            assert(ints(out@)[t] == ints(pre)[t]);
                        } else {
                            assert(ints(out@)[t] == ints(w@)[row as int * 4 + col as int]);
                        }
                    }
                }
                taken = taken + 1;
            }
            col = col + 1;
        }
        row = row + 1;
    }
    proof {
        assert(ints(out@) =~= sub3_val(ints(w@), skip as int));
    }
    out
}

/// Determinant of a row-major 4x4 block: the cofactor expansion along its
/// first row, grouped exactly as `det4` computes it.
pub open spec fn det4_val(w: Seq<int>) -> int {
    w[0] * det3_val(sub3_val(w, 0)) - w[1] * det3_val(sub3_val(w, 1)) + w[2] * det3_val(
        sub3_val(w, 2),
    ) - w[3] * det3_val(sub3_val(w, 3))
}

/// Every intermediate of the 4x4 determinant, in evaluation order, fits in
/// an `i128`.
pub open spec fn det4_fits(w: Seq<int>) -> bool {
    let t0 = w[0] * det3_val(sub3_val(w, 0));
    let t1 = w[1] * det3_val(sub3_val(w, 1));
    let t2 = w[2] * det3_val(sub3_val(w, 2));
    let t3 = w[3] * det3_val(sub3_val(w, 3));
    &&& det3_fits(sub3_val(w, 0))
    &&& det3_fits(sub3_val(w, 1))
    &&& det3_fits(sub3_val(w, 2))
    &&& det3_fits(sub3_val(w, 3))
    &&& in_i128(t0)
    &&& in_i128(t1)
    &&& in_i128(t2)
    &&& in_i128(t3)
    &&& in_i128(t0 - t1)
    &&& in_i128(t0 - t1 + t2)
    &&& in_i128(t0 - t1 + t2 - t3)
}

/// Determinant of a 4x4 block given row-major, checked; `None` exactly when
/// an intermediate leaves the `i128` range.
fn det4(w: &Vec<i128>) -> (r: Option<i128>)
    requires
        w@.len() == 16,
    ensures
        r is Some <==> det4_fits(ints(w@)),
        r is Some ==> r->Some_0 as int == det4_val(ints(w@)),
{
    let s0 = sub3(w, 0);
    let s1 = sub3(w, 1);
    let s2 = sub3(w, 2);
    let s3 = sub3(w, 3);
    let t0 = w[0].checked_mul(det3(&s0)?)?;
    let t1 = w[1].checked_mul(det3(&s1)?)?;
    let t2 = w[2].checked_mul(det3(&s2)?)?;
    let t3 = w[3].checked_mul(det3(&s3)?)?;
    t0.checked_sub(t1)?.checked_add(t2)?.checked_sub(t3)
}

/// The row-major 4x4 block of the 25 row-major cells, without row `sr` and
/// without column `sc`.
pub open spec fn sub4_val(v: Seq<int>, sr: int, sc: int) -> Seq<int> {
    Seq::new(16, |t: int| v[skip_idx(t / 4, sr) * 5 + skip_idx(t % 4, sc)])
}

/// The 4x4 block of the 25 row-major cells without row `sr` and column `sc`.
fn sub4(v: &Vec<i128>, sr: usize, sc: usize) -> (r: Vec<i128>)
    requires
        v@.len() == 25,
        sr < 5,
        sc < 5,
    ensures
        r@.len() == 16,
        ints(r@) == sub4_val(ints(v@), sr as int, sc as int),
{
    let mut out: Vec<i128> = Vec::new();
    let mut row: usize = 0;
    let mut rows_taken: usize = 0;
    while row < 5
        invariant
            row <= 5,
            v@.len() == 25,
            sr < 5,
            sc < 5,
            rows_taken == (if row <= sr { row as int } else { row - 1 }),
            out@.len() == rows_taken * 4,
            forall|t: int|
                0 <= t < out@.len() ==> ints(out@)[t] == sub4_val(ints(v@), sr as int, sc as int)[t],
        decreases 5 - row,
    {
        if row != sr {
            let mut col: usize = 0;
            let mut taken: usize = 0;
            while col < 5
                invariant
                    col <= 5,
                    row < 5,
                    row != sr,
                    v@.len() == 25,
                    sr < 5,
                    sc < 5,
                    taken <= 4,
                    rows_taken == (if row <= sr { row as int } else { row - 1 }),
                    taken == (if col <= sc { col as int } else { col - 1 }),
                    out@.len() == rows_taken * 4 + taken,
                    forall|t: int|
                        0 <= t < out@.len() ==> ints(out@)[t] == sub4_val(
                            ints(v@),
                            sr as int,
                            sc as int,
                        )[t],
                decreases 5 - col,
            {
                if col != sc {
                    let ghost pos = out@.len() as int;
                    let ghost pre = out@;
                    out.push(v[row * 5 + col]);
                    proof {
                        lemma_fundamental_div_mod_converse(pos, 4, rows_taken as int, taken as int);
                        assert(skip_idx(rows_taken as int, sr as int) == row as int);
                        assert(skip_idx(taken as int, sc as int) == col as int);
                        assert forall|t: int| 0 <= t < out@.len() implies ints(out@)[t] == sub4_val(
                            ints(v@),
                            sr as int,
                            sc as int,
                        )[t] by {
                            if t < pos {
                                assert(ints(out@)[t] == ints(pre)[t]);
                            } else {
                                assert(ints(out@)[t] == ints(v@)[row as int * 5 + col as int]);
                            }
                        }
                    }
                    taken = taken + 1;
                }
                col = col + 1;
            }
            rows_taken = rows_taken + 1;
        }
        row = row + 1;
    }
    proof {
        assert(ints(out@) =~= sub4_val(ints(v@), sr as int, sc as int));
    }
    out
}

/// Determinant of the 25 row-major cells: the cofactor expansion along the
/// first row, grouped exactly as `det5` computes it.
pub open spec fn det5_val(v: Seq<int>) -> int {
    v[0] * det4_val(sub4_val(v, 0, 0)) - v[1] * det4_val(sub4_val(v, 0, 1)) + v[2] * det4_val(
        sub4_val(v, 0, 2),
    ) - v[3] * det4_val(sub4_val(v, 0, 3)) + v[4] * det4_val(sub4_val(v, 0, 4))
}

/// Every intermediate of the 5x5 determinant, in evaluation order, fits in
/// an `i128`.
pub open spec fn det5_fits(v: Seq<int>) -> bool {
    let t0 = v[0] * det4_val(sub4_val(v, 0, 0));
    let t1 = v[1] * det4_val(sub4_val(v, 0, 1));
    let t2 = v[2] * det4_val(sub4_val(v, 0, 2));
    let t3 = v[3] * det4_val(sub4_val(v, 0, 3));
    let t4 = v[4] * det4_val(sub4_val(v, 0, 4));
    &&& det4_fits(sub4_val(v, 0, 0))
    &&& det4_fits(sub4_val(v, 0, 1))
    &&& det4_fits(sub4_val(v, 0, 2))
    &&& det4_fits(sub4_val(v, 0, 3))
    &&& det4_fits(sub4_val(v, 0, 4))
    &&& in_i128(t0)
    &&& in_i128(t1)
    &&& in_i128(t2)
    &&& in_i128(t3)
    &&& in_i128(t4)
    &&& in_i128(t0 - t1)
    &&& in_i128(t0 - t1 + t2)
    &&& in_i128(t0 - t1 + t2 - t3)
    &&& in_i128(t0 - t1 + t2 - t3 + t4)
}

/// Determinant of the 25 row-major cells, checked; `None` exactly when an
/// intermediate leaves the `i128` range.
fn det5(v: &Vec<i128>) -> (r: Option<i128>)
    requires
        v@.len() == 25,
    ensures
        r is Some <==> det5_fits(ints(v@)),
        r is Some ==> r->Some_0 as int == det5_val(ints(v@)),
{
    let s0 = sub4(v, 0, 0);
    let s1 = sub4(v, 0, 1);
    let s2 = sub4(v, 0, 2);
    let s3 = sub4(v, 0, 3);
    let s4 = sub4(v, 0, 4);
    let t0 = v[0].checked_mul(det4(&s0)?)?;
    let t1 = v[1].checked_mul(det4(&s1)?)?;
    let t2 = v[2].checked_mul(det4(&s2)?)?;
    let t3 = v[3].checked_mul(det4(&s3)?)?;
    let t4 = v[4].checked_mul(det4(&s4)?)?;
    t0.checked_sub(t1)?.checked_add(t2)?.checked_sub(t3)?.checked_add(t4)
}

/// The signed, scaled cofactor that lands in cell `k` of the adjugate
/// candidate: the minor of the transposed position with the checkerboard
/// sign, times the source denominator.
pub open spec fn adj_cell(m: MatS, k: int) -> int {
    let i = k / 5;
    let j = k % 5;
    let mi = det4_val(sub4_val(m.n, j, i));
    (if (i + j) % 2 == 0 {
        mi
    } else {
        -mi
    }) * m.d
}

/// Every intermediate of the candidate cell `k`, in evaluation order, fits
/// in an `i128`.
pub open spec fn adj_cell_fits(m: MatS, k: int) -> bool {
    let i = k / 5;
    let j = k % 5;
    let mi = det4_val(sub4_val(m.n, j, i));
    &&& det4_fits(sub4_val(m.n, j, i))
    &&& ((i + j) % 2 != 0 ==> in_i128(-mi))
    &&& in_i128(
        (if (i + j) % 2 == 0 {
            mi
        } else {
            -mi
        }) * m.d,
    )
}

/// The adjugate-based inverse candidate, its denominator sign-normalised to
/// the absolute determinant.
pub open spec fn inverse_cand(m: MatS) -> MatS {
    if det5_val(m.n) > 0 {
        MatS { n: Seq::new(25, |k: int| adj_cell(m, k)), d: det5_val(m.n) }
    } else {
        MatS { n: Seq::new(25, |k: int| -adj_cell(m, k)), d: -det5_val(m.n) }
    }
}

/// Exactly when `inverse` answers: the determinant computation fits and the
/// determinant is nonzero; every candidate cell fits, sign normalisation
/// included; and the two certifying products fit and denote the identity.
pub open spec fn inverse_works(m: MatS) -> bool {
    &&& det5_fits(m.n)
    &&& det5_val(m.n) != 0
    &&& forall|k: int| 0 <= k < 25 ==> #[trigger] adj_cell_fits(m, k)
    &&& (det5_val(m.n) < 0 ==> (forall|k: int| 0 <= k < 25 ==> in_i128(-adj_cell(m, k))) && in_i128(
        -det5_val(m.n),
    ))
    &&& mul_fits(m, inverse_cand(m))
    &&& m_equiv(m_mul(m, inverse_cand(m)), m_ident())
    &&& mul_fits(inverse_cand(m), m)
    &&& m_equiv(m_mul(inverse_cand(m), m), m_ident())
}

/// The exact inverse of a matrix, or `None` exactly when the matrix is
/// singular or an intermediate does not fit in `i128` ([`inverse_works`]).
/// The candidate is built from the integer adjugate and then certified: a
/// `Some` answer has been multiplied against the input on both sides and
/// found to denote the identity.
pub fn inverse(m: &Matrix5) -> (r: Option<Matrix5>)
    requires
        m_wf(m@),
    ensures
        r is Some <==> inverse_works(m@),
        r is Some ==> {
            let inv = r->Some_0@;
            &&& m_wf(inv)
            &&& inv == inverse_cand(m@)
            &&& m_equiv(m_mul(m@, inv), m_ident())
            &&& m_equiv(m_mul(inv, m@), m_ident())
        },
{
    let det = match det5(&m.nums) {
        Some(d) => d,
        None => {
            return None;
        },
    };
    if det == 0 {
        return None;
    }
    let mut nums: Vec<i128> = Vec::new();
    let mut idx: usize = 0;
    while idx < 25
        invariant
            idx <= 25,
            m_wf(m@),
            det as int == det5_val(m@.n),
            nums@.len() == idx,
            forall|t: int| 0 <= t < idx ==> ints(nums@)[t] == adj_cell(m@, t),
            forall|t: int| 0 <= t < idx ==> #[trigger] adj_cell_fits(m@, t),
        decreases 25 - idx,
    {
        let i = idx / 5;
        let j = idx % 5;
        let minor = sub4(&m.nums, j, i);
        let mi = match det4(&minor) {
            Some(d) => d,
            None => {
                proof {
                    assert(!adj_cell_fits(m@, idx as int));
                }
                return None;
            },
        };
        let signed = if (i + j) % 2 == 0 {
            mi
        } else {
            match 0i128.checked_sub(mi) {
                Some(s) => s,
                None => {
                    proof {
                        assert(!adj_cell_fits(m@, idx as int));
                    }
                    return None;
                },
            }
        };
        let scaled = match signed.checked_mul(m.den) {
            Some(s) => s,
            None => {
                proof {
                    assert(!adj_cell_fits(m@, idx as int));
                }
                return None;
            },
        };
        let ghost pre = nums@;
        nums.push(scaled);
        proof {
            assert forall|t: int| 0 <= t < idx + 1 implies ints(nums@)[t] == adj_cell(m@, t) by {
                if t < idx {
                    assert(ints(nums@)[t] == ints(pre)[t]);
                } else {
                    assert(ints(nums@)[t] == scaled as int);
                }
            }
        }
        idx = idx + 1;
    }
    let den = if det > 0 {
        det
    } else {
        let mut flipped: Vec<i128> = Vec::new();
        let mut k: usize = 0;
        while k < 25
            invariant
                k <= 25,
                det as int == det5_val(m@.n),
                det < 0,
                nums@.len() == 25,
                forall|t: int| 0 <= t < 25 ==> ints(nums@)[t] == adj_cell(m@, t),
                flipped@.len() == k,
                forall|t: int| 0 <= t < k ==> ints(flipped@)[t] == -adj_cell(m@, t),
            decreases 25 - k,
        {
            let cell = match 0i128.checked_sub(nums[k]) {
                Some(c) => c,
                None => {
                    proof {
                        assert(!in_i128(-adj_cell(m@, k as int)));
                    }
                    return None;
                },
            };
            let ghost pre = flipped@;
            flipped.push(cell);
            proof {
                assert forall|t: int| 0 <= t < k + 1 implies ints(flipped@)[t] == -adj_cell(
                    m@,
                    t,
                ) by {
                    if t < k {
                        assert(ints(flipped@)[t] == ints(pre)[t]);
                    } else {
                        assert(ints(flipped@)[t] == cell as int);
                    }
                }
            }
            k = k + 1;
        }
        nums = flipped;
        match 0i128.checked_sub(det) {
            Some(d) => d,
            None => {
                return None;
            },
        }
    };
    let cand = Matrix5 { nums, den };
    proof {
        assert(cand@.n =~= inverse_cand(m@).n);
        assert(cand@ == inverse_cand(m@));
        if det5_val(m@.n) < 0 {
            assert forall|t: int| 0 <= t < 25 implies in_i128(-adj_cell(m@, t)) by {
                assert(cand@.n[t] == -adj_cell(m@, t));
                assert(cand@.n[t] == cand.nums@[t] as int);
            }
            assert(in_i128(-det5_val(m@.n)));
        }
    }
    let p1 = match mat_mul(m, &cand) {
        Some(p) => p,
        None => {
            return None;
        },
    };
    if !p1.is_identity() {
        return None;
    }
    let p2 = match mat_mul(&cand, m) {
        Some(p) => p,
        None => {
            return None;
        },
    };
    if !p2.is_identity() {
        return None;
    }
    Some(cand)
}

/// The analytic pose inverse is a two-sided inverse: for any position,
/// scale and orientation, the reciprocal scale times the reversed rotation
/// of the opposite angles times the opposite translation, multiplied with
/// the pose in either order, denotes the identity.
pub proof fn lemma_pose_inverse(
    pos: Vector4,
    size: Vector4,
    rotation: Rotation6,
    pn: Vector4,
    sr: Vector4,
    rn: Rotation6,
)
    requires
        v4_wf(pos),
        v4_wf(size),
        rot6_wf(rotation),
        v4_wf(pn),
        v4_wf(sr),
        v4_neg_of(pn, pos),
        v4_neg_of(pos, pn),
        v4_recip_of(sr, size),
        v4_recip_of(size, sr),
        rot6_neg_of(rn, rotation),
    ensures
        m_equiv(
            m_mul(
                m_mul(scale_mat(sr), m_mul(rot_full_inv_mat(rn), shift_mat(pn))),
                full_transform_mat(pos, size, rotation),
            ),
            m_ident(),
        ),
        m_equiv(
            m_mul(
                full_transform_mat(pos, size, rotation),
                m_mul(scale_mat(sr), m_mul(rot_full_inv_mat(rn), shift_mat(pn))),
            ),
            m_ident(),
        ),
{
    let t = shift_mat(pos);
    let rot = rot_full_mat(rotation);
    let s = scale_mat(size);
    let tn = shift_mat(pn);
    let sn = scale_mat(sr);
    let rinv = rot_full_inv_mat(rn);
    let v = m_mul(sn, m_mul(rinv, tn));
    lemma_shift_mat_wf(pos);
    lemma_shift_mat_wf(pn);
    lemma_scale_mat_wf(size);
    lemma_scale_mat_wf(sr);
    lemma_rot_full_wf(rotation);
    lemma_compose_inverse_is_transpose(rotation, rn);
    assert(rinv == m_transpose(rot));
    lemma_transpose_wf(rot);
    lemma_compose_forward_orthogonal(rotation);
    lemma_shift_cancel(pn, pos);
    lemma_shift_cancel(pos, pn);
    lemma_scale_cancel(sr, size);
    lemma_scale_cancel(size, sr);
    lemma_mul_wf(sn, rinv);
    lemma_mul_wf(rot, s);
    lemma_mul_wf(rinv, tn);
    lemma_mul_wf(t, rot);
    // v == (sn rinv) tn, pose == t (rot s)
    lemma_mul_assoc(sn, rinv, tn);
    // ((sn rinv) tn) (t (rot s)) ~ (sn rinv) (rot s), since tn t ~ I
    lemma_cancel_middle(m_mul(sn, rinv), tn, t, m_mul(rot, s));
    // (sn rinv) (rot s) ~ sn s, since rinv rot ~ I
    lemma_cancel_middle(sn, rinv, rot, s);
    lemma_equiv_trans(
        m_mul(m_mul(m_mul(sn, rinv), tn), m_mul(t, m_mul(rot, s))),
        m_mul(m_mul(sn, rinv), m_mul(rot, s)),
        m_mul(sn, s),
    );
    lemma_equiv_trans(
        m_mul(m_mul(m_mul(sn, rinv), tn), m_mul(t, m_mul(rot, s))),
        m_mul(sn, s),
        m_ident(),
    );
    // pose v: (t (rot s)) (sn (rinv tn)) == ((t rot) s) (sn (rinv tn))
    lemma_mul_assoc(t, rot, s);
    // ((t rot) s) (sn (rinv tn)) ~ (t rot) (rinv tn), since s sn ~ I
    lemma_cancel_middle(m_mul(t, rot), s, sn, m_mul(rinv, tn));
    // (t rot) (rinv tn) ~ t tn, since rot rinv ~ I
    lemma_cancel_middle(t, rot, rinv, tn);
    lemma_equiv_trans(
        m_mul(m_mul(m_mul(t, rot), s), m_mul(sn, m_mul(rinv, tn))),
        m_mul(m_mul(t, rot), m_mul(rinv, tn)),
        m_mul(t, tn),
    );
    lemma_equiv_trans(
        m_mul(m_mul(m_mul(t, rot), s), m_mul(sn, m_mul(rinv, tn))),
        m_mul(t, tn),
        m_ident(),
    );
}

/// Every step of the analytic pose inversion can be carried out: every
/// position numerator can be negated, every scale component is nonzero with
/// its sign flip in range, and the derived translation, scaling and rotation
/// matrices and their two products fit in 128-bit integers.
pub open spec fn pose_inverse_fits(pos: Vector4, size: Vector4, rotation: Rotation6) -> bool {
    let pn = v4_neg_val(pos);
    let sr = v4_recip_val(size);
    let rn = rot6_neg_val(rotation);
    &&& pos.x.num > i128::MIN
    &&& pos.y.num > i128::MIN
    &&& pos.z.num > i128::MIN
    &&& pos.w.num > i128::MIN
    &&& size.x.num != 0 && (size.x.num < 0 ==> size.x.num > i128::MIN)
    &&& size.y.num != 0 && (size.y.num < 0 ==> size.y.num > i128::MIN)
    &&& size.z.num != 0 && (size.z.num < 0 ==> size.z.num > i128::MIN)
    &&& size.w.num != 0 && (size.w.num < 0 ==> size.w.num > i128::MIN)
    &&& v4_mat_fits(pn)
    &&& v4_mat_fits(sr)
    &&& rot_full_inv_fits(rn)
    &&& mul_fits(rot_full_inv_mat(rn), shift_mat(pn))
    &&& mul_fits(scale_mat(sr), m_mul(rot_full_inv_mat(rn), shift_mat(pn)))
}

/// The analytic inverse of the pose `shift(pos) * rotation(rotation) *
/// scale(size)`: reciprocal scale, then the transposed rotation, then the
/// opposite translation.  It is proved, for every position, nonzero scale
/// and orientation, that a `Some` answer times the pose - in both orders -
/// denotes the identity; `None` comes exactly when a scale component is zero
/// or an intermediate does not fit in `i128` ([`pose_inverse_fits`]).
#[verifier::spinoff_prover]
pub fn pose_inverse(pos: &Vector4, size: &Vector4, rotation: &Rotation6) -> (r: Option<Matrix5>)
    requires
        v4_wf(*pos),
        v4_wf(*size),
        rot6_wf(*rotation),
    ensures
        r is Some <==> pose_inverse_fits(*pos, *size, *rotation),
        r is Some ==> {
            let inv = r->Some_0@;
            &&& m_wf(inv)
            &&& inv == m_mul(
                scale_mat(v4_recip_val(*size)),
                m_mul(
                    rot_full_inv_mat(rot6_neg_val(*rotation)),
                    shift_mat(v4_neg_val(*pos)),
                ),
            )
            &&& m_equiv(m_mul(inv, full_transform_mat(*pos, *size, *rotation)), m_ident())
            &&& m_equiv(m_mul(full_transform_mat(*pos, *size, *rotation), inv), m_ident())
        },
{
    let pn = pos.neg()?;
    proof {
        assert(pn == v4_neg_val(*pos));
    }
    let sr = size.recip()?;
    proof {
        assert(sr == v4_recip_val(*size));
    }
    let rn = rotation.neg();
    proof {
        assert(rn == rot6_neg_val(*rotation));
    }
    let tm = shift(&pn)?;
    let sm = scale(&sr)?;
    let rm = rotation_full_inv(&rn)?;
    let rt = mat_mul(&rm, &tm)?;
    let res = mat_mul(&sm, &rt)?;
    proof {
        assert(v4_recip_of(*size, sr)) by {
            assert(size.x.num * sr.x.num == size.x.den * sr.x.den) by (nonlinear_arith)
                requires sr.x.num * size.x.num == sr.x.den * size.x.den;
            assert(size.y.num * sr.y.num == size.y.den * sr.y.den) by (nonlinear_arith)
                requires sr.y.num * size.y.num == sr.y.den * size.y.den;
            assert(size.z.num * sr.z.num == size.z.den * sr.z.den) by (nonlinear_arith)
                requires sr.z.num * size.z.num == sr.z.den * size.z.den;
            assert(size.w.num * sr.w.num == size.w.den * sr.w.den) by (nonlinear_arith)
                requires sr.w.num * size.w.num == sr.w.den * size.w.den;
        }
        lemma_pose_inverse(*pos, *size, *rotation, pn, sr, rn);
    }
    Some(res)
}

} // verus!
