//! The algebraic laws of the transform constructors.
//!
//! Everything here is proved once and for all angles, positions and scales:
//! a composed 4D rotation is orthogonal; the analytically reversed
//! composition of the opposite angles is exactly the transpose; a zero-angle
//! plane rotation is the identity; a translation cancels against the
//! translation by the opposite offset; a scaling cancels against the
//! scaling by the reciprocals; and a two-sided inverse of a pose is unique
//! up to value, so inverting twice gives the pose back.

use vstd::prelude::*;

use crate::algebra::{
    lemma_cancel_middle, lemma_diag_pos, lemma_equiv_refl, lemma_equiv_sym, lemma_equiv_trans,
    lemma_idx, lemma_mul_assoc, lemma_mul_compat, lemma_mul_entry, lemma_mul_equiv_ident_left,
    lemma_mul_ident_right, lemma_mul_regroup4, lemma_mul_swap_left, lemma_mul_wf, lemma_pos,
    lemma_transpose_mul,
};
use vstd::arithmetic::mul::{lemma_mul_is_associative, lemma_mul_is_commutative};
use crate::matrix::{dot5, m_equiv, m_ident, m_mul, m_transpose, m_wf, MatS};
use crate::rational::Rat;
use crate::transform4d::{
    rot6_neg_of, rot6_wf, rot_full_inv_mat, rot_full_mat, rot_mat, rot_val, rotor_neg_of, rotor_wf,
    scale_mat, shift_mat, v4_den, v4_scale_xyw, v4_scale_xyz, v4_scale_xzw, v4_scale_yzw, v4_wf,
    Rotation6, Rotor, Vector4,
};

verus! {

/// A transpose of a well-formed matrix is well-formed.
pub proof fn lemma_transpose_wf(a: MatS)
    requires
        m_wf(a),
    ensures
        m_wf(m_transpose(a)),
{
}

/// The transpose of a plane rotation is the plane rotation by the opposite
/// angle (exactly).
pub proof fn lemma_rot_transpose(r: Rotor, rn: Rotor, a: int, b: int)
    requires
        rotor_neg_of(rn, r),
        0 <= a < 4,
        0 <= b < 4,
        a != b,
    ensures
        m_transpose(rot_mat(r, a, b)) == rot_mat(rn, a, b),
{
    let lhs = m_transpose(rot_mat(r, a, b));
    let rhs = rot_mat(rn, a, b);
    assert forall|k: int| 0 <= k < 25 implies lhs.n[k] == rhs.n[k] by {
        lemma_pos(k);
        let p = k / 5;
        let q = k % 5;
        lemma_idx(q, p);
        assert(lhs.n[k] == rot_mat(r, a, b).n[q * 5 + p]);
        assert(rot_mat(r, a, b).n[q * 5 + p] == rot_val(r, a, b, q, p));
        assert(rhs.n[k] == rot_val(rn, a, b, p, q));
    }
    assert(lhs.n =~= rhs.n);
    assert(lhs =~= rhs);
}

/// A plane rotation times the plane rotation by the opposite angle is the
/// identity, up to value.
pub proof fn lemma_rot_cancel(r: Rotor, rn: Rotor, a: int, b: int)
    requires
        rotor_wf(r),
        rotor_neg_of(rn, r),
        0 <= a < 4,
        0 <= b < 4,
        a != b,
    ensures
        m_equiv(m_mul(rot_mat(r, a, b), rot_mat(rn, a, b)), m_ident()),
{
    let x = rot_mat(r, a, b);
    let y = rot_mat(rn, a, b);
    let m = m_mul(x, y);
    let c = r.c as int;
    let s = r.s as int;
    let d = r.d as int;
    assert(rotor_wf(rn)) by {
        assert((-s) * (-s) == s * s) by (nonlinear_arith);
    }
    lemma_mul_wf(x, y);
    assert forall|k: int| 0 <= k < 25 implies m.n[k] * m_ident().d == m_ident().n[k] * m.d by {
        lemma_pos(k);
        let p = k / 5;
        let q = k % 5;
        lemma_mul_entry(x, y, p, q);
        lemma_diag_pos(p, q);
        lemma_idx(p, 0);
        lemma_idx(p, 1);
        lemma_idx(p, 2);
        lemma_idx(p, 3);
        lemma_idx(p, 4);
        lemma_idx(0, q);
        lemma_idx(1, q);
        lemma_idx(2, q);
        lemma_idx(3, q);
        lemma_idx(4, q);
        assert((-s) * (-s) == s * s) by (nonlinear_arith);
        assert(c * (-s) == -(c * s)) by (nonlinear_arith);
        assert((-s) * c == -(s * c)) by (nonlinear_arith);
        assert(s * c == c * s) by (nonlinear_arith);
        assert(s * s + c * c == d * d);
        assert(m.n[k] == dot5(x.n, y.n, p, q));
        assert(dot5(x.n, y.n, p, q) == (if p == q { d * d } else { 0int }));
    }
}

/// Matrices whose product with their own transpose is the identity are
/// closed under multiplication.
pub proof fn lemma_orthogonal_mul(x: MatS, y: MatS)
    requires
        m_wf(x),
        m_wf(y),
        m_equiv(m_mul(x, m_transpose(x)), m_ident()),
        m_equiv(m_mul(m_transpose(x), x), m_ident()),
        m_equiv(m_mul(y, m_transpose(y)), m_ident()),
        m_equiv(m_mul(m_transpose(y), y), m_ident()),
    ensures
        m_equiv(m_mul(m_mul(x, y), m_transpose(m_mul(x, y))), m_ident()),
        m_equiv(m_mul(m_transpose(m_mul(x, y)), m_mul(x, y)), m_ident()),
    decreases 0int,
{
    lemma_transpose_wf(x);
    lemma_transpose_wf(y);
    lemma_mul_wf(x, y);
    lemma_transpose_mul(x, y);
    // (x y)(x y)^T == (x y)(y^T x^T) ~ x x^T ~ I
    lemma_cancel_middle(x, y, m_transpose(y), m_transpose(x));
    lemma_equiv_trans(
        m_mul(m_mul(x, y), m_mul(m_transpose(y), m_transpose(x))),
        m_mul(x, m_transpose(x)),
        m_ident(),
    );
    // (x y)^T (x y) == (y^T x^T)(x y) ~ y^T y ~ I
    lemma_cancel_middle(m_transpose(y), m_transpose(x), x, y);
    lemma_equiv_trans(
        m_mul(m_mul(m_transpose(y), m_transpose(x)), m_mul(x, y)),
        m_mul(m_transpose(y), y),
        m_ident(),
    );
}

/// A single plane rotation is orthogonal: its product with its transpose,
/// in both orders, is the identity up to value.
pub proof fn lemma_rot_orthogonal(r: Rotor, a: int, b: int)
    requires
        rotor_wf(r),
        0 <= a < 4,
        0 <= b < 4,
        a != b,
    ensures
        m_equiv(m_mul(rot_mat(r, a, b), m_transpose(rot_mat(r, a, b))), m_ident()),
        m_equiv(m_mul(m_transpose(rot_mat(r, a, b)), rot_mat(r, a, b)), m_ident()),
{
    let rn = Rotor { c: r.c, s: (-(r.s as int)) as i128, d: r.d };
    crate::transform4d::lemma_rotor_component_in_range(r);
    assert(rotor_neg_of(rn, r));
    lemma_rot_transpose(r, rn, a, b);
    lemma_rot_cancel(r, rn, a, b);
    assert(rotor_wf(rn)) by {
        assert((-(r.s as int)) * (-(r.s as int)) == r.s * r.s) by (nonlinear_arith);
    }
    assert(rotor_neg_of(r, rn));
    lemma_rot_transpose(rn, r, a, b);
    lemma_rot_cancel(rn, r, a, b);
    assert(m_transpose(rot_mat(rn, a, b)) == rot_mat(r, a, b));
    assert(m_mul(m_transpose(rot_mat(r, a, b)), rot_mat(r, a, b)) == m_mul(
        rot_mat(rn, a, b),
        rot_mat(r, a, b),
    ));
}

/// The composed 4D rotation of any six angles is orthogonal: multiplying it
/// by its transpose, in either order, gives the identity up to value.
pub proof fn lemma_compose_forward_orthogonal(rs: Rotation6)
    requires
        rot6_wf(rs),
    ensures
        m_equiv(m_mul(rot_full_mat(rs), m_transpose(rot_full_mat(rs))), m_ident()),
        m_equiv(m_mul(m_transpose(rot_full_mat(rs)), rot_full_mat(rs)), m_ident()),
{
    let rxy = rot_mat(rs.xy, 0, 1);
    let rxz = rot_mat(rs.xz, 0, 2);
    let rxw = rot_mat(rs.xw, 0, 3);
    let ryz = rot_mat(rs.yz, 1, 2);
    let ryw = rot_mat(rs.yw, 1, 3);
    let rzw = rot_mat(rs.zw, 2, 3);
    lemma_rot_orthogonal(rs.xy, 0, 1);
    lemma_rot_orthogonal(rs.xz, 0, 2);
    lemma_rot_orthogonal(rs.xw, 0, 3);
    lemma_rot_orthogonal(rs.yz, 1, 2);
    lemma_rot_orthogonal(rs.yw, 1, 3);
    lemma_rot_orthogonal(rs.zw, 2, 3);
    lemma_orthogonal_mul(rxz, rxy);
    lemma_mul_wf(rxz, rxy);
    lemma_orthogonal_mul(rxw, m_mul(rxz, rxy));
    lemma_mul_wf(rxw, m_mul(rxz, rxy));
    lemma_orthogonal_mul(ryz, m_mul(rxw, m_mul(rxz, rxy)));
    lemma_mul_wf(ryz, m_mul(rxw, m_mul(rxz, rxy)));
    lemma_orthogonal_mul(ryw, m_mul(ryz, m_mul(rxw, m_mul(rxz, rxy))));
    lemma_mul_wf(ryw, m_mul(ryz, m_mul(rxw, m_mul(rxz, rxy))));
    lemma_orthogonal_mul(rzw, m_mul(ryw, m_mul(ryz, m_mul(rxw, m_mul(rxz, rxy)))));
}

/// The reversed composition of the opposite angles is exactly the transpose
/// of the forward composition.
pub proof fn lemma_compose_inverse_is_transpose(rs: Rotation6, rsn: Rotation6)
    requires
        rot6_wf(rs),
        rot6_neg_of(rsn, rs),
    ensures
        rot_full_inv_mat(rsn) == m_transpose(rot_full_mat(rs)),
{
    let rxy = rot_mat(rs.xy, 0, 1);
    let rxz = rot_mat(rs.xz, 0, 2);
    let rxw = rot_mat(rs.xw, 0, 3);
    let ryz = rot_mat(rs.yz, 1, 2);
    let ryw = rot_mat(rs.yw, 1, 3);
    let rzw = rot_mat(rs.zw, 2, 3);
    let nxy = rot_mat(rsn.xy, 0, 1);
    let nxz = rot_mat(rsn.xz, 0, 2);
    let nxw = rot_mat(rsn.xw, 0, 3);
    let nyz = rot_mat(rsn.yz, 1, 2);
    let nyw = rot_mat(rsn.yw, 1, 3);
    let nzw = rot_mat(rsn.zw, 2, 3);
    lemma_rot_transpose(rs.xy, rsn.xy, 0, 1);
    lemma_rot_transpose(rs.xz, rsn.xz, 0, 2);
    lemma_rot_transpose(rs.xw, rsn.xw, 0, 3);
    lemma_rot_transpose(rs.yz, rsn.yz, 1, 2);
    lemma_rot_transpose(rs.yw, rsn.yw, 1, 3);
    lemma_rot_transpose(rs.zw, rsn.zw, 2, 3);
    let t1 = m_mul(rxz, rxy);
    let t2 = m_mul(rxw, t1);
    let t3 = m_mul(ryz, t2);
    let t4 = m_mul(ryw, t3);
    lemma_mul_wf(rxz, rxy);
    lemma_mul_wf(rxw, t1);
    lemma_mul_wf(ryz, t2);
    lemma_mul_wf(ryw, t3);
    lemma_transpose_mul(rzw, t4);
    lemma_transpose_mul(ryw, t3);
    lemma_transpose_mul(ryz, t2);
    lemma_transpose_mul(rxw, t1);
    lemma_transpose_mul(rxz, rxy);
    // M^T == ((((xy^T xz^T) xw^T) yz^T) yw^T) zw^T, with each factor the
    // rotation by the opposite angle; reassociate to the right-nested form.
    lemma_transpose_wf(rxy);
    lemma_transpose_wf(rxz);
    lemma_transpose_wf(rxw);
    lemma_transpose_wf(ryz);
    lemma_transpose_wf(ryw);
    lemma_transpose_wf(rzw);
    let u1 = m_mul(nyw, nzw);
    let u2 = m_mul(nyz, u1);
    let u3 = m_mul(nxw, u2);
    let u4 = m_mul(nxz, u3);
    lemma_mul_wf(nyw, nzw);
    lemma_mul_wf(nyz, u1);
    lemma_mul_wf(nxw, u2);
    lemma_mul_wf(nxz, u3);
    lemma_mul_wf(nxy, u4);
    lemma_mul_wf(nxy, nxz);
    lemma_mul_wf(m_mul(nxy, nxz), nxw);
    lemma_mul_wf(m_mul(m_mul(nxy, nxz), nxw), nyz);
    lemma_mul_wf(m_mul(m_mul(m_mul(nxy, nxz), nxw), nyz), nyw);
    lemma_mul_assoc(m_mul(m_mul(m_mul(nxy, nxz), nxw), nyz), nyw, nzw);
    lemma_mul_assoc(m_mul(m_mul(nxy, nxz), nxw), nyz, u1);
    lemma_mul_assoc(m_mul(nxy, nxz), nxw, u2);
    lemma_mul_assoc(nxy, nxz, u3);
}

/// When every sine is zero the reversed composition is itself the transpose
/// of the forward composition: negating the angles changes nothing.
pub proof fn lemma_compose_inverse_transpose_zero_sine(rs: Rotation6)
    requires
        rot6_wf(rs),
        rs.xy.s == 0,
        rs.xz.s == 0,
        rs.xw.s == 0,
        rs.yz.s == 0,
        rs.yw.s == 0,
        rs.zw.s == 0,
    ensures
        rot_full_inv_mat(rs) == m_transpose(rot_full_mat(rs)),
{
    assert(rot6_neg_of(rs, rs));
    lemma_compose_inverse_is_transpose(rs, rs);
}

/// The translation matrix of a well-formed vector is well-formed.
pub proof fn lemma_shift_mat_wf(v: Vector4)
    requires
        v4_wf(v),
    ensures
        m_wf(shift_mat(v)),
{
    assert(v4_den(v) > 0) by (nonlinear_arith)
        requires
            v.x.den > 0 && v.y.den > 0 && v.z.den > 0 && v.w.den > 0 && v4_den(v) == v.x.den * ((
            v.y.den * v.z.den) * v.w.den),
    ;
}

/// The scaling matrix of a well-formed vector is well-formed.
pub proof fn lemma_scale_mat_wf(v: Vector4)
    requires
        v4_wf(v),
    ensures
        m_wf(scale_mat(v)),
{
    assert(v4_den(v) > 0) by (nonlinear_arith)
        requires
            v.x.den > 0 && v.y.den > 0 && v.z.den > 0 && v.w.den > 0 && v4_den(v) == v.x.den * ((
            v.y.den * v.z.den) * v.w.den),
    ;
}

/// Both composed rotations of well-formed angles are well-formed.
pub proof fn lemma_rot_full_wf(rs: Rotation6)
    requires
        rot6_wf(rs),
    ensures
        m_wf(rot_full_mat(rs)),
        m_wf(rot_full_inv_mat(rs)),
{
    let rxy = rot_mat(rs.xy, 0, 1);
    let rxz = rot_mat(rs.xz, 0, 2);
    let rxw = rot_mat(rs.xw, 0, 3);
    let ryz = rot_mat(rs.yz, 1, 2);
    let ryw = rot_mat(rs.yw, 1, 3);
    let rzw = rot_mat(rs.zw, 2, 3);
    lemma_mul_wf(rxz, rxy);
    lemma_mul_wf(rxw, m_mul(rxz, rxy));
    lemma_mul_wf(ryz, m_mul(rxw, m_mul(rxz, rxy)));
    lemma_mul_wf(ryw, m_mul(ryz, m_mul(rxw, m_mul(rxz, rxy))));
    lemma_mul_wf(rzw, m_mul(ryw, m_mul(ryz, m_mul(rxw, m_mul(rxz, rxy)))));
    lemma_mul_wf(ryw, rzw);
    lemma_mul_wf(ryz, m_mul(ryw, rzw));
    lemma_mul_wf(rxw, m_mul(ryz, m_mul(ryw, rzw)));
    lemma_mul_wf(rxz, m_mul(rxw, m_mul(ryz, m_mul(ryw, rzw))));
    lemma_mul_wf(rxy, m_mul(rxz, m_mul(rxw, m_mul(ryz, m_mul(ryw, rzw)))));
}

/// `a` denotes the opposite of the rational `b`.
pub open spec fn rat_neg_of(a: Rat, b: Rat) -> bool {
    a.num * b.den == -(b.num as int) * a.den
}

/// `a` denotes, coordinate by coordinate, the opposite of `b`.
pub open spec fn v4_neg_of(a: Vector4, b: Vector4) -> bool {
    rat_neg_of(a.x, b.x) && rat_neg_of(a.y, b.y) && rat_neg_of(a.z, b.z) && rat_neg_of(a.w, b.w)
}

/// `a` denotes the reciprocal of the rational `b`.
pub open spec fn rat_recip_of(a: Rat, b: Rat) -> bool {
    a.num * b.num == a.den * b.den
}

/// `a` denotes, coordinate by coordinate, the reciprocal of `b`.
pub open spec fn v4_recip_of(a: Vector4, b: Vector4) -> bool {
    rat_recip_of(a.x, b.x) && rat_recip_of(a.y, b.y) && rat_recip_of(a.z, b.z) && rat_recip_of(
        a.w,
        b.w,
    )
}

/// Factoring any one coordinate's denominator out of the common
/// denominator of a `shift`/`scale` matrix.
pub proof fn lemma_v4_den_factor(v: Vector4)
    ensures
        v4_den(v) == v.x.den * v4_scale_yzw(v),
        v4_den(v) == v.y.den * v4_scale_xzw(v),
        v4_den(v) == v.z.den * v4_scale_xyw(v),
        v4_den(v) == v.w.den * v4_scale_xyz(v),
{
    let xd = v.x.den as int;
    let yd = v.y.den as int;
    let zd = v.z.den as int;
    let wd = v.w.den as int;
    lemma_mul_is_associative(yd, zd, wd);
    lemma_mul_swap_left(xd, yd, zd * wd);
    lemma_mul_is_associative(xd, zd, wd);
    lemma_mul_is_commutative(yd, zd);
    lemma_mul_is_associative(zd, yd, wd);
    lemma_mul_swap_left(xd, zd, yd * wd);
    lemma_mul_is_associative(xd, yd, wd);
    lemma_mul_is_commutative(yd * zd, wd);
    lemma_mul_swap_left(xd, wd, yd * zd);
    lemma_mul_is_associative(xd, yd, zd);
}

/// One cancelling column entry of a translation product: if `cn / cd` is the
/// opposite of `n / d`, the cross-scaled sum vanishes.
proof fn lemma_shift_col_zero(
    d1: int,
    d2: int,
    c1: int,
    c2: int,
    n: int,
    d: int,
    cn: int,
    cd: int,
    gg: int,
)
    requires
        cn * d == -n * cd,
        d1 * c2 == (d * cn) * gg,
        c1 * d2 == (n * cd) * gg,
    ensures
        d1 * c2 + c1 * d2 == 0,
{
    assert(d * cn == cn * d) by (nonlinear_arith);
    assert((-n * cd) * gg == -((n * cd) * gg)) by (nonlinear_arith);
}

/// Translating by `v` and then by its opposite is the identity, up to value.
pub proof fn lemma_shift_cancel(v: Vector4, vn: Vector4)
    requires
        v4_wf(v),
        v4_wf(vn),
        v4_neg_of(vn, v),
    ensures
        m_equiv(m_mul(shift_mat(v), shift_mat(vn)), m_ident()),
{
    let a = shift_mat(v);
    let b = shift_mat(vn);
    let m = m_mul(a, b);
    let d1 = v4_den(v);
    let d2 = v4_den(vn);
    lemma_v4_den_factor(v);
    lemma_v4_den_factor(vn);
    lemma_shift_mat_wf(v);
    lemma_shift_mat_wf(vn);
    lemma_mul_wf(a, b);
    assert forall|k: int| 0 <= k < 25 implies m.n[k] * m_ident().d == m_ident().n[k] * m.d by {
        lemma_pos(k);
        let i = k / 5;
        let j = k % 5;
        lemma_mul_entry(a, b, i, j);
        lemma_diag_pos(i, j);
        lemma_diag_pos(i, 0);
        lemma_diag_pos(i, 1);
        lemma_diag_pos(i, 2);
        lemma_diag_pos(i, 3);
        lemma_diag_pos(i, 4);
        lemma_diag_pos(0, j);
        lemma_diag_pos(1, j);
        lemma_diag_pos(2, j);
        lemma_diag_pos(3, j);
        lemma_diag_pos(4, j);
        if j == 4 && i < 4 {
            if i == 0 {
                lemma_mul_regroup4(v.x.den as int, v4_scale_yzw(v), vn.x.num as int, v4_scale_yzw(vn));
                lemma_mul_regroup4(v.x.num as int, v4_scale_yzw(v), vn.x.den as int, v4_scale_yzw(vn));
                lemma_shift_col_zero(
                    d1, d2, a.n[4], b.n[4], v.x.num as int, v.x.den as int, vn.x.num as int,
                    vn.x.den as int, (v4_scale_yzw(v)) * (v4_scale_yzw(vn)),
                );
                assert(m.n[k] == a.n[0int] * b.n[4int] + a.n[1int] * b.n[9int] + a.n[2int]
                    * b.n[14int] + a.n[3int] * b.n[19int] + a.n[4int] * b.n[24int]);
                assert(m.n[k] == 0);
            } else if i == 1 {
                lemma_mul_regroup4(v.y.den as int, v4_scale_xzw(v), vn.y.num as int, v4_scale_xzw(vn));
                lemma_mul_regroup4(v.y.num as int, v4_scale_xzw(v), vn.y.den as int, v4_scale_xzw(vn));
                lemma_shift_col_zero(
                    d1, d2, a.n[9], b.n[9], v.y.num as int, v.y.den as int, vn.y.num as int,
                    vn.y.den as int, (v4_scale_xzw(v)) * (v4_scale_xzw(vn)),
                );
                assert(m.n[k] == a.n[5int] * b.n[4int] + a.n[6int] * b.n[9int] + a.n[7int]
                    * b.n[14int] + a.n[8int] * b.n[19int] + a.n[9int] * b.n[24int]);
                assert(m.n[k] == 0);
            } else if i == 2 {
                lemma_mul_regroup4(v.z.den as int, v4_scale_xyw(v), vn.z.num as int, v4_scale_xyw(vn));
                lemma_mul_regroup4(v.z.num as int, v4_scale_xyw(v), vn.z.den as int, v4_scale_xyw(vn));
                lemma_shift_col_zero(
                    d1, d2, a.n[14], b.n[14], v.z.num as int, v.z.den as int, vn.z.num as int,
                    vn.z.den as int, (v4_scale_xyw(v)) * (v4_scale_xyw(vn)),
                );
                assert(m.n[k] == a.n[10int] * b.n[4int] + a.n[11int] * b.n[9int] + a.n[12int]
                    * b.n[14int] + a.n[13int] * b.n[19int] + a.n[14int] * b.n[24int]);
                assert(m.n[k] == 0);
            } else {
                lemma_mul_regroup4(v.w.den as int, v4_scale_xyz(v), vn.w.num as int, v4_scale_xyz(vn));
                lemma_mul_regroup4(v.w.num as int, v4_scale_xyz(v), vn.w.den as int, v4_scale_xyz(vn));
                lemma_shift_col_zero(
                    d1, d2, a.n[19], b.n[19], v.w.num as int, v.w.den as int, vn.w.num as int,
                    vn.w.den as int, (v4_scale_xyz(v)) * (v4_scale_xyz(vn)),
                );
                assert(m.n[k] == a.n[15int] * b.n[4int] + a.n[16int] * b.n[9int] + a.n[17int]
                    * b.n[14int] + a.n[18int] * b.n[19int] + a.n[19int] * b.n[24int]);
                assert(m.n[k] == 0);
            }
            assert(m_ident().n[k] == (if k % 6 == 0 { 1int } else { 0int }));
            assert(m.d == d1 * d2);
        } else {
            assert(m.n[k] == dot5(a.n, b.n, i, j));
            assert(a.n[i * 5 + 0] == (if i == 0 { d1 } else { 0int }));
            assert(a.n[i * 5 + 1] == (if i == 1 { d1 } else { 0int }));
            assert(a.n[i * 5 + 2] == (if i == 2 { d1 } else { 0int }));
            assert(a.n[i * 5 + 3] == (if i == 3 { d1 } else { 0int }));
            assert(b.n[0 * 5 + j] == (if j == 0 { d2 } else if j == 4 { vn.x.num * v4_scale_yzw(vn) } else { 0int }));
            assert(b.n[1 * 5 + j] == (if j == 1 { d2 } else if j == 4 { vn.y.num * v4_scale_xzw(vn) } else { 0int }));
            assert(b.n[2 * 5 + j] == (if j == 2 { d2 } else if j == 4 { vn.z.num * v4_scale_xyw(vn) } else { 0int }));
            assert(b.n[3 * 5 + j] == (if j == 3 { d2 } else if j == 4 { vn.w.num * v4_scale_xyz(vn) } else { 0int }));
            assert(b.n[4 * 5 + j] == (if j == 4 { d2 } else { 0int }));
            assert(dot5(a.n, b.n, i, j) == (if i == j { d1 * d2 } else { 0int }));
            assert(m.d == d1 * d2);
            assert(m_ident().d == 1);
            assert(m_ident().n[k] == (if k % 6 == 0 { 1int } else { 0int }));
            assert(m.n[k] * m_ident().d == m_ident().n[k] * m.d);
        }
    }
}

/// One cancelling diagonal entry of a scaling product: if `rn / rd` is the
/// reciprocal of `n / d`, the scaled diagonal cell matches the denominator.
proof fn lemma_scale_diag_match(
    d1: int,
    d2: int,
    c1: int,
    c2: int,
    n: int,
    d: int,
    rn: int,
    rd: int,
    gg: int,
)
    requires
        rn * n == rd * d,
        c1 * c2 == (n * rn) * gg,
        d1 * d2 == (d * rd) * gg,
    ensures
        c1 * c2 == d1 * d2,
{
    assert(n * rn == rn * n) by (nonlinear_arith);
    assert(d * rd == rd * d) by (nonlinear_arith);
}

/// Scaling by `u` and then by its component-wise reciprocal is the
/// identity, up to value.
pub proof fn lemma_scale_cancel(u: Vector4, ur: Vector4)
    requires
        v4_wf(u),
        v4_wf(ur),
        v4_recip_of(ur, u),
    ensures
        m_equiv(m_mul(scale_mat(u), scale_mat(ur)), m_ident()),
{
    let a = scale_mat(u);
    let b = scale_mat(ur);
    let m = m_mul(a, b);
    let d1 = v4_den(u);
    let d2 = v4_den(ur);
    lemma_v4_den_factor(u);
    lemma_v4_den_factor(ur);
    lemma_scale_mat_wf(u);
    lemma_scale_mat_wf(ur);
    lemma_mul_wf(a, b);
    assert forall|k: int| 0 <= k < 25 implies m.n[k] * m_ident().d == m_ident().n[k] * m.d by {
        lemma_pos(k);
        let i = k / 5;
        let j = k % 5;
        lemma_mul_entry(a, b, i, j);
        lemma_diag_pos(i, j);
        lemma_diag_pos(i, 0);
        lemma_diag_pos(i, 1);
        lemma_diag_pos(i, 2);
        lemma_diag_pos(i, 3);
        lemma_diag_pos(i, 4);
        lemma_diag_pos(0, j);
        lemma_diag_pos(1, j);
        lemma_diag_pos(2, j);
        lemma_diag_pos(3, j);
        lemma_diag_pos(4, j);
        if i == j && i < 4 {
            if i == 0 {
                lemma_mul_regroup4(u.x.num as int, v4_scale_yzw(u), ur.x.num as int, v4_scale_yzw(ur));
                lemma_mul_regroup4(u.x.den as int, v4_scale_yzw(u), ur.x.den as int, v4_scale_yzw(ur));
                lemma_scale_diag_match(
                    d1, d2, a.n[0], b.n[0], u.x.num as int, u.x.den as int, ur.x.num as int,
                    ur.x.den as int, (v4_scale_yzw(u)) * (v4_scale_yzw(ur)),
                );
                assert(m.n[k] == a.n[0int] * b.n[0int] + a.n[1int] * b.n[5int] + a.n[2int]
                    * b.n[10int] + a.n[3int] * b.n[15int] + a.n[4int] * b.n[20int]);
                assert(m.n[k] == d1 * d2);
            } else if i == 1 {
                lemma_mul_regroup4(u.y.num as int, v4_scale_xzw(u), ur.y.num as int, v4_scale_xzw(ur));
                lemma_mul_regroup4(u.y.den as int, v4_scale_xzw(u), ur.y.den as int, v4_scale_xzw(ur));
                lemma_scale_diag_match(
                    d1, d2, a.n[6], b.n[6], u.y.num as int, u.y.den as int, ur.y.num as int,
                    ur.y.den as int, (v4_scale_xzw(u)) * (v4_scale_xzw(ur)),
                );
                assert(m.n[k] == a.n[5int] * b.n[1int] + a.n[6int] * b.n[6int] + a.n[7int]
                    * b.n[11int] + a.n[8int] * b.n[16int] + a.n[9int] * b.n[21int]);
                assert(m.n[k] == d1 * d2);
            } else if i == 2 {
                lemma_mul_regroup4(u.z.num as int, v4_scale_xyw(u), ur.z.num as int, v4_scale_xyw(ur));
                lemma_mul_regroup4(u.z.den as int, v4_scale_xyw(u), ur.z.den as int, v4_scale_xyw(ur));
                lemma_scale_diag_match(
                    d1, d2, a.n[12], b.n[12], u.z.num as int, u.z.den as int, ur.z.num as int,
                    ur.z.den as int, (v4_scale_xyw(u)) * (v4_scale_xyw(ur)),
                );
                assert(m.n[k] == a.n[10int] * b.n[2int] + a.n[11int] * b.n[7int] + a.n[12int]
                    * b.n[12int] + a.n[13int] * b.n[17int] + a.n[14int] * b.n[22int]);
                assert(m.n[k] == d1 * d2);
            } else {
                lemma_mul_regroup4(u.w.num as int, v4_scale_xyz(u), ur.w.num as int, v4_scale_xyz(ur));
                lemma_mul_regroup4(u.w.den as int, v4_scale_xyz(u), ur.w.den as int, v4_scale_xyz(ur));
                lemma_scale_diag_match(
                    d1, d2, a.n[18], b.n[18], u.w.num as int, u.w.den as int, ur.w.num as int,
                    ur.w.den as int, (v4_scale_xyz(u)) * (v4_scale_xyz(ur)),
                );
                assert(m.n[k] == a.n[15int] * b.n[3int] + a.n[16int] * b.n[8int] + a.n[17int]
                    * b.n[13int] + a.n[18int] * b.n[18int] + a.n[19int] * b.n[23int]);
                assert(m.n[k] == d1 * d2);
            }
        } else {
            assert(m.n[k] == dot5(a.n, b.n, i, j));
            assert(dot5(a.n, b.n, i, j) == (if i == j { d1 * d2 } else { 0int }));
        }
    }
}

/// A two-sided inverse is unique up to value: if `q` inverts `p` and `r`
/// inverts `q`, then `r` denotes `p` again.  Inverting twice gives the pose
/// back.
pub proof fn lemma_inverse_involution(p: MatS, q: MatS, r: MatS)
    requires
        m_wf(p),
        m_wf(q),
        m_wf(r),
        m_equiv(m_mul(p, q), m_ident()),
        m_equiv(m_mul(q, p), m_ident()),
        m_equiv(m_mul(q, r), m_ident()),
        m_equiv(m_mul(r, q), m_ident()),
    ensures
        m_equiv(r, p),
{
    lemma_mul_ident_right(r);
    lemma_equiv_refl(r);
    lemma_mul_compat(r, r, m_mul(q, p), m_ident());
    // r (q p) ~ r I == r
    lemma_mul_assoc(r, q, p);
    // r (q p) == (r q) p ~ p
    lemma_mul_equiv_ident_left(m_mul(r, q), p);
    lemma_equiv_sym(m_mul(r, m_mul(q, p)), r);
    lemma_equiv_trans(r, m_mul(r, m_mul(q, p)), p);
}

/// A plane rotation by angle zero is the identity, up to value, for any
/// pair of distinct axes.
pub proof fn lemma_rot_zero_ident(r: Rotor, a: int, b: int)
    requires
        rotor_wf(r),
        r.s == 0,
        r.c == r.d,
        0 <= a < 4,
        0 <= b < 4,
        a != b,
    ensures
        m_equiv(rot_mat(r, a, b), m_ident()),
{
    let m = rot_mat(r, a, b);
    assert forall|k: int| 0 <= k < 25 implies m.n[k] * m_ident().d == m_ident().n[k] * m.d by {
        lemma_pos(k);
        let p = k / 5;
        let q = k % 5;
        lemma_diag_pos(p, q);
        assert(m.n[k] == rot_val(r, a, b, p, q));
    }
}

} // verus!
