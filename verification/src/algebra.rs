//! Algebraic laws of the 5x5 rational matrix model.
//!
//! These lemmas are the toolkit behind every transform-level fact the crate
//! proves: multiplication is associative, transposition reverses products,
//! multiplication respects value equivalence, and equivalence to the identity
//! cancels inside products.

use vstd::prelude::*;

use crate::matrix::{dot5, m_equiv, m_ident, m_mul, m_transpose, m_wf, MatS};
use vstd::arithmetic::div_mod::{lemma_fundamental_div_mod, lemma_fundamental_div_mod_converse};
use vstd::arithmetic::mul::{
    lemma_mul_is_associative, lemma_mul_is_commutative, lemma_mul_is_distributive_add,
    lemma_mul_is_distributive_add_other_way,
};

verus! {

/// Row-major position of row `i`, column `j`, recovered by division.
pub proof fn lemma_idx(i: int, j: int)
    requires
        0 <= i < 5,
        0 <= j < 5,
    ensures
        (i * 5 + j) / 5 == i,
        (i * 5 + j) % 5 == j,
{
    lemma_fundamental_div_mod_converse(i * 5 + j, 5, i, j);
}

/// Splits a row-major position `k` into its row `k / 5` and column `k % 5`.
pub proof fn lemma_pos(k: int)
    requires
        0 <= k < 25,
    ensures
        k == (k / 5) * 5 + k % 5,
        0 <= k / 5 < 5,
        0 <= k % 5 < 5,
{
    lemma_fundamental_div_mod(k, 5);
}

/// Entry `(i, j)` of a product is the dot product of row `i` and column `j`.
pub proof fn lemma_mul_entry(a: MatS, b: MatS, i: int, j: int)
    requires
        0 <= i < 5,
        0 <= j < 5,
    ensures
        m_mul(a, b).n[i * 5 + j] == dot5(a.n, b.n, i, j),
        m_mul(a, b).d == a.d * b.d,
{
    lemma_idx(i, j);
}

/// Entry `(i, j)` of a transpose is entry `(j, i)` of the original.
pub proof fn lemma_transpose_entry(a: MatS, i: int, j: int)
    requires
        0 <= i < 5,
        0 <= j < 5,
    ensures
        m_transpose(a).n[i * 5 + j] == a.n[j * 5 + i],
        m_transpose(a).d == a.d,
{
    lemma_idx(i, j);
}

/// A product of well-formed matrices is well-formed.
pub proof fn lemma_mul_wf(a: MatS, b: MatS)
    requires
        m_wf(a),
        m_wf(b),
    ensures
        m_wf(m_mul(a, b)),
{
    assert(a.d * b.d > 0) by (nonlinear_arith)
        requires a.d > 0 && b.d > 0;
}

/// Swapping the two outer factors of a three-factor product.
pub proof fn lemma_mul_swap_left(x: int, y: int, m: int)
    ensures
        x * (y * m) == y * (x * m),
{
    lemma_mul_is_associative(x, y, m);
    lemma_mul_is_commutative(x, y);
    lemma_mul_is_associative(y, x, m);
}

/// Regrouping a product of two pairs into leading and trailing factors.
pub proof fn lemma_mul_regroup4(p: int, a: int, q: int, b: int)
    ensures
        (p * a) * (q * b) == (p * q) * (a * b),
{
    lemma_mul_is_associative(p, a, q * b);
    lemma_mul_swap_left(a, q, b);
    lemma_mul_is_associative(p, q, a * b);
}

/// Reassociating a row-times-block-times-column double sum.
#[verifier::spinoff_prover]
proof fn lemma_dot_reassociate(
    x0: int, x1: int, x2: int, x3: int, x4: int,
    b00: int, b01: int, b02: int, b03: int, b04: int,
    b10: int, b11: int, b12: int, b13: int, b14: int,
    b20: int, b21: int, b22: int, b23: int, b24: int,
    b30: int, b31: int, b32: int, b33: int, b34: int,
    b40: int, b41: int, b42: int, b43: int, b44: int,
    y0: int, y1: int, y2: int, y3: int, y4: int,
)
    ensures
        (x0 * b00 + x1 * b10 + x2 * b20 + x3 * b30 + x4 * b40) * y0
            + (x0 * b01 + x1 * b11 + x2 * b21 + x3 * b31 + x4 * b41) * y1
            + (x0 * b02 + x1 * b12 + x2 * b22 + x3 * b32 + x4 * b42) * y2
            + (x0 * b03 + x1 * b13 + x2 * b23 + x3 * b33 + x4 * b43) * y3
            + (x0 * b04 + x1 * b14 + x2 * b24 + x3 * b34 + x4 * b44) * y4
        == x0 * (b00 * y0 + b01 * y1 + b02 * y2 + b03 * y3 + b04 * y4)
            + x1 * (b10 * y0 + b11 * y1 + b12 * y2 + b13 * y3 + b14 * y4)
            + x2 * (b20 * y0 + b21 * y1 + b22 * y2 + b23 * y3 + b24 * y4)
            + x3 * (b30 * y0 + b31 * y1 + b32 * y2 + b33 * y3 + b34 * y4)
            + x4 * (b40 * y0 + b41 * y1 + b42 * y2 + b43 * y3 + b44 * y4),
{
    lemma_sum5_scale(x0 * b00, x1 * b10, x2 * b20, x3 * b30, x4 * b40, y0);
    lemma_sum5_scale(x0 * b01, x1 * b11, x2 * b21, x3 * b31, x4 * b41, y1);
    lemma_sum5_scale(x0 * b02, x1 * b12, x2 * b22, x3 * b32, x4 * b42, y2);
    lemma_sum5_scale(x0 * b03, x1 * b13, x2 * b23, x3 * b33, x4 * b43, y3);
    lemma_sum5_scale(x0 * b04, x1 * b14, x2 * b24, x3 * b34, x4 * b44, y4);
    lemma_mul_is_associative(x0, b00, y0);
    lemma_mul_is_associative(x1, b10, y0);
    lemma_mul_is_associative(x2, b20, y0);
    lemma_mul_is_associative(x3, b30, y0);
    lemma_mul_is_associative(x4, b40, y0);
    lemma_mul_is_associative(x0, b01, y1);
    lemma_mul_is_associative(x1, b11, y1);
    lemma_mul_is_associative(x2, b21, y1);
    lemma_mul_is_associative(x3, b31, y1);
    lemma_mul_is_associative(x4, b41, y1);
    lemma_mul_is_associative(x0, b02, y2);
    lemma_mul_is_associative(x1, b12, y2);
    lemma_mul_is_associative(x2, b22, y2);
    lemma_mul_is_associative(x3, b32, y2);
    lemma_mul_is_associative(x4, b42, y2);
    lemma_mul_is_associative(x0, b03, y3);
    lemma_mul_is_associative(x1, b13, y3);
    lemma_mul_is_associative(x2, b23, y3);
    lemma_mul_is_associative(x3, b33, y3);
    lemma_mul_is_associative(x4, b43, y3);
    lemma_mul_is_associative(x0, b04, y4);
    lemma_mul_is_associative(x1, b14, y4);
    lemma_mul_is_associative(x2, b24, y4);
    lemma_mul_is_associative(x3, b34, y4);
    lemma_mul_is_associative(x4, b44, y4);
    lemma_sum5_scale_left(x0, b00 * y0, b01 * y1, b02 * y2, b03 * y3, b04 * y4);
    lemma_sum5_scale_left(x1, b10 * y0, b11 * y1, b12 * y2, b13 * y3, b14 * y4);
    lemma_sum5_scale_left(x2, b20 * y0, b21 * y1, b22 * y2, b23 * y3, b24 * y4);
    lemma_sum5_scale_left(x3, b30 * y0, b31 * y1, b32 * y2, b33 * y3, b34 * y4);
    lemma_sum5_scale_left(x4, b40 * y0, b41 * y1, b42 * y2, b43 * y3, b44 * y4);
}

/// Matrix multiplication is associative (exactly, not just up to value).
pub proof fn lemma_mul_assoc(a: MatS, b: MatS, c: MatS)
    requires
        m_wf(a),
        m_wf(b),
        m_wf(c),
    ensures
        m_mul(m_mul(a, b), c) == m_mul(a, m_mul(b, c)),
{
    let lhs = m_mul(m_mul(a, b), c);
    let rhs = m_mul(a, m_mul(b, c));
    assert((a.d * b.d) * c.d == a.d * (b.d * c.d)) by (nonlinear_arith);
    assert forall|k: int| 0 <= k < 25 implies lhs.n[k] == rhs.n[k] by {
        lemma_pos(k);
        let i = k / 5;
        let j = k % 5;
        lemma_mul_entry(m_mul(a, b), c, i, j);
        lemma_mul_entry(a, m_mul(b, c), i, j);
        lemma_mul_entry(a, b, i, 0);
        lemma_mul_entry(a, b, i, 1);
        lemma_mul_entry(a, b, i, 2);
        lemma_mul_entry(a, b, i, 3);
        lemma_mul_entry(a, b, i, 4);
        lemma_mul_entry(b, c, 0, j);
        lemma_mul_entry(b, c, 1, j);
        lemma_mul_entry(b, c, 2, j);
        lemma_mul_entry(b, c, 3, j);
        lemma_mul_entry(b, c, 4, j);
        lemma_dot_reassociate(
            a.n[i * 5 + 0], a.n[i * 5 + 1], a.n[i * 5 + 2], a.n[i * 5 + 3], a.n[i * 5 + 4],
            b.n[0int * 5 + 0], b.n[0int * 5 + 1], b.n[0int * 5 + 2], b.n[0int * 5 + 3], b.n[0int * 5 + 4],
            b.n[1int * 5 + 0], b.n[1int * 5 + 1], b.n[1int * 5 + 2], b.n[1int * 5 + 3], b.n[1int * 5 + 4],
            b.n[2int * 5 + 0], b.n[2int * 5 + 1], b.n[2int * 5 + 2], b.n[2int * 5 + 3], b.n[2int * 5 + 4],
            b.n[3int * 5 + 0], b.n[3int * 5 + 1], b.n[3int * 5 + 2], b.n[3int * 5 + 3], b.n[3int * 5 + 4],
            b.n[4int * 5 + 0], b.n[4int * 5 + 1], b.n[4int * 5 + 2], b.n[4int * 5 + 3], b.n[4int * 5 + 4],
            c.n[0 * 5 + j], c.n[1 * 5 + j], c.n[2 * 5 + j], c.n[3 * 5 + j], c.n[4 * 5 + j],
        );
    }
    assert(lhs.n =~= rhs.n);
    assert(lhs =~= rhs);
}

/// Transposition reverses products: `(a b)^T == b^T a^T` (exactly).
pub proof fn lemma_transpose_mul(a: MatS, b: MatS)
    requires
        m_wf(a),
        m_wf(b),
    ensures
        m_transpose(m_mul(a, b)) == m_mul(m_transpose(b), m_transpose(a)),
{
    let lhs = m_transpose(m_mul(a, b));
    let rhs = m_mul(m_transpose(b), m_transpose(a));
    assert(a.d * b.d == b.d * a.d) by (nonlinear_arith);
    assert forall|k: int| 0 <= k < 25 implies lhs.n[k] == rhs.n[k] by {
        lemma_pos(k);
        let i = k / 5;
        let j = k % 5;
        lemma_mul_entry(a, b, j, i);
        lemma_mul_entry(m_transpose(b), m_transpose(a), i, j);
        lemma_transpose_entry(b, i, 0);
        lemma_transpose_entry(b, i, 1);
        lemma_transpose_entry(b, i, 2);
        lemma_transpose_entry(b, i, 3);
        lemma_transpose_entry(b, i, 4);
        lemma_transpose_entry(a, 0, j);
        lemma_transpose_entry(a, 1, j);
        lemma_transpose_entry(a, 2, j);
        lemma_transpose_entry(a, 3, j);
        lemma_transpose_entry(a, 4, j);
        assert(m_transpose(m_mul(a, b)).n[k] == m_mul(a, b).n[j * 5 + i]);
        assert(a.n[j * 5 + 0] * b.n[0 * 5 + i] == b.n[0 * 5 + i] * a.n[j * 5 + 0]) by (nonlinear_arith);
        assert(a.n[j * 5 + 1] * b.n[1 * 5 + i] == b.n[1 * 5 + i] * a.n[j * 5 + 1]) by (nonlinear_arith);
        assert(a.n[j * 5 + 2] * b.n[2 * 5 + i] == b.n[2 * 5 + i] * a.n[j * 5 + 2]) by (nonlinear_arith);
        assert(a.n[j * 5 + 3] * b.n[3 * 5 + i] == b.n[3 * 5 + i] * a.n[j * 5 + 3]) by (nonlinear_arith);
        assert(a.n[j * 5 + 4] * b.n[4 * 5 + i] == b.n[4 * 5 + i] * a.n[j * 5 + 4]) by (nonlinear_arith);
    }
    assert(lhs.n =~= rhs.n);
    assert(lhs =~= rhs);
}

/// Value equivalence is reflexive.
pub proof fn lemma_equiv_refl(a: MatS)
    requires
        m_wf(a),
    ensures
        m_equiv(a, a),
{
}

/// Value equivalence is symmetric.
pub proof fn lemma_equiv_sym(a: MatS, b: MatS)
    requires
        m_equiv(a, b),
    ensures
        m_equiv(b, a),
{
}

/// Cross-multiplication equality is transitive when the middle denominator
/// is positive.
proof fn lemma_cross_trans(x: int, y: int, z: int, ad: int, bd: int, cd: int)
    by (nonlinear_arith)
    requires
        bd > 0,
        x * bd == y * ad,
        y * cd == z * bd,
    ensures
        x * cd == z * ad,
{
}

/// Value equivalence is transitive.
pub proof fn lemma_equiv_trans(a: MatS, b: MatS, c: MatS)
    requires
        m_equiv(a, b),
        m_equiv(b, c),
    ensures
        m_equiv(a, c),
{
    assert forall|k: int| 0 <= k < 25 implies a.n[k] * c.d == c.n[k] * a.d by {
        lemma_cross_trans(a.n[k], b.n[k], c.n[k], a.d, b.d, c.d);
    }
}

/// Products of pairwise cross-equal factors are cross-equal.
proof fn lemma_cross_mul(p: int, p2: int, q: int, q2: int, dp: int, dp2: int, dq: int, dq2: int)
    by (nonlinear_arith)
    requires
        p * dp2 == p2 * dp,
        q * dq2 == q2 * dq,
    ensures
        (p * q) * (dp2 * dq2) == (p2 * q2) * (dp * dq),
{
}

/// Multiplying a five-term sum by a common factor on the right distributes.
proof fn lemma_sum5_scale(s0: int, s1: int, s2: int, s3: int, s4: int, f: int)
    ensures
        (s0 + s1 + s2 + s3 + s4) * f == s0 * f + s1 * f + s2 * f + s3 * f + s4 * f,
{
    lemma_mul_is_distributive_add_other_way(f, s0 + s1 + s2 + s3, s4);
    lemma_mul_is_distributive_add_other_way(f, s0 + s1 + s2, s3);
    lemma_mul_is_distributive_add_other_way(f, s0 + s1, s2);
    lemma_mul_is_distributive_add_other_way(f, s0, s1);
}

/// Multiplying a five-term sum by a common factor on the left distributes.
proof fn lemma_sum5_scale_left(f: int, s0: int, s1: int, s2: int, s3: int, s4: int)
    ensures
        f * (s0 + s1 + s2 + s3 + s4) == f * s0 + f * s1 + f * s2 + f * s3 + f * s4,
{
    lemma_mul_is_distributive_add(f, s0 + s1 + s2 + s3, s4);
    lemma_mul_is_distributive_add(f, s0 + s1 + s2, s3);
    lemma_mul_is_distributive_add(f, s0 + s1, s2);
    lemma_mul_is_distributive_add(f, s0, s1);
}

/// Multiplication respects value equivalence in both arguments.
pub proof fn lemma_mul_compat(a: MatS, a2: MatS, b: MatS, b2: MatS)
    requires
        m_equiv(a, a2),
        m_equiv(b, b2),
    ensures
        m_equiv(m_mul(a, b), m_mul(a2, b2)),
{
    lemma_mul_wf(a, b);
    lemma_mul_wf(a2, b2);
    let l = m_mul(a, b);
    let r = m_mul(a2, b2);
    assert forall|k: int| 0 <= k < 25 implies l.n[k] * r.d == r.n[k] * l.d by {
        lemma_pos(k);
        let i = k / 5;
        let j = k % 5;
        lemma_mul_entry(a, b, i, j);
        lemma_mul_entry(a2, b2, i, j);
        lemma_cross_mul(a.n[i * 5 + 0], a2.n[i * 5 + 0], b.n[0 * 5 + j], b2.n[0 * 5 + j], a.d, a2.d, b.d, b2.d);
        lemma_cross_mul(a.n[i * 5 + 1], a2.n[i * 5 + 1], b.n[1 * 5 + j], b2.n[1 * 5 + j], a.d, a2.d, b.d, b2.d);
        lemma_cross_mul(a.n[i * 5 + 2], a2.n[i * 5 + 2], b.n[2 * 5 + j], b2.n[2 * 5 + j], a.d, a2.d, b.d, b2.d);
        lemma_cross_mul(a.n[i * 5 + 3], a2.n[i * 5 + 3], b.n[3 * 5 + j], b2.n[3 * 5 + j], a.d, a2.d, b.d, b2.d);
        lemma_cross_mul(a.n[i * 5 + 4], a2.n[i * 5 + 4], b.n[4 * 5 + j], b2.n[4 * 5 + j], a.d, a2.d, b.d, b2.d);
        lemma_sum5_scale(
            a.n[i * 5 + 0] * b.n[0 * 5 + j],
            a.n[i * 5 + 1] * b.n[1 * 5 + j],
            a.n[i * 5 + 2] * b.n[2 * 5 + j],
            a.n[i * 5 + 3] * b.n[3 * 5 + j],
            a.n[i * 5 + 4] * b.n[4 * 5 + j],
            a2.d * b2.d,
        );
        lemma_sum5_scale(
            a2.n[i * 5 + 0] * b2.n[0 * 5 + j],
            a2.n[i * 5 + 1] * b2.n[1 * 5 + j],
            a2.n[i * 5 + 2] * b2.n[2 * 5 + j],
            a2.n[i * 5 + 3] * b2.n[3 * 5 + j],
            a2.n[i * 5 + 4] * b2.n[4 * 5 + j],
            a.d * b.d,
        );
    }
}

/// On the diagonal and only there, a row-major position is a multiple of 6.
pub proof fn lemma_diag_pos(i: int, t: int)
    requires
        0 <= i < 5,
        0 <= t < 5,
    ensures
        ((i * 5 + t) % 6 == 0) <==> (i == t),
{
    if i == t {
        lemma_fundamental_div_mod_converse(i * 5 + t, 6, i, 0);
    } else if t > i {
        lemma_fundamental_div_mod_converse(i * 5 + t, 6, i, t - i);
    } else {
        lemma_fundamental_div_mod_converse(i * 5 + t, 6, i - 1, 6 + t - i);
    }
}

/// An entry of a matrix equivalent to the identity is its denominator on the
/// diagonal and zero off it.
proof fn lemma_ident_like_entry(e: MatS, i: int, t: int)
    requires
        m_equiv(e, m_ident()),
        0 <= i < 5,
        0 <= t < 5,
    ensures
        e.n[i * 5 + t] == (if i == t { 1int } else { 0int }) * e.d,
{
    lemma_diag_pos(i, t);
    assert(e.n[i * 5 + t] * m_ident().d == m_ident().n[i * 5 + t] * e.d);
}

/// Multiplying by the identity on the right changes nothing (exactly).
pub proof fn lemma_mul_ident_right(a: MatS)
    requires
        m_wf(a),
    ensures
        m_mul(a, m_ident()) == a,
{
    let r = m_mul(a, m_ident());
    assert forall|k: int| 0 <= k < 25 implies r.n[k] == a.n[k] by {
        lemma_pos(k);
        let i = k / 5;
        let j = k % 5;
        lemma_mul_entry(a, m_ident(), i, j);
        lemma_diag_pos(0, j);
        lemma_diag_pos(1, j);
        lemma_diag_pos(2, j);
        lemma_diag_pos(3, j);
        lemma_diag_pos(4, j);
        assert(m_ident().n[0int * 5 + j] == if 0int == j { 1int } else { 0int });
        assert(m_ident().n[1int * 5 + j] == if 1int == j { 1int } else { 0int });
        assert(m_ident().n[2int * 5 + j] == if 2int == j { 1int } else { 0int });
        assert(m_ident().n[3int * 5 + j] == if 3int == j { 1int } else { 0int });
        assert(m_ident().n[4int * 5 + j] == if 4int == j { 1int } else { 0int });
    }
    assert(r.n =~= a.n);
    assert(r =~= a);
}

/// A factor equivalent to the identity disappears from a product, on the left.
pub proof fn lemma_mul_equiv_ident_left(e: MatS, b: MatS)
    requires
        m_equiv(e, m_ident()),
        m_wf(b),
    ensures
        m_equiv(m_mul(e, b), b),
{
    lemma_mul_wf(e, b);
    let r = m_mul(e, b);
    assert forall|k: int| 0 <= k < 25 implies r.n[k] * b.d == b.n[k] * r.d by {
        lemma_pos(k);
        let i = k / 5;
        let j = k % 5;
        lemma_mul_entry(e, b, i, j);
        lemma_ident_like_entry(e, i, 0);
        lemma_ident_like_entry(e, i, 1);
        lemma_ident_like_entry(e, i, 2);
        lemma_ident_like_entry(e, i, 3);
        lemma_ident_like_entry(e, i, 4);
        assert(e.n[i * 5 + 0] == (if i == 0 { 1int } else { 0int }) * e.d);
        assert(e.n[i * 5 + 1] == (if i == 1 { 1int } else { 0int }) * e.d);
        assert(e.n[i * 5 + 2] == (if i == 2 { 1int } else { 0int }) * e.d);
        assert(e.n[i * 5 + 3] == (if i == 3 { 1int } else { 0int }) * e.d);
        assert(e.n[i * 5 + 4] == (if i == 4 { 1int } else { 0int }) * e.d);
        assert(dot5(e.n, b.n, i, j) == e.d * b.n[i * 5 + j]) by (nonlinear_arith)
            requires
                0 <= i < 5,
                0 <= j < 5,
                e.n[i * 5 + 0] == (if i == 0 { 1int } else { 0int }) * e.d,
                e.n[i * 5 + 1] == (if i == 1 { 1int } else { 0int }) * e.d,
                e.n[i * 5 + 2] == (if i == 2 { 1int } else { 0int }) * e.d,
                e.n[i * 5 + 3] == (if i == 3 { 1int } else { 0int }) * e.d,
                e.n[i * 5 + 4] == (if i == 4 { 1int } else { 0int }) * e.d,
                dot5(e.n, b.n, i, j) == e.n[i * 5 + 0] * b.n[0 * 5 + j] + e.n[i * 5 + 1] * b.n[1 * 5
                    + j] + e.n[i * 5 + 2] * b.n[2 * 5 + j] + e.n[i * 5 + 3] * b.n[3 * 5 + j] + e.n[i
                    * 5 + 4] * b.n[4 * 5 + j],
        ;
        assert((e.d * b.n[i * 5 + j]) * b.d == b.n[i * 5 + j] * (e.d * b.d)) by (nonlinear_arith);
    }
}

/// Inside a product, an adjacent pair whose product is equivalent to the
/// identity cancels: `(a x)(y b) ~ a b` whenever `x y ~ 1`.
pub proof fn lemma_cancel_middle(a: MatS, x: MatS, y: MatS, b: MatS)
    requires
        m_wf(a),
        m_wf(x),
        m_wf(y),
        m_wf(b),
        m_equiv(m_mul(x, y), m_ident()),
    ensures
        m_equiv(m_mul(m_mul(a, x), m_mul(y, b)), m_mul(a, b)),
{
    lemma_mul_wf(a, x);
    lemma_mul_wf(y, b);
    lemma_mul_wf(x, y);
    lemma_mul_wf(a, b);
    lemma_mul_assoc(m_mul(a, x), y, b);
    lemma_mul_assoc(a, x, y);
    lemma_mul_assoc(a, m_mul(x, y), b);
    // ((a x)(y b)) == (((a x) y) b) == ((a (x y)) b) == (a ((x y) b))
    lemma_mul_equiv_ident_left(m_mul(x, y), b);
    lemma_equiv_refl(a);
    lemma_mul_compat(a, a, m_mul(m_mul(x, y), b), b);
    assert(m_mul(m_mul(a, x), m_mul(y, b)) == m_mul(a, m_mul(m_mul(x, y), b)));
}

} // verus!
