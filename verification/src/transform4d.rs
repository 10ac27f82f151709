//! Constructors for 4D affine transforms in homogeneous 5x5 form.
//!
//! The transforms of 4-space are built here exactly as rational matrices:
//! translation (`shift`), per-axis scaling (`scale`), their combination
//! (`scale_shift`), a rotation in one coordinate plane (`rotation_single`),
//! the composition of the six plane rotations in the fixed order of this
//! engine (`rotation_full`, and `rotation_full_inv` for the analytically
//! reversed order), the full translate-rotate-scale pose (`full_transform`),
//! and the 4D perspective projection (`perspective_matrix`).
//!
//! An angle enters this algebra as a [`Rotor`]: an exact rational point
//! `(cos, sin)` on the unit circle, `c^2 + s^2 = d^2`.  Whoever measures
//! angles in radians picks a rational point close to the true one; every
//! algebraic law then holds exactly.

use vstd::pervasive::VecAdditionalExecFns;
use vstd::prelude::*;

use crate::algebra::{lemma_diag_pos, lemma_idx, lemma_pos};
use crate::matrix::{diag_cells, ints, m_mul, m_wf, mat_mul, mul_fits, MatS, Matrix5};
use crate::rational::{in_i128, rat_wf, Rat};

verus! {

/// A point or offset of 4-space: four rational coordinates.
#[derive(Clone, Copy)]
pub struct Vector4 {
    pub x: Rat,
    pub y: Rat,
    pub z: Rat,
    pub w: Rat,
}

/// Well-formedness: every coordinate has a positive denominator.
pub open spec fn v4_wf(v: Vector4) -> bool {
    rat_wf(v.x) && rat_wf(v.y) && rat_wf(v.z) && rat_wf(v.w)
}

impl Vector4 {
    /// Bundles four rational coordinates.
    pub fn new(x: Rat, y: Rat, z: Rat, w: Rat) -> (r: Vector4)
        ensures
            r.x == x,
            r.y == y,
            r.z == z,
            r.w == w,
    {
        Vector4 { x, y, z, w }
    }

    /// A vector of four whole numbers.
    pub fn from_ints(x: i128, y: i128, z: i128, w: i128) -> (r: Vector4)
        ensures
            v4_wf(r),
            r.x.num == x && r.x.den == 1,
            r.y.num == y && r.y.den == 1,
            r.z.num == z && r.z.den == 1,
            r.w.num == w && r.w.den == 1,
    {
        Vector4 {
            x: Rat::from_int(x),
            y: Rat::from_int(y),
            z: Rat::from_int(z),
            w: Rat::from_int(w),
        }
    }

    /// Component-wise negation.  `None` exactly when a numerator is
    /// `i128::MIN`.
    pub fn neg(&self) -> (r: Option<Vector4>)
        requires
            v4_wf(*self),
        ensures
            r is Some <==> self.x.num > i128::MIN && self.y.num > i128::MIN && self.z.num
                > i128::MIN && self.w.num > i128::MIN,
            r is Some ==> {
                let v = r->Some_0;
                &&& v4_wf(v)
                &&& v.x.num == -(self.x.num as int) && v.x.den == self.x.den
                &&& v.y.num == -(self.y.num as int) && v.y.den == self.y.den
                &&& v.z.num == -(self.z.num as int) && v.z.den == self.z.den
                &&& v.w.num == -(self.w.num as int) && v.w.den == self.w.den
            },
    {
        let x = self.x.neg()?;
        let y = self.y.neg()?;
        let z = self.z.neg()?;
        let w = self.w.neg()?;
        Some(Vector4 { x, y, z, w })
    }

    /// Component-wise reciprocal.  `None` exactly when a component is zero
    /// or a sign flip would not fit.
    pub fn recip(&self) -> (r: Option<Vector4>)
        requires
            v4_wf(*self),
        ensures
            r is Some <==> (self.x.num != 0 && (self.x.num < 0 ==> self.x.num > i128::MIN)) && (
            self.y.num != 0 && (self.y.num < 0 ==> self.y.num > i128::MIN)) && (self.z.num != 0 && (
            self.z.num < 0 ==> self.z.num > i128::MIN)) && (self.w.num != 0 && (self.w.num < 0
                ==> self.w.num > i128::MIN)),
            r is Some ==> {
                let v = r->Some_0;
                &&& v4_wf(v)
                &&& v == v4_recip_val(*self)
                &&& v.x.num * self.x.num == v.x.den * self.x.den
                &&& v.y.num * self.y.num == v.y.den * self.y.den
                &&& v.z.num * self.z.num == v.z.den * self.z.den
                &&& v.w.num * self.w.num == v.w.den * self.w.den
            },
    {
        let x = self.x.recip()?;
        let y = self.y.recip()?;
        let z = self.z.recip()?;
        let w = self.w.recip()?;
        Some(Vector4 { x, y, z, w })
    }
}

/// The component-wise reciprocal of `v`, as a spec value (meaningful when
/// no numerator is zero or `i128::MIN`).
pub open spec fn v4_recip_val(v: Vector4) -> Vector4 {
    Vector4 {
        x: crate::rational::rat_recip_val(v.x),
        y: crate::rational::rat_recip_val(v.y),
        z: crate::rational::rat_recip_val(v.z),
        w: crate::rational::rat_recip_val(v.w),
    }
}

/// The denominator products used to put four rational coordinates over one
/// common denominator, grouped exactly as the constructors compute them.
pub open spec fn v4_scale_yzw(v: Vector4) -> int {
    (v.y.den * v.z.den) * v.w.den
}

pub open spec fn v4_scale_xzw(v: Vector4) -> int {
    (v.x.den * v.z.den) * v.w.den
}

pub open spec fn v4_scale_xyw(v: Vector4) -> int {
    (v.x.den * v.y.den) * v.w.den
}

pub open spec fn v4_scale_xyz(v: Vector4) -> int {
    (v.x.den * v.y.den) * v.z.den
}

/// The common denominator of a `shift`/`scale` matrix built from `v`.
pub open spec fn v4_den(v: Vector4) -> int {
    v.x.den * v4_scale_yzw(v)
}

/// Cell `k` (row-major) of the translation matrix of `v`: the identity with
/// column 4 holding `v`.
pub open spec fn shift_cell(v: Vector4, k: int) -> int {
    if k == 4 {
        v.x.num * v4_scale_yzw(v)
    } else if k == 9 {
        v.y.num * v4_scale_xzw(v)
    } else if k == 14 {
        v.z.num * v4_scale_xyw(v)
    } else if k == 19 {
        v.w.num * v4_scale_xyz(v)
    } else if k % 6 == 0 {
        v4_den(v)
    } else {
        0
    }
}

/// The translation matrix of `v` as a spec value.
pub open spec fn shift_mat(v: Vector4) -> MatS {
    MatS { n: Seq::new(25, |k: int| shift_cell(v, k)), d: v4_den(v) }
}

/// Cell `k` (row-major) of the scaling matrix of `v`: the diagonal holds
/// `v` and then the homogeneous 1.
pub open spec fn scale_cell(v: Vector4, k: int) -> int {
    if k == 0 {
        v.x.num * v4_scale_yzw(v)
    } else if k == 6 {
        v.y.num * v4_scale_xzw(v)
    } else if k == 12 {
        v.z.num * v4_scale_xyw(v)
    } else if k == 18 {
        v.w.num * v4_scale_xyz(v)
    } else if k == 24 {
        v4_den(v)
    } else {
        0
    }
}

/// The scaling matrix of `v` as a spec value.
pub open spec fn scale_mat(v: Vector4) -> MatS {
    MatS { n: Seq::new(25, |k: int| scale_cell(v, k)), d: v4_den(v) }
}

/// All intermediates of a `shift`/`scale` construction fit in `i128`.
pub open spec fn v4_mat_fits(v: Vector4) -> bool {
    &&& in_i128(v.y.den * v.z.den)
    &&& in_i128(v4_scale_yzw(v))
    &&& in_i128(v.x.den * v.z.den)
    &&& in_i128(v4_scale_xzw(v))
    &&& in_i128(v.x.den * v.y.den)
    &&& in_i128(v4_scale_xyw(v))
    &&& in_i128(v4_scale_xyz(v))
    &&& in_i128(v4_den(v))
    &&& in_i128(v.x.num * v4_scale_yzw(v))
    &&& in_i128(v.y.num * v4_scale_xzw(v))
    &&& in_i128(v.z.num * v4_scale_xyw(v))
    &&& in_i128(v.w.num * v4_scale_xyz(v))
}

/// The eight scale factors shared by `shift` and `scale`, checked.
fn v4_factors(v: &Vector4) -> (r: Option<(i128, i128, i128, i128, i128)>)
    requires
        v4_wf(*v),
    ensures
        r is Some <==> v4_mat_fits(*v),
        r is Some ==> {
            let (syzw, sxzw, sxyw, sxyz, dd) = r->Some_0;
            &&& syzw as int == v4_scale_yzw(*v)
            &&& sxzw as int == v4_scale_xzw(*v)
            &&& sxyw as int == v4_scale_xyw(*v)
            &&& sxyz as int == v4_scale_xyz(*v)
            &&& dd as int == v4_den(*v)
            &&& dd > 0
            &&& in_i128(v.x.num * syzw) && in_i128(v.y.num * sxzw) && in_i128(v.z.num * sxyw)
                && in_i128(v.w.num * sxyz)
        },
{
    let pyz = v.y.den.checked_mul(v.z.den)?;
    let syzw = pyz.checked_mul(v.w.den)?;
    let pxz = v.x.den.checked_mul(v.z.den)?;
    let sxzw = pxz.checked_mul(v.w.den)?;
    let pxy = v.x.den.checked_mul(v.y.den)?;
    let sxyw = pxy.checked_mul(v.w.den)?;
    let sxyz = pxy.checked_mul(v.z.den)?;
    let dd = v.x.den.checked_mul(syzw)?;
    let _ = v.x.num.checked_mul(syzw)?;
    let _ = v.y.num.checked_mul(sxzw)?;
    let _ = v.z.num.checked_mul(sxyw)?;
    let _ = v.w.num.checked_mul(sxyz)?;
    proof {
        assert(v4_den(*v) > 0) by (nonlinear_arith)
            requires
                v.x.den > 0,
                v.y.den > 0,
                v.z.den > 0,
                v.w.den > 0,
                v4_den(*v) == v.x.den * ((v.y.den * v.z.den) * v.w.den),
        ;
    }
    Some((syzw, sxzw, sxyw, sxyz, dd))
}

/// The translation matrix of `v`: the identity with column 4 set to `v`.
/// `None` exactly when an intermediate does not fit in `i128`.
pub fn shift(v: &Vector4) -> (r: Option<Matrix5>)
    requires
        v4_wf(*v),
    ensures
        r is Some <==> v4_mat_fits(*v),
        r is Some ==> m_wf(r->Some_0@) && r->Some_0@ == shift_mat(*v),
{
    let (syzw, sxzw, sxyw, sxyz, dd) = v4_factors(v)?;
    let cx = v.x.num.checked_mul(syzw).unwrap();
    let cy = v.y.num.checked_mul(sxzw).unwrap();
    let cz = v.z.num.checked_mul(sxyw).unwrap();
    let cw = v.w.num.checked_mul(sxyz).unwrap();
    let mut nums = diag_cells(dd);
    let ghost base = nums@;
    nums.set(4, cx);
    nums.set(9, cy);
    nums.set(14, cz);
    nums.set(19, cw);
    let r = Matrix5 { nums, den: dd };
    proof {
        assert forall|k: int| 0 <= k < 25 implies r@.n[k] == shift_cell(*v, k) by {
            assert(r@.n[k] == nums@[k] as int);
            if k != 4 && k != 9 && k != 14 && k != 19 {
                assert(nums@[k] == base[k]);
                assert(ints(base)[k] == base[k] as int);
            }
        }
        assert(r@.n =~= shift_mat(*v).n);
    }
    Some(r)
}

/// The scaling matrix of `v`: the diagonal holds `v`, then the homogeneous 1.
/// `None` exactly when an intermediate does not fit in `i128`.
pub fn scale(v: &Vector4) -> (r: Option<Matrix5>)
    requires
        v4_wf(*v),
    ensures
        r is Some <==> v4_mat_fits(*v),
        r is Some ==> m_wf(r->Some_0@) && r->Some_0@ == scale_mat(*v),
{
    let (syzw, sxzw, sxyw, sxyz, dd) = v4_factors(v)?;
    let cx = v.x.num.checked_mul(syzw).unwrap();
    let cy = v.y.num.checked_mul(sxzw).unwrap();
    let cz = v.z.num.checked_mul(sxyw).unwrap();
    let cw = v.w.num.checked_mul(sxyz).unwrap();
    let mut nums = diag_cells(0);
    let ghost base = nums@;
    nums.set(0, cx);
    nums.set(6, cy);
    nums.set(12, cz);
    nums.set(18, cw);
    nums.set(24, dd);
    let r = Matrix5 { nums, den: dd };
    proof {
        assert forall|k: int| 0 <= k < 25 implies r@.n[k] == scale_cell(*v, k) by {
            assert(r@.n[k] == nums@[k] as int);
            if k != 0 && k != 6 && k != 12 && k != 18 && k != 24 {
                assert(nums@[k] == base[k]);
                assert(ints(base)[k] == base[k] as int);
            }
        }
        assert(r@.n =~= scale_mat(*v).n);
    }
    Some(r)
}

/// One matrix holding scale on the diagonal and translation in column 4:
/// the exact product `shift(t) * scale(s)`.  `None` exactly when an
/// intermediate does not fit in `i128`.
pub fn scale_shift(s: &Vector4, t: &Vector4) -> (r: Option<Matrix5>)
    requires
        v4_wf(*s),
        v4_wf(*t),
    ensures
        r is Some <==> v4_mat_fits(*t) && v4_mat_fits(*s) && mul_fits(shift_mat(*t), scale_mat(*s)),
        r is Some ==> m_wf(r->Some_0@) && r->Some_0@ == m_mul(shift_mat(*t), scale_mat(*s)),
{
    let tm = shift(t)?;
    let sm = scale(s)?;
    mat_mul(&tm, &sm)
}

/// An angle, held exactly: a rational point on the unit circle, with the
/// cosine `c / d` and the sine `s / d` over one positive denominator, so
/// that `c^2 + s^2 == d^2`.
#[derive(Clone, Copy)]
pub struct Rotor {
    pub c: i128,
    pub s: i128,
    pub d: i128,
}

/// Well-formedness: positive denominator, and the point lies on the unit
/// circle.
pub open spec fn rotor_wf(r: Rotor) -> bool {
    r.d > 0 && r.c * r.c + r.s * r.s == r.d * r.d
}

impl Rotor {
    /// Builds the rotor `(c / d, s / d)`; `None` exactly when `d` is not
    /// positive, the point is not on the unit circle, or a square does not
    /// fit in an `i128`.
    pub fn new(c: i128, s: i128, d: i128) -> (r: Option<Rotor>)
        ensures
            r is Some <==> d > 0 && in_i128(c * c) && in_i128(s * s) && in_i128(c * c + s * s)
                && in_i128(d * d) && c * c + s * s == d * d,
            r is Some ==> r->Some_0 == (Rotor { c, s, d }) && rotor_wf(r->Some_0),
    {
        if d <= 0 {
            return None;
        }
        let cc = c.checked_mul(c)?;
        let ss = s.checked_mul(s)?;
        let sum = cc.checked_add(ss)?;
        let dd = d.checked_mul(d)?;
        if sum == dd {
            Some(Rotor { c, s, d })
        } else {
            None
        }
    }

    /// The rotor of angle zero.
    pub fn identity() -> (r: Rotor)
        ensures
            rotor_wf(r),
            r.c == 1 && r.s == 0 && r.d == 1,
    {
        Rotor { c: 1, s: 0, d: 1 }
    }

    /// The rotor of the opposite angle: the sine changes sign.
    pub fn neg(&self) -> (r: Rotor)
        requires
            rotor_wf(*self),
        ensures
            rotor_wf(r),
            r.c == self.c && r.s == -(self.s as int) && r.d == self.d,
    {
        proof {
            lemma_rotor_component_in_range(*self);
            assert((-self.s) * (-self.s) == self.s * self.s) by (nonlinear_arith);
        }
        Rotor { c: self.c, s: -self.s, d: self.d }
    }
}

impl Rotor {
    /// The rotor of the angle whose half-angle tangent is `p / q`: by the
    /// half-angle substitution, cosine `(q^2 - p^2) / (q^2 + p^2)` and sine
    /// `2pq / (q^2 + p^2)`, an exact point on the unit circle.  This is the
    /// bridge from measured angles: pick a rational approximation of
    /// `tan(angle / 2)` and the rotor is exact.  `None` exactly when `q` is
    /// zero or an intermediate does not fit in `i128`.
    pub fn from_half_tangent(p: i128, q: i128) -> (r: Option<Rotor>)
        ensures
            r is Some <==> q != 0 && in_i128(p * p) && in_i128(q * q) && in_i128(q * q - p * p)
                && in_i128(2 * p) && in_i128((2 * p) * q) && in_i128(q * q + p * p),
            r is Some ==> rotor_wf(r->Some_0) && r->Some_0 == (Rotor {
                c: ((q * q - p * p)) as i128,
                s: (((2 * p) * q)) as i128,
                d: ((q * q + p * p)) as i128,
            }),
    {
        if q == 0 {
            return None;
        }
        let pp = p.checked_mul(p)?;
        let qq = q.checked_mul(q)?;
        let c = qq.checked_sub(pp)?;
        let p2 = 2i128.checked_mul(p)?;
        let s = p2.checked_mul(q)?;
        let d = qq.checked_add(pp)?;
        proof {
            assert(q * q > 0) by (nonlinear_arith)
                requires q != 0;
            assert(p * p >= 0) by (nonlinear_arith);
            assert((q * q - p * p) * (q * q - p * p) + ((2 * p) * q) * ((2 * p) * q) == (q * q + p
                * p) * (q * q + p * p)) by (nonlinear_arith);
        }
        Some(Rotor { c, s, d })
    }
}

/// The components of a well-formed rotor are strictly inside the `i128`
/// range, so negating them is safe.
pub proof fn lemma_rotor_component_in_range(r: Rotor)
    requires
        rotor_wf(r),
    ensures
        r.s > i128::MIN,
        r.c > i128::MIN,
{
    assert(r.c * r.c >= 0) by (nonlinear_arith);
    assert(r.s * r.s >= 0) by (nonlinear_arith);
    if r.s == i128::MIN {
        assert(r.s * r.s > r.d * r.d) by (nonlinear_arith)
            requires r.s == i128::MIN && 0 < r.d <= i128::MAX;
        assert(false);
    }
    if r.c == i128::MIN {
        assert(r.c * r.c > r.d * r.d) by (nonlinear_arith)
            requires r.c == i128::MIN && 0 < r.d <= i128::MAX;
        assert(false);
    }
}

/// The six angles of a 4D orientation, one per rotation plane, in the fixed
/// canonical order xy, xz, xw, yz, yw, zw.
#[derive(Clone, Copy)]
pub struct Rotation6 {
    pub xy: Rotor,
    pub xz: Rotor,
    pub xw: Rotor,
    pub yz: Rotor,
    pub yw: Rotor,
    pub zw: Rotor,
}

/// Well-formedness: every plane's rotor is well-formed.
pub open spec fn rot6_wf(rs: Rotation6) -> bool {
    rotor_wf(rs.xy) && rotor_wf(rs.xz) && rotor_wf(rs.xw) && rotor_wf(rs.yz) && rotor_wf(rs.yw)
        && rotor_wf(rs.zw)
}

impl Rotation6 {
    /// Bundles the six plane rotors.
    pub fn new(xy: Rotor, xz: Rotor, xw: Rotor, yz: Rotor, yw: Rotor, zw: Rotor) -> (r: Rotation6)
        ensures
            r == (Rotation6 { xy, xz, xw, yz, yw, zw }),
    {
        Rotation6 { xy, xz, xw, yz, yw, zw }
    }

    /// The orientation with all six angles zero.
    pub fn identity() -> (r: Rotation6)
        ensures
            rot6_wf(r),
            r.xy == (Rotor { c: 1, s: 0, d: 1 }) && r.xy == r.xz && r.xy == r.xw && r.xy == r.yz
                && r.xy == r.yw && r.xy == r.zw,
    {
        let one = Rotor::identity();
        Rotation6 { xy: one, xz: one, xw: one, yz: one, yw: one, zw: one }
    }

    /// All six angles negated.
    pub fn neg(&self) -> (r: Rotation6)
        requires
            rot6_wf(*self),
        ensures
            rot6_wf(r),
            rot6_neg_of(r, *self),
    {
        Rotation6 {
            xy: self.xy.neg(),
            xz: self.xz.neg(),
            xw: self.xw.neg(),
            yz: self.yz.neg(),
            yw: self.yw.neg(),
            zw: self.zw.neg(),
        }
    }
}

/// `a` holds exactly the opposite angles of `b`, plane by plane.
pub open spec fn rotor_neg_of(a: Rotor, b: Rotor) -> bool {
    a.c == b.c && a.s == -(b.s as int) && a.d == b.d
}

pub open spec fn rot6_neg_of(a: Rotation6, b: Rotation6) -> bool {
    rotor_neg_of(a.xy, b.xy) && rotor_neg_of(a.xz, b.xz) && rotor_neg_of(a.xw, b.xw) && rotor_neg_of(
        a.yz,
        b.yz,
    ) && rotor_neg_of(a.yw, b.yw) && rotor_neg_of(a.zw, b.zw)
}

/// Entry (p, q) of the plane rotation of `rot` acting on the plane of axes
/// `a` and `b`: the identity except for the 2x2 rotation block.
pub open spec fn rot_val(rot: Rotor, a: int, b: int, p: int, q: int) -> int {
    if p == a && q == a {
        rot.c as int
    } else if p == a && q == b {
        -(rot.s as int)
    } else if p == b && q == a {
        rot.s as int
    } else if p == b && q == b {
        rot.c as int
    } else if p == q {
        rot.d as int
    } else {
        0
    }
}

/// The plane-rotation matrix of `rot` on axes `a` (rotated from) and `b`
/// (rotated into), as a spec value.
pub open spec fn rot_mat(rot: Rotor, a: int, b: int) -> MatS {
    MatS { n: Seq::new(25, |k: int| rot_val(rot, a, b, k / 5, k % 5)), d: rot.d as int }
}

/// The elementary rotation by `rot` in the plane spanned by the distinct
/// axes `axis_from` and `axis_into` (indices in 0..4: x, y, z, w).
pub fn rotation_single(rot: &Rotor, axis_from: usize, axis_into: usize) -> (r: Matrix5)
    requires
        rotor_wf(*rot),
        axis_from < 4,
        axis_into < 4,
        axis_from != axis_into,
    ensures
        m_wf(r@),
        r@ == rot_mat(*rot, axis_from as int, axis_into as int),
{
    let ns = rot.neg().s;
    let mut nums = diag_cells(rot.d);
    let ghost base = nums@;
    nums.set(axis_from * 5 + axis_from, rot.c);
    nums.set(axis_from * 5 + axis_into, ns);
    nums.set(axis_into * 5 + axis_from, rot.s);
    nums.set(axis_into * 5 + axis_into, rot.c);
    let r = Matrix5 { nums, den: rot.d };
    proof {
        let a = axis_from as int;
        let b = axis_into as int;
        assert forall|k: int| 0 <= k < 25 implies r@.n[k] == rot_val(*rot, a, b, k / 5, k % 5) by {
            lemma_pos(k);
            let p = k / 5;
            let q = k % 5;
            lemma_idx(a, a);
            lemma_idx(a, b);
            lemma_idx(b, a);
            lemma_idx(b, b);
            lemma_diag_pos(p, q);
            assert(r@.n[k] == nums@[k] as int);
            if k != a * 5 + a && k != a * 5 + b && k != b * 5 + a && k != b * 5 + b {
                assert(nums@[k] == base[k]);
                assert(ints(base)[k] == base[k] as int);
            }
        }
        assert(r@.n =~= rot_mat(*rot, a, b).n);
    }
    r
}

/// The full 4D rotation of the six plane angles, composed in the fixed
/// order zw, yw, yz, xw, xz, xy (the xy rotation acts first on a vector).
pub open spec fn rot_full_mat(rs: Rotation6) -> MatS {
    m_mul(
        rot_mat(rs.zw, 2, 3),
        m_mul(
            rot_mat(rs.yw, 1, 3),
            m_mul(
                rot_mat(rs.yz, 1, 2),
                m_mul(rot_mat(rs.xw, 0, 3), m_mul(rot_mat(rs.xz, 0, 2), rot_mat(rs.xy, 0, 1))),
            ),
        ),
    )
}

/// Every step of the `rotation_full` product fits in 128-bit integers.
pub open spec fn rot_full_fits(rs: Rotation6) -> bool {
    let rxy = rot_mat(rs.xy, 0, 1);
    let rxz = rot_mat(rs.xz, 0, 2);
    let rxw = rot_mat(rs.xw, 0, 3);
    let ryz = rot_mat(rs.yz, 1, 2);
    let ryw = rot_mat(rs.yw, 1, 3);
    let rzw = rot_mat(rs.zw, 2, 3);
    &&& mul_fits(rxz, rxy)
    &&& mul_fits(rxw, m_mul(rxz, rxy))
    &&& mul_fits(ryz, m_mul(rxw, m_mul(rxz, rxy)))
    &&& mul_fits(ryw, m_mul(ryz, m_mul(rxw, m_mul(rxz, rxy))))
    &&& mul_fits(rzw, m_mul(ryw, m_mul(ryz, m_mul(rxw, m_mul(rxz, rxy)))))
}

/// The 4D rotation matrix of the six plane angles, in the fixed composition
/// order zw, yw, yz, xw, xz, xy.  `None` exactly when an intermediate does
/// not fit in `i128`.
pub fn rotation_full(rots: &Rotation6) -> (r: Option<Matrix5>)
    requires
        rot6_wf(*rots),
    ensures
        r is Some <==> rot_full_fits(*rots),
        r is Some ==> m_wf(r->Some_0@) && r->Some_0@ == rot_full_mat(*rots),
{
    let rxy = rotation_single(&rots.xy, 0, 1);
    let rxz = rotation_single(&rots.xz, 0, 2);
    let rxw = rotation_single(&rots.xw, 0, 3);
    let ryz = rotation_single(&rots.yz, 1, 2);
    let ryw = rotation_single(&rots.yw, 1, 3);
    let rzw = rotation_single(&rots.zw, 2, 3);
    let m1 = mat_mul(&rxz, &rxy)?;
    let m2 = mat_mul(&rxw, &m1)?;
    let m3 = mat_mul(&ryz, &m2)?;
    let m4 = mat_mul(&ryw, &m3)?;
    mat_mul(&rzw, &m4)
}

/// The same six plane rotations composed in the exactly reversed order
/// xy, xz, xw, yz, yw, zw.
pub open spec fn rot_full_inv_mat(rs: Rotation6) -> MatS {
    m_mul(
        rot_mat(rs.xy, 0, 1),
        m_mul(
            rot_mat(rs.xz, 0, 2),
            m_mul(
                rot_mat(rs.xw, 0, 3),
                m_mul(rot_mat(rs.yz, 1, 2), m_mul(rot_mat(rs.yw, 1, 3), rot_mat(rs.zw, 2, 3))),
            ),
        ),
    )
}

/// Every step of the `rotation_full_inv` product fits in 128-bit integers.
pub open spec fn rot_full_inv_fits(rs: Rotation6) -> bool {
    let rxy = rot_mat(rs.xy, 0, 1);
    let rxz = rot_mat(rs.xz, 0, 2);
    let rxw = rot_mat(rs.xw, 0, 3);
    let ryz = rot_mat(rs.yz, 1, 2);
    let ryw = rot_mat(rs.yw, 1, 3);
    let rzw = rot_mat(rs.zw, 2, 3);
    &&& mul_fits(ryw, rzw)
    &&& mul_fits(ryz, m_mul(ryw, rzw))
    &&& mul_fits(rxw, m_mul(ryz, m_mul(ryw, rzw)))
    &&& mul_fits(rxz, m_mul(rxw, m_mul(ryz, m_mul(ryw, rzw))))
    &&& mul_fits(rxy, m_mul(rxz, m_mul(rxw, m_mul(ryz, m_mul(ryw, rzw)))))
}

/// The analytically reversed composition of the six plane rotations, used
/// for camera-to-world orientation.  `None` exactly when an intermediate
/// does not fit in `i128`.
pub fn rotation_full_inv(rots: &Rotation6) -> (r: Option<Matrix5>)
    requires
        rot6_wf(*rots),
    ensures
        r is Some <==> rot_full_inv_fits(*rots),
        r is Some ==> m_wf(r->Some_0@) && r->Some_0@ == rot_full_inv_mat(*rots),
{
    let rxy = rotation_single(&rots.xy, 0, 1);
    let rxz = rotation_single(&rots.xz, 0, 2);
    let rxw = rotation_single(&rots.xw, 0, 3);
    let ryz = rotation_single(&rots.yz, 1, 2);
    let ryw = rotation_single(&rots.yw, 1, 3);
    let rzw = rotation_single(&rots.zw, 2, 3);
    let m1 = mat_mul(&ryw, &rzw)?;
    let m2 = mat_mul(&ryz, &m1)?;
    let m3 = mat_mul(&rxw, &m2)?;
    let m4 = mat_mul(&rxz, &m3)?;
    mat_mul(&rxy, &m4)
}

/// The full pose matrix `shift(pos) * rotation_full(rotation) * scale(size)`:
/// scale first (local sizing), then orientation, then placement.
pub open spec fn full_transform_mat(pos: Vector4, size: Vector4, rotation: Rotation6) -> MatS {
    m_mul(shift_mat(pos), m_mul(rot_full_mat(rotation), scale_mat(size)))
}

/// Every step of the `full_transform` product fits in 128-bit integers.
pub open spec fn full_transform_fits(pos: Vector4, size: Vector4, rotation: Rotation6) -> bool {
    &&& v4_mat_fits(pos)
    &&& rot_full_fits(rotation)
    &&& v4_mat_fits(size)
    &&& mul_fits(rot_full_mat(rotation), scale_mat(size))
    &&& mul_fits(shift_mat(pos), m_mul(rot_full_mat(rotation), scale_mat(size)))
}

/// The pose of an object: translation by `pos` of the rotation by
/// `rotation` of the scaling by `size`.  `None` exactly when an
/// intermediate does not fit in `i128`.
pub fn full_transform(pos: &Vector4, size: &Vector4, rotation: &Rotation6) -> (r: Option<Matrix5>)
    requires
        v4_wf(*pos),
        v4_wf(*size),
        rot6_wf(*rotation),
    ensures
        r is Some <==> full_transform_fits(*pos, *size, *rotation),
        r is Some ==> m_wf(r->Some_0@) && r->Some_0@ == full_transform_mat(*pos, *size, *rotation),
{
    let t = shift(pos)?;
    let rm = rotation_full(rotation)?;
    let s = scale(size)?;
    let rs = mat_mul(&rm, &s)?;
    mat_mul(&t, &rs)
}

/// The common denominator of the perspective matrix, grouped exactly as
/// `perspective_matrix` computes it.
pub open spec fn persp_den(tan_half: Rat, aspect: Rat, near: Rat, far: Rat, w_blend: Rat) -> int {
    let q = far.num * near.den - near.num * far.den;
    let a1 = aspect.num * tan_half.num;
    let b1 = a1 * tan_half.num;
    let b2 = b1 * q;
    b2 * w_blend.den
}

/// Cell `k` (row-major) of the 4D perspective matrix.  The projection plane
/// scaling sits at (0,0) and (1,1); row 2 maps z to clip depth; row 3 passes
/// the fourth spatial axis through; row 4 derives the perspective divisor
/// from z and, weighted by the blend factor, from w.
pub open spec fn persp_cell(
    tan_half: Rat,
    aspect: Rat,
    near: Rat,
    far: Rat,
    w_blend: Rat,
    k: int,
) -> int {
    let q = far.num * near.den - near.num * far.den;
    let sm = far.num * near.den + near.num * far.den;
    let a1 = aspect.num * tan_half.num;
    let b1 = a1 * tan_half.num;
    let b2 = b1 * q;
    let qw = q * w_blend.den;
    let b1w = b1 * w_blend.den;
    if k == 0 {
        (aspect.den * tan_half.den) * (tan_half.num * qw)
    } else if k == 6 {
        tan_half.den * (a1 * qw)
    } else if k == 12 {
        (-sm) * b1w
    } else if k == 14 {
        (-(2 * (far.num * near.num))) * b1w
    } else if k == 18 {
        b2 * w_blend.den
    } else if k == 22 {
        -(b2 * w_blend.den)
    } else if k == 23 {
        (-(w_blend.num as int)) * b2
    } else {
        0
    }
}

/// The perspective matrix as a spec value.
pub open spec fn persp_mat(tan_half: Rat, aspect: Rat, near: Rat, far: Rat, w_blend: Rat) -> MatS {
    MatS {
        n: Seq::new(25, |k: int| persp_cell(tan_half, aspect, near, far, w_blend, k)),
        d: persp_den(tan_half, aspect, near, far, w_blend),
    }
}

/// Every intermediate of the perspective construction fits in `i128`.
pub open spec fn persp_fits(tan_half: Rat, aspect: Rat, near: Rat, far: Rat, w_blend: Rat) -> bool {
    let qa = far.num * near.den;
    let qb = near.num * far.den;
    let q = qa - qb;
    let sm = qa + qb;
    let a1 = aspect.num * tan_half.num;
    let b1 = a1 * tan_half.num;
    let b2 = b1 * q;
    let dd = b2 * w_blend.den;
    let qw = q * w_blend.den;
    let tqw = tan_half.num * qw;
    let adtd = aspect.den * tan_half.den;
    let a1qw = a1 * qw;
    let b1w = b1 * w_blend.den;
    let fnn = far.num * near.num;
    let fnn2 = 2 * fnn;
    &&& in_i128(qa)
    &&& in_i128(qb)
    &&& in_i128(q)
    &&& in_i128(sm)
    &&& in_i128(a1)
    &&& in_i128(b1)
    &&& in_i128(b2)
    &&& in_i128(dd)
    &&& in_i128(qw)
    &&& in_i128(tqw)
    &&& in_i128(adtd)
    &&& in_i128(adtd * tqw)
    &&& in_i128(a1qw)
    &&& in_i128(tan_half.den * a1qw)
    &&& in_i128(b1w)
    &&& in_i128(-sm)
    &&& in_i128((-sm) * b1w)
    &&& in_i128(fnn)
    &&& in_i128(fnn2)
    &&& in_i128(-fnn2)
    &&& in_i128((-fnn2) * b1w)
    &&& in_i128(-dd)
    &&& in_i128(-(w_blend.num as int))
    &&& in_i128((-(w_blend.num as int)) * b2)
}

/// The 4D perspective projection matrix.  `tan_half` is the tangent of half
/// the field of view; `aspect` the width-to-height ratio; `near` and `far`
/// the clip planes with `0 < near < far`; `w_blend` weighs how strongly the
/// fourth spatial axis joins z in the perspective divisor (0: none, 1: like
/// a second depth axis).  `None` exactly when an intermediate does not fit
/// in `i128`.
pub fn perspective_matrix(
    tan_half: &Rat,
    aspect: &Rat,
    near: &Rat,
    far: &Rat,
    w_blend: &Rat,
) -> (r: Option<Matrix5>)
    requires
        rat_wf(*tan_half),
        rat_wf(*aspect),
        rat_wf(*near),
        rat_wf(*far),
        rat_wf(*w_blend),
        tan_half.num > 0,
        aspect.num > 0,
        near.num > 0,
        near.num * far.den < far.num * near.den,
    ensures
        r is Some <==> persp_fits(*tan_half, *aspect, *near, *far, *w_blend),
        r is Some ==> m_wf(r->Some_0@) && r->Some_0@ == persp_mat(
            *tan_half,
            *aspect,
            *near,
            *far,
            *w_blend,
        ),
{
    let qa = far.num.checked_mul(near.den)?;
    let qb = near.num.checked_mul(far.den)?;
    let q = qa.checked_sub(qb)?;
    let sm = qa.checked_add(qb)?;
    let a1 = aspect.num.checked_mul(tan_half.num)?;
    let b1 = a1.checked_mul(tan_half.num)?;
    let b2 = b1.checked_mul(q)?;
    let dd = b2.checked_mul(w_blend.den)?;
    let qw = q.checked_mul(w_blend.den)?;
    let tqw = tan_half.num.checked_mul(qw)?;
    let adtd = aspect.den.checked_mul(tan_half.den)?;
    let n0 = adtd.checked_mul(tqw)?;
    let a1qw = a1.checked_mul(qw)?;
    let n6 = tan_half.den.checked_mul(a1qw)?;
    let b1w = b1.checked_mul(w_blend.den)?;
    let nsm = 0i128.checked_sub(sm)?;
    let n12 = nsm.checked_mul(b1w)?;
    let fnn = far.num.checked_mul(near.num)?;
    let fnn2 = 2i128.checked_mul(fnn)?;
    let nfnn2 = 0i128.checked_sub(fnn2)?;
    let n14 = nfnn2.checked_mul(b1w)?;
    let n22 = 0i128.checked_sub(dd)?;
    let nwn = 0i128.checked_sub(w_blend.num)?;
    let n23 = nwn.checked_mul(b2)?;
    let mut nums = diag_cells(0);
    let ghost base = nums@;
    nums.set(0, n0);
    nums.set(6, n6);
    nums.set(12, n12);
    nums.set(14, n14);
    nums.set(18, dd);
    nums.set(22, n22);
    nums.set(23, n23);
    let r = Matrix5 { nums, den: dd };
    proof {
        assert(persp_den(*tan_half, *aspect, *near, *far, *w_blend) > 0) by (nonlinear_arith)
            requires
                tan_half.num > 0,
                aspect.num > 0,
                w_blend.den > 0,
                far.num * near.den - near.num * far.den > 0,
                persp_den(*tan_half, *aspect, *near, *far, *w_blend) == (((aspect.num
                    * tan_half.num) * tan_half.num) * (far.num * near.den - near.num * far.den))
                    * w_blend.den,
        ;
        assert forall|k: int| 0 <= k < 25 implies r@.n[k] == persp_cell(
            *tan_half,
            *aspect,
            *near,
            *far,
            *w_blend,
            k,
        ) by {
            assert(r@.n[k] == nums@[k] as int);
            if k != 0 && k != 6 && k != 12 && k != 14 && k != 18 && k != 22 && k != 23 {
                assert(nums@[k] == base[k]);
                assert(ints(base)[k] == base[k] as int);
            }
        }
        assert(r@.n =~= persp_mat(*tan_half, *aspect, *near, *far, *w_blend).n);
    }
    Some(r)
}

/// The component-wise opposite of `v`, as a spec value (meaningful when no
/// numerator is `i128::MIN`).
pub open spec fn v4_neg_val(v: Vector4) -> Vector4 {
    Vector4 {
        x: Rat { num: (-(v.x.num as int)) as i128, den: v.x.den },
        y: Rat { num: (-(v.y.num as int)) as i128, den: v.y.den },
        z: Rat { num: (-(v.z.num as int)) as i128, den: v.z.den },
        w: Rat { num: (-(v.w.num as int)) as i128, den: v.w.den },
    }
}

/// The six opposite angles of `rs`, as a spec value.
pub open spec fn rot6_neg_val(rs: Rotation6) -> Rotation6 {
    Rotation6 {
        xy: Rotor { c: rs.xy.c, s: (-(rs.xy.s as int)) as i128, d: rs.xy.d },
        xz: Rotor { c: rs.xz.c, s: (-(rs.xz.s as int)) as i128, d: rs.xz.d },
        xw: Rotor { c: rs.xw.c, s: (-(rs.xw.s as int)) as i128, d: rs.xw.d },
        yz: Rotor { c: rs.yz.c, s: (-(rs.yz.s as int)) as i128, d: rs.yz.d },
        yw: Rotor { c: rs.yw.c, s: (-(rs.yw.s as int)) as i128, d: rs.yw.d },
        zw: Rotor { c: rs.zw.c, s: (-(rs.zw.s as int)) as i128, d: rs.zw.d },
    }
}

/// The 25 entries of a matrix in row-major order, each as a rational
/// scalar over the matrix's denominator.
pub fn matrix_to_array(mat: &Matrix5) -> (r: Vec<Rat>)
    requires
        m_wf(mat@),
    ensures
        r@.len() == 25,
        forall|k: int| 0 <= k < 25 ==> rat_wf(#[trigger] r@[k]) && r@[k].num as int == mat@.n[k]
            && r@[k].den as int == mat@.d,
{
    let mut cells: Vec<Rat> = Vec::new();
    let mut k: usize = 0;
    while k < 25
        invariant
            k <= 25,
            m_wf(mat@),
            cells@.len() == k,
            forall|t: int| 0 <= t < k ==> rat_wf(#[trigger] cells@[t]) && cells@[t].num as int
                == mat@.n[t] && cells@[t].den as int == mat@.d,
        decreases 25 - k,
    {
        cells.push(Rat { num: mat.nums[k], den: mat.den });
        k = k + 1;
    }
    cells
}

} // verus!
