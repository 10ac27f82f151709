//! Dense 5x5 matrices over exact rationals.
//!
//! A `Matrix5` stores 25 integer entries in row-major order together with one
//! positive common denominator: the matrix value has `nums[r*5+c] / den` at
//! row `r`, column `c`.  The spec-level model is [`MatS`], an unbounded
//! integer matrix with the same shape; two models denote the same rational
//! matrix when [`m_equiv`] holds (entry-wise cross multiplication).
//!
//! Multiplication is exact and checked: it returns `None` exactly when some
//! intermediate integer would leave the `i128` range ([`mul_fits`]).

use vstd::prelude::*;

use crate::rational::{in_i128, rat_wf, Rat};

verus! {

/// Spec model of a 5x5 rational matrix: 25 row-major integer numerators
/// over one common denominator.
#[verifier::ext_equal]
pub struct MatS {
    pub n: Seq<int>,
    pub d: int,
}

/// Seq of `i128` read as a Seq of unbounded integers.
pub open spec fn ints(s: Seq<i128>) -> Seq<int> {
    s.map_values(|x: i128| x as int)
}

/// Well-formedness: 25 entries, positive denominator.
pub open spec fn m_wf(m: MatS) -> bool {
    m.n.len() == 25 && m.d > 0
}

/// `a` and `b` denote the same rational matrix (entry-wise cross
/// multiplication, well-formedness included).
pub open spec fn m_equiv(a: MatS, b: MatS) -> bool {
    &&& m_wf(a)
    &&& m_wf(b)
    &&& forall|k: int| 0 <= k < 25 ==> #[trigger] (a.n[k] * b.d) == b.n[k] * a.d
}

/// The identity matrix (denominator 1).
pub open spec fn m_ident() -> MatS {
    MatS { n: Seq::new(25, |k: int| if k % 6 == 0 { 1int } else { 0int }), d: 1 }
}

/// Transposition: entry (r, c) of the result is entry (c, r) of `a`.
pub open spec fn m_transpose(a: MatS) -> MatS {
    MatS { n: Seq::new(25, |k: int| a.n[(k % 5) * 5 + k / 5]), d: a.d }
}

/// Row `i` of `a` times column `j` of `b`.
pub open spec fn dot5(a: Seq<int>, b: Seq<int>, i: int, j: int) -> int {
    a[i * 5 + 0] * b[0 * 5 + j] + a[i * 5 + 1] * b[1 * 5 + j] + a[i * 5 + 2] * b[2 * 5 + j]
        + a[i * 5 + 3] * b[3 * 5 + j] + a[i * 5 + 4] * b[4 * 5 + j]
}

/// Exact matrix product: entry-wise dot products over the product of the
/// two denominators.
pub open spec fn m_mul(a: MatS, b: MatS) -> MatS {
    MatS { n: Seq::new(25, |k: int| dot5(a.n, b.n, k / 5, k % 5)), d: a.d * b.d }
}

/// Every intermediate integer of the dot product of row `i` of `a` with
/// column `j` of `b` (the five products and the running sums, in evaluation
/// order) fits in an `i128`.
pub open spec fn dot_fits(a: Seq<int>, b: Seq<int>, i: int, j: int) -> bool {
    let p0 = a[i * 5 + 0] * b[0 * 5 + j];
    let p1 = a[i * 5 + 1] * b[1 * 5 + j];
    let p2 = a[i * 5 + 2] * b[2 * 5 + j];
    let p3 = a[i * 5 + 3] * b[3 * 5 + j];
    let p4 = a[i * 5 + 4] * b[4 * 5 + j];
    &&& in_i128(p0)
    &&& in_i128(p1)
    &&& in_i128(p2)
    &&& in_i128(p3)
    &&& in_i128(p4)
    &&& in_i128(p0 + p1)
    &&& in_i128(p0 + p1 + p2)
    &&& in_i128(p0 + p1 + p2 + p3)
    &&& in_i128(p0 + p1 + p2 + p3 + p4)
}

/// The exact product `m_mul(a, b)` can be computed in 128-bit integers.
pub open spec fn mul_fits(a: MatS, b: MatS) -> bool {
    &&& in_i128(a.d * b.d)
    &&& forall|k: int| 0 <= k < 25 ==> #[trigger] dot_fits(a.n, b.n, k / 5, k % 5)
}

/// A 5x5 matrix of exact rationals: 25 row-major numerators over one
/// positive common denominator.
pub struct Matrix5 {
    pub nums: Vec<i128>,
    pub den: i128,
}

impl View for Matrix5 {
    type V = MatS;

    open spec fn view(&self) -> MatS {
        MatS { n: ints(self.nums@), d: self.den as int }
    }
}

impl Matrix5 {
    /// The identity matrix.
    pub fn identity() -> (r: Matrix5)
        ensures
            m_wf(r@),
            r@ == m_ident(),
    {
        let mut nums: Vec<i128> = Vec::new();
        let mut k: usize = 0;
        while k < 25
            invariant
                k <= 25,
                nums@.len() == k,
                forall|t: int| 0 <= t < k ==> ints(nums@)[t] == m_ident().n[t],
            decreases 25 - k,
        {
            if k % 6 == 0 {
                nums.push(1);
            } else {
                nums.push(0);
            }
            k = k + 1;
        }
        let r = Matrix5 { nums, den: 1 };
        proof {
            assert(r@.n =~= m_ident().n);
        }
        r
    }

    /// An exact copy.
    pub fn duplicate(&self) -> (r: Matrix5)
        ensures
            r@ == self@,
    {
        let mut nums: Vec<i128> = Vec::new();
        let mut k: usize = 0;
        while k < self.nums.len()
            invariant
                k <= self.nums@.len(),
                nums@.len() == k,
                forall|t: int| 0 <= t < k ==> nums@[t] == self.nums@[t],
            decreases self.nums@.len() - k,
        {
            nums.push(self.nums[k]);
            k = k + 1;
        }
        let r = Matrix5 { nums, den: self.den };
        proof {
            assert(r@.n =~= self@.n);
        }
        r
    }

    /// The transposed matrix.
    pub fn transpose(&self) -> (r: Matrix5)
        requires
            m_wf(self@),
        ensures
            m_wf(r@),
            r@ == m_transpose(self@),
    {
        let mut nums: Vec<i128> = Vec::new();
        let mut k: usize = 0;
        while k < 25
            invariant
                k <= 25,
                m_wf(self@),
                nums@.len() == k,
                forall|t: int| 0 <= t < k ==> ints(nums@)[t] == m_transpose(self@).n[t],
            decreases 25 - k,
        {
            let ghost pre = nums@;
            nums.push(self.nums[(k % 5) * 5 + k / 5]);
            proof {
                assert forall|t: int| 0 <= t < k + 1 implies ints(nums@)[t] == m_transpose(
                    self@,
                ).n[t] by {
                    if t < k {
                        assert(ints(nums@)[t] == ints(pre)[t]);
                    } else {
                        assert(ints(nums@)[t] == self@.n[(t % 5) * 5 + t / 5]);
                    }
                }
            }
            k = k + 1;
        }
        let r = Matrix5 { nums, den: self.den };
        proof {
            assert(r@.n =~= m_transpose(self@).n);
        }
        r
    }

    /// Decides whether this matrix denotes the identity.
    pub fn is_identity(&self) -> (r: bool)
        requires
            m_wf(self@),
        ensures
            r <==> m_equiv(self@, m_ident()),
    {
        let mut k: usize = 0;
        while k < 25
            invariant
                k <= 25,
                m_wf(self@),
                forall|t: int| 0 <= t < k ==> self@.n[t] == m_ident().n[t] * self@.d,
            decreases 25 - k,
        {
            let expected: i128 = if k % 6 == 0 {
                self.den
            } else {
                0
            };
            proof {
                assert(self@.n[k as int] == self.nums@[k as int] as int);
                assert(m_ident().n[k as int] == (if k as int % 6 == 0 { 1int } else { 0int }));
            }
            if self.nums[k] != expected {
                proof {
                    assert(self@.n[k as int] != m_ident().n[k as int] * self@.d);
                    assert(self@.n[k as int] * m_ident().d != m_ident().n[k as int] * self@.d);
                }
                return false;
            }
            proof {
                assert(self@.n[k as int] == m_ident().n[k as int] * self@.d);
            }
            k = k + 1;
        }
        proof {
            assert forall|t: int| 0 <= t < 25 implies #[trigger] (self@.n[t] * m_ident().d)
                == m_ident().n[t] * self@.d by {
                assert(self@.n[t] == m_ident().n[t] * self@.d);
            }
        }
        true
    }

    /// The entry at `(row, col)` as a rational scalar.
    pub fn entry(&self, row: usize, col: usize) -> (r: Rat)
        requires
            m_wf(self@),
            row < 5,
            col < 5,
        ensures
            rat_wf(r),
            r.num as int == self@.n[row as int * 5 + col as int],
            r.den as int == self@.d,
    {
        Rat { num: self.nums[row * 5 + col], den: self.den }
    }
}

/// 25 row-major cells of a diagonal matrix with `d` in every diagonal cell.
pub(crate) fn diag_cells(d: i128) -> (r: Vec<i128>)
    ensures
        r@.len() == 25,
        forall|k: int| 0 <= k < 25 ==> ints(r@)[k] == (if k % 6 == 0 { d as int } else { 0int }),
{
    let mut nums: Vec<i128> = Vec::new();
    let mut k: usize = 0;
    while k < 25
        invariant
            k <= 25,
            nums@.len() == k,
            forall|t: int| 0 <= t < k ==> ints(nums@)[t] == (if t % 6 == 0 { d as int } else { 0int }),
        decreases 25 - k,
    {
        let ghost pre = nums@;
        if k % 6 == 0 {
            nums.push(d);
        } else {
            nums.push(0);
        }
        proof {
            assert forall|t: int| 0 <= t < k + 1 implies ints(nums@)[t] == (if t % 6 == 0 { d as int } else { 0int }) by {
                if t < k {
                    assert(ints(nums@)[t] == ints(pre)[t]);
                } else {
                    assert(ints(nums@)[t] == nums@[t] as int);
                }
            }
        }
        k = k + 1;
    }
    nums
}

/// Row `i` of `a` times column `j` of `b`, checked; `None` exactly when some
/// intermediate leaves the `i128` range.
fn dot_exec(a: &Vec<i128>, b: &Vec<i128>, i: usize, j: usize) -> (r: Option<i128>)
    requires
        a@.len() == 25,
        b@.len() == 25,
        i < 5,
        j < 5,
    ensures
        r is Some <==> dot_fits(ints(a@), ints(b@), i as int, j as int),
        r is Some ==> r->Some_0 as int == dot5(ints(a@), ints(b@), i as int, j as int),
{
    let p0 = a[i * 5 + 0].checked_mul(b[0 * 5 + j])?;
    let p1 = a[i * 5 + 1].checked_mul(b[1 * 5 + j])?;
    let p2 = a[i * 5 + 2].checked_mul(b[2 * 5 + j])?;
    let p3 = a[i * 5 + 3].checked_mul(b[3 * 5 + j])?;
    let p4 = a[i * 5 + 4].checked_mul(b[4 * 5 + j])?;
    let s1 = p0.checked_add(p1)?;
    let s2 = s1.checked_add(p2)?;
    let s3 = s2.checked_add(p3)?;
    let s4 = s3.checked_add(p4)?;
    Some(s4)
}

/// The exact product of two matrices; `None` exactly when the computation
/// does not fit in 128-bit integers.
pub fn mat_mul(a: &Matrix5, b: &Matrix5) -> (r: Option<Matrix5>)
    requires
        m_wf(a@),
        m_wf(b@),
    ensures
        r is Some <==> mul_fits(a@, b@),
        r is Some ==> m_wf(r->Some_0@) && r->Some_0@ == m_mul(a@, b@),
{
    proof {
        assert(a@.d * b@.d > 0) by (nonlinear_arith)
            requires a@.d > 0 && b@.d > 0;
    }
    let den = match a.den.checked_mul(b.den) {
        Some(d) => d,
        None => {
            return None;
        },
    };
    let mut nums: Vec<i128> = Vec::new();
    let mut k: usize = 0;
    while k < 25
        invariant
            k <= 25,
            m_wf(a@),
            m_wf(b@),
            nums@.len() == k,
            forall|t: int| 0 <= t < k ==> #[trigger] dot_fits(a@.n, b@.n, t / 5, t % 5),
            forall|t: int| 0 <= t < k ==> ints(nums@)[t] == m_mul(a@, b@).n[t],
        decreases 25 - k,
    {
        let row = k / 5;
        let col = k % 5;
        match dot_exec(&a.nums, &b.nums, row, col) {
            Some(v) => {
                let ghost pre = nums@;
                nums.push(v);
                proof {
                    assert forall|t: int| 0 <= t < k + 1 implies ints(nums@)[t] == m_mul(
                        a@,
                        b@,
                    ).n[t] by {
                        if t < k {
                            assert(ints(nums@)[t] == ints(pre)[t]);
                        } else {
                            assert(ints(nums@)[t] == dot5(a@.n, b@.n, t / 5, t % 5));
                        }
                    }
                }
            },
            None => {
                proof {
                    assert(!dot_fits(a@.n, b@.n, k as int / 5, k as int % 5));
                }
                return None;
            },
        }
        k = k + 1;
    }
    let r = Matrix5 { nums, den };
    proof {
        assert(r@.n =~= m_mul(a@, b@).n);
        assert(forall|t: int| 0 <= t < 25 ==> #[trigger] dot_fits(a@.n, b@.n, t / 5, t % 5));
    }
    Some(r)
}

} // verus!
