//! Exact rational scalars.
//!
//! A `Rat` is a fraction `num / den` of 128-bit integers with a positive
//! denominator.  Fractions are not kept reduced; equality of values is the
//! cross-multiplication relation [`rat_eq`].  All arithmetic is checked: an
//! operation returns `None` exactly when some intermediate integer would
//! leave the `i128` range.

use vstd::prelude::*;

verus! {

/// An exact rational scalar `num / den`.  Well-formed values have `den > 0`.
#[derive(Clone, Copy)]
pub struct Rat {
    pub num: i128,
    pub den: i128,
}

/// Well-formedness: the denominator is positive.
pub open spec fn rat_wf(r: Rat) -> bool {
    r.den > 0
}

/// The fractions `an / ad` and `bn / bd` denote the same rational value.
pub open spec fn rat_eq(an: int, ad: int, bn: int, bd: int) -> bool {
    an * bd == bn * ad
}

/// `x` fits in a 128-bit signed integer.
pub open spec fn in_i128(x: int) -> bool {
    i128::MIN <= x <= i128::MAX
}

/// The reciprocal of `x`, sign-normalised: the value `recip` computes
/// (meaningful when `x.num` is neither zero nor `i128::MIN`).
pub open spec fn rat_recip_val(x: Rat) -> Rat {
    if x.num > 0 {
        Rat { num: x.den, den: x.num }
    } else {
        Rat { num: (-(x.den as int)) as i128, den: (-(x.num as int)) as i128 }
    }
}

impl Rat {
    /// Builds `num / den`, normalising the sign of the denominator.
    /// Returns `None` exactly when `den == 0`, or when a negated component
    /// would not fit in an `i128`.
    pub fn new(num: i128, den: i128) -> (r: Option<Rat>)
        ensures
            r is Some <==> den != 0 && (den < 0 ==> num > i128::MIN && den > i128::MIN),
            r is Some ==> rat_wf(r->Some_0) && rat_eq(r->Some_0.num as int, r->Some_0.den as int, num as int, den as int),
    {
        proof {
            assert((-num) * den == num * (-den)) by (nonlinear_arith);
        }
        if den > 0 {
            Some(Rat { num, den })
        } else if den == 0 {
            None
        } else if num > i128::MIN && den > i128::MIN {
            Some(Rat { num: -num, den: -den })
        } else {
            None
        }
    }

    /// The rational `k / 1`.
    pub fn from_int(k: i128) -> (r: Rat)
        ensures
            rat_wf(r),
            r.num == k,
            r.den == 1,
    {
        Rat { num: k, den: 1 }
    }

    /// Exact negation.  `None` exactly when the numerator is `i128::MIN`.
    pub fn neg(self) -> (r: Option<Rat>)
        requires
            rat_wf(self),
        ensures
            r is Some <==> self.num > i128::MIN,
            r is Some ==> rat_wf(r->Some_0) && r->Some_0.num == -(self.num as int) && r->Some_0.den == self.den,
    {
        if self.num > i128::MIN {
            Some(Rat { num: -self.num, den: self.den })
        } else {
            None
        }
    }

    /// Exact reciprocal: `den / num`, sign-normalised.  `None` exactly when
    /// the value is zero or the sign flip would not fit.
    pub fn recip(self) -> (r: Option<Rat>)
        requires
            rat_wf(self),
        ensures
            r is Some <==> self.num != 0 && (self.num < 0 ==> self.num > i128::MIN),
            r is Some ==> rat_wf(r->Some_0) && r->Some_0 == rat_recip_val(self) && r->Some_0.num
                * self.num == r->Some_0.den * self.den,
    {
        proof {
            assert(self.den * self.num == self.num * self.den) by (nonlinear_arith);
            assert((-self.den) * self.num == (-self.num) * self.den) by (nonlinear_arith);
        }
        if self.num > 0 {
            Some(Rat { num: self.den, den: self.num })
        } else if self.num == 0 {
            None
        } else if self.num > i128::MIN {
            Some(Rat { num: -self.den, den: -self.num })
        } else {
            None
        }
    }

    /// Exact product.  `None` exactly when a component product overflows.
    pub fn mul(self, other: Rat) -> (r: Option<Rat>)
        requires
            rat_wf(self),
            rat_wf(other),
        ensures
            r is Some <==> in_i128(self.num * other.num) && in_i128(self.den * other.den),
            r is Some ==> rat_wf(r->Some_0)
                && r->Some_0.num == self.num * other.num
                && r->Some_0.den == self.den * other.den,
    {
        let num = self.num.checked_mul(other.num)?;
        let den = self.den.checked_mul(other.den)?;
        proof {
            assert(self.den * other.den > 0) by (nonlinear_arith)
                requires self.den > 0 && other.den > 0;
        }
        Some(Rat { num, den })
    }
}

} // verus!
