use vstd::prelude::*;

use crate::model::Model;
use crate::ops::AddInverse;
use crate::ops::AddOp;
use crate::ops::MulInverse;
use crate::ops::MulOp;
use crate::ops::One;
use crate::ops::Subtract;
use crate::ops::Zero;

verus! {

/// An ordered pair `(a, b)` standing for `a + b·i`, over any component
/// type `T`.  Value semantics throughout: every operation returns a new
/// pair.  The model of a complex value is the pair of its component
/// models.
#[derive(Clone, Copy, PartialEq, Eq, Debug)]
pub struct Complex<T> {
    a: T,
    b: T,
}

impl<T> Complex<T> {
    /// The real component.
    pub closed spec fn spec_re(self) -> T {
        self.a
    }

    /// The imaginary component.
    pub closed spec fn spec_im(self) -> T {
        self.b
    }

    /// Builds the pair `a + b·i`.
    pub fn new(a: T, b: T) -> (r: Self)
        ensures
            r.spec_re() == a,
            r.spec_im() == b,
    {
        Complex { a, b }
    }

    /// Hands back the two components, real first.
    pub fn into_parts(self) -> (p: (T, T))
        ensures
            p.0 == self.spec_re(),
            p.1 == self.spec_im(),
    {
        (self.a, self.b)
    }
}

impl<T: Model> Model for Complex<T> {
    type M = (T::M, T::M);

    open spec fn model(self) -> (T::M, T::M) {
        (self.spec_re().model(), self.spec_im().model())
    }

    open spec fn wf(m: (T::M, T::M)) -> bool {
        T::wf(m.0) && T::wf(m.1)
    }
}

impl<T: AddOp> AddOp for Complex<T> {
    /// Component-wise sum.
    open spec fn spec_add(m1: (T::M, T::M), m2: (T::M, T::M)) -> (T::M, T::M) {
        (T::spec_add(m1.0, m2.0), T::spec_add(m1.1, m2.1))
    }

    open spec fn add_req(m1: (T::M, T::M), m2: (T::M, T::M)) -> bool {
        T::add_req(m1.0, m2.0) && T::add_req(m1.1, m2.1)
    }

    fn add(self, rhs: Self) -> (r: Self) {
        Complex { a: self.a.add(rhs.a), b: self.b.add(rhs.b) }
    }
}

impl<T: AddOp + Copy> Complex<T> {
    /// Adds `rhs` into `self`, component-wise.
    pub fn add_assign(&mut self, rhs: Self)
        requires
            Self::wf(old(self).model()),
            Self::wf(rhs.model()),
            Self::add_req(old(self).model(), rhs.model()),
        ensures
            final(self).model() == Self::spec_add(old(self).model(), rhs.model()),
            Self::wf(final(self).model()),
    {
        let a = self.a;
        let b = self.b;
        self.a = a.add(rhs.a);
        self.b = b.add(rhs.b);
    }
}

impl<T: AddInverse> AddInverse for Complex<T> {
    /// Component-wise negation.
    open spec fn spec_neg(m: (T::M, T::M)) -> (T::M, T::M) {
        (T::spec_neg(m.0), T::spec_neg(m.1))
    }

    open spec fn neg_req(m: (T::M, T::M)) -> bool {
        T::neg_req(m.0) && T::neg_req(m.1)
    }

    fn negate(self) -> (r: Self) {
        Complex { a: self.a.negate(), b: self.b.negate() }
    }

    proof fn neg_wf(m: (T::M, T::M)) {
        T::neg_wf(m.0);
        T::neg_wf(m.1);
    }
}

impl<T: MulOp + AddOp + AddInverse + Copy> MulOp for Complex<T> {
    /// The complex product rule: `(a, b) * (c, d)` is
    /// `(a·c - b·d, a·d + b·c)`, with the subtraction spelled as
    /// addition of the negation.
    open spec fn spec_mul(m1: (T::M, T::M), m2: (T::M, T::M)) -> (T::M, T::M) {
        (
            T::spec_add(T::spec_mul(m1.0, m2.0), T::spec_neg(T::spec_mul(m1.1, m2.1))),
            T::spec_add(T::spec_mul(m1.0, m2.1), T::spec_mul(m1.1, m2.0)),
        )
    }

    open spec fn mul_req(m1: (T::M, T::M), m2: (T::M, T::M)) -> bool {
        &&& T::mul_req(m1.0, m2.0)
        &&& T::mul_req(m1.1, m2.1)
        &&& T::mul_req(m1.0, m2.1)
        &&& T::mul_req(m1.1, m2.0)
        &&& T::neg_req(T::spec_mul(m1.1, m2.1))
        &&& T::add_req(T::spec_mul(m1.0, m2.0), T::spec_neg(T::spec_mul(m1.1, m2.1)))
        &&& T::add_req(T::spec_mul(m1.0, m2.1), T::spec_mul(m1.1, m2.0))
    }

    fn mul(self, rhs: Self) -> (r: Self) {
        let re = MulOp::mul(self.a, rhs.a).subtract(MulOp::mul(self.b, rhs.b));
        let im = MulOp::mul(self.a, rhs.b).add(MulOp::mul(self.b, rhs.a));
        Complex { a: re, b: im }
    }
}

impl<T: MulInverse> Complex<T> {
    /// Component-wise reciprocal: `(1/a, 1/b)`.
    ///
    /// A deliberate simplification of complex inversion, applied
    /// consistently across the crate: the mathematically exact inverse
    /// would be the conjugate divided by the squared norm.
    pub fn inverse(self) -> (r: Self)
        requires
            Self::wf(self.model()),
            T::recip_req(self.model().0),
            T::recip_req(self.model().1),
        ensures
            r.model() == (T::spec_recip(self.model().0), T::spec_recip(self.model().1)),
            Self::wf(r.model()),
    {
        Complex { a: self.a.inverse(), b: self.b.inverse() }
    }
}

impl<T: MulInverse> MulInverse for Complex<T> {
    /// Component-wise reciprocal; see [`Complex::inverse`].
    open spec fn spec_recip(m: (T::M, T::M)) -> (T::M, T::M) {
        (T::spec_recip(m.0), T::spec_recip(m.1))
    }

    open spec fn recip_req(m: (T::M, T::M)) -> bool {
        T::recip_req(m.0) && T::recip_req(m.1)
    }

    fn inverse(self) -> (r: Self) {
        Complex { a: self.a.inverse(), b: self.b.inverse() }
    }
}

impl<T: Zero> Zero for Complex<T> {
    /// The component identity, placed in both components.
    open spec fn spec_zero() -> (T::M, T::M) {
        (T::spec_zero(), T::spec_zero())
    }

    fn zero() -> (r: Self) {
        Complex { a: T::zero(), b: T::zero() }
    }
}

impl<T: One> One for Complex<T> {
    /// The component identity, placed in both components.  Note that
    /// `(1, 1)` is not the unit of the complex product; the crate keeps
    /// the component-wise constant its carriers are built from.
    open spec fn spec_one() -> (T::M, T::M) {
        (T::spec_one(), T::spec_one())
    }

    fn one() -> (r: Self) {
        Complex { a: T::one(), b: T::one() }
    }
}

} // verus!
