use vstd::prelude::*;

use crate::model::Model;

verus! {

/// Addition on a carrier type.
///
/// `spec_add` is the mathematical addition on models; it is total, so
/// the algebraic laws can be stated without side conditions.  The
/// executable `add` is partial: `add_req` holds exactly on the inputs
/// for which the machine operation is defined (for a bounded scalar,
/// that the mathematical sum is representable).
pub trait AddOp: Model {
    /// Mathematical addition on models.
    spec fn spec_add(m1: Self::M, m2: Self::M) -> Self::M;

    /// On which models the executable addition is defined.
    spec fn add_req(m1: Self::M, m2: Self::M) -> bool;

    /// Executable addition; returns exactly the modelled sum.
    fn add(self, rhs: Self) -> (r: Self)
        requires
            Self::wf(self.model()),
            Self::wf(rhs.model()),
            Self::add_req(self.model(), rhs.model()),
        ensures
            r.model() == Self::spec_add(self.model(), rhs.model()),
            Self::wf(r.model()),
    ;
}

/// Additive inverse (negation) on a carrier type.
pub trait AddInverse: Model {
    /// Mathematical negation on models.
    spec fn spec_neg(m: Self::M) -> Self::M;

    /// On which models the executable negation is defined.
    spec fn neg_req(m: Self::M) -> bool;

    /// Executable negation; returns exactly the modelled negation.
    fn negate(self) -> (r: Self)
        requires
            Self::wf(self.model()),
            Self::neg_req(self.model()),
        ensures
            r.model() == Self::spec_neg(self.model()),
            Self::wf(r.model()),
    ;

    /// Negation keeps models well-formed.
    proof fn neg_wf(m: Self::M)
        requires
            Self::wf(m),
        ensures
            Self::wf(Self::spec_neg(m)),
    ;
}

/// Subtraction, defined as addition of the negation: `a - b = a + (-b)`.
///
/// Every type with addition and negation gets it through the single
/// blanket rule below; the contract records the defining equation.
pub trait Subtract: AddOp + AddInverse {
    /// Executable subtraction; returns the modelled `a + (-b)`.
    fn subtract(self, rhs: Self) -> (r: Self)
        requires
            Self::wf(self.model()),
            Self::wf(rhs.model()),
            Self::neg_req(rhs.model()),
            Self::add_req(self.model(), Self::spec_neg(rhs.model())),
        ensures
            r.model() == Self::spec_add(self.model(), Self::spec_neg(rhs.model())),
            Self::wf(r.model()),
    ;
}

impl<T: AddOp + AddInverse> Subtract for T {
    fn subtract(self, rhs: Self) -> (r: Self) {
        self.add(rhs.negate())
    }
}

/// Multiplication of a carrier type by itself.
pub trait MulOp: Model {
    /// Mathematical multiplication on models.
    spec fn spec_mul(m1: Self::M, m2: Self::M) -> Self::M;

    /// On which models the executable multiplication is defined.
    spec fn mul_req(m1: Self::M, m2: Self::M) -> bool;

    /// Executable multiplication; returns exactly the modelled product.
    fn mul(self, rhs: Self) -> (r: Self)
        requires
            Self::wf(self.model()),
            Self::wf(rhs.model()),
            Self::mul_req(self.model(), rhs.model()),
        ensures
            r.model() == Self::spec_mul(self.model(), rhs.model()),
            Self::wf(r.model()),
    ;
}

/// Multiplicative inverse (reciprocal) on a carrier type.
///
/// For the complex type the reciprocal is taken component-wise — a
/// deliberate simplification, kept consistently, rather than the
/// conjugate-over-squared-norm inverse of complex analysis.
pub trait MulInverse: Model {
    /// Mathematical reciprocal on models.
    spec fn spec_recip(m: Self::M) -> Self::M;

    /// On which models the executable reciprocal is defined.
    spec fn recip_req(m: Self::M) -> bool;

    /// Executable reciprocal; returns exactly the modelled reciprocal.
    fn inverse(self) -> (r: Self)
        requires
            Self::wf(self.model()),
            Self::recip_req(self.model()),
        ensures
            r.model() == Self::spec_recip(self.model()),
            Self::wf(r.model()),
    ;
}

/// Division, defined as multiplication by the reciprocal:
/// `a / b = a * b.inverse()`.
///
/// Every type with multiplication and a reciprocal gets it through the
/// single blanket rule below; the contract records the defining
/// equation, and inherits the component-wise reciprocal simplification.
pub trait Divide: MulOp + MulInverse {
    /// Executable division; returns the modelled `a * recip(b)`.
    fn divide(self, rhs: Self) -> (r: Self)
        requires
            Self::wf(self.model()),
            Self::wf(rhs.model()),
            Self::recip_req(rhs.model()),
            Self::mul_req(self.model(), Self::spec_recip(rhs.model())),
        ensures
            r.model() == Self::spec_mul(self.model(), Self::spec_recip(rhs.model())),
            Self::wf(r.model()),
    ;
}

impl<T: MulOp + MulInverse> Divide for T {
    fn divide(self, rhs: Self) -> (r: Self) {
        self.mul(rhs.inverse())
    }
}

/// The additive identity constant of a carrier type.
pub trait Zero: Model {
    /// The model of the additive identity.
    spec fn spec_zero() -> Self::M;

    /// The additive identity value.
    fn zero() -> (r: Self)
        ensures
            r.model() == Self::spec_zero(),
            Self::wf(r.model()),
    ;
}

/// The multiplicative identity constant of a carrier type.
///
/// For the composite carriers the constant is built component-wise from
/// the component's own identity, so the "one" of a complex number has
/// the component identity in both components.
pub trait One: Model {
    /// The model of the multiplicative identity.
    spec fn spec_one() -> Self::M;

    /// The multiplicative identity value.
    fn one() -> (r: Self)
        ensures
            r.model() == Self::spec_one(),
            Self::wf(r.model()),
    ;
}

/// Multiplication of a carrier by a scalar of type `X`.
///
/// A type that multiplies by itself is reflexively a scalar over
/// itself: the blanket rule below derives `MulScalar<T>` for every `T`
/// with plain multiplication.
pub trait MulScalar<X: Model>: Model {
    /// Mathematical scalar multiplication on models.
    spec fn spec_mul_scalar(m: Self::M, x: X::M) -> Self::M;

    /// On which models the executable scalar multiplication is defined.
    spec fn mul_scalar_req(m: Self::M, x: X::M) -> bool;

    /// Executable scalar multiplication.
    fn mul(self, rhs: X) -> (r: Self)
        requires
            Self::wf(self.model()),
            X::wf(rhs.model()),
            Self::mul_scalar_req(self.model(), rhs.model()),
        ensures
            r.model() == Self::spec_mul_scalar(self.model(), rhs.model()),
            Self::wf(r.model()),
    ;
}

impl<T: MulOp> MulScalar<T> for T {
    open spec fn spec_mul_scalar(m: T::M, x: T::M) -> T::M {
        T::spec_mul(m, x)
    }

    open spec fn mul_scalar_req(m: T::M, x: T::M) -> bool {
        T::mul_req(m, x)
    }

    fn mul(self, rhs: T) -> (r: Self) {
        MulOp::mul(self, rhs)
    }
}

} // verus!
