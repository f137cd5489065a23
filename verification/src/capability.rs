use vstd::prelude::*;

use crate::complex::Complex;
use crate::list::List;
use crate::model::Model;
use crate::ops::AddInverse;
use crate::ops::AddOp;
use crate::ops::MulOp;
use crate::ops::MulScalar;
use crate::ops::One;
use crate::ops::Zero;

verus! {

/// Commutativity of addition: `u + v = v + u`.
///
/// An implementation is a certificate: claiming the capability obliges
/// the type to prove the law for its modelled addition.  A wrapper
/// inherits it exactly when its component type holds it.
pub trait Commutative: AddOp {
    /// The law, on models.
    proof fn add_commutes(m1: Self::M, m2: Self::M)
        ensures
            Self::spec_add(m1, m2) == Self::spec_add(m2, m1),
    ;
}

impl Commutative for usize {
    proof fn add_commutes(m1: int, m2: int) {
    }
}

impl Commutative for isize {
    proof fn add_commutes(m1: int, m2: int) {
    }
}

impl<T: Commutative> Commutative for Complex<T> {
    proof fn add_commutes(m1: (T::M, T::M), m2: (T::M, T::M)) {
        T::add_commutes(m1.0, m2.0);
        T::add_commutes(m1.1, m2.1);
    }
}

impl<T: Commutative + Copy, const N: usize> Commutative for List<T, N> {
    proof fn add_commutes(m1: Seq<T::M>, m2: Seq<T::M>) {
        assert forall|i: int| 0 <= i < N implies #[trigger] Self::spec_add(m1, m2)[i]
            == Self::spec_add(m2, m1)[i] by {
            T::add_commutes(m1[i], m2[i]);
        }
        assert(Self::spec_add(m1, m2) =~= Self::spec_add(m2, m1));
    }
}

/// Associativity of addition: `(u + v) + w = u + (v + w)`.
pub trait Associative: AddOp {
    /// The law, on models.
    proof fn add_associates(m1: Self::M, m2: Self::M, m3: Self::M)
        ensures
            Self::spec_add(Self::spec_add(m1, m2), m3) == Self::spec_add(
                m1,
                Self::spec_add(m2, m3),
            ),
    ;
}

impl Associative for usize {
    proof fn add_associates(m1: int, m2: int, m3: int) {
    }
}

impl Associative for isize {
    proof fn add_associates(m1: int, m2: int, m3: int) {
    }
}

impl<T: Associative> Associative for Complex<T> {
    proof fn add_associates(m1: (T::M, T::M), m2: (T::M, T::M), m3: (T::M, T::M)) {
        T::add_associates(m1.0, m2.0, m3.0);
        T::add_associates(m1.1, m2.1, m3.1);
    }
}

impl<T: Associative + Copy, const N: usize> Associative for List<T, N> {
    proof fn add_associates(m1: Seq<T::M>, m2: Seq<T::M>, m3: Seq<T::M>) {
        assert forall|i: int| 0 <= i < N implies #[trigger] Self::spec_add(
            Self::spec_add(m1, m2),
            m3,
        )[i] == Self::spec_add(m1, Self::spec_add(m2, m3))[i] by {
            T::add_associates(m1[i], m2[i], m3[i]);
        }
        assert(Self::spec_add(Self::spec_add(m1, m2), m3) =~= Self::spec_add(
            m1,
            Self::spec_add(m2, m3),
        ));
    }
}

/// Additive identity: there is an element `0` with `v + 0 = v` for all
/// `v`, and the capability pins it to the type's own `Zero` constant.
pub trait Identity: AddOp + Zero {
    /// The law, on well-formed models, in both orders.
    proof fn add_identity(m: Self::M)
        requires
            Self::wf(m),
        ensures
            Self::spec_add(m, Self::spec_zero()) == m,
            Self::spec_add(Self::spec_zero(), m) == m,
    ;
}

impl Identity for usize {
    proof fn add_identity(m: int) {
    }
}

impl Identity for isize {
    proof fn add_identity(m: int) {
    }
}

impl<T: Identity> Identity for Complex<T> {
    proof fn add_identity(m: (T::M, T::M)) {
        T::add_identity(m.0);
        T::add_identity(m.1);
    }
}

impl<T: Identity + Copy, const N: usize> Identity for List<T, N> {
    proof fn add_identity(m: Seq<T::M>) {
        assert forall|i: int| 0 <= i < N implies #[trigger] Self::spec_add(m, Self::spec_zero())[i]
            == m[i] && Self::spec_add(Self::spec_zero(), m)[i] == m[i] by {
            T::add_identity(m[i]);
        }
        assert(Self::spec_add(m, Self::spec_zero()) =~= m);
        assert(Self::spec_add(Self::spec_zero(), m) =~= m);
    }
}

/// Additive inverse: for every `v` there is a `w` with `v + w = 0`,
/// and the capability pins `w` to the type's own negation.
pub trait Inverse: AddOp + AddInverse + Zero {
    /// The law, on well-formed models.
    proof fn add_inverse(m: Self::M)
        requires
            Self::wf(m),
        ensures
            Self::spec_add(m, Self::spec_neg(m)) == Self::spec_zero(),
    ;
}

impl Inverse for isize {
    proof fn add_inverse(m: int) {
    }
}

impl<T: Inverse> Inverse for Complex<T> {
    proof fn add_inverse(m: (T::M, T::M)) {
        T::add_inverse(m.0);
        T::add_inverse(m.1);
    }
}

impl<T: Inverse + Copy, const N: usize> Inverse for List<T, N> {
    proof fn add_inverse(m: Seq<T::M>) {
        assert forall|i: int| 0 <= i < N implies #[trigger] Self::spec_add(m, Self::spec_neg(m))[i]
            == Self::spec_zero()[i] by {
            T::add_inverse(m[i]);
        }
        assert(Self::spec_add(m, Self::spec_neg(m)) =~= Self::spec_zero());
    }
}

/// Multiplicative identity over the scalar `X`: the capability holds
/// where the type multiplies by `X` and `X` carries a `One` constant.
/// Any type that multiplies by itself holds it reflexively.  Note that
/// the capability certifies only that relationship between the two
/// types — the neutrality `v * 1 = v` itself is a fact of the
/// primitive scalars (see the scalar identity laws), not of every
/// carrier: the component-wise `One` of the complex type is not
/// neutral for the complex product.
pub trait MulIdent<X: One>: MulScalar<X> {
    /// The scalar field's multiplicative identity.
    fn mul_ident(self) -> (r: X)
        ensures
            r.model() == X::spec_one(),
            X::wf(r.model()),
    {
        X::one()
    }
}

impl<T: MulScalar<T> + One> MulIdent<T> for T {
}

impl<T: One> MulIdent<T> for Complex<T> where Complex<T>: MulScalar<T> {
}

impl<T: One, const N: usize> MulIdent<T> for List<T, N> where List<T, N>: MulScalar<T> {
}

/// Distributivity over the scalar `X`:
/// `a(u + v) = au + av` and `(a + b)v = av + bv`.
///
/// The axiom is asserted by the type author whenever scalar
/// multiplication by `X` exists; the framework composes the claim and
/// does not check it algorithmically.
pub trait Distributive<X: Model>: MulScalar<X> {
}

impl Distributive<usize> for usize {
}

impl Distributive<isize> for isize {
}

impl<T: Model, X: Model> Distributive<X> for Complex<T> where Complex<T>: MulScalar<X> {
}

impl<T: Model, X: Model, const N: usize> Distributive<X> for List<T, N> where
    List<T, N>: MulScalar<X>,
{
}

/// A vector space `V` over the scalar field `F`: precisely the
/// conjunction of the six atomic capabilities, together with `F`
/// carrying its own multiplicative identity.  It is derived, never
/// authored: any pair holding every constituent receives it through
/// the single blanket rule, and a pair missing one constituent is
/// rejected at compile time.
pub trait VectorSpace<F> {
}

impl<V, F> VectorSpace<F> for V where
    V: Commutative,
    V: Associative,
    V: Identity,
    V: Inverse,
    V: MulIdent<F>,
    V: Distributive<F>,
    F: One,
{
}

/// Idempotence of negation: `-(-x) = x` on every well-formed model of
/// a carrier whose addition is associative with identity and inverse.
/// The complex and vector carriers inherit it through their capability
/// certificates.
pub proof fn double_negation<T: Associative + Identity + Inverse>(m: T::M)
    requires
        T::wf(m),
    ensures
        T::spec_neg(T::spec_neg(m)) == m,
{
    let n1 = T::spec_neg(m);
    let nn = T::spec_neg(n1);
    T::neg_wf(m);
    T::neg_wf(n1);
    T::add_inverse(m);
    T::add_inverse(n1);
    T::add_identity(m);
    T::add_identity(nn);
    T::add_associates(m, n1, nn);
    assert(T::spec_add(T::spec_add(m, n1), nn) == nn);
    assert(T::spec_add(m, T::spec_add(n1, nn)) == m);
}

} // verus!
