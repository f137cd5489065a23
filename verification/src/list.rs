use vstd::prelude::*;

use crate::model::Model;
use crate::ops::AddInverse;
use crate::ops::AddOp;
use crate::ops::MulOp;
use crate::ops::MulScalar;
use crate::ops::One;
use crate::ops::Zero;

verus! {

/// A fixed-length, homogeneous sequence of exactly `N` elements of
/// `T`.  The length is part of the type and fixed for the value's
/// lifetime; well-formedness of a model is exactly that it has length
/// `N` (with well-formed elements).  All arithmetic is element-wise,
/// with value semantics.
#[derive(Clone, PartialEq, Eq, Debug)]
pub struct List<T, const N: usize> {
    elems: Vec<T>,
}

impl<T, const N: usize> List<T, N> {
    /// The elements, as a sequence.
    pub closed spec fn spec_elems(self) -> Seq<T> {
        self.elems@
    }

    /// Builds a vector from exactly `N` elements.
    pub fn new(elems: Vec<T>) -> (r: Self)
        requires
            elems@.len() == N,
        ensures
            r.spec_elems() == elems@,
    {
        List { elems }
    }

    /// Read-only positional access; `i` must lie in `[0, N)`.
    pub fn index(&self, i: usize) -> (r: &T)
        requires
            self.spec_elems().len() == N,
            i < N,
        ensures
            *r == self.spec_elems()[i as int],
    {
        &self.elems[i]
    }
}

impl<T: Model, const N: usize> Model for List<T, N> {
    type M = Seq<T::M>;

    open spec fn model(self) -> Seq<T::M> {
        self.spec_elems().map_values(|t: T| t.model())
    }

    open spec fn wf(m: Seq<T::M>) -> bool {
        m.len() == N && forall|i: int| 0 <= i < m.len() ==> T::wf(#[trigger] m[i])
    }
}

impl<T: AddOp + Copy, const N: usize> AddOp for List<T, N> {
    /// Pairwise sum of corresponding elements.
    open spec fn spec_add(m1: Seq<T::M>, m2: Seq<T::M>) -> Seq<T::M> {
        Seq::new(N as nat, |i: int| T::spec_add(m1[i], m2[i]))
    }

    open spec fn add_req(m1: Seq<T::M>, m2: Seq<T::M>) -> bool {
        forall|i: int| 0 <= i < N ==> #[trigger] T::add_req(m1[i], m2[i])
    }

    fn add(self, rhs: Self) -> (r: Self) {
        let mut out: Vec<T> = Vec::new();
        let mut i: usize = 0;
        while i < N
            invariant
                i <= N,
                out@.len() == i,
                self.spec_elems().len() == N,
                rhs.spec_elems().len() == N,
                Self::wf(self.model()),
                Self::wf(rhs.model()),
                Self::add_req(self.model(), rhs.model()),
                forall|j: int| 0 <= j < i ==> #[trigger] out@[j].model() == T::spec_add(
                    self.model()[j],
                    rhs.model()[j],
                ),
                forall|j: int| 0 <= j < i ==> T::wf(#[trigger] out@[j].model()),
            decreases N - i,
        {
            let x = self.elems[i];
            let y = rhs.elems[i];
            proof {
                assert(x.model() == self.model()[i as int]);
                assert(y.model() == rhs.model()[i as int]);
            }
            out.push(x.add(y));
            i = i + 1;
        }
        let r = List { elems: out };
        proof {
            assert(r.model() =~= Self::spec_add(self.model(), rhs.model()));
        }
        r
    }
}

impl<T: AddInverse + Copy, const N: usize> AddInverse for List<T, N> {
    /// Element-wise negation.
    open spec fn spec_neg(m: Seq<T::M>) -> Seq<T::M> {
        Seq::new(N as nat, |i: int| T::spec_neg(m[i]))
    }

    open spec fn neg_req(m: Seq<T::M>) -> bool {
        forall|i: int| 0 <= i < N ==> #[trigger] T::neg_req(m[i])
    }

    fn negate(self) -> (r: Self) {
        let mut out: Vec<T> = Vec::new();
        let mut i: usize = 0;
        while i < N
            invariant
                i <= N,
                out@.len() == i,
                self.spec_elems().len() == N,
                Self::wf(self.model()),
                Self::neg_req(self.model()),
                forall|j: int| 0 <= j < i ==> #[trigger] out@[j].model() == T::spec_neg(
                    self.model()[j],
                ),
                forall|j: int| 0 <= j < i ==> T::wf(#[trigger] out@[j].model()),
            decreases N - i,
        {
            let x = self.elems[i];
            proof {
                assert(x.model() == self.model()[i as int]);
            }
            out.push(x.negate());
            i = i + 1;
        }
        let r = List { elems: out };
        proof {
            assert(r.model() =~= Self::spec_neg(self.model()));
        }
        r
    }

    proof fn neg_wf(m: Seq<T::M>) {
        assert forall|i: int| 0 <= i < Self::spec_neg(m).len() implies T::wf(
            #[trigger] Self::spec_neg(m)[i],
        ) by {
            T::neg_wf(m[i]);
        }
    }
}

impl<T: MulOp + Copy, const N: usize> MulScalar<T> for List<T, N> {
    /// Every element multiplied by the one scalar.
    open spec fn spec_mul_scalar(m: Seq<T::M>, x: T::M) -> Seq<T::M> {
        Seq::new(N as nat, |i: int| T::spec_mul(m[i], x))
    }

    open spec fn mul_scalar_req(m: Seq<T::M>, x: T::M) -> bool {
        forall|i: int| 0 <= i < N ==> #[trigger] T::mul_req(m[i], x)
    }

    fn mul(self, rhs: T) -> (r: Self) {
        let mut out: Vec<T> = Vec::new();
        let mut i: usize = 0;
        while i < N
            invariant
                i <= N,
                out@.len() == i,
                self.spec_elems().len() == N,
                Self::wf(self.model()),
                T::wf(rhs.model()),
                Self::mul_scalar_req(self.model(), rhs.model()),
                forall|j: int| 0 <= j < i ==> #[trigger] out@[j].model() == T::spec_mul(
                    self.model()[j],
                    rhs.model(),
                ),
                forall|j: int| 0 <= j < i ==> T::wf(#[trigger] out@[j].model()),
            decreases N - i,
        {
            let x = self.elems[i];
            proof {
                assert(x.model() == self.model()[i as int]);
            }
            out.push(MulOp::mul(x, rhs));
            i = i + 1;
        }
        let r = List { elems: out };
        proof {
            assert(r.model() =~= Self::spec_mul_scalar(self.model(), rhs.model()));
        }
        r
    }
}

impl<T: Zero, const N: usize> Zero for List<T, N> {
    /// The element identity in every position.
    open spec fn spec_zero() -> Seq<T::M> {
        Seq::new(N as nat, |i: int| T::spec_zero())
    }

    fn zero() -> (r: Self) {
        let mut out: Vec<T> = Vec::new();
        let mut i: usize = 0;
        while i < N
            invariant
                i <= N,
                out@.len() == i,
                forall|j: int| 0 <= j < i ==> #[trigger] out@[j].model() == T::spec_zero(),
                forall|j: int| 0 <= j < i ==> T::wf(#[trigger] out@[j].model()),
            decreases N - i,
        {
            out.push(T::zero());
            i = i + 1;
        }
        let r = List { elems: out };
        proof {
            assert(r.model() =~= Self::spec_zero());
        }
        r
    }
}

impl<T: One, const N: usize> One for List<T, N> {
    /// The element identity in every position.
    open spec fn spec_one() -> Seq<T::M> {
        Seq::new(N as nat, |i: int| T::spec_one())
    }

    fn one() -> (r: Self) {
        let mut out: Vec<T> = Vec::new();
        let mut i: usize = 0;
        while i < N
            invariant
                i <= N,
                out@.len() == i,
                forall|j: int| 0 <= j < i ==> #[trigger] out@[j].model() == T::spec_one(),
                forall|j: int| 0 <= j < i ==> T::wf(#[trigger] out@[j].model()),
            decreases N - i,
        {
            out.push(T::one());
            i = i + 1;
        }
        let r = List { elems: out };
        proof {
            assert(r.model() =~= Self::spec_one());
        }
        r
    }
}

} // verus!
