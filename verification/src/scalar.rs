use vstd::prelude::*;

use crate::model::Model;
use crate::ops::AddInverse;
use crate::ops::AddOp;
use crate::ops::MulInverse;
use crate::ops::MulOp;
use crate::ops::One;
use crate::ops::Zero;

verus! {

impl Model for usize {
    type M = int;

    open spec fn model(self) -> int {
        self as int
    }

    open spec fn wf(m: int) -> bool {
        true
    }
}

impl AddOp for usize {
    open spec fn spec_add(m1: int, m2: int) -> int {
        m1 + m2
    }

    open spec fn add_req(m1: int, m2: int) -> bool {
        m1 + m2 <= usize::MAX as int
    }

    fn add(self, rhs: Self) -> (r: Self) {
        self + rhs
    }
}

impl MulOp for usize {
    open spec fn spec_mul(m1: int, m2: int) -> int {
        m1 * m2
    }

    open spec fn mul_req(m1: int, m2: int) -> bool {
        m1 * m2 <= usize::MAX as int
    }

    fn mul(self, rhs: Self) -> (r: Self) {
        self * rhs
    }
}

impl Zero for usize {
    open spec fn spec_zero() -> int {
        0
    }

    fn zero() -> (r: Self) {
        0
    }
}

impl One for usize {
    open spec fn spec_one() -> int {
        1
    }

    fn one() -> (r: Self) {
        1
    }
}

impl Model for isize {
    type M = int;

    open spec fn model(self) -> int {
        self as int
    }

    open spec fn wf(m: int) -> bool {
        true
    }
}

impl AddOp for isize {
    open spec fn spec_add(m1: int, m2: int) -> int {
        m1 + m2
    }

    open spec fn add_req(m1: int, m2: int) -> bool {
        isize::MIN as int <= m1 + m2 <= isize::MAX as int
    }

    fn add(self, rhs: Self) -> (r: Self) {
        self + rhs
    }
}

impl AddInverse for isize {
    open spec fn spec_neg(m: int) -> int {
        -m
    }

    open spec fn neg_req(m: int) -> bool {
        -m <= isize::MAX as int
    }

    fn negate(self) -> (r: Self) {
        -self
    }

    proof fn neg_wf(m: int) {
    }
}

impl MulOp for isize {
    open spec fn spec_mul(m1: int, m2: int) -> int {
        m1 * m2
    }

    open spec fn mul_req(m1: int, m2: int) -> bool {
        isize::MIN as int <= m1 * m2 <= isize::MAX as int
    }

    fn mul(self, rhs: Self) -> (r: Self) {
        self * rhs
    }
}

/// The truncated integer reciprocal: what machine division of one by
/// `m` yields.  It is `1` at `1`, `-1` at `-1`, and `0` at every other
/// non-zero argument.
pub open spec fn recip_int(m: int) -> int {
    if m == 1 {
        1
    } else if m == -1 {
        -1
    } else {
        0
    }
}

impl MulInverse for isize {
    open spec fn spec_recip(m: int) -> int {
        recip_int(m)
    }

    open spec fn recip_req(m: int) -> bool {
        m != 0
    }

    fn inverse(self) -> (r: Self) {
        if self == 1 {
            1
        } else if self == -1 {
            -1
        } else {
            0
        }
    }
}

impl Zero for isize {
    open spec fn spec_zero() -> int {
        0
    }

    fn zero() -> (r: Self) {
        0
    }
}

impl One for isize {
    open spec fn spec_one() -> int {
        1
    }

    fn one() -> (r: Self) {
        1
    }
}

/// The identity laws of the unsigned primitive scalar: its additive
/// identity is neutral for addition and its multiplicative identity is
/// neutral for multiplication, on every model value.
pub proof fn usize_identity_laws(m: int)
    ensures
        <usize as AddOp>::spec_add(<usize as Zero>::spec_zero(), m) == m,
        <usize as AddOp>::spec_add(m, <usize as Zero>::spec_zero()) == m,
        <usize as MulOp>::spec_mul(m, <usize as One>::spec_one()) == m,
        <usize as MulOp>::spec_mul(<usize as One>::spec_one(), m) == m,
{
}

/// The identity laws of the signed primitive scalar.
pub proof fn isize_identity_laws(m: int)
    ensures
        <isize as AddOp>::spec_add(<isize as Zero>::spec_zero(), m) == m,
        <isize as AddOp>::spec_add(m, <isize as Zero>::spec_zero()) == m,
        <isize as MulOp>::spec_mul(m, <isize as One>::spec_one()) == m,
        <isize as MulOp>::spec_mul(<isize as One>::spec_one(), m) == m,
{
}

} // verus!
