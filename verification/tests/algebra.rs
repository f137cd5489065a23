use algebra::capability::MulIdent;
use algebra::capability::VectorSpace;
use algebra::complex::Complex;
use algebra::list::List;
use algebra::ops::AddInverse;
use algebra::ops::AddOp;
use algebra::ops::Divide;
use algebra::ops::MulInverse;
use algebra::ops::MulOp;
use algebra::ops::MulScalar;
use algebra::ops::One;
use algebra::ops::Subtract;
use algebra::ops::Zero;

fn accept_field<T: VectorSpace<X>, X>() {}

#[test]
fn scratch_pad() {
    accept_field::<List<isize, 3>, isize>();
    accept_field::<Complex<isize>, Complex<isize>>();
    accept_field::<isize, isize>();
}

#[test]
fn scalar_identities_usize() {
    for x in [0usize, 1, 7, 1000] {
        assert_eq!(usize::zero().add(x), x);
        assert_eq!(x.add(usize::zero()), x);
        assert_eq!(MulOp::mul(x, usize::one()), x);
        assert_eq!(MulOp::mul(usize::one(), x), x);
    }
}

#[test]
fn scalar_identities_isize() {
    for x in [-1000isize, -1, 0, 1, 42] {
        assert_eq!(isize::zero().add(x), x);
        assert_eq!(x.add(isize::zero()), x);
        assert_eq!(MulOp::mul(x, isize::one()), x);
        assert_eq!(MulOp::mul(isize::one(), x), x);
    }
}

#[test]
fn complex_addition_componentwise() {
    let a = Complex::new(1isize, 2isize);
    let b = Complex::new(30isize, 40isize);
    assert_eq!(a.add(b), Complex::new(31, 42));
}

#[test]
fn complex_subtraction_is_add_of_negation() {
    let a = Complex::new(10isize, -3isize);
    let b = Complex::new(4isize, 5isize);
    assert_eq!(a.subtract(b), a.add(b.negate()));
    assert_eq!(a.subtract(b), Complex::new(6, -8));
}

#[test]
fn complex_multiplication() {
    let a = Complex::new(1isize, 2isize);
    let b = Complex::new(3isize, 4isize);
    assert_eq!(MulOp::mul(a, b), Complex::new(1 * 3 - 2 * 4, 1 * 4 + 2 * 3));
    assert_eq!(MulOp::mul(a, b), Complex::new(-5, 10));
}

#[test]
fn complex_add_assign() {
    let mut a = Complex::new(1isize, 2isize);
    a.add_assign(Complex::new(10, 20));
    assert_eq!(a, Complex::new(11, 22));
}

#[test]
fn complex_inverse_componentwise() {
    let a = Complex::new(1isize, -1isize);
    assert_eq!(a.inverse(), Complex::new(1, -1));
    let b = Complex::new(5isize, 2isize);
    assert_eq!(b.inverse(), Complex::new(0, 0));
    assert_eq!(MulInverse::inverse(b), Complex::new(0, 0));
}

#[test]
fn complex_division_by_unit() {
    let a = Complex::new(6isize, 8isize);
    let b = Complex::new(1isize, 1isize);
    // b.inverse() is (1, 1), so a / b is the complex product a * (1, 1).
    assert_eq!(a.divide(b), Complex::new(-2, 14));
}

#[test]
fn scalar_inverse_truncates() {
    assert_eq!(1isize.inverse(), 1);
    assert_eq!((-1isize).inverse(), -1);
    assert_eq!(5isize.inverse(), 0);
    assert_eq!(10isize.divide(3), 0);
}

#[test]
fn list_addition() {
    let a = List::<isize, 3>::new(vec![1, 2, 3]);
    let b = List::<isize, 3>::new(vec![10, 20, 30]);
    assert_eq!(a.add(b), List::new(vec![11, 22, 33]));
}

#[test]
fn list_scalar_multiplication() {
    let a = List::<isize, 3>::new(vec![1, 1, 1]);
    assert_eq!(MulScalar::mul(a, 5), List::new(vec![5, 5, 5]));
}

#[test]
fn list_indexing() {
    let a = List::<isize, 3>::new(vec![7, 8, 9]);
    assert_eq!(*a.index(0), 7);
    assert_eq!(*a.index(2), 9);
}

#[test]
fn list_identity_constants() {
    assert_eq!(List::<isize, 4>::zero(), List::new(vec![0, 0, 0, 0]));
    assert_eq!(List::<isize, 4>::one(), List::new(vec![1, 1, 1, 1]));
    assert_eq!(Complex::<isize>::zero(), Complex::new(0, 0));
    assert_eq!(Complex::<isize>::one(), Complex::new(1, 1));
}

#[test]
fn mul_ident_returns_scalar_one() {
    let a = List::<isize, 2>::new(vec![3, 4]);
    assert_eq!(a.mul_ident(), 1isize);
    let c = Complex::new(1isize, 2isize);
    assert_eq!(c.mul_ident(), Complex::new(1, 1));
}

#[test]
fn double_negation_complex() {
    let a = Complex::new(-7isize, 11isize);
    assert_eq!(a.negate().negate(), a);
}

#[test]
fn double_negation_list() {
    let a = List::<isize, 3>::new(vec![-1, 0, 25]);
    let b = List::<isize, 3>::new(vec![-1, 0, 25]);
    assert_eq!(a.negate().negate(), b);
}

#[test]
fn complex_into_parts() {
    let (re, im) = Complex::new(3isize, 4isize).into_parts();
    assert_eq!(re, 3);
    assert_eq!(im, 4);
}
