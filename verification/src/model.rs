use vstd::prelude::*;

verus! {

/// A carrier type together with its mathematical model.
///
/// Every algebraic operation in this crate states its contract over
/// `Self::M`, the model of the carrier: an unbounded integer for the
/// primitive scalars, a pair of models for a complex number, a sequence
/// of models for a fixed-length vector.  `wf` says which model values
/// stand for well-formed carrier values (for a fixed-length vector, that
/// the sequence has exactly the advertised length); constructors
/// establish it and every operation preserves it.
pub trait Model: Sized {
    /// The type of mathematical models of this carrier.
    type M;

    /// The model of this value.
    spec fn model(self) -> Self::M;

    /// Which model values stand for well-formed carrier values.
    spec fn wf(m: Self::M) -> bool;
}

} // verus!
