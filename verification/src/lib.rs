//! A compile-time framework for algebraic structures.
//!
//! Numeric carrier types opt into atomic algebraic capabilities
//! (commutativity, associativity, additive identity, additive inverse,
//! multiplicative identity, distributivity), and composite structures
//! such as a vector space are derived as the conjunction of those
//! capabilities.  Every arithmetic operation carries a contract over a
//! mathematical model of its carrier, and each capability is a proof
//! obligation discharged when a type claims it.
//!
//! The primitive carriers are the machine integers, modelled by the
//! unbounded integers; floating-point carriers stay outside the
//! verified core.

pub mod capability;
pub mod complex;
pub mod list;
pub mod model;
pub mod ops;
pub mod scalar;
