//! Root finding for scalar functions, with interchangeable search strategies
//! and an optional record of the search.
//!
//! The library is generic in the number type: every function works on any
//! [`scalar::Scalar`], and states its result over the specifications that the
//! number type gives for its operators. [`saturating::SaturatingInt`] is a
//! number type of the library's own, with arithmetic that is total and
//! exact.

pub mod interp;
pub mod root_finding;
pub mod saturating;
pub mod scalar;
