//! Layout logic of 4×4 matrices and homogeneous vectors, generic over the
//! entry type: construction patterns, copying, transposition and the
//! homogeneous-coordinate default.
pub mod grid;
pub mod homogeneous;
