//! A small linear-algebra kernel: fixed-dimension vectors (2, 3 and 4
//! components) and fixed-size square matrices (3x3 and 4x4) over an abstract
//! numeric scalar, with the algebraic operations needed by graphics- and
//! physics-adjacent callers: addition, scaling, dot and cross products,
//! determinants, minors, transposition, matrix products, adjugate-based
//! inversion and matrix-vector products.
//!
//! Every operation carries a contract that pins its result down over a
//! mathematical view of the data: each scalar is viewed as an integer, each
//! vector and matrix as a sequence of integers.

pub mod errors;
pub mod matrices;
pub mod types;
pub mod vectors;
