//! The one recoverable error of the library: a vector constructor was handed
//! an input of the wrong length.

use vstd::prelude::*;

verus! {

/// Returned by the vector constructors that consume variable-length input,
/// when that input does not hold exactly as many elements as the vector has
/// components.
#[derive(Debug, Clone, Copy, PartialEq, Eq, Structural)]
pub enum VectorErr {
    LengthErr { expected: usize, got: usize },
}

} // verus!
