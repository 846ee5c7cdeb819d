use vstd::prelude::*;

verus! {

/// The faults that the matrix and vector operations report.
#[derive(Debug, Clone, Copy, PartialEq, Eq, Structural)]
pub enum Error {
    /// Ragged rows, an empty row list, operands of different dimensions, or a
    /// non-square matrix where a square one is needed.
    Shape,
    /// A row or column index past the matrix's bounds.
    Index,
    /// A basis whose vectors are not mutually orthogonal.
    Precondition,
}

} // verus!
