//! Why a wrapper refuses an operation.

use vstd::prelude::*;

verus! {

/// The reason for which an operation on a wrapper was refused.
#[derive(Clone, Copy, Debug, PartialEq, Eq, Structural)]
pub enum RefError {
    /// A projection answered with a window that does not lie inside what
    /// it was shown, so the new reference would not be derived from it.
    NotDerived,
    /// The owner declares internally-mutable cells, and the operation
    /// would have shown it to the caller while a window into it is alive.
    CellsExposed,
}

} // verus!
