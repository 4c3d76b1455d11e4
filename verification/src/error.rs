//! The unified error value carried inside a terminal `DrainedErr` result.
//!
//! To this layer an execution error is opaque: it is produced at the
//! failing operator, attached to the final result of that operator, and
//! surfaced upward unchanged.  A numeric code stands for whatever the
//! surrounding engine makes of it.

use vstd::prelude::*;

verus! {

/// An unrecoverable execution error, carried by value inside the
/// completion signal of the final batch.
#[derive(Clone, Copy, Debug, PartialEq, Eq, Structural)]
pub struct ExecError {
    /// Identifies the failure to the layers above.
    pub code: u64,
}

} // verus!
