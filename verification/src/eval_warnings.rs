//! Non-fatal diagnostics attached to a single pull's result.
//!
//! Warnings are informational only: they are accumulated during one
//! `next_batch` call, merged upward unchanged, and are never promoted to
//! errors by this layer.

use vstd::prelude::*;

verus! {

/// The warnings generated during one pull, as bare warning codes.
#[derive(Debug)]
pub struct EvalWarnings {
    /// One code per warning, in the order the warnings arose.
    pub warnings: Vec<u64>,
}

impl EvalWarnings {
    /// No warnings at all: the usual state of a successful pull.
    pub fn new() -> (r: Self)
        ensures
            r.warnings@.len() == 0,
    {
        EvalWarnings { warnings: Vec::new() }
    }
}

} // verus!
