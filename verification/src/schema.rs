//! Output-schema descriptors.
//!
//! A schema is an ordered sequence of field-type descriptors, one per
//! output column, produced by the plan builder and consumed unchanged by
//! `schema()`.  This layer never interprets a descriptor; it only carries
//! the plain values below through, so a decorator and the operator it
//! wraps expose the identical sequence.

use vstd::prelude::*;

verus! {

/// A field-type descriptor for one output column.
#[derive(Clone, Copy, Debug, PartialEq, Eq, Structural)]
pub struct FieldType {
    /// Type code of the column.
    pub tp: u8,
    /// Type flags (unsigned, not-null, and the like).
    pub flag: u32,
    /// Display length of the column.
    pub flen: i32,
    /// Fractional-digit count of the column.
    pub decimal: i32,
    /// Collation identifier of the column.
    pub collate: i32,
}

} // verus!
