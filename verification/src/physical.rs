//! The physical column store of one pull's result.
//!
//! A stand-in for the engine's columnar storage: column-major cell data
//! with a row count.  This layer treats the store as nothing more than
//! that — rows may be unordered and may include rows that are not
//! logically valid; which rows count, and in what order, is said by the
//! logical row sequence of the result that carries the store.

use vstd::prelude::*;

verus! {

/// Column-major cell data: one vector of cell values per column, all of
/// the same length (the physical row count).
#[derive(Debug)]
pub struct PhysicalColumns {
    /// The columns; `columns[c][r]` is the cell of column `c` at physical
    /// row `r`.
    pub columns: Vec<Vec<i64>>,
}

impl PhysicalColumns {
    /// The physical row count: how many rows each column holds.
    pub open spec fn spec_rows(&self) -> nat {
        if self.columns@.len() == 0 {
            0
        } else {
            self.columns@[0]@.len()
        }
    }

    /// The store is rectangular: every column holds the same number of
    /// rows.
    pub open spec fn well_formed(&self) -> bool {
        forall|c: int|
            0 <= c < self.columns@.len() ==> (#[trigger] self.columns@[c])@.len()
                == self.spec_rows()
    }

    /// The physical row count.
    pub fn rows_len(&self) -> (r: usize)
        ensures
            r == self.spec_rows(),
    {
        if self.columns.len() == 0 {
            0
        } else {
            self.columns[0].len()
        }
    }

    /// The number of columns.
    pub fn columns_len(&self) -> (r: usize)
        ensures
            r == self.columns@.len(),
    {
        self.columns.len()
    }

    /// The cell of column `col` at physical row `row`.
    pub fn get(&self, col: usize, row: usize) -> (r: i64)
        requires
            col < self.columns@.len(),
            row < self.columns@[col as int]@.len(),
        ensures
            r == self.columns@[col as int]@[row as int],
    {
        let column: &Vec<i64> = &self.columns[col];
        column[row]
    }

    /// Copies the physical rows `begin .. end` of every column into a new
    /// store, keeping the column order.
    pub fn slice_rows(&self, begin: usize, end: usize) -> (r: PhysicalColumns)
        requires
            self.well_formed(),
            begin <= end <= self.spec_rows(),
        ensures
            r.well_formed(),
            r.columns@.len() == self.columns@.len(),
            r.spec_rows() == end - begin,
            forall|c: int|
                0 <= c < self.columns@.len() ==> (#[trigger] r.columns@[c])@
                    == self.columns@[c]@.subrange(begin as int, end as int),
    {
        let mut columns: Vec<Vec<i64>> = Vec::new();
        let mut c: usize = 0;
        while c < self.columns.len()
            invariant
                c <= self.columns@.len(),
                columns@.len() == c,
                self.well_formed(),
                begin <= end <= self.spec_rows(),
                forall|k: int|
                    0 <= k < c ==> (#[trigger] columns@[k])@ == self.columns@[k]@.subrange(
                        begin as int,
                        end as int,
                    ),
            decreases self.columns@.len() - c,
        {
            let source: &Vec<i64> = &self.columns[c];
            let mut column: Vec<i64> = Vec::new();
            let mut r: usize = begin;
            while r < end
                invariant
                    begin <= r <= end,
                    end <= source@.len(),
                    column@ == source@.subrange(begin as int, r as int),
                decreases end - r,
            {
                column.push(source[r]);
                proof {
                    assert(column@ =~= source@.subrange(begin as int, r + 1));
                }
                r = r + 1;
            }
            columns.push(column);
            c = c + 1;
        }
        let result = PhysicalColumns { columns };
        proof {
            if result.columns@.len() > 0 {
                assert(result.columns@[0]@.len() == end - begin);
            }
        }
        result
    }
}

} // verus!
