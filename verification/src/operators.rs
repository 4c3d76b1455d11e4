//! Two small operators exercising the pull contract end to end: a leaf
//! source serving rows out of an in-memory column store, and a transform
//! discarding rows by a fixed predicate on their first column.
//!
//! Real plans are built from storage scans, expression-driven filters and
//! the like; those live outside this layer.  The operators here are the
//! minimal tree nodes the contract can be driven with: the source shows
//! drain and failure signalling at a leaf, the filter shows a transform
//! that may keep nothing from a batch and still continue.

use vstd::prelude::*;

use crate::error::ExecError;
use crate::eval_warnings::EvalWarnings;
use crate::exec_summary::ExecSummary;
use crate::interface::{BatchExecuteResult, BatchExecutor, DrainState};
use crate::physical::PhysicalColumns;
use crate::schema::FieldType;
use crate::statistics::{apply_deltas, lemma_apply_deltas_empty, reset_deltas, BatchExecuteStatistics};

verus! {

/// A leaf operator serving stored rows in order, a batch per pull, with
/// an optional injected failure.
///
/// With `fail_at` unset the source hands out all stored rows and ends
/// with `DrainedOk`.  With `fail_at` set to `f` (at most the stored row
/// count), the source behaves as a store that breaks after row `f`: it
/// hands out the first `f` rows normally and attaches
/// `DrainedErr(fail_code)` to the call that reaches that point, valid
/// rows included.
pub struct MemSourceExecutor {
    /// Output schema, one descriptor per stored column.
    pub fields: Vec<FieldType>,
    /// The stored rows, column-major.
    pub data: PhysicalColumns,
    /// How many stored rows were handed out so far.
    pub cursor: usize,
    /// Row index at which the underlying store fails, if any.
    pub fail_at: Option<usize>,
    /// Error code carried by the terminal result when the store fails.
    pub fail_code: u64,
    /// Whether a terminal result was returned.
    pub done: bool,
}

impl MemSourceExecutor {
    /// Rows the source will hand out in total: all stored rows, or the
    /// failure point where one is set earlier.
    pub open spec fn spec_limit(&self) -> nat {
        match self.fail_at {
            Option::Some(f) => if (f as nat) <= self.data.spec_rows() {
                f as nat
            } else {
                self.data.spec_rows()
            },
            Option::None => self.data.spec_rows(),
        }
    }

    /// Whether the source ends with an error instead of a clean drain.
    pub open spec fn spec_fails(&self) -> bool {
        match self.fail_at {
            Option::Some(f) => (f as nat) <= self.data.spec_rows(),
            Option::None => false,
        }
    }

    /// A source is fit to be pulled while its store is rectangular and
    /// its cursor has not run past the limit.  A mis-assembled source
    /// counts as drained, so the contract never obliges it to produce
    /// anything.
    pub open spec fn source_wf(&self) -> bool {
        self.data.well_formed() && self.cursor <= self.spec_limit()
    }

    /// How many rows the next pull with hint `scan_rows` hands out.
    pub open spec fn spec_take(&self, scan_rows: usize) -> nat {
        if (scan_rows as nat) < self.spec_limit() - self.cursor {
            scan_rows as nat
        } else {
            (self.spec_limit() - self.cursor) as nat
        }
    }

    /// A source over `data` that hands out every row and drains cleanly.
    pub fn new(fields: Vec<FieldType>, data: PhysicalColumns) -> (r: Self)
        requires
            data.well_formed(),
        ensures
            r.fields == fields,
            r.data == data,
            r.cursor == 0,
            r.fail_at is None,
            !r.done,
            !r.drained(),
    {
        MemSourceExecutor { fields, data, cursor: 0, fail_at: Option::None, fail_code: 0, done: false }
    }

    /// A source over `data` whose store breaks after `fail_at` rows,
    /// reporting `fail_code`.
    pub fn new_failing(fields: Vec<FieldType>, data: PhysicalColumns, fail_at: usize, fail_code: u64) -> (r: Self)
        requires
            data.well_formed(),
            fail_at as nat <= data.spec_rows(),
        ensures
            r.fields == fields,
            r.data == data,
            r.cursor == 0,
            r.fail_at == Option::Some(fail_at),
            r.fail_code == fail_code,
            !r.done,
            !r.drained(),
    {
        MemSourceExecutor { fields, data, cursor: 0, fail_at: Option::Some(fail_at), fail_code, done: false }
    }
}

impl BatchExecutor for MemSourceExecutor {
    open spec fn schema_spec(&self) -> Seq<FieldType> {
        self.fields@
    }

    open spec fn drained(&self) -> bool {
        self.done || !self.source_wf()
    }

    open spec fn pending_stats(&self) -> Seq<Option<ExecSummary>> {
        Seq::empty()
    }

    /// A pull is pinned exactly: the store and the failure plan are kept,
    /// the cursor advances by the rows handed out, the batch holds those
    /// rows in order with an identity logical sequence and no warnings,
    /// and the signal is `Continue` until the limit is reached, then the
    /// planned failure or a clean drain.
    open spec fn pulled(&self, post: &Self, scan_rows: usize, r: &BatchExecuteResult) -> bool {
        let take = self.spec_take(scan_rows);
        &&& post.fields == self.fields
        &&& post.data == self.data
        &&& post.fail_at == self.fail_at
        &&& post.fail_code == self.fail_code
        &&& post.cursor == self.cursor + take
        &&& post.done == !(self.cursor + take < self.spec_limit())
        &&& r.logical_rows@.len() == take
        &&& (forall|k: int| 0 <= k < r.logical_rows@.len() ==> r.logical_rows@[k] == k)
        &&& r.physical_columns.columns@.len() == self.data.columns@.len()
        &&& (forall|c: int|
            0 <= c < self.data.columns@.len() ==> (#[trigger] r.physical_columns.columns@[c])@
                == self.data.columns@[c]@.subrange(self.cursor as int, self.cursor + take))
        &&& r.warnings.warnings@.len() == 0
        &&& r.is_drained == (if self.cursor + take < self.spec_limit() {
            DrainState::Continue
        } else if self.spec_fails() {
            DrainState::DrainedErr(ExecError { code: self.fail_code })
        } else {
            DrainState::DrainedOk
        })
    }

    fn schema(&self) -> (r: &[FieldType]) {
        self.fields.as_slice()
    }

    fn next_batch(&mut self, scan_rows: usize) -> (r: BatchExecuteResult) {
        let rows = self.data.rows_len();
        let limit: usize = match self.fail_at {
            Option::Some(f) => if f < rows {
                f
            } else {
                rows
            },
            Option::None => rows,
        };
        let remaining = limit - self.cursor;
        let take = if scan_rows < remaining {
            scan_rows
        } else {
            remaining
        };
        let begin = self.cursor;
        let end = begin + take;
        let batch = self.data.slice_rows(begin, end);
        let mut logical_rows: Vec<usize> = Vec::new();
        let mut i: usize = 0;
        while i < take
            invariant
                i <= take,
                logical_rows@.len() == i,
                forall|k: int| 0 <= k < i ==> logical_rows@[k] == k,
            decreases take - i,
        {
            logical_rows.push(i);
            i = i + 1;
        }
        self.cursor = end;
        let is_drained: DrainState;
        if end < limit {
            is_drained = DrainState::Continue;
        } else {
            self.done = true;
            let fails = match self.fail_at {
                Option::Some(f) => f <= rows,
                Option::None => false,
            };
            if fails {
                is_drained = DrainState::DrainedErr(ExecError { code: self.fail_code });
            } else {
                is_drained = DrainState::DrainedOk;
            }
        }
        BatchExecuteResult {
            physical_columns: batch,
            logical_rows,
            warnings: EvalWarnings::new(),
            is_drained,
        }
    }

    fn collect_statistics(&mut self, destination: &mut BatchExecuteStatistics) {
        proof {
            lemma_apply_deltas_empty(old(destination)@);
            assert(reset_deltas(Seq::<Option<ExecSummary>>::empty()) =~= Seq::<
                Option<ExecSummary>,
            >::empty());
        }
    }
}

/// The logical rows of `rows` whose first-column cell in `cols` is
/// nonzero, kept in order.  With no columns at all, nothing is kept.
pub open spec fn spec_keep_nonzero(cols: PhysicalColumns, rows: Seq<usize>) -> Seq<usize>
    decreases rows.len(),
{
    if rows.len() == 0 {
        Seq::empty()
    } else {
        let rest = spec_keep_nonzero(cols, rows.drop_last());
        if cols.columns@.len() > 0 && cols.columns@[0]@[rows.last() as int] != 0 {
            rest.push(rows.last())
        } else {
            rest
        }
    }
}

proof fn lemma_keep_nonzero_no_columns(cols: PhysicalColumns, rows: Seq<usize>)
    requires
        cols.columns@.len() == 0,
    ensures
        spec_keep_nonzero(cols, rows) == Seq::<usize>::empty(),
    decreases rows.len(),
{
    if rows.len() > 0 {
        lemma_keep_nonzero_no_columns(cols, rows.drop_last());
    }
}

/// A transform keeping only the logical rows whose first-column cell is
/// nonzero.
///
/// The physical store, the warnings and the completion signal of the
/// child pass through unchanged; only the logical row sequence shrinks.
/// A pull may therefore keep nothing from a whole child batch and still
/// report `Continue` — an empty logical sequence does not mean
/// completion.  A child batch with no columns at all keeps nothing.
pub struct NonzeroFilterExecutor<T> {
    /// The child operator the rows are pulled from.
    pub inner: T,
}

impl<T: BatchExecutor> NonzeroFilterExecutor<T> {
    /// Wraps `inner` in the filter.
    pub fn new(inner: T) -> (r: Self)
        ensures
            r.inner == inner,
    {
        NonzeroFilterExecutor { inner }
    }
}

impl<T: BatchExecutor> BatchExecutor for NonzeroFilterExecutor<T> {
    open spec fn schema_spec(&self) -> Seq<FieldType> {
        self.inner.schema_spec()
    }

    open spec fn drained(&self) -> bool {
        self.inner.drained()
    }

    open spec fn pending_stats(&self) -> Seq<Option<ExecSummary>> {
        self.inner.pending_stats()
    }

    /// A pull is one child pull whose store, warnings and signal pass
    /// through unchanged; only the logical row sequence shrinks, to
    /// exactly the child's logical rows with a nonzero first-column
    /// cell, in the child's order.
    open spec fn pulled(&self, post: &Self, scan_rows: usize, r: &BatchExecuteResult) -> bool {
        exists|child_r: BatchExecuteResult|
            {
                &&& #[trigger] self.inner.pulled(&post.inner, scan_rows, &child_r)
                &&& r.physical_columns == child_r.physical_columns
                &&& r.warnings == child_r.warnings
                &&& r.is_drained == child_r.is_drained
                &&& r.logical_rows@ == spec_keep_nonzero(
                    child_r.physical_columns,
                    child_r.logical_rows@,
                )
            }
    }

    fn schema(&self) -> (r: &[FieldType]) {
        self.inner.schema()
    }

    fn next_batch(&mut self, scan_rows: usize) -> (r: BatchExecuteResult) {
        let child = self.inner.next_batch(scan_rows);
        let ghost child_snap = child;
        let mut kept: Vec<usize> = Vec::new();
        if child.physical_columns.columns_len() > 0 {
            let n = child.logical_rows.len();
            let mut k: usize = 0;
            while k < n
                invariant
                    child.well_formed(),
                    child.physical_columns.columns@.len() > 0,
                    n == child.logical_rows@.len(),
                    k <= n,
                    kept@ == spec_keep_nonzero(
                        child.physical_columns,
                        child.logical_rows@.take(k as int),
                    ),
                    forall|a: int|
                        0 <= a < kept@.len() ==> exists|j: int|
                            0 <= j < k && #[trigger] kept@[a] == child.logical_rows@[j],
                    forall|a: int|
                        0 <= a < kept@.len() ==> ((#[trigger] kept@[a]) as nat)
                            < child.physical_columns.spec_rows(),
                    forall|a: int, b: int| 0 <= a < b < kept@.len() ==> kept@[a] != kept@[b],
                decreases n - k,
            {
                let idx = child.logical_rows[k];
                proof {
                    assert(child.logical_rows@.take(k + 1).drop_last() =~= child.logical_rows@.take(
                        k as int,
                    ));
                    assert(child.logical_rows@.take(k + 1).last() == child.logical_rows@[k as int]);
                }
                if child.physical_columns.get(0, idx) != 0 {
                    proof {
                        assert forall|a: int| 0 <= a < kept@.len() implies kept@[a] != idx by {
                            let j = choose|j: int|
                                0 <= j < k && kept@[a] == child.logical_rows@[j];
                            assert(child.logical_rows@[j] != child.logical_rows@[k as int]);
                        }
                    }
                    kept.push(idx);
                }
                k = k + 1;
            }
            proof {
                assert(child.logical_rows@.take(n as int) =~= child.logical_rows@);
            }
        } else {
            proof {
                lemma_keep_nonzero_no_columns(child.physical_columns, child.logical_rows@);
            }
        }
        let result = BatchExecuteResult {
            physical_columns: child.physical_columns,
            logical_rows: kept,
            warnings: child.warnings,
            is_drained: child.is_drained,
        };
        proof {
            assert(old(self).inner.pulled(&self.inner, scan_rows, &child_snap));
            assert(result.logical_rows@ == spec_keep_nonzero(
                child_snap.physical_columns,
                child_snap.logical_rows@,
            ));
        }
        result
    }

    fn collect_statistics(&mut self, destination: &mut BatchExecuteStatistics) {
        self.inner.collect_statistics(destination);
    }
}

} // verus!
