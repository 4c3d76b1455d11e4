//! The pull interface: the per-call result structure with its drain/error
//! protocol, the operator capability every tree node implements, and the
//! summary-collecting decorator that layers profiling onto any operator.
//!
//! An operator tree is driven from the root: the caller pulls batches
//! until a terminal signal is observed, then asks the whole tree to
//! report statistics in one call.  The contracts here pin down what every
//! node must guarantee: logical rows denote valid physical rows, a
//! terminal signal is final, the schema never changes, and statistics
//! collection reports fresh deltas only.

use vstd::prelude::*;

use crate::error::ExecError;
use crate::eval_warnings::EvalWarnings;
use crate::exec_summary::{zero_summary, ExecSummary, ExecSummaryCollector};
use crate::physical::PhysicalColumns;
use crate::schema::FieldType;
use crate::statistics::{
    apply_deltas, combine_opt, lemma_apply_deltas_assoc, lemma_reset_distributes,
    lemma_reset_single_slot, opt_at, reset_deltas, single_slot, BatchExecuteStatistics,
};

verus! {

/// The tri-state completion signal of one pull.
///
/// `Continue` may recur any number of times; the two drained states are
/// terminal — after either, no further pull may be made on that operator
/// instance, and an operator that is to be reused must be reconstructed.
/// A terminal result may still carry rows, and those rows are valid: the
/// caller must consume them before reacting to the signal.
#[derive(Clone, Copy, Debug, PartialEq, Eq, Structural)]
pub enum DrainState {
    /// More pulls may be requested; this call may carry zero or more
    /// valid rows, and an empty call does not mean completion.
    Continue,
    /// The operator is exhausted; rows in this call, if any, are still
    /// valid and must be consumed.
    DrainedOk,
    /// An error occurred; rows in this call, if any, are still valid and
    /// must be consumed before surfacing the error upward.
    DrainedErr(ExecError),
}

impl DrainState {
    /// Whether the signal forbids any further pull.
    pub open spec fn is_terminal(&self) -> bool {
        !(self is Continue)
    }
}

/// Data flowing between parent and child on one `next_batch` call.
///
/// The physical store is not directly user-facing: it may hold more rows
/// than are logically valid, in an order different from output order.
/// The logical row sequence says which physical rows count and in what
/// order.  Once returned, the structure is owned exclusively by the
/// caller; the operator retains nothing of it.
pub struct BatchExecuteResult {
    /// The physical column data generated during this call.
    pub physical_columns: PhysicalColumns,
    /// Offsets of the valid rows in `physical_columns`, in logical output
    /// order.
    pub logical_rows: Vec<usize>,
    /// The non-fatal warnings generated during this call only.
    pub warnings: EvalWarnings,
    /// The completion signal of this call.
    pub is_drained: DrainState,
}

impl BatchExecuteResult {
    /// The physical store is rectangular, every logical row offset is
    /// within the physical row count, and no offset repeats.
    pub open spec fn well_formed(&self) -> bool {
        &&& self.physical_columns.well_formed()
        &&& forall|i: int|
            0 <= i < self.logical_rows@.len() ==> ((#[trigger] self.logical_rows@[i]) as nat)
                < self.physical_columns.spec_rows()
        &&& forall|i: int, j: int|
            0 <= i < j < self.logical_rows@.len() ==> self.logical_rows@[i]
                != self.logical_rows@[j]
    }

    /// Whether this result's signal forbids any further pull.
    pub open spec fn is_terminal(&self) -> bool {
        self.is_drained.is_terminal()
    }
}

/// The operator capability: the contract every node of an execution tree
/// implements, similar to the Volcano iterator model but pulling data in
/// batches stored by column.
///
/// The three spec functions are the abstract state the contracts are
/// stated over: the stable output schema, whether a terminal result has
/// been returned, and the statistics delta accumulated since the last
/// collection.
pub trait BatchExecutor: Send {
    /// The output schema, one descriptor per column, stable for the
    /// operator's lifetime.
    spec fn schema_spec(&self) -> Seq<FieldType>;

    /// Whether a terminal result has been returned (or the operator is
    /// otherwise unfit to be pulled): no further `next_batch` call may be
    /// made.
    spec fn drained(&self) -> bool;

    /// The statistics delta accumulated and not yet collected: for each
    /// aggregator slot, what the next collection would add there.
    spec fn pending_stats(&self) -> Seq<Option<ExecSummary>>;

    /// The pull relation: what one `next_batch` call with hint
    /// `scan_rows` may do, relating the state before the call, the state
    /// after it, and the returned result.  An owning handle defines it
    /// as the held operator's relation (pure delegation), a decorator as
    /// the wrapped operator's relation plus its own measuring (the
    /// result itself is the one the wrapped operator returned), and a
    /// leaf pins it to its data.  The relation names the operator type
    /// twice, so it is what a type-erased handle gives up: see
    /// [`ErasedBatchExecutor`].
    spec fn pulled(&self, post: &Self, scan_rows: usize, r: &BatchExecuteResult) -> bool;

    /// The schema of the output: callers may ask repeatedly and always
    /// receive the identical sequence.
    fn schema(&self) -> (r: &[FieldType])
        ensures
            r@ == self.schema_spec(),
    ;

    /// Pulls the next batch of up to `scan_rows` logical rows.  The hint
    /// is advisory: a call may return fewer, more, or zero rows while
    /// still reporting `Continue`.  Must not be called again once a
    /// terminal result was returned.
    fn next_batch(&mut self, scan_rows: usize) -> (r: BatchExecuteResult)
        requires
            !old(self).drained(),
        ensures
            r.well_formed(),
            final(self).schema_spec() == old(self).schema_spec(),
            final(self).drained() == r.is_terminal(),
            old(self).pulled(final(self), scan_rows, &r),
    ;

    /// Reports everything accumulated since the last collection into the
    /// destination — the whole subtree in one call, children in
    /// unspecified order — and resets the internal accumulators, so a
    /// repeated collection never double-counts.
    fn collect_statistics(&mut self, destination: &mut BatchExecuteStatistics)
        ensures
            final(self).schema_spec() == old(self).schema_spec(),
            final(self).drained() == old(self).drained(),
            final(self).pending_stats() == reset_deltas(old(self).pending_stats()),
            final(destination)@ == apply_deltas(old(destination)@, old(self).pending_stats()),
    ;

    /// Wraps this operator in a summary-collecting decorator reporting
    /// through `summary_collector`.
    fn with_summary_collector<C: ExecSummaryCollector + Send>(self, summary_collector: C) -> (r:
        WithSummaryCollector<C, Self>) where Self: Sized
        ensures
            r.summary_collector == summary_collector,
            r.inner == self,
    {
        WithSummaryCollector { summary_collector, inner: self }
    }
}

/// An owning handle to an operator is itself an operator, by pure
/// delegation: this is what lets trees be built from heterogeneous boxed
/// children.
impl<T: BatchExecutor> BatchExecutor for Box<T> {
    open spec fn schema_spec(&self) -> Seq<FieldType> {
        (**self).schema_spec()
    }

    open spec fn drained(&self) -> bool {
        (**self).drained()
    }

    open spec fn pending_stats(&self) -> Seq<Option<ExecSummary>> {
        (**self).pending_stats()
    }

    open spec fn pulled(&self, post: &Self, scan_rows: usize, r: &BatchExecuteResult) -> bool {
        (**self).pulled(&(**post), scan_rows, r)
    }

    fn schema(&self) -> (r: &[FieldType]) {
        (**self).schema()
    }

    fn next_batch(&mut self, scan_rows: usize) -> (r: BatchExecuteResult) {
        (**self).next_batch(scan_rows)
    }

    fn collect_statistics(&mut self, destination: &mut BatchExecuteStatistics) {
        (**self).collect_statistics(destination)
    }
}

/// The face an operator keeps after type erasure: the same three
/// operations under the same protocol, but with the pull relation gone —
/// that relation names the concrete operator type twice, which a
/// type-erased handle cannot carry.
///
/// Every operator is an `ErasedBatchExecutor` for free, so a tree may
/// mix heterogeneous node kinds behind `Box<dyn ErasedBatchExecutor>`
/// children; such a box is in turn a full `BatchExecutor` below.
pub trait ErasedBatchExecutor: Send {
    /// The output schema, stable for the operator's lifetime.
    spec fn schema_spec_erased(&self) -> Seq<FieldType>;

    /// Whether a terminal result has been returned.
    spec fn drained_erased(&self) -> bool;

    /// The statistics delta accumulated since the last collection.
    spec fn pending_stats_erased(&self) -> Seq<Option<ExecSummary>>;

    /// As [`BatchExecutor::schema`].
    fn schema_erased(&self) -> (r: &[FieldType])
        ensures
            r@ == self.schema_spec_erased(),
    ;

    /// As [`BatchExecutor::next_batch`].
    fn next_batch_erased(&mut self, scan_rows: usize) -> (r: BatchExecuteResult)
        requires
            !old(self).drained_erased(),
        ensures
            r.well_formed(),
            final(self).schema_spec_erased() == old(self).schema_spec_erased(),
            final(self).drained_erased() == r.is_terminal(),
    ;

    /// As [`BatchExecutor::collect_statistics`].
    fn collect_statistics_erased(&mut self, destination: &mut BatchExecuteStatistics)
        ensures
            final(self).schema_spec_erased() == old(self).schema_spec_erased(),
            final(self).drained_erased() == old(self).drained_erased(),
            final(self).pending_stats_erased() == reset_deltas(old(self).pending_stats_erased()),
            final(destination)@ == apply_deltas(
                old(destination)@,
                old(self).pending_stats_erased(),
            ),
    ;
}

impl<T: BatchExecutor> ErasedBatchExecutor for T {
    open spec fn schema_spec_erased(&self) -> Seq<FieldType> {
        self.schema_spec()
    }

    open spec fn drained_erased(&self) -> bool {
        self.drained()
    }

    open spec fn pending_stats_erased(&self) -> Seq<Option<ExecSummary>> {
        self.pending_stats()
    }

    fn schema_erased(&self) -> (r: &[FieldType]) {
        self.schema()
    }

    fn next_batch_erased(&mut self, scan_rows: usize) -> (r: BatchExecuteResult) {
        self.next_batch(scan_rows)
    }

    fn collect_statistics_erased(&mut self, destination: &mut BatchExecuteStatistics) {
        self.collect_statistics(destination)
    }
}

/// A type-erased boxed node is a full operator again.  Its pull relation
/// claims nothing: what the concrete operator behind the handle does on
/// a pull was erased with its type, and only the protocol clauses of
/// `next_batch` remain.
impl BatchExecutor for Box<dyn ErasedBatchExecutor> {
    open spec fn schema_spec(&self) -> Seq<FieldType> {
        (**self).schema_spec_erased()
    }

    open spec fn drained(&self) -> bool {
        (**self).drained_erased()
    }

    open spec fn pending_stats(&self) -> Seq<Option<ExecSummary>> {
        (**self).pending_stats_erased()
    }

    open spec fn pulled(&self, post: &Self, scan_rows: usize, r: &BatchExecuteResult) -> bool {
        true
    }

    fn schema(&self) -> (r: &[FieldType]) {
        (**self).schema_erased()
    }

    fn next_batch(&mut self, scan_rows: usize) -> (r: BatchExecuteResult) {
        (**self).next_batch_erased(scan_rows)
    }

    fn collect_statistics(&mut self, destination: &mut BatchExecuteStatistics) {
        (**self).collect_statistics_erased(destination)
    }
}

/// The summary-collecting decorator: an operator that forwards every call
/// to the wrapped operator while measuring its pulls.
///
/// `schema` is forwarded unchanged; `next_batch` times the inner pull and
/// records the count of logical rows produced, returning the inner result
/// unmodified; `collect_statistics` delegates to the inner operator first
/// — so nested decorators compose depth-first — and then flushes its own
/// summary.  The instrumentation only measures: it adds one aggregator
/// slot and alters nothing of the data or drain behaviour it observes.
pub struct WithSummaryCollector<C, T> {
    /// The collector measuring the wrapped operator's pulls.
    pub summary_collector: C,
    /// The wrapped operator.
    pub inner: T,
}

impl<C: ExecSummaryCollector + Send, T: BatchExecutor> BatchExecutor for WithSummaryCollector<
    C,
    T,
> {
    open spec fn schema_spec(&self) -> Seq<FieldType> {
        self.inner.schema_spec()
    }

    open spec fn drained(&self) -> bool {
        self.inner.drained()
    }

    open spec fn pending_stats(&self) -> Seq<Option<ExecSummary>> {
        apply_deltas(
            self.inner.pending_stats(),
            single_slot(self.summary_collector.slot() as int, self.summary_collector.pending()),
        )
    }

    /// One decorated pull is one inner pull: the returned structure is
    /// the one the wrapped operator returned, and beyond the inner
    /// operator's own transition only the collector moves — its slot is
    /// kept, one iteration and the returned logical row count are added,
    /// and its measured time never shrinks.
    open spec fn pulled(&self, post: &Self, scan_rows: usize, r: &BatchExecuteResult) -> bool {
        &&& self.inner.pulled(&post.inner, scan_rows, r)
        &&& post.summary_collector.slot() == self.summary_collector.slot()
        &&& post.summary_collector.pending().num_iterations
            == self.summary_collector.pending().num_iterations.saturating_add(1)
        &&& post.summary_collector.pending().num_produced_rows
            == self.summary_collector.pending().num_produced_rows.saturating_add(
            r.logical_rows@.len() as u64,
        )
        &&& post.summary_collector.pending().time_processed_ns
            >= self.summary_collector.pending().time_processed_ns
    }

    fn schema(&self) -> (r: &[FieldType]) {
        self.inner.schema()
    }

    fn next_batch(&mut self, scan_rows: usize) -> (r: BatchExecuteResult) {
        let timer = self.summary_collector.on_start_iterate();
        let result = self.inner.next_batch(scan_rows);
        self.summary_collector.on_finish_iterate(timer, result.logical_rows.len());
        result
    }

    fn collect_statistics(&mut self, destination: &mut BatchExecuteStatistics)
        ensures
            final(self).summary_collector.pending() == zero_summary(),
    {
        let ghost slot = self.summary_collector.slot() as int;
        let ghost pending = self.summary_collector.pending();
        let ghost inner_pending = self.inner.pending_stats();
        self.inner.collect_statistics(destination);
        self.summary_collector.collect_into(&mut destination.summary_per_executor);
        proof {
            lemma_apply_deltas_assoc(old(destination)@, inner_pending, single_slot(slot, pending));
            lemma_reset_distributes(inner_pending, single_slot(slot, pending));
            lemma_reset_single_slot(slot, pending);
        }
    }
}

/// Each decorator layer contributes exactly one aggregator slot: away
/// from its collector's own slot, a wrapped operator's pending delta is
/// exactly the inner operator's, and at that slot the collector's own
/// pending summary is merged in.
pub proof fn lemma_decorator_adds_single_slot<C: ExecSummaryCollector + Send, T: BatchExecutor>(
    w: WithSummaryCollector<C, T>,
)
    ensures
        forall|i: int|
            i != w.summary_collector.slot() ==> opt_at(w.pending_stats(), i) == opt_at(
                w.inner.pending_stats(),
                i,
            ),
        opt_at(w.pending_stats(), w.summary_collector.slot() as int) == combine_opt(
            opt_at(w.inner.pending_stats(), w.summary_collector.slot() as int),
            Option::Some(w.summary_collector.pending()),
        ),
{
}

} // verus!
