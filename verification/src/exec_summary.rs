//! Per-operator execution summaries: the record a profiled operator reports
//! into the statistics aggregator, and the spec-level algebra of merging
//! such records into per-operator slots.

use vstd::pervasive::VecAdditionalExecFns;
use vstd::prelude::*;

use crate::statistics::{apply_deltas, single_slot};

verus! {

/// Execution summary of a single operator: how many times it was pulled,
/// how many logical rows it produced, and how long the pulls took.
///
/// All counters saturate at their maximum rather than wrapping.
#[derive(Clone, Copy, Debug, PartialEq, Eq, Structural)]
pub struct ExecSummary {
    /// Number of `next_batch` invocations measured.
    pub num_iterations: u64,
    /// Total number of logical rows produced over those invocations.
    pub num_produced_rows: u64,
    /// Total wall time spent inside those invocations, in nanoseconds.
    pub time_processed_ns: u64,
}

/// The all-zero summary: the state of a fresh collector, and the delta a
/// collector holds right after flushing.
pub open spec fn zero_summary() -> ExecSummary {
    ExecSummary { num_iterations: 0, num_produced_rows: 0, time_processed_ns: 0 }
}

/// Field-wise saturating sum of two summaries.
pub open spec fn summary_add(a: ExecSummary, b: ExecSummary) -> ExecSummary {
    ExecSummary {
        num_iterations: a.num_iterations.saturating_add(b.num_iterations),
        num_produced_rows: a.num_produced_rows.saturating_add(b.num_produced_rows),
        time_processed_ns: a.time_processed_ns.saturating_add(b.time_processed_ns),
    }
}

proof fn lemma_sat_add_assoc(x: u64, y: u64, z: u64)
    ensures
        x.saturating_add(y).saturating_add(z) == x.saturating_add(y.saturating_add(z)),
{
}

proof fn lemma_sat_add_comm(x: u64, y: u64)
    ensures
        x.saturating_add(y) == y.saturating_add(x),
{
}

/// The zero summary is a neutral element of `summary_add`.
pub proof fn lemma_summary_add_zero(a: ExecSummary)
    ensures
        summary_add(a, zero_summary()) == a,
        summary_add(zero_summary(), a) == a,
{
}

/// `summary_add` is associative.
pub proof fn lemma_summary_add_assoc(a: ExecSummary, b: ExecSummary, c: ExecSummary)
    ensures
        summary_add(summary_add(a, b), c) == summary_add(a, summary_add(b, c)),
{
    lemma_sat_add_assoc(a.num_iterations, b.num_iterations, c.num_iterations);
    lemma_sat_add_assoc(a.num_produced_rows, b.num_produced_rows, c.num_produced_rows);
    lemma_sat_add_assoc(a.time_processed_ns, b.time_processed_ns, c.time_processed_ns);
}

/// `summary_add` is commutative.
pub proof fn lemma_summary_add_comm(a: ExecSummary, b: ExecSummary)
    ensures
        summary_add(a, b) == summary_add(b, a),
{
    lemma_sat_add_comm(a.num_iterations, b.num_iterations);
    lemma_sat_add_comm(a.num_produced_rows, b.num_produced_rows);
    lemma_sat_add_comm(a.time_processed_ns, b.time_processed_ns);
}

/// Declares `std::time::Instant` so a clock reading can be held and
/// passed around; the value itself stays opaque to the contracts.
#[verifier::external_type_specification]
#[verifier::external_body]
pub struct ExInstant(std::time::Instant);

/// Relies on `std::time::Instant::now`: a point-in-time reading of the
/// monotonic clock.  The value depends on the clock, so nothing is
/// promised of it.
#[verifier::external_body]
fn clock_now() -> std::time::Instant {
    std::time::Instant::now()
}

/// Relies on `std::time::Instant::elapsed`: the time since `start` was
/// taken, converted to whole nanoseconds and clamped into `u64`.  The
/// value depends on the clock, so nothing is promised of it.
#[verifier::external_body]
fn clock_elapsed_ns(start: &std::time::Instant) -> u64 {
    u64::try_from(start.elapsed().as_nanos()).unwrap_or(u64::MAX)
}

/// A running measurement of one pull, handed out by
/// [`ExecSummaryCollector::on_start_iterate`] and consumed by
/// [`ExecSummaryCollector::on_finish_iterate`].
pub struct IterationTimer {
    start: std::time::Instant,
}

/// The minimal capability a summary-collecting wrapper needs: start a
/// timer before a pull, stop it afterwards with the number of logical
/// rows produced, and flush everything accumulated so far into an
/// aggregator slot.
///
/// `slot` is the operator identity the collector reports under; it never
/// changes over the collector's life.  `pending` is the summary
/// accumulated since the last flush; flushing merges it into the
/// destination and resets it to zero, so repeated flushes never double
/// count.
pub trait ExecSummaryCollector: Send {
    /// The aggregator slot this collector reports into; an operator
    /// identity is an index, so the slot is never negative.
    spec fn slot(&self) -> nat;

    /// The summary accumulated since the last flush.
    spec fn pending(&self) -> ExecSummary;

    /// Begins timing one pull.
    fn on_start_iterate(&mut self) -> (t: IterationTimer)
        ensures
            final(self).slot() == old(self).slot(),
            final(self).pending() == old(self).pending(),
    ;

    /// Ends timing one pull that produced `rows` logical rows.
    fn on_finish_iterate(&mut self, timer: IterationTimer, rows: usize)
        ensures
            final(self).slot() == old(self).slot(),
            final(self).pending().num_iterations == old(self).pending()
                .num_iterations
                .saturating_add(1),
            final(self).pending().num_produced_rows == old(self).pending()
                .num_produced_rows
                .saturating_add(rows as u64),
            final(self).pending().time_processed_ns >= old(self).pending().time_processed_ns,
    ;

    /// Merges everything accumulated since the last flush into the
    /// destination slot and resets the accumulator.
    fn collect_into(&mut self, destination: &mut Vec<Option<ExecSummary>>)
        ensures
            final(self).slot() == old(self).slot(),
            final(self).pending() == zero_summary(),
            final(destination)@ == apply_deltas(
                old(destination)@,
                single_slot(old(self).slot() as int, old(self).pending()),
            ),
    ;
}

/// A summary collector that measures pulls with the monotonic clock and
/// reports them under a fixed operator slot.
pub struct ExecSummaryCollectorEnabled {
    /// The aggregator slot this collector reports into.
    pub output_index: usize,
    /// The summary accumulated since the last flush.
    pub counts: ExecSummary,
}

impl ExecSummaryCollectorEnabled {
    /// A fresh collector reporting into `output_index`, with nothing
    /// accumulated yet.
    pub fn new(output_index: usize) -> (r: Self)
        ensures
            r.slot() == output_index,
            r.pending() == zero_summary(),
    {
        ExecSummaryCollectorEnabled {
            output_index,
            counts: ExecSummary { num_iterations: 0, num_produced_rows: 0, time_processed_ns: 0 },
        }
    }
}

impl ExecSummaryCollector for ExecSummaryCollectorEnabled {
    open spec fn slot(&self) -> nat {
        self.output_index as nat
    }

    open spec fn pending(&self) -> ExecSummary {
        self.counts
    }

    fn on_start_iterate(&mut self) -> (t: IterationTimer) {
        IterationTimer { start: clock_now() }
    }

    fn on_finish_iterate(&mut self, timer: IterationTimer, rows: usize) {
        let elapsed: u64 = clock_elapsed_ns(&timer.start);
        self.counts = ExecSummary {
            num_iterations: self.counts.num_iterations.saturating_add(1),
            num_produced_rows: self.counts.num_produced_rows.saturating_add(rows as u64),
            time_processed_ns: self.counts.time_processed_ns.saturating_add(elapsed),
        };
    }

    fn collect_into(&mut self, destination: &mut Vec<Option<ExecSummary>>) {
        while destination.len() <= self.output_index
            invariant
                destination@.len() >= old(destination)@.len(),
                destination@.len() <= if old(destination)@.len() >= self.output_index + 1 {
                    old(destination)@.len() as int
                } else {
                    self.output_index + 1
                },
                forall|i: int|
                    0 <= i < old(destination)@.len() ==> destination@[i] == old(destination)@[i],
                forall|i: int|
                    old(destination)@.len() <= i < destination@.len() ==> destination@[i] is None,
            decreases self.output_index + 1 - destination.len(),
        {
            destination.push(Option::None);
        }
        let prev: ExecSummary = match destination[self.output_index] {
            Option::Some(p) => p,
            Option::None => ExecSummary {
                num_iterations: 0,
                num_produced_rows: 0,
                time_processed_ns: 0,
            },
        };
        let merged = ExecSummary {
            num_iterations: prev.num_iterations.saturating_add(self.counts.num_iterations),
            num_produced_rows: prev.num_produced_rows.saturating_add(
                self.counts.num_produced_rows,
            ),
            time_processed_ns: prev.time_processed_ns.saturating_add(
                self.counts.time_processed_ns,
            ),
        };
        destination.set(self.output_index, Option::Some(merged));
        self.counts = ExecSummary { num_iterations: 0, num_produced_rows: 0, time_processed_ns: 0 };
        proof {
            lemma_summary_add_zero(old(self).pending());
            assert(destination@ =~= apply_deltas(
                old(destination)@,
                single_slot(old(self).slot() as int, old(self).pending()),
            ));
        }
    }
}

} // verus!
