//! The statistics aggregator: the destination structure into which every
//! operator of a tree reports its accumulated metrics, keyed by operator
//! identity (a slot index), together with the spec-level algebra of
//! summary deltas that the reporting contracts are stated over.
//!
//! A whole collection pass is described as applying a *delta* — a sequence
//! of optional summaries, one slot per operator — to the aggregator's
//! current contents.  Deltas merge slot-wise with saturating addition, so
//! applying them is associative and order-independent, which is what makes
//! the unspecified cross-sibling collection order harmless.

use vstd::prelude::*;

use crate::exec_summary::{
    lemma_summary_add_assoc, lemma_summary_add_comm, lemma_summary_add_zero, summary_add,
    zero_summary, ExecSummary,
};

verus! {

/// The summary, if any, that a delta or an aggregator holds at slot `i`;
/// slots beyond the end hold nothing.
pub open spec fn opt_at(s: Seq<Option<ExecSummary>>, i: int) -> Option<ExecSummary> {
    if 0 <= i < s.len() {
        s[i]
    } else {
        None
    }
}

/// Slot-wise merge of two optional summaries: an absent side is neutral,
/// two present sides add field-wise.
pub open spec fn combine_opt(a: Option<ExecSummary>, b: Option<ExecSummary>) -> Option<
    ExecSummary,
> {
    match (a, b) {
        (Option::None, Option::None) => Option::None,
        (Option::Some(x), Option::None) => Option::Some(x),
        (Option::None, Option::Some(y)) => Option::Some(y),
        (Option::Some(x), Option::Some(y)) => Option::Some(summary_add(x, y)),
    }
}

/// Applies a delta to an aggregator's contents: slot-wise merge, growing
/// the contents to the delta's length where the delta is longer.
pub open spec fn apply_deltas(s: Seq<Option<ExecSummary>>, d: Seq<Option<ExecSummary>>) -> Seq<
    Option<ExecSummary>,
> {
    Seq::new(
        if s.len() >= d.len() {
            s.len()
        } else {
            d.len()
        },
        |i: int| combine_opt(opt_at(s, i), opt_at(d, i)),
    )
}

/// The delta contributed by a single operator: one summary at its own
/// slot, nothing anywhere else.
pub open spec fn single_slot(slot: int, d: ExecSummary) -> Seq<Option<ExecSummary>> {
    Seq::new(
        (slot + 1) as nat,
        |i: int| if i == slot {
            Option::Some(d)
        } else {
            Option::None
        },
    )
}

/// What is left pending after a delta has been reported: every slot that
/// held a summary now holds the zero summary.
pub open spec fn reset_deltas(d: Seq<Option<ExecSummary>>) -> Seq<Option<ExecSummary>> {
    Seq::new(
        d.len(),
        |i: int| match d[i] {
            Option::Some(_) => Option::Some(zero_summary()),
            Option::None => Option::None,
        },
    )
}

proof fn lemma_combine_opt_assoc(a: Option<ExecSummary>, b: Option<ExecSummary>, c: Option<
    ExecSummary,
>)
    ensures
        combine_opt(combine_opt(a, b), c) == combine_opt(a, combine_opt(b, c)),
{
    match (a, b, c) {
        (Option::Some(x), Option::Some(y), Option::Some(z)) => {
            lemma_summary_add_assoc(x, y, z);
        },
        _ => {},
    }
}

proof fn lemma_combine_opt_comm(a: Option<ExecSummary>, b: Option<ExecSummary>)
    ensures
        combine_opt(a, b) == combine_opt(b, a),
{
    match (a, b) {
        (Option::Some(x), Option::Some(y)) => {
            lemma_summary_add_comm(x, y);
        },
        _ => {},
    }
}

/// Applying the empty delta changes nothing.
pub proof fn lemma_apply_deltas_empty(s: Seq<Option<ExecSummary>>)
    ensures
        apply_deltas(s, Seq::<Option<ExecSummary>>::empty()) == s,
{
    let r = apply_deltas(s, Seq::<Option<ExecSummary>>::empty());
    assert forall|i: int| 0 <= i < s.len() implies r[i] == s[i] by {
        assert(combine_opt(opt_at(s, i), Option::None) == opt_at(s, i));
    }
    assert(r =~= s);
}

/// Deltas may be applied one after the other or merged first: the result
/// is the same.
pub proof fn lemma_apply_deltas_assoc(
    s: Seq<Option<ExecSummary>>,
    a: Seq<Option<ExecSummary>>,
    b: Seq<Option<ExecSummary>>,
)
    ensures
        apply_deltas(apply_deltas(s, a), b) == apply_deltas(s, apply_deltas(a, b)),
{
    let lhs = apply_deltas(apply_deltas(s, a), b);
    let rhs = apply_deltas(s, apply_deltas(a, b));
    assert forall|i: int| 0 <= i < lhs.len() implies lhs[i] == rhs[i] by {
        lemma_combine_opt_assoc(opt_at(s, i), opt_at(a, i), opt_at(b, i));
    }
    assert(lhs =~= rhs);
}

/// Two deltas may be applied in either order: the result is the same.
/// This is the order-independence invariant behind the unspecified
/// collection order among sibling operators.
pub proof fn lemma_apply_deltas_order_independent(
    s: Seq<Option<ExecSummary>>,
    a: Seq<Option<ExecSummary>>,
    b: Seq<Option<ExecSummary>>,
)
    ensures
        apply_deltas(apply_deltas(s, a), b) == apply_deltas(apply_deltas(s, b), a),
{
    let lhs = apply_deltas(apply_deltas(s, a), b);
    let rhs = apply_deltas(apply_deltas(s, b), a);
    assert forall|i: int| 0 <= i < lhs.len() implies lhs[i] == rhs[i] by {
        lemma_combine_opt_assoc(opt_at(s, i), opt_at(a, i), opt_at(b, i));
        lemma_combine_opt_comm(opt_at(a, i), opt_at(b, i));
        lemma_combine_opt_assoc(opt_at(s, i), opt_at(b, i), opt_at(a, i));
    }
    assert(lhs =~= rhs);
}

/// Resetting distributes over merging: flushing two merged contributions
/// leaves the same pending state as flushing them one by one.
pub proof fn lemma_reset_distributes(a: Seq<Option<ExecSummary>>, b: Seq<Option<ExecSummary>>)
    ensures
        reset_deltas(apply_deltas(a, b)) == apply_deltas(reset_deltas(a), reset_deltas(b)),
{
    let lhs = reset_deltas(apply_deltas(a, b));
    let rhs = apply_deltas(reset_deltas(a), reset_deltas(b));
    assert forall|i: int| 0 <= i < lhs.len() implies lhs[i] == rhs[i] by {
        assert(opt_at(reset_deltas(a), i) == match opt_at(a, i) {
            Option::Some(_) => Option::Some(zero_summary()),
            Option::None => Option::None,
        });
        assert(opt_at(reset_deltas(b), i) == match opt_at(b, i) {
            Option::Some(_) => Option::Some(zero_summary()),
            Option::None => Option::None,
        });
    }
    assert(lhs =~= rhs);
}

/// A single-slot delta resets to the zero summary at the same slot.
pub proof fn lemma_reset_single_slot(slot: int, d: ExecSummary)
    ensures
        reset_deltas(single_slot(slot, d)) == single_slot(slot, zero_summary()),
{
    assert(reset_deltas(single_slot(slot, d)) =~= single_slot(slot, zero_summary()));
}

/// No double counting: once a delta has been reported, reporting the
/// reset state it leaves behind adds nothing.  A second statistics
/// collection without intervening pulls therefore leaves the aggregator
/// exactly as the first left it.
pub proof fn lemma_second_collection_adds_nothing(
    s: Seq<Option<ExecSummary>>,
    d: Seq<Option<ExecSummary>>,
)
    ensures
        apply_deltas(apply_deltas(s, d), reset_deltas(d)) == apply_deltas(s, d),
{
    let t = apply_deltas(s, d);
    let r = apply_deltas(t, reset_deltas(d));
    assert forall|i: int| 0 <= i < r.len() implies r[i] == t[i] by {
        match opt_at(d, i) {
            Option::Some(v) => {
                match opt_at(t, i) {
                    Option::Some(w) => {
                        lemma_summary_add_zero(w);
                    },
                    Option::None => {},
                }
            },
            Option::None => {},
        }
    }
    assert(r =~= t);
}

/// The statistics aggregator: one optional execution summary per operator
/// slot, owned by the single caller driving the tree and only ever added
/// to by the operators reporting into it.
pub struct BatchExecuteStatistics {
    /// Execution summaries, indexed by operator identity.
    pub summary_per_executor: Vec<Option<ExecSummary>>,
}

impl View for BatchExecuteStatistics {
    type V = Seq<Option<ExecSummary>>;

    open spec fn view(&self) -> Seq<Option<ExecSummary>> {
        self.summary_per_executor@
    }
}

impl BatchExecuteStatistics {
    /// A fresh aggregator with one empty slot per operator of the tree.
    pub fn new(executors_len: usize) -> (r: Self)
        ensures
            r@.len() == executors_len,
            forall|i: int| 0 <= i < executors_len ==> r@[i] is None,
    {
        let mut summary_per_executor: Vec<Option<ExecSummary>> = Vec::new();
        while summary_per_executor.len() < executors_len
            invariant
                summary_per_executor@.len() <= executors_len,
                forall|i: int| 0 <= i < summary_per_executor@.len()
                    ==> summary_per_executor@[i] is None,
            decreases executors_len - summary_per_executor.len(),
        {
            summary_per_executor.push(Option::None);
        }
        BatchExecuteStatistics { summary_per_executor }
    }
}

} // verus!
