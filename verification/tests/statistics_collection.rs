use batch_exec::exec_summary::ExecSummaryCollectorEnabled;
use batch_exec::interface::{BatchExecutor, DrainState};
use batch_exec::operators::MemSourceExecutor;
use batch_exec::physical::PhysicalColumns;
use batch_exec::schema::FieldType;
use batch_exec::statistics::BatchExecuteStatistics;

fn one_column(cells: Vec<i64>) -> PhysicalColumns {
    PhysicalColumns { columns: vec![cells] }
}

fn int_field() -> FieldType {
    FieldType { tp: 3, flag: 0, flen: 11, decimal: 0, collate: 63 }
}

#[test]
fn decorator_is_transparent_and_counts_rows() {
    let mut plain = MemSourceExecutor::new(vec![int_field()], one_column(vec![10, 20, 30]));
    let wrapped_src = MemSourceExecutor::new(vec![int_field()], one_column(vec![10, 20, 30]));
    let mut wrapped = wrapped_src.with_summary_collector(ExecSummaryCollectorEnabled::new(0));

    for hint in [2, 2] {
        let a = plain.next_batch(hint);
        let b = wrapped.next_batch(hint);
        assert_eq!(a.logical_rows, b.logical_rows);
        assert_eq!(a.physical_columns.columns, b.physical_columns.columns);
        assert_eq!(a.warnings.warnings, b.warnings.warnings);
        assert_eq!(a.is_drained, b.is_drained);
    }

    let mut stats = BatchExecuteStatistics::new(1);
    wrapped.collect_statistics(&mut stats);
    let summary = stats.summary_per_executor[0].expect("one summary entry");
    assert_eq!(summary.num_iterations, 2);
    assert_eq!(summary.num_produced_rows, 3);
}

#[test]
fn second_collection_reports_nothing_new() {
    let src = MemSourceExecutor::new(vec![int_field()], one_column(vec![10, 20]));
    let mut wrapped = src.with_summary_collector(ExecSummaryCollectorEnabled::new(0));
    let r = wrapped.next_batch(10);
    assert!(matches!(r.is_drained, DrainState::DrainedOk));

    let mut stats = BatchExecuteStatistics::new(1);
    wrapped.collect_statistics(&mut stats);
    let first = stats.summary_per_executor[0].expect("entry after first collection");
    assert_eq!(first.num_iterations, 1);
    assert_eq!(first.num_produced_rows, 2);

    wrapped.collect_statistics(&mut stats);
    let second = stats.summary_per_executor[0].expect("entry after second collection");
    assert_eq!(first, second);
}

#[test]
fn nested_decorators_each_contribute_one_entry() {
    let src = MemSourceExecutor::new(vec![int_field()], one_column(vec![1, 2, 3, 4]));
    let inner = src.with_summary_collector(ExecSummaryCollectorEnabled::new(1));
    let mut outer = inner.with_summary_collector(ExecSummaryCollectorEnabled::new(0));

    loop {
        let r = outer.next_batch(3);
        if !matches!(r.is_drained, DrainState::Continue) {
            break;
        }
    }

    let mut stats = BatchExecuteStatistics::new(2);
    outer.collect_statistics(&mut stats);
    let outer_summary = stats.summary_per_executor[0].expect("outer entry");
    let inner_summary = stats.summary_per_executor[1].expect("inner entry");
    assert_eq!(outer_summary.num_iterations, 2);
    assert_eq!(inner_summary.num_iterations, 2);
    assert_eq!(outer_summary.num_produced_rows, 4);
    assert_eq!(inner_summary.num_produced_rows, 4);
}

#[test]
fn collection_grows_a_small_aggregator() {
    let src = MemSourceExecutor::new(vec![int_field()], one_column(vec![9]));
    let mut wrapped = src.with_summary_collector(ExecSummaryCollectorEnabled::new(3));
    let _ = wrapped.next_batch(1);

    let mut stats = BatchExecuteStatistics::new(0);
    wrapped.collect_statistics(&mut stats);
    assert_eq!(stats.summary_per_executor.len(), 4);
    assert!(stats.summary_per_executor[0].is_none());
    assert!(stats.summary_per_executor[1].is_none());
    assert!(stats.summary_per_executor[2].is_none());
    let summary = stats.summary_per_executor[3].expect("entry in the grown slot");
    assert_eq!(summary.num_produced_rows, 1);
}

#[test]
fn decorated_terminal_call_still_carries_rows() {
    let src = MemSourceExecutor::new_failing(vec![int_field()], one_column(vec![5, 6, 7]), 1, 9);
    let mut wrapped = src.with_summary_collector(ExecSummaryCollectorEnabled::new(0));
    let r = wrapped.next_batch(8);
    assert_eq!(r.logical_rows, vec![0]);
    match r.is_drained {
        DrainState::DrainedErr(e) => assert_eq!(e.code, 9),
        _ => panic!("expected a terminal error signal"),
    }
    let mut stats = BatchExecuteStatistics::new(1);
    wrapped.collect_statistics(&mut stats);
    let summary = stats.summary_per_executor[0].expect("one summary entry");
    assert_eq!(summary.num_produced_rows, 1);
}

#[test]
fn fresh_aggregator_is_empty() {
    let stats = BatchExecuteStatistics::new(3);
    assert_eq!(stats.summary_per_executor.len(), 3);
    assert!(stats.summary_per_executor.iter().all(|s| s.is_none()));
}
