use batch_exec::exec_summary::ExecSummaryCollectorEnabled;
use batch_exec::interface::{BatchExecutor, DrainState, ErasedBatchExecutor};
use batch_exec::statistics::BatchExecuteStatistics;
use batch_exec::operators::{MemSourceExecutor, NonzeroFilterExecutor};
use batch_exec::physical::PhysicalColumns;
use batch_exec::schema::FieldType;

fn one_column(cells: Vec<i64>) -> PhysicalColumns {
    PhysicalColumns { columns: vec![cells] }
}

fn int_field() -> FieldType {
    FieldType { tp: 3, flag: 0, flen: 11, decimal: 0, collate: 63 }
}

#[test]
fn leaf_with_three_rows_hint_two() {
    let data = one_column(vec![10, 20, 30]);
    let mut src = MemSourceExecutor::new(vec![int_field()], data);

    let r1 = src.next_batch(2);
    assert_eq!(r1.logical_rows, vec![0, 1]);
    assert_eq!(r1.physical_columns.columns[0], vec![10, 20]);
    assert!(matches!(r1.is_drained, DrainState::Continue));

    let r2 = src.next_batch(2);
    assert_eq!(r2.logical_rows, vec![0]);
    assert_eq!(r2.physical_columns.columns[0], vec![30]);
    assert!(matches!(r2.is_drained, DrainState::DrainedOk));
}

#[test]
fn source_failing_after_one_row() {
    let data = one_column(vec![10, 20, 30]);
    let mut src = MemSourceExecutor::new_failing(vec![int_field()], data, 1, 7);

    let r = src.next_batch(5);
    assert_eq!(r.logical_rows, vec![0]);
    assert_eq!(r.physical_columns.columns[0], vec![10]);
    match r.is_drained {
        DrainState::DrainedErr(e) => assert_eq!(e.code, 7),
        _ => panic!("expected a terminal error signal"),
    }
}

#[test]
fn filter_discards_whole_batch_and_continues() {
    let data = one_column(vec![0, 0, 0, 0, 0, 42]);
    let src = MemSourceExecutor::new(vec![int_field()], data);
    let mut filter = NonzeroFilterExecutor::new(src);

    let r1 = filter.next_batch(5);
    assert!(r1.logical_rows.is_empty());
    assert_eq!(r1.physical_columns.rows_len(), 5);
    assert!(matches!(r1.is_drained, DrainState::Continue));

    let r2 = filter.next_batch(5);
    assert_eq!(r2.logical_rows, vec![0]);
    assert_eq!(r2.physical_columns.columns[0], vec![42]);
    assert!(matches!(r2.is_drained, DrainState::DrainedOk));
}

#[test]
fn filter_keeps_nonzero_rows_in_order() {
    let data = one_column(vec![5, 0, -3, 0, 8]);
    let src = MemSourceExecutor::new(vec![int_field()], data);
    let mut filter = NonzeroFilterExecutor::new(src);

    let r = filter.next_batch(5);
    assert_eq!(r.logical_rows, vec![0, 2, 4]);
    assert!(matches!(r.is_drained, DrainState::DrainedOk));
    // Every logical row denotes a valid physical row, and no row repeats.
    let rows = r.physical_columns.rows_len();
    for (i, a) in r.logical_rows.iter().enumerate() {
        assert!(*a < rows);
        for b in r.logical_rows[..i].iter() {
            assert_ne!(a, b);
        }
    }
}

#[test]
fn empty_source_drains_on_first_pull() {
    let data = PhysicalColumns { columns: vec![] };
    let mut src = MemSourceExecutor::new(vec![], data);

    let r = src.next_batch(4);
    assert!(r.logical_rows.is_empty());
    assert_eq!(r.physical_columns.rows_len(), 0);
    assert!(matches!(r.is_drained, DrainState::DrainedOk));
}

#[test]
fn hint_of_zero_rows_is_valid_and_continues() {
    let data = one_column(vec![1, 2]);
    let mut src = MemSourceExecutor::new(vec![int_field()], data);

    let r = src.next_batch(0);
    assert!(r.logical_rows.is_empty());
    assert!(matches!(r.is_drained, DrainState::Continue));

    let r = src.next_batch(2);
    assert_eq!(r.logical_rows, vec![0, 1]);
    assert!(matches!(r.is_drained, DrainState::DrainedOk));
}

#[test]
fn schema_is_stable_and_shared() {
    let fields = vec![int_field(), FieldType { tp: 15, flag: 1, flen: 64, decimal: 0, collate: 46 }];
    let data = PhysicalColumns { columns: vec![vec![1], vec![2]] };
    let src = MemSourceExecutor::new(fields.clone(), data);
    let mut filter = NonzeroFilterExecutor::new(src);

    assert_eq!(filter.schema(), fields.as_slice());
    assert_eq!(filter.schema(), filter.schema());
    let _ = filter.next_batch(1);
    assert_eq!(filter.schema(), fields.as_slice());
}

#[test]
fn boxed_operator_delegates() {
    let data = one_column(vec![10, 20, 30]);
    let src = MemSourceExecutor::new(vec![int_field()], data);
    let mut boxed: Box<MemSourceExecutor> = Box::new(src);

    assert_eq!(boxed.schema().len(), 1);
    let r1 = boxed.next_batch(2);
    assert_eq!(r1.logical_rows, vec![0, 1]);
    assert!(matches!(r1.is_drained, DrainState::Continue));
    let r2 = boxed.next_batch(2);
    assert_eq!(r2.logical_rows, vec![0]);
    assert!(matches!(r2.is_drained, DrainState::DrainedOk));
}

#[test]
fn heterogeneous_tree_behind_dyn_handles() {
    let src = MemSourceExecutor::new(vec![int_field()], one_column(vec![0, 9]));
    let filter = NonzeroFilterExecutor::new(src);
    let node: Box<dyn ErasedBatchExecutor> = Box::new(filter);
    let mut wrapped = node.with_summary_collector(ExecSummaryCollectorEnabled::new(0));

    assert_eq!(wrapped.schema().len(), 1);
    let r = wrapped.next_batch(10);
    assert_eq!(r.logical_rows, vec![1]);
    assert_eq!(r.physical_columns.columns[0], vec![0, 9]);
    assert!(matches!(r.is_drained, DrainState::DrainedOk));

    let mut stats = BatchExecuteStatistics::new(1);
    wrapped.collect_statistics(&mut stats);
    let summary = stats.summary_per_executor[0].expect("one summary entry");
    assert_eq!(summary.num_produced_rows, 1);
}

#[test]
fn physical_store_access() {
    let store = PhysicalColumns { columns: vec![vec![1, 2, 3], vec![4, 5, 6]] };
    assert_eq!(store.columns_len(), 2);
    assert_eq!(store.rows_len(), 3);
    assert_eq!(store.get(1, 2), 6);
    let part = store.slice_rows(1, 3);
    assert_eq!(part.rows_len(), 2);
    assert_eq!(part.columns[0], vec![2, 3]);
    assert_eq!(part.columns[1], vec![5, 6]);
}
