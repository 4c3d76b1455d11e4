//! Pull-based, column-oriented batch execution interface.
//!
//! A query plan is compiled into a tree of operators that pull batches of
//! column-major data from their children.  This crate defines the contract
//! governing that tree: the pull interface, the per-call result structure
//! with its drain/error protocol, and the statistics-collection mechanism
//! that layers profiling onto any operator without touching its logic.

pub mod error;
pub mod eval_warnings;
pub mod exec_summary;
pub mod interface;
pub mod operators;
pub mod physical;
pub mod schema;
pub mod statistics;

pub use error::ExecError;
pub use eval_warnings::EvalWarnings;
pub use exec_summary::{ExecSummary, ExecSummaryCollector, ExecSummaryCollectorEnabled};
pub use interface::{
    BatchExecuteResult, BatchExecutor, DrainState, ErasedBatchExecutor, WithSummaryCollector,
};
pub use operators::{MemSourceExecutor, NonzeroFilterExecutor};
pub use physical::PhysicalColumns;
pub use schema::FieldType;
pub use statistics::BatchExecuteStatistics;
