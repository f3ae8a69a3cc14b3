//! Observability of applied operations: the operation log and the tracking of
//! slow queries.

pub mod operation_log;
pub mod slow_query;
