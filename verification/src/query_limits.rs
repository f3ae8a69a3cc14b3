//! Limits on the execution of a single query.

use vstd::prelude::*;

verus! {

/// Limits on a single query.
#[derive(Debug, Clone, Copy, PartialEq, Eq, Structural)]
pub struct QueryLimitsConfig {
    /// Max documents in result set.
    pub max_result_set_docs: usize,
    /// Default query timeout in ms.
    pub query_timeout_ms: u64,
}

impl Default for QueryLimitsConfig {
    fn default() -> (r: Self)
        ensures
            r.max_result_set_docs == 10000,
            r.query_timeout_ms == 30000,
    {
        QueryLimitsConfig { max_result_set_docs: 10000, query_timeout_ms: 30000 }
    }
}

} // verus!
