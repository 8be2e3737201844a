//! The byte ceiling on the Arrow result batches a query sends. The batch's
//! size in memory is measured where the batch is built.
use vstd::prelude::*;

use crate::metrics::{added, query_batch_rejected, MetricsCounters};
use crate::pg_names::SqlError;

verus! {

/// Admit a result batch of `bytes` under the ceiling `max_bytes`: its size
/// when within it; otherwise the refusal, which is counted.
pub fn check_result_batch_size(metrics: &mut MetricsCounters, bytes: usize, max_bytes: usize) -> (r: Result<
    usize,
    SqlError,
>)
    ensures
        bytes <= max_bytes ==> r == Ok::<usize, SqlError>(bytes) && *final(metrics) == *old(metrics),
        bytes > max_bytes ==> (r matches Err(e) && e.sqlstate@ == "54000"@ && e.message@
            == "DuckDB result batch exceeds the configured Arrow batch byte limit"@),
        bytes > max_bytes ==> *final(metrics) == (MetricsCounters {
            query_batch_limit_rejections: added(old(metrics).query_batch_limit_rejections, 1),
            ..*old(metrics)
        }),
{
    if bytes > max_bytes {
        query_batch_rejected(metrics);
        return Err(
            SqlError {
                sqlstate: "54000",
                message: "DuckDB result batch exceeds the configured Arrow batch byte limit",
            },
        );
    }
    Ok(bytes)
}

} // verus!
