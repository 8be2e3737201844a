//! Prometheus-compatible metrics and the status endpoint's routing.
//!
//! The exposition holds only counters kept for operations evidence; it never
//! includes SQL text, object paths, user credentials or client parameters.
use vstd::prelude::*;

use crate::execution_control::{larger, ExecutionCounters};
use crate::lifecycle::{ReadinessState, RuntimeLifecycle};
use crate::sql_text::{decimal, has_prefix, push_decimal, starts_with_text, text_eq};

verus! {

pub const METRICS_CONTENT_TYPE: &'static str = "text/plain; version=0.0.4; charset=utf-8";

/// Aggregate DuckDB allocations from one resource sample.
#[derive(Clone, Copy, Debug)]
pub struct EngineResourceSample {
    pub memory_bytes: u64,
    pub temporary_storage_bytes: u64,
}

/// The process-wide COPY, result-batch, session and DuckDB resource counters.
#[derive(Clone, Copy, Debug)]
pub struct MetricsCounters {
    pub copy_active: usize,
    pub copy_started: u64,
    pub copy_completed: u64,
    pub copy_failed: u64,
    pub copy_rows: u64,
    pub copy_bytes: u64,
    pub copy_batches: u64,
    pub copy_duration_microseconds: u64,
    pub copy_commit_microseconds: u64,
    pub query_batches: u64,
    pub query_batches_inflight: usize,
    pub query_batches_inflight_high_water: usize,
    pub query_batch_bytes_high_water: usize,
    pub query_batch_limit_rejections: u64,
    pub connections_quarantined: u64,
    pub duckdb_memory_bytes: u64,
    pub duckdb_memory_bytes_high_water: u64,
    pub duckdb_temporary_storage_bytes: u64,
    pub duckdb_temporary_storage_bytes_high_water: u64,
    pub duckdb_resource_samples: u64,
    pub duckdb_resource_sample_failures: u64,
    pub duckdb_resource_last_success_unix_seconds: u64,
}

/// `total + n`, wrapping around at `u64::MAX` as an atomic counter does.
pub open spec fn added(total: u64, n: u64) -> u64 {
    if total + n <= u64::MAX {
        (total + n) as u64
    } else {
        (total + n - 0x1_0000_0000_0000_0000) as u64
    }
}

fn add_wrapping(total: u64, n: u64) -> (r: u64)
    ensures
        r == added(total, n),
{
    if n <= u64::MAX - total {
        total + n
    } else {
        n - (u64::MAX - total) - 1
    }
}

/// A gauge moved up by one, wrapping around as an atomic counter does.
pub open spec fn incremented(gauge: usize) -> usize {
    if gauge < usize::MAX { (gauge + 1) as usize } else { 0 }
}

/// A gauge moved down by one, wrapping around as an atomic counter does.
pub open spec fn decremented(gauge: usize) -> usize {
    if gauge > 0 { (gauge - 1) as usize } else { usize::MAX }
}

/// A gauge that one event raises and its matching event lowers returns to
/// where it was, also across the wrap-around: a COPY that starts and then
/// completes or fails leaves the active COPY gauge as it found it, and so
/// does a result batch that starts and finishes for the in-flight gauge.
pub proof fn lemma_gauge_round_trip(gauge: usize)
    ensures
        decremented(incremented(gauge)) == gauge,
{
}

fn increment(gauge: usize) -> (r: usize)
    ensures
        r == incremented(gauge),
{
    if gauge < usize::MAX { gauge + 1 } else { 0 }
}

fn decrement(gauge: usize) -> (r: usize)
    ensures
        r == decremented(gauge),
{
    if gauge > 0 { gauge - 1 } else { usize::MAX }
}

/// Whole microseconds as the 64-bit total they are added to.
pub open spec fn micros64(micros: u128) -> u64 {
    (micros % 0x1_0000_0000_0000_0000) as u64
}

/// The larger of two readings.
pub open spec fn larger64(a: u64, b: u64) -> u64 {
    if a >= b { a } else { b }
}

fn update_high_water_u64(target: &mut u64, value: u64)
    ensures
        *final(target) == larger64(*old(target), value),
{
    if value > *target {
        *target = value;
    }
}

impl MetricsCounters {
    /// All counters at zero.
    pub fn new() -> (m: MetricsCounters)
        ensures
            m == (MetricsCounters {
                copy_active: 0,
                copy_started: 0,
                copy_completed: 0,
                copy_failed: 0,
                copy_rows: 0,
                copy_bytes: 0,
                copy_batches: 0,
                copy_duration_microseconds: 0,
                copy_commit_microseconds: 0,
                query_batches: 0,
                query_batches_inflight: 0,
                query_batches_inflight_high_water: 0,
                query_batch_bytes_high_water: 0,
                query_batch_limit_rejections: 0,
                connections_quarantined: 0,
                duckdb_memory_bytes: 0,
                duckdb_memory_bytes_high_water: 0,
                duckdb_temporary_storage_bytes: 0,
                duckdb_temporary_storage_bytes_high_water: 0,
                duckdb_resource_samples: 0,
                duckdb_resource_sample_failures: 0,
                duckdb_resource_last_success_unix_seconds: 0,
            }),
    {
        MetricsCounters {
            copy_active: 0,
            copy_started: 0,
            copy_completed: 0,
            copy_failed: 0,
            copy_rows: 0,
            copy_bytes: 0,
            copy_batches: 0,
            copy_duration_microseconds: 0,
            copy_commit_microseconds: 0,
            query_batches: 0,
            query_batches_inflight: 0,
            query_batches_inflight_high_water: 0,
            query_batch_bytes_high_water: 0,
            query_batch_limit_rejections: 0,
            connections_quarantined: 0,
            duckdb_memory_bytes: 0,
            duckdb_memory_bytes_high_water: 0,
            duckdb_temporary_storage_bytes: 0,
            duckdb_temporary_storage_bytes_high_water: 0,
            duckdb_resource_samples: 0,
            duckdb_resource_sample_failures: 0,
            duckdb_resource_last_success_unix_seconds: 0,
        }
    }
}

/// Record a successful resource sample taken at `unix_seconds`.
pub fn record_duckdb_resource_sample(metrics: &mut MetricsCounters, sample: EngineResourceSample, unix_seconds: u64)
    ensures
        *final(metrics) == (MetricsCounters {
            duckdb_memory_bytes: sample.memory_bytes,
            duckdb_temporary_storage_bytes: sample.temporary_storage_bytes,
            duckdb_memory_bytes_high_water: larger64(
                old(metrics).duckdb_memory_bytes_high_water,
                sample.memory_bytes,
            ),
            duckdb_temporary_storage_bytes_high_water: larger64(
                old(metrics).duckdb_temporary_storage_bytes_high_water,
                sample.temporary_storage_bytes,
            ),
            duckdb_resource_samples: added(old(metrics).duckdb_resource_samples, 1),
            duckdb_resource_last_success_unix_seconds: unix_seconds,
            ..*old(metrics)
        }),
{
    metrics.duckdb_memory_bytes = sample.memory_bytes;
    metrics.duckdb_temporary_storage_bytes = sample.temporary_storage_bytes;
    update_high_water_u64(&mut metrics.duckdb_memory_bytes_high_water, sample.memory_bytes);
    update_high_water_u64(
        &mut metrics.duckdb_temporary_storage_bytes_high_water,
        sample.temporary_storage_bytes,
    );
    metrics.duckdb_resource_samples = add_wrapping(metrics.duckdb_resource_samples, 1);
    metrics.duckdb_resource_last_success_unix_seconds = unix_seconds;
}

/// Record a failed resource sample.
pub fn record_duckdb_resource_sample_failure(metrics: &mut MetricsCounters)
    ensures
        *final(metrics) == (MetricsCounters {
            duckdb_resource_sample_failures: added(old(metrics).duckdb_resource_sample_failures, 1),
            ..*old(metrics)
        }),
{
    metrics.duckdb_resource_sample_failures = add_wrapping(metrics.duckdb_resource_sample_failures, 1);
}

/// Apply the result of one readiness probe and resource sample: a sample
/// marks storage ready and is recorded; a failure marks storage unavailable
/// and is counted.
pub fn apply_resource_sample(
    metrics: &mut MetricsCounters,
    lifecycle: &mut RuntimeLifecycle,
    sample: Option<EngineResourceSample>,
    unix_seconds: u64,
)
    ensures
        final(lifecycle).spec_readiness() == if old(lifecycle).spec_readiness() == ReadinessState::Draining {
            ReadinessState::Draining
        } else if sample is Some {
            ReadinessState::Ready
        } else {
            ReadinessState::StorageUnavailable
        },
        final(lifecycle).spec_accepting() == old(lifecycle).spec_accepting(),
        final(lifecycle).spec_active_transactions() == old(lifecycle).spec_active_transactions(),
        match sample {
            Some(s) => final(metrics).duckdb_memory_bytes == s.memory_bytes
                && final(metrics).duckdb_temporary_storage_bytes == s.temporary_storage_bytes
                && final(metrics).duckdb_resource_samples == added(old(metrics).duckdb_resource_samples, 1)
                && final(metrics).duckdb_resource_sample_failures == old(metrics).duckdb_resource_sample_failures
                && final(metrics).duckdb_resource_last_success_unix_seconds == unix_seconds,
            None => *final(metrics) == (MetricsCounters {
                duckdb_resource_sample_failures: added(old(metrics).duckdb_resource_sample_failures, 1),
                ..*old(metrics)
            }),
        },
{
    match sample {
        Some(s) => {
            lifecycle.mark_storage_ready();
            record_duckdb_resource_sample(metrics, s, unix_seconds);
        },
        None => {
            lifecycle.mark_storage_unavailable();
            record_duckdb_resource_sample_failure(metrics);
        },
    }
}

/// An Arrow result batch of `bytes` in memory starts being encoded.
pub fn query_batch_started(metrics: &mut MetricsCounters, bytes: usize)
    ensures
        *final(metrics) == (MetricsCounters {
            query_batches: added(old(metrics).query_batches, 1),
            query_batch_bytes_high_water: larger(old(metrics).query_batch_bytes_high_water, bytes),
            query_batches_inflight: incremented(old(metrics).query_batches_inflight),
            query_batches_inflight_high_water: larger(
                old(metrics).query_batches_inflight_high_water,
                incremented(old(metrics).query_batches_inflight),
            ),
            ..*old(metrics)
        }),
{
    metrics.query_batches = add_wrapping(metrics.query_batches, 1);
    if bytes > metrics.query_batch_bytes_high_water {
        metrics.query_batch_bytes_high_water = bytes;
    }
    let inflight = increment(metrics.query_batches_inflight);
    metrics.query_batches_inflight = inflight;
    if inflight > metrics.query_batches_inflight_high_water {
        metrics.query_batches_inflight_high_water = inflight;
    }
}

/// A result batch finished encoding.
pub fn query_batch_finished(metrics: &mut MetricsCounters)
    ensures
        *final(metrics) == (MetricsCounters {
            query_batches_inflight: decremented(old(metrics).query_batches_inflight),
            ..*old(metrics)
        }),
{
    metrics.query_batches_inflight = decrement(metrics.query_batches_inflight);
}

/// A result batch was refused by the configured byte ceiling.
pub fn query_batch_rejected(metrics: &mut MetricsCounters)
    ensures
        *final(metrics) == (MetricsCounters {
            query_batch_limit_rejections: added(old(metrics).query_batch_limit_rejections, 1),
            ..*old(metrics)
        }),
{
    metrics.query_batch_limit_rejections = add_wrapping(metrics.query_batch_limit_rejections, 1);
}

/// A session was quarantined after uncertain native cleanup.
pub fn connection_quarantined(metrics: &mut MetricsCounters)
    ensures
        *final(metrics) == (MetricsCounters {
            connections_quarantined: added(old(metrics).connections_quarantined, 1),
            ..*old(metrics)
        }),
{
    metrics.connections_quarantined = add_wrapping(metrics.connections_quarantined, 1);
}

/// A COPY operation started.
pub fn copy_started(metrics: &mut MetricsCounters)
    ensures
        *final(metrics) == (MetricsCounters {
            copy_active: incremented(old(metrics).copy_active),
            copy_started: added(old(metrics).copy_started, 1),
            ..*old(metrics)
        }),
{
    metrics.copy_active = increment(metrics.copy_active);
    metrics.copy_started = add_wrapping(metrics.copy_started, 1);
}

/// A COPY statement completed after `duration_micros`, its commit taking
/// `commit_micros`.
pub fn copy_completed(
    metrics: &mut MetricsCounters,
    rows: usize,
    bytes: usize,
    batches: usize,
    duration_micros: u128,
    commit_micros: u128,
)
    ensures
        *final(metrics) == (MetricsCounters {
            copy_active: decremented(old(metrics).copy_active),
            copy_completed: added(old(metrics).copy_completed, 1),
            copy_rows: added(old(metrics).copy_rows, rows as u64),
            copy_bytes: added(old(metrics).copy_bytes, bytes as u64),
            copy_batches: added(old(metrics).copy_batches, batches as u64),
            copy_duration_microseconds: added(
                old(metrics).copy_duration_microseconds,
                micros64(duration_micros),
            ),
            copy_commit_microseconds: added(old(metrics).copy_commit_microseconds, micros64(commit_micros)),
            ..*old(metrics)
        }),
{
    metrics.copy_active = decrement(metrics.copy_active);
    metrics.copy_completed = add_wrapping(metrics.copy_completed, 1);
    metrics.copy_rows = add_wrapping(metrics.copy_rows, rows as u64);
    metrics.copy_bytes = add_wrapping(metrics.copy_bytes, bytes as u64);
    metrics.copy_batches = add_wrapping(metrics.copy_batches, batches as u64);
    metrics.copy_duration_microseconds = add_wrapping(
        metrics.copy_duration_microseconds,
        (duration_micros % 0x1_0000_0000_0000_0000) as u64,
    );
    metrics.copy_commit_microseconds = add_wrapping(
        metrics.copy_commit_microseconds,
        (commit_micros % 0x1_0000_0000_0000_0000) as u64,
    );
}

/// A COPY operation aborted after `duration_micros`.
pub fn copy_failed(metrics: &mut MetricsCounters, duration_micros: u128)
    ensures
        *final(metrics) == (MetricsCounters {
            copy_active: decremented(old(metrics).copy_active),
            copy_failed: added(old(metrics).copy_failed, 1),
            copy_duration_microseconds: added(
                old(metrics).copy_duration_microseconds,
                micros64(duration_micros),
            ),
            ..*old(metrics)
        }),
{
    metrics.copy_active = decrement(metrics.copy_active);
    metrics.copy_failed = add_wrapping(metrics.copy_failed, 1);
    metrics.copy_duration_microseconds = add_wrapping(
        metrics.copy_duration_microseconds,
        (duration_micros % 0x1_0000_0000_0000_0000) as u64,
    );
}

pub const PROMETHEUS_0: &'static str = "# HELP quackgis_write_denied_total DuckDB write statements denied by policy.\n# TYPE quackgis_write_denied_total counter\nquackgis_write_denied_total ";
pub const PROMETHEUS_1: &'static str = "\n# HELP quackgis_read_denied_total DuckDB reads denied by policy.\n# TYPE quackgis_read_denied_total counter\nquackgis_read_denied_total ";
pub const PROMETHEUS_2: &'static str = "\n# HELP quackgis_operations_active DuckDB operations currently admitted.\n# TYPE quackgis_operations_active gauge\nquackgis_operations_active ";
pub const PROMETHEUS_3: &'static str = "\n# HELP quackgis_operations_queued DuckDB operations waiting for admission.\n# TYPE quackgis_operations_queued gauge\nquackgis_operations_queued ";
pub const PROMETHEUS_4: &'static str = "\n# HELP quackgis_operations_class_active DuckDB operations currently admitted by class.\n# TYPE quackgis_operations_class_active gauge\nquackgis_operations_class_active{class=\"reader\"} ";
pub const PROMETHEUS_5: &'static str = "\nquackgis_operations_class_active{class=\"writer\"} ";
pub const PROMETHEUS_6: &'static str = "\nquackgis_operations_class_active{class=\"maintenance\"} ";
pub const PROMETHEUS_7: &'static str = "\n# HELP quackgis_operations_class_queued DuckDB operations waiting for admission by class.\n# TYPE quackgis_operations_class_queued gauge\nquackgis_operations_class_queued{class=\"reader\"} ";
pub const PROMETHEUS_8: &'static str = "\nquackgis_operations_class_queued{class=\"writer\"} ";
pub const PROMETHEUS_9: &'static str = "\nquackgis_operations_class_queued{class=\"maintenance\"} ";
pub const PROMETHEUS_10: &'static str = "\n# HELP quackgis_operations_class_high_water Highest observed admitted DuckDB operations by class.\n# TYPE quackgis_operations_class_high_water gauge\nquackgis_operations_class_high_water{class=\"reader\"} ";
pub const PROMETHEUS_11: &'static str = "\nquackgis_operations_class_high_water{class=\"writer\"} ";
pub const PROMETHEUS_12: &'static str = "\nquackgis_operations_class_high_water{class=\"maintenance\"} ";
pub const PROMETHEUS_13: &'static str = "\n# HELP quackgis_operations_started_total DuckDB operations admitted.\n# TYPE quackgis_operations_started_total counter\nquackgis_operations_started_total ";
pub const PROMETHEUS_14: &'static str = "\n# HELP quackgis_admission_rejected_total DuckDB operations rejected because the queue was full.\n# TYPE quackgis_admission_rejected_total counter\nquackgis_admission_rejected_total ";
pub const PROMETHEUS_15: &'static str = "\n# HELP quackgis_admission_queue_timeouts_total DuckDB operations canceled while queued.\n# TYPE quackgis_admission_queue_timeouts_total counter\nquackgis_admission_queue_timeouts_total ";
pub const PROMETHEUS_16: &'static str = "\n# HELP quackgis_cancellations_requested_total Native DuckDB cancellation requests received.\n# TYPE quackgis_cancellations_requested_total counter\nquackgis_cancellations_requested_total ";
pub const PROMETHEUS_17: &'static str = "\n# HELP quackgis_cancellations_completed_total Native DuckDB cancellation calls completed.\n# TYPE quackgis_cancellations_completed_total counter\nquackgis_cancellations_completed_total ";
pub const PROMETHEUS_18: &'static str = "\n# HELP quackgis_cancellations_failed_total Native DuckDB cancellation calls that failed.\n# TYPE quackgis_cancellations_failed_total counter\nquackgis_cancellations_failed_total ";
pub const PROMETHEUS_19: &'static str = "\n# HELP quackgis_statement_timeouts_total DuckDB query streams canceled at their deadline.\n# TYPE quackgis_statement_timeouts_total counter\nquackgis_statement_timeouts_total ";
pub const PROMETHEUS_20: &'static str = "\n# HELP quackgis_connections_quarantined_total DuckDB sessions quarantined after uncertain native cleanup.\n# TYPE quackgis_connections_quarantined_total counter\nquackgis_connections_quarantined_total ";
pub const PROMETHEUS_21: &'static str = "\n# HELP quackgis_transactions_active Explicit DuckDB transactions currently open.\n# TYPE quackgis_transactions_active gauge\nquackgis_transactions_active ";
pub const PROMETHEUS_22: &'static str = "\n# HELP quackgis_duckdb_memory_bytes Current aggregate DuckDB tracked memory usage.\n# TYPE quackgis_duckdb_memory_bytes gauge\nquackgis_duckdb_memory_bytes ";
pub const PROMETHEUS_23: &'static str = "\n# HELP quackgis_duckdb_memory_bytes_high_water Highest sampled aggregate DuckDB tracked memory usage.\n# TYPE quackgis_duckdb_memory_bytes_high_water gauge\nquackgis_duckdb_memory_bytes_high_water ";
pub const PROMETHEUS_24: &'static str = "\n# HELP quackgis_duckdb_temporary_storage_bytes Current aggregate DuckDB temporary storage usage.\n# TYPE quackgis_duckdb_temporary_storage_bytes gauge\nquackgis_duckdb_temporary_storage_bytes ";
pub const PROMETHEUS_25: &'static str = "\n# HELP quackgis_duckdb_temporary_storage_bytes_high_water Highest sampled aggregate DuckDB temporary storage usage.\n# TYPE quackgis_duckdb_temporary_storage_bytes_high_water gauge\nquackgis_duckdb_temporary_storage_bytes_high_water ";
pub const PROMETHEUS_26: &'static str = "\n# HELP quackgis_duckdb_resource_samples_total Successful DuckDB resource samples.\n# TYPE quackgis_duckdb_resource_samples_total counter\nquackgis_duckdb_resource_samples_total ";
pub const PROMETHEUS_27: &'static str = "\n# HELP quackgis_duckdb_resource_sample_failures_total Failed DuckDB resource samples.\n# TYPE quackgis_duckdb_resource_sample_failures_total counter\nquackgis_duckdb_resource_sample_failures_total ";
pub const PROMETHEUS_28: &'static str = "\n# HELP quackgis_duckdb_resource_last_success_unixtime_seconds Unix timestamp of the latest successful DuckDB resource sample.\n# TYPE quackgis_duckdb_resource_last_success_unixtime_seconds gauge\nquackgis_duckdb_resource_last_success_unixtime_seconds ";
pub const PROMETHEUS_29: &'static str = "\n# HELP quackgis_query_batches_total Arrow result batches accepted by pgwire.\n# TYPE quackgis_query_batches_total counter\nquackgis_query_batches_total ";
pub const PROMETHEUS_30: &'static str = "\n# HELP quackgis_query_batches_inflight Arrow result batches currently being encoded.\n# TYPE quackgis_query_batches_inflight gauge\nquackgis_query_batches_inflight ";
pub const PROMETHEUS_31: &'static str = "\n# HELP quackgis_query_batches_inflight_high_water Highest observed in-flight Arrow result batches.\n# TYPE quackgis_query_batches_inflight_high_water gauge\nquackgis_query_batches_inflight_high_water ";
pub const PROMETHEUS_32: &'static str = "\n# HELP quackgis_query_batch_bytes_high_water Largest accepted Arrow result batch in memory bytes.\n# TYPE quackgis_query_batch_bytes_high_water gauge\nquackgis_query_batch_bytes_high_water ";
pub const PROMETHEUS_33: &'static str = "\n# HELP quackgis_query_batch_limit_rejections_total Arrow result batches rejected by the configured byte ceiling.\n# TYPE quackgis_query_batch_limit_rejections_total counter\nquackgis_query_batch_limit_rejections_total ";
pub const PROMETHEUS_34: &'static str = "\n# HELP quackgis_blocking_workers_active Native blocking workers currently active.\n# TYPE quackgis_blocking_workers_active gauge\nquackgis_blocking_workers_active ";
pub const PROMETHEUS_35: &'static str = "\n# HELP quackgis_blocking_regular_active Regular native blocking workers currently active.\n# TYPE quackgis_blocking_regular_active gauge\nquackgis_blocking_regular_active ";
pub const PROMETHEUS_36: &'static str = "\n# HELP quackgis_blocking_control_active Reserved control workers currently active.\n# TYPE quackgis_blocking_control_active gauge\nquackgis_blocking_control_active ";
pub const PROMETHEUS_37: &'static str = "\n# HELP quackgis_blocking_workers_queued Native operations waiting for a worker.\n# TYPE quackgis_blocking_workers_queued gauge\nquackgis_blocking_workers_queued ";
pub const PROMETHEUS_38: &'static str = "\n# HELP quackgis_blocking_workers_high_water Highest observed active native workers.\n# TYPE quackgis_blocking_workers_high_water gauge\nquackgis_blocking_workers_high_water ";
pub const PROMETHEUS_39: &'static str = "\n# HELP quackgis_copy_active COPY operations currently active.\n# TYPE quackgis_copy_active gauge\nquackgis_copy_active ";
pub const PROMETHEUS_40: &'static str = "\n# HELP quackgis_copy_started_total COPY operations started.\n# TYPE quackgis_copy_started_total counter\nquackgis_copy_started_total ";
pub const PROMETHEUS_41: &'static str = "\n# HELP quackgis_copy_completed_total COPY statements completed; an enclosing client transaction may still roll back.\n# TYPE quackgis_copy_completed_total counter\nquackgis_copy_completed_total ";
pub const PROMETHEUS_42: &'static str = "\n# HELP quackgis_copy_failed_total COPY operations aborted.\n# TYPE quackgis_copy_failed_total counter\nquackgis_copy_failed_total ";
pub const PROMETHEUS_43: &'static str = "\n# HELP quackgis_copy_rows_total Rows accepted by completed COPY statements.\n# TYPE quackgis_copy_rows_total counter\nquackgis_copy_rows_total ";
pub const PROMETHEUS_44: &'static str = "\n# HELP quackgis_copy_bytes_total Wire bytes accepted by committed COPY operations.\n# TYPE quackgis_copy_bytes_total counter\nquackgis_copy_bytes_total ";
pub const PROMETHEUS_45: &'static str = "\n# HELP quackgis_copy_batches_total Arrow batches accepted by completed COPY statements.\n# TYPE quackgis_copy_batches_total counter\nquackgis_copy_batches_total ";
pub const PROMETHEUS_46: &'static str = "\n# HELP quackgis_copy_duration_microseconds_total Cumulative COPY duration.\n# TYPE quackgis_copy_duration_microseconds_total counter\nquackgis_copy_duration_microseconds_total ";
pub const PROMETHEUS_47: &'static str = "\n# HELP quackgis_copy_commit_microseconds_total Cumulative COPY finish-to-commit latency.\n# TYPE quackgis_copy_commit_microseconds_total counter\nquackgis_copy_commit_microseconds_total ";
pub const PROMETHEUS_48: &'static str = "\n";

/// The Prometheus exposition text of the process counters.
pub open spec fn prometheus_text(
    execution: ExecutionCounters,
    metrics: MetricsCounters,
    lifecycle: RuntimeLifecycle,
    writes_denied: u64,
    reads_denied: u64,
) -> Seq<char> {
    PROMETHEUS_0@
        + decimal(writes_denied as nat)
        + PROMETHEUS_1@
        + decimal(reads_denied as nat)
        + PROMETHEUS_2@
        + decimal(execution.active as nat)
        + PROMETHEUS_3@
        + decimal(execution.queued as nat)
        + PROMETHEUS_4@
        + decimal(execution.reader.active as nat)
        + PROMETHEUS_5@
        + decimal(execution.writer.active as nat)
        + PROMETHEUS_6@
        + decimal(execution.maintenance.active as nat)
        + PROMETHEUS_7@
        + decimal(execution.reader.queued as nat)
        + PROMETHEUS_8@
        + decimal(execution.writer.queued as nat)
        + PROMETHEUS_9@
        + decimal(execution.maintenance.queued as nat)
        + PROMETHEUS_10@
        + decimal(execution.reader.high_water as nat)
        + PROMETHEUS_11@
        + decimal(execution.writer.high_water as nat)
        + PROMETHEUS_12@
        + decimal(execution.maintenance.high_water as nat)
        + PROMETHEUS_13@
        + decimal(execution.started as nat)
        + PROMETHEUS_14@
        + decimal(execution.rejected as nat)
        + PROMETHEUS_15@
        + decimal(execution.queue_timeouts as nat)
        + PROMETHEUS_16@
        + decimal(execution.cancel_requested as nat)
        + PROMETHEUS_17@
        + decimal(execution.cancel_completed as nat)
        + PROMETHEUS_18@
        + decimal(execution.cancel_failed as nat)
        + PROMETHEUS_19@
        + decimal(execution.statement_timeouts as nat)
        + PROMETHEUS_20@
        + decimal(metrics.connections_quarantined as nat)
        + PROMETHEUS_21@
        + decimal(lifecycle.spec_active_transactions() as nat)
        + PROMETHEUS_22@
        + decimal(metrics.duckdb_memory_bytes as nat)
        + PROMETHEUS_23@
        + decimal(metrics.duckdb_memory_bytes_high_water as nat)
        + PROMETHEUS_24@
        + decimal(metrics.duckdb_temporary_storage_bytes as nat)
        + PROMETHEUS_25@
        + decimal(metrics.duckdb_temporary_storage_bytes_high_water as nat)
        + PROMETHEUS_26@
        + decimal(metrics.duckdb_resource_samples as nat)
        + PROMETHEUS_27@
        + decimal(metrics.duckdb_resource_sample_failures as nat)
        + PROMETHEUS_28@
        + decimal(metrics.duckdb_resource_last_success_unix_seconds as nat)
        + PROMETHEUS_29@
        + decimal(metrics.query_batches as nat)
        + PROMETHEUS_30@
        + decimal(metrics.query_batches_inflight as nat)
        + PROMETHEUS_31@
        + decimal(metrics.query_batches_inflight_high_water as nat)
        + PROMETHEUS_32@
        + decimal(metrics.query_batch_bytes_high_water as nat)
        + PROMETHEUS_33@
        + decimal(metrics.query_batch_limit_rejections as nat)
        + PROMETHEUS_34@
        + decimal(execution.blocking_active as nat)
        + PROMETHEUS_35@
        + decimal(execution.blocking_regular_active as nat)
        + PROMETHEUS_36@
        + decimal(execution.blocking_control_active as nat)
        + PROMETHEUS_37@
        + decimal(execution.blocking_queued as nat)
        + PROMETHEUS_38@
        + decimal(execution.blocking_high_water as nat)
        + PROMETHEUS_39@
        + decimal(metrics.copy_active as nat)
        + PROMETHEUS_40@
        + decimal(metrics.copy_started as nat)
        + PROMETHEUS_41@
        + decimal(metrics.copy_completed as nat)
        + PROMETHEUS_42@
        + decimal(metrics.copy_failed as nat)
        + PROMETHEUS_43@
        + decimal(metrics.copy_rows as nat)
        + PROMETHEUS_44@
        + decimal(metrics.copy_bytes as nat)
        + PROMETHEUS_45@
        + decimal(metrics.copy_batches as nat)
        + PROMETHEUS_46@
        + decimal(metrics.copy_duration_microseconds as nat)
        + PROMETHEUS_47@
        + decimal(metrics.copy_commit_microseconds as nat)
        + PROMETHEUS_48@
}

/// Whether `text` holds the sample line of the metric `name` with `value`:
/// a whole line that is the name, a space, and the value in decimal.
#[verifier::opaque]
pub open spec fn has_sample_line(text: Seq<char>, name: Seq<char>, value: nat) -> bool {
    let line = seq!['\n'] + name + seq![' '] + decimal(value) + seq!['\n'];
    exists|i: int| 0 <= i && i + line.len() <= text.len() && #[trigger] text.subrange(i, i + line.len()) == line
}

proof fn lemma_sample_line_persists(name: Seq<char>, value: nat)
    ensures
        forall|s: Seq<char>, t: Seq<char>|
            has_sample_line(s, name, value) ==> #[trigger] has_sample_line(s + t, name, value),
{
    reveal(has_sample_line);
    assert forall|s: Seq<char>, t: Seq<char>| has_sample_line(s, name, value) implies #[trigger] has_sample_line(
        s + t,
        name,
        value,
    ) by {
        let line = seq!['\n'] + name + seq![' '] + decimal(value) + seq!['\n'];
        let i = choose|i: int| 0 <= i && i + line.len() <= s.len() && #[trigger] s.subrange(i, i + line.len()) == line;
        assert((s + t).subrange(i, i + line.len()) =~= s.subrange(i, i + line.len()));
    }
}

proof fn lemma_sample_line_at(fixed: Seq<char>, name: Seq<char>, value: nat, next: Seq<char>)
    requires
        fixed.len() >= name.len() + 2,
        fixed.subrange(fixed.len() - name.len() - 2, fixed.len() as int) == seq!['\n'] + name + seq![' '],
        next.len() >= 1,
        next[0] == '\n',
    ensures
        forall|s: Seq<char>| #[trigger] has_sample_line(((s + fixed) + decimal(value)) + next, name, value),
{
    reveal(has_sample_line);
    assert forall|s: Seq<char>| #[trigger] has_sample_line(((s + fixed) + decimal(value)) + next, name, value) by {
        let text = ((s + fixed) + decimal(value)) + next;
        let line = seq!['\n'] + name + seq![' '] + decimal(value) + seq!['\n'];
        let i = s.len() + fixed.len() - name.len() - 2;
        let head = seq!['\n'] + name + seq![' '];
        assert forall|k: int| 0 <= k < line.len() implies #[trigger] text.subrange(i, i + line.len())[k] == line[k] by {
            if k < head.len() {
                assert(fixed.subrange(fixed.len() - name.len() - 2, fixed.len() as int)[k] == head[k]);
                assert(text[i + k] == fixed[fixed.len() - name.len() - 2 + k]);
            } else if k < head.len() + decimal(value).len() {
                assert(text[i + k] == decimal(value)[k - head.len()]);
            } else {
                assert(text[i + k] == next[0]);
            }
        }
        assert(text.subrange(i, i + line.len()) =~= line);
    }
}

proof fn lemma_sample_line_first(fixed: Seq<char>, name: Seq<char>, value: nat, next: Seq<char>)
    requires
        fixed.len() >= name.len() + 2,
        fixed.subrange(fixed.len() - name.len() - 2, fixed.len() as int) == seq!['\n'] + name + seq![' '],
        next.len() >= 1,
        next[0] == '\n',
    ensures
        has_sample_line((fixed + decimal(value)) + next, name, value),
{
    lemma_sample_line_at(fixed, name, value, next);
    let e = Seq::<char>::empty();
    assert(e + fixed =~= fixed);
    assert(has_sample_line(((e + fixed) + decimal(value)) + next, name, value));
}

proof fn lemma_prometheus_samples_0(
    execution: ExecutionCounters,
    metrics: MetricsCounters,
    lifecycle: RuntimeLifecycle,
    writes_denied: u64,
    reads_denied: u64,
)
    ensures
        has_sample_line(prometheus_text(execution, metrics, lifecycle, writes_denied, reads_denied), "quackgis_write_denied_total"@, writes_denied as nat),
        has_sample_line(prometheus_text(execution, metrics, lifecycle, writes_denied, reads_denied), "quackgis_read_denied_total"@, reads_denied as nat),
        has_sample_line(prometheus_text(execution, metrics, lifecycle, writes_denied, reads_denied), "quackgis_operations_active"@, execution.active as nat),
        has_sample_line(prometheus_text(execution, metrics, lifecycle, writes_denied, reads_denied), "quackgis_operations_queued"@, execution.queued as nat),
        has_sample_line(prometheus_text(execution, metrics, lifecycle, writes_denied, reads_denied), "quackgis_operations_class_active{class=\"reader\"}"@, execution.reader.active as nat),
        has_sample_line(prometheus_text(execution, metrics, lifecycle, writes_denied, reads_denied), "quackgis_operations_class_active{class=\"writer\"}"@, execution.writer.active as nat),
{
    reveal_strlit("# HELP quackgis_write_denied_total DuckDB write statements denied by policy.\n# TYPE quackgis_write_denied_total counter\nquackgis_write_denied_total ");
    reveal_strlit("\n# HELP quackgis_operations_active DuckDB operations currently admitted.\n# TYPE quackgis_operations_active gauge\nquackgis_operations_active ");
    reveal_strlit("\n# HELP quackgis_operations_class_active DuckDB operations currently admitted by class.\n# TYPE quackgis_operations_class_active gauge\nquackgis_operations_class_active{class=\"reader\"} ");
    reveal_strlit("\n# HELP quackgis_operations_queued DuckDB operations waiting for admission.\n# TYPE quackgis_operations_queued gauge\nquackgis_operations_queued ");
    reveal_strlit("\n# HELP quackgis_read_denied_total DuckDB reads denied by policy.\n# TYPE quackgis_read_denied_total counter\nquackgis_read_denied_total ");
    reveal_strlit("\nquackgis_operations_class_active{class=\"maintenance\"} ");
    reveal_strlit("\nquackgis_operations_class_active{class=\"writer\"} ");
    reveal_strlit("quackgis_operations_active");
    reveal_strlit("quackgis_operations_class_active{class=\"reader\"}");
    reveal_strlit("quackgis_operations_class_active{class=\"writer\"}");
    reveal_strlit("quackgis_operations_queued");
    reveal_strlit("quackgis_read_denied_total");
    reveal_strlit("quackgis_write_denied_total");
    lemma_sample_line_persists("quackgis_write_denied_total"@, writes_denied as nat);
    assert(PROMETHEUS_0@.subrange(PROMETHEUS_0@.len() - "quackgis_write_denied_total"@.len() - 2, PROMETHEUS_0@.len() as int) =~= seq!['\n'] + "quackgis_write_denied_total"@ + seq![' ']);
    lemma_sample_line_first(PROMETHEUS_0@, "quackgis_write_denied_total"@, writes_denied as nat, PROMETHEUS_1@);
    lemma_sample_line_persists("quackgis_read_denied_total"@, reads_denied as nat);
    assert(PROMETHEUS_1@.subrange(PROMETHEUS_1@.len() - "quackgis_read_denied_total"@.len() - 2, PROMETHEUS_1@.len() as int) =~= seq!['\n'] + "quackgis_read_denied_total"@ + seq![' ']);
    lemma_sample_line_at(PROMETHEUS_1@, "quackgis_read_denied_total"@, reads_denied as nat, PROMETHEUS_2@);
    lemma_sample_line_persists("quackgis_operations_active"@, execution.active as nat);
    assert(PROMETHEUS_2@.subrange(PROMETHEUS_2@.len() - "quackgis_operations_active"@.len() - 2, PROMETHEUS_2@.len() as int) =~= seq!['\n'] + "quackgis_operations_active"@ + seq![' ']);
    lemma_sample_line_at(PROMETHEUS_2@, "quackgis_operations_active"@, execution.active as nat, PROMETHEUS_3@);
    lemma_sample_line_persists("quackgis_operations_queued"@, execution.queued as nat);
    assert(PROMETHEUS_3@.subrange(PROMETHEUS_3@.len() - "quackgis_operations_queued"@.len() - 2, PROMETHEUS_3@.len() as int) =~= seq!['\n'] + "quackgis_operations_queued"@ + seq![' ']);
    lemma_sample_line_at(PROMETHEUS_3@, "quackgis_operations_queued"@, execution.queued as nat, PROMETHEUS_4@);
    lemma_sample_line_persists("quackgis_operations_class_active{class=\"reader\"}"@, execution.reader.active as nat);
    assert(PROMETHEUS_4@.subrange(PROMETHEUS_4@.len() - "quackgis_operations_class_active{class=\"reader\"}"@.len() - 2, PROMETHEUS_4@.len() as int) =~= seq!['\n'] + "quackgis_operations_class_active{class=\"reader\"}"@ + seq![' ']);
    lemma_sample_line_at(PROMETHEUS_4@, "quackgis_operations_class_active{class=\"reader\"}"@, execution.reader.active as nat, PROMETHEUS_5@);
    lemma_sample_line_persists("quackgis_operations_class_active{class=\"writer\"}"@, execution.writer.active as nat);
    assert(PROMETHEUS_5@.subrange(PROMETHEUS_5@.len() - "quackgis_operations_class_active{class=\"writer\"}"@.len() - 2, PROMETHEUS_5@.len() as int) =~= seq!['\n'] + "quackgis_operations_class_active{class=\"writer\"}"@ + seq![' ']);
    lemma_sample_line_at(PROMETHEUS_5@, "quackgis_operations_class_active{class=\"writer\"}"@, execution.writer.active as nat, PROMETHEUS_6@);
}

proof fn lemma_prometheus_samples_1(
    execution: ExecutionCounters,
    metrics: MetricsCounters,
    lifecycle: RuntimeLifecycle,
    writes_denied: u64,
    reads_denied: u64,
)
    ensures
        has_sample_line(prometheus_text(execution, metrics, lifecycle, writes_denied, reads_denied), "quackgis_operations_class_active{class=\"maintenance\"}"@, execution.maintenance.active as nat),
        has_sample_line(prometheus_text(execution, metrics, lifecycle, writes_denied, reads_denied), "quackgis_operations_class_queued{class=\"reader\"}"@, execution.reader.queued as nat),
        has_sample_line(prometheus_text(execution, metrics, lifecycle, writes_denied, reads_denied), "quackgis_operations_class_queued{class=\"writer\"}"@, execution.writer.queued as nat),
        has_sample_line(prometheus_text(execution, metrics, lifecycle, writes_denied, reads_denied), "quackgis_operations_class_queued{class=\"maintenance\"}"@, execution.maintenance.queued as nat),
        has_sample_line(prometheus_text(execution, metrics, lifecycle, writes_denied, reads_denied), "quackgis_operations_class_high_water{class=\"reader\"}"@, execution.reader.high_water as nat),
        has_sample_line(prometheus_text(execution, metrics, lifecycle, writes_denied, reads_denied), "quackgis_operations_class_high_water{class=\"writer\"}"@, execution.writer.high_water as nat),
{
    reveal_strlit("\n# HELP quackgis_operations_class_high_water Highest observed admitted DuckDB operations by class.\n# TYPE quackgis_operations_class_high_water gauge\nquackgis_operations_class_high_water{class=\"reader\"} ");
    reveal_strlit("\n# HELP quackgis_operations_class_queued DuckDB operations waiting for admission by class.\n# TYPE quackgis_operations_class_queued gauge\nquackgis_operations_class_queued{class=\"reader\"} ");
    reveal_strlit("\nquackgis_operations_class_active{class=\"maintenance\"} ");
    reveal_strlit("\nquackgis_operations_class_high_water{class=\"maintenance\"} ");
    reveal_strlit("\nquackgis_operations_class_high_water{class=\"writer\"} ");
    reveal_strlit("\nquackgis_operations_class_queued{class=\"maintenance\"} ");
    reveal_strlit("\nquackgis_operations_class_queued{class=\"writer\"} ");
    reveal_strlit("quackgis_operations_class_active{class=\"maintenance\"}");
    reveal_strlit("quackgis_operations_class_high_water{class=\"reader\"}");
    reveal_strlit("quackgis_operations_class_high_water{class=\"writer\"}");
    reveal_strlit("quackgis_operations_class_queued{class=\"maintenance\"}");
    reveal_strlit("quackgis_operations_class_queued{class=\"reader\"}");
    reveal_strlit("quackgis_operations_class_queued{class=\"writer\"}");
    lemma_sample_line_persists("quackgis_operations_class_active{class=\"maintenance\"}"@, execution.maintenance.active as nat);
    assert(PROMETHEUS_6@.subrange(PROMETHEUS_6@.len() - "quackgis_operations_class_active{class=\"maintenance\"}"@.len() - 2, PROMETHEUS_6@.len() as int) =~= seq!['\n'] + "quackgis_operations_class_active{class=\"maintenance\"}"@ + seq![' ']);
    lemma_sample_line_at(PROMETHEUS_6@, "quackgis_operations_class_active{class=\"maintenance\"}"@, execution.maintenance.active as nat, PROMETHEUS_7@);
    lemma_sample_line_persists("quackgis_operations_class_queued{class=\"reader\"}"@, execution.reader.queued as nat);
    assert(PROMETHEUS_7@.subrange(PROMETHEUS_7@.len() - "quackgis_operations_class_queued{class=\"reader\"}"@.len() - 2, PROMETHEUS_7@.len() as int) =~= seq!['\n'] + "quackgis_operations_class_queued{class=\"reader\"}"@ + seq![' ']);
    lemma_sample_line_at(PROMETHEUS_7@, "quackgis_operations_class_queued{class=\"reader\"}"@, execution.reader.queued as nat, PROMETHEUS_8@);
    lemma_sample_line_persists("quackgis_operations_class_queued{class=\"writer\"}"@, execution.writer.queued as nat);
    assert(PROMETHEUS_8@.subrange(PROMETHEUS_8@.len() - "quackgis_operations_class_queued{class=\"writer\"}"@.len() - 2, PROMETHEUS_8@.len() as int) =~= seq!['\n'] + "quackgis_operations_class_queued{class=\"writer\"}"@ + seq![' ']);
    lemma_sample_line_at(PROMETHEUS_8@, "quackgis_operations_class_queued{class=\"writer\"}"@, execution.writer.queued as nat, PROMETHEUS_9@);
    lemma_sample_line_persists("quackgis_operations_class_queued{class=\"maintenance\"}"@, execution.maintenance.queued as nat);
    assert(PROMETHEUS_9@.subrange(PROMETHEUS_9@.len() - "quackgis_operations_class_queued{class=\"maintenance\"}"@.len() - 2, PROMETHEUS_9@.len() as int) =~= seq!['\n'] + "quackgis_operations_class_queued{class=\"maintenance\"}"@ + seq![' ']);
    lemma_sample_line_at(PROMETHEUS_9@, "quackgis_operations_class_queued{class=\"maintenance\"}"@, execution.maintenance.queued as nat, PROMETHEUS_10@);
    lemma_sample_line_persists("quackgis_operations_class_high_water{class=\"reader\"}"@, execution.reader.high_water as nat);
    assert(PROMETHEUS_10@.subrange(PROMETHEUS_10@.len() - "quackgis_operations_class_high_water{class=\"reader\"}"@.len() - 2, PROMETHEUS_10@.len() as int) =~= seq!['\n'] + "quackgis_operations_class_high_water{class=\"reader\"}"@ + seq![' ']);
    lemma_sample_line_at(PROMETHEUS_10@, "quackgis_operations_class_high_water{class=\"reader\"}"@, execution.reader.high_water as nat, PROMETHEUS_11@);
    lemma_sample_line_persists("quackgis_operations_class_high_water{class=\"writer\"}"@, execution.writer.high_water as nat);
    assert(PROMETHEUS_11@.subrange(PROMETHEUS_11@.len() - "quackgis_operations_class_high_water{class=\"writer\"}"@.len() - 2, PROMETHEUS_11@.len() as int) =~= seq!['\n'] + "quackgis_operations_class_high_water{class=\"writer\"}"@ + seq![' ']);
    lemma_sample_line_at(PROMETHEUS_11@, "quackgis_operations_class_high_water{class=\"writer\"}"@, execution.writer.high_water as nat, PROMETHEUS_12@);
}

proof fn lemma_prometheus_samples_2(
    execution: ExecutionCounters,
    metrics: MetricsCounters,
    lifecycle: RuntimeLifecycle,
    writes_denied: u64,
    reads_denied: u64,
)
    ensures
        has_sample_line(prometheus_text(execution, metrics, lifecycle, writes_denied, reads_denied), "quackgis_operations_class_high_water{class=\"maintenance\"}"@, execution.maintenance.high_water as nat),
        has_sample_line(prometheus_text(execution, metrics, lifecycle, writes_denied, reads_denied), "quackgis_operations_started_total"@, execution.started as nat),
        has_sample_line(prometheus_text(execution, metrics, lifecycle, writes_denied, reads_denied), "quackgis_admission_rejected_total"@, execution.rejected as nat),
        has_sample_line(prometheus_text(execution, metrics, lifecycle, writes_denied, reads_denied), "quackgis_admission_queue_timeouts_total"@, execution.queue_timeouts as nat),
        has_sample_line(prometheus_text(execution, metrics, lifecycle, writes_denied, reads_denied), "quackgis_cancellations_requested_total"@, execution.cancel_requested as nat),
        has_sample_line(prometheus_text(execution, metrics, lifecycle, writes_denied, reads_denied), "quackgis_cancellations_completed_total"@, execution.cancel_completed as nat),
{
    reveal_strlit("\n# HELP quackgis_admission_queue_timeouts_total DuckDB operations canceled while queued.\n# TYPE quackgis_admission_queue_timeouts_total counter\nquackgis_admission_queue_timeouts_total ");
    reveal_strlit("\n# HELP quackgis_admission_rejected_total DuckDB operations rejected because the queue was full.\n# TYPE quackgis_admission_rejected_total counter\nquackgis_admission_rejected_total ");
    reveal_strlit("\n# HELP quackgis_cancellations_completed_total Native DuckDB cancellation calls completed.\n# TYPE quackgis_cancellations_completed_total counter\nquackgis_cancellations_completed_total ");
    reveal_strlit("\n# HELP quackgis_cancellations_failed_total Native DuckDB cancellation calls that failed.\n# TYPE quackgis_cancellations_failed_total counter\nquackgis_cancellations_failed_total ");
    reveal_strlit("\n# HELP quackgis_cancellations_requested_total Native DuckDB cancellation requests received.\n# TYPE quackgis_cancellations_requested_total counter\nquackgis_cancellations_requested_total ");
    reveal_strlit("\n# HELP quackgis_operations_started_total DuckDB operations admitted.\n# TYPE quackgis_operations_started_total counter\nquackgis_operations_started_total ");
    reveal_strlit("\nquackgis_operations_class_high_water{class=\"maintenance\"} ");
    reveal_strlit("quackgis_admission_queue_timeouts_total");
    reveal_strlit("quackgis_admission_rejected_total");
    reveal_strlit("quackgis_cancellations_completed_total");
    reveal_strlit("quackgis_cancellations_requested_total");
    reveal_strlit("quackgis_operations_class_high_water{class=\"maintenance\"}");
    reveal_strlit("quackgis_operations_started_total");
    lemma_sample_line_persists("quackgis_operations_class_high_water{class=\"maintenance\"}"@, execution.maintenance.high_water as nat);
    assert(PROMETHEUS_12@.subrange(PROMETHEUS_12@.len() - "quackgis_operations_class_high_water{class=\"maintenance\"}"@.len() - 2, PROMETHEUS_12@.len() as int) =~= seq!['\n'] + "quackgis_operations_class_high_water{class=\"maintenance\"}"@ + seq![' ']);
    lemma_sample_line_at(PROMETHEUS_12@, "quackgis_operations_class_high_water{class=\"maintenance\"}"@, execution.maintenance.high_water as nat, PROMETHEUS_13@);
    lemma_sample_line_persists("quackgis_operations_started_total"@, execution.started as nat);
    assert(PROMETHEUS_13@.subrange(PROMETHEUS_13@.len() - "quackgis_operations_started_total"@.len() - 2, PROMETHEUS_13@.len() as int) =~= seq!['\n'] + "quackgis_operations_started_total"@ + seq![' ']);
    lemma_sample_line_at(PROMETHEUS_13@, "quackgis_operations_started_total"@, execution.started as nat, PROMETHEUS_14@);
    lemma_sample_line_persists("quackgis_admission_rejected_total"@, execution.rejected as nat);
    assert(PROMETHEUS_14@.subrange(PROMETHEUS_14@.len() - "quackgis_admission_rejected_total"@.len() - 2, PROMETHEUS_14@.len() as int) =~= seq!['\n'] + "quackgis_admission_rejected_total"@ + seq![' ']);
    lemma_sample_line_at(PROMETHEUS_14@, "quackgis_admission_rejected_total"@, execution.rejected as nat, PROMETHEUS_15@);
    lemma_sample_line_persists("quackgis_admission_queue_timeouts_total"@, execution.queue_timeouts as nat);
    assert(PROMETHEUS_15@.subrange(PROMETHEUS_15@.len() - "quackgis_admission_queue_timeouts_total"@.len() - 2, PROMETHEUS_15@.len() as int) =~= seq!['\n'] + "quackgis_admission_queue_timeouts_total"@ + seq![' ']);
    lemma_sample_line_at(PROMETHEUS_15@, "quackgis_admission_queue_timeouts_total"@, execution.queue_timeouts as nat, PROMETHEUS_16@);
    lemma_sample_line_persists("quackgis_cancellations_requested_total"@, execution.cancel_requested as nat);
    assert(PROMETHEUS_16@.subrange(PROMETHEUS_16@.len() - "quackgis_cancellations_requested_total"@.len() - 2, PROMETHEUS_16@.len() as int) =~= seq!['\n'] + "quackgis_cancellations_requested_total"@ + seq![' ']);
    lemma_sample_line_at(PROMETHEUS_16@, "quackgis_cancellations_requested_total"@, execution.cancel_requested as nat, PROMETHEUS_17@);
    lemma_sample_line_persists("quackgis_cancellations_completed_total"@, execution.cancel_completed as nat);
    assert(PROMETHEUS_17@.subrange(PROMETHEUS_17@.len() - "quackgis_cancellations_completed_total"@.len() - 2, PROMETHEUS_17@.len() as int) =~= seq!['\n'] + "quackgis_cancellations_completed_total"@ + seq![' ']);
    lemma_sample_line_at(PROMETHEUS_17@, "quackgis_cancellations_completed_total"@, execution.cancel_completed as nat, PROMETHEUS_18@);
}

proof fn lemma_prometheus_samples_3(
    execution: ExecutionCounters,
    metrics: MetricsCounters,
    lifecycle: RuntimeLifecycle,
    writes_denied: u64,
    reads_denied: u64,
)
    ensures
        has_sample_line(prometheus_text(execution, metrics, lifecycle, writes_denied, reads_denied), "quackgis_cancellations_failed_total"@, execution.cancel_failed as nat),
        has_sample_line(prometheus_text(execution, metrics, lifecycle, writes_denied, reads_denied), "quackgis_statement_timeouts_total"@, execution.statement_timeouts as nat),
        has_sample_line(prometheus_text(execution, metrics, lifecycle, writes_denied, reads_denied), "quackgis_connections_quarantined_total"@, metrics.connections_quarantined as nat),
        has_sample_line(prometheus_text(execution, metrics, lifecycle, writes_denied, reads_denied), "quackgis_transactions_active"@, lifecycle.spec_active_transactions() as nat),
        has_sample_line(prometheus_text(execution, metrics, lifecycle, writes_denied, reads_denied), "quackgis_duckdb_memory_bytes"@, metrics.duckdb_memory_bytes as nat),
        has_sample_line(prometheus_text(execution, metrics, lifecycle, writes_denied, reads_denied), "quackgis_duckdb_memory_bytes_high_water"@, metrics.duckdb_memory_bytes_high_water as nat),
{
    reveal_strlit("\n# HELP quackgis_cancellations_failed_total Native DuckDB cancellation calls that failed.\n# TYPE quackgis_cancellations_failed_total counter\nquackgis_cancellations_failed_total ");
    reveal_strlit("\n# HELP quackgis_connections_quarantined_total DuckDB sessions quarantined after uncertain native cleanup.\n# TYPE quackgis_connections_quarantined_total counter\nquackgis_connections_quarantined_total ");
    reveal_strlit("\n# HELP quackgis_duckdb_memory_bytes Current aggregate DuckDB tracked memory usage.\n# TYPE quackgis_duckdb_memory_bytes gauge\nquackgis_duckdb_memory_bytes ");
    reveal_strlit("\n# HELP quackgis_duckdb_memory_bytes_high_water Highest sampled aggregate DuckDB tracked memory usage.\n# TYPE quackgis_duckdb_memory_bytes_high_water gauge\nquackgis_duckdb_memory_bytes_high_water ");
    reveal_strlit("\n# HELP quackgis_duckdb_temporary_storage_bytes Current aggregate DuckDB temporary storage usage.\n# TYPE quackgis_duckdb_temporary_storage_bytes gauge\nquackgis_duckdb_temporary_storage_bytes ");
    reveal_strlit("\n# HELP quackgis_statement_timeouts_total DuckDB query streams canceled at their deadline.\n# TYPE quackgis_statement_timeouts_total counter\nquackgis_statement_timeouts_total ");
    reveal_strlit("\n# HELP quackgis_transactions_active Explicit DuckDB transactions currently open.\n# TYPE quackgis_transactions_active gauge\nquackgis_transactions_active ");
    reveal_strlit("quackgis_cancellations_failed_total");
    reveal_strlit("quackgis_connections_quarantined_total");
    reveal_strlit("quackgis_duckdb_memory_bytes");
    reveal_strlit("quackgis_duckdb_memory_bytes_high_water");
    reveal_strlit("quackgis_statement_timeouts_total");
    reveal_strlit("quackgis_transactions_active");
    lemma_sample_line_persists("quackgis_cancellations_failed_total"@, execution.cancel_failed as nat);
    assert(PROMETHEUS_18@.subrange(PROMETHEUS_18@.len() - "quackgis_cancellations_failed_total"@.len() - 2, PROMETHEUS_18@.len() as int) =~= seq!['\n'] + "quackgis_cancellations_failed_total"@ + seq![' ']);
    lemma_sample_line_at(PROMETHEUS_18@, "quackgis_cancellations_failed_total"@, execution.cancel_failed as nat, PROMETHEUS_19@);
    lemma_sample_line_persists("quackgis_statement_timeouts_total"@, execution.statement_timeouts as nat);
    assert(PROMETHEUS_19@.subrange(PROMETHEUS_19@.len() - "quackgis_statement_timeouts_total"@.len() - 2, PROMETHEUS_19@.len() as int) =~= seq!['\n'] + "quackgis_statement_timeouts_total"@ + seq![' ']);
    lemma_sample_line_at(PROMETHEUS_19@, "quackgis_statement_timeouts_total"@, execution.statement_timeouts as nat, PROMETHEUS_20@);
    lemma_sample_line_persists("quackgis_connections_quarantined_total"@, metrics.connections_quarantined as nat);
    assert(PROMETHEUS_20@.subrange(PROMETHEUS_20@.len() - "quackgis_connections_quarantined_total"@.len() - 2, PROMETHEUS_20@.len() as int) =~= seq!['\n'] + "quackgis_connections_quarantined_total"@ + seq![' ']);
    lemma_sample_line_at(PROMETHEUS_20@, "quackgis_connections_quarantined_total"@, metrics.connections_quarantined as nat, PROMETHEUS_21@);
    lemma_sample_line_persists("quackgis_transactions_active"@, lifecycle.spec_active_transactions() as nat);
    assert(PROMETHEUS_21@.subrange(PROMETHEUS_21@.len() - "quackgis_transactions_active"@.len() - 2, PROMETHEUS_21@.len() as int) =~= seq!['\n'] + "quackgis_transactions_active"@ + seq![' ']);
    lemma_sample_line_at(PROMETHEUS_21@, "quackgis_transactions_active"@, lifecycle.spec_active_transactions() as nat, PROMETHEUS_22@);
    lemma_sample_line_persists("quackgis_duckdb_memory_bytes"@, metrics.duckdb_memory_bytes as nat);
    assert(PROMETHEUS_22@.subrange(PROMETHEUS_22@.len() - "quackgis_duckdb_memory_bytes"@.len() - 2, PROMETHEUS_22@.len() as int) =~= seq!['\n'] + "quackgis_duckdb_memory_bytes"@ + seq![' ']);
    lemma_sample_line_at(PROMETHEUS_22@, "quackgis_duckdb_memory_bytes"@, metrics.duckdb_memory_bytes as nat, PROMETHEUS_23@);
    lemma_sample_line_persists("quackgis_duckdb_memory_bytes_high_water"@, metrics.duckdb_memory_bytes_high_water as nat);
    assert(PROMETHEUS_23@.subrange(PROMETHEUS_23@.len() - "quackgis_duckdb_memory_bytes_high_water"@.len() - 2, PROMETHEUS_23@.len() as int) =~= seq!['\n'] + "quackgis_duckdb_memory_bytes_high_water"@ + seq![' ']);
    lemma_sample_line_at(PROMETHEUS_23@, "quackgis_duckdb_memory_bytes_high_water"@, metrics.duckdb_memory_bytes_high_water as nat, PROMETHEUS_24@);
}

proof fn lemma_prometheus_samples_4(
    execution: ExecutionCounters,
    metrics: MetricsCounters,
    lifecycle: RuntimeLifecycle,
    writes_denied: u64,
    reads_denied: u64,
)
    ensures
        has_sample_line(prometheus_text(execution, metrics, lifecycle, writes_denied, reads_denied), "quackgis_duckdb_temporary_storage_bytes"@, metrics.duckdb_temporary_storage_bytes as nat),
        has_sample_line(prometheus_text(execution, metrics, lifecycle, writes_denied, reads_denied), "quackgis_duckdb_temporary_storage_bytes_high_water"@, metrics.duckdb_temporary_storage_bytes_high_water as nat),
        has_sample_line(prometheus_text(execution, metrics, lifecycle, writes_denied, reads_denied), "quackgis_duckdb_resource_samples_total"@, metrics.duckdb_resource_samples as nat),
        has_sample_line(prometheus_text(execution, metrics, lifecycle, writes_denied, reads_denied), "quackgis_duckdb_resource_sample_failures_total"@, metrics.duckdb_resource_sample_failures as nat),
        has_sample_line(prometheus_text(execution, metrics, lifecycle, writes_denied, reads_denied), "quackgis_duckdb_resource_last_success_unixtime_seconds"@, metrics.duckdb_resource_last_success_unix_seconds as nat),
        has_sample_line(prometheus_text(execution, metrics, lifecycle, writes_denied, reads_denied), "quackgis_query_batches_total"@, metrics.query_batches as nat),
{
    reveal_strlit("\n# HELP quackgis_duckdb_resource_last_success_unixtime_seconds Unix timestamp of the latest successful DuckDB resource sample.\n# TYPE quackgis_duckdb_resource_last_success_unixtime_seconds gauge\nquackgis_duckdb_resource_last_success_unixtime_seconds ");
    reveal_strlit("\n# HELP quackgis_duckdb_resource_sample_failures_total Failed DuckDB resource samples.\n# TYPE quackgis_duckdb_resource_sample_failures_total counter\nquackgis_duckdb_resource_sample_failures_total ");
    reveal_strlit("\n# HELP quackgis_duckdb_resource_samples_total Successful DuckDB resource samples.\n# TYPE quackgis_duckdb_resource_samples_total counter\nquackgis_duckdb_resource_samples_total ");
    reveal_strlit("\n# HELP quackgis_duckdb_temporary_storage_bytes Current aggregate DuckDB temporary storage usage.\n# TYPE quackgis_duckdb_temporary_storage_bytes gauge\nquackgis_duckdb_temporary_storage_bytes ");
    reveal_strlit("\n# HELP quackgis_duckdb_temporary_storage_bytes_high_water Highest sampled aggregate DuckDB temporary storage usage.\n# TYPE quackgis_duckdb_temporary_storage_bytes_high_water gauge\nquackgis_duckdb_temporary_storage_bytes_high_water ");
    reveal_strlit("\n# HELP quackgis_query_batches_inflight Arrow result batches currently being encoded.\n# TYPE quackgis_query_batches_inflight gauge\nquackgis_query_batches_inflight ");
    reveal_strlit("\n# HELP quackgis_query_batches_total Arrow result batches accepted by pgwire.\n# TYPE quackgis_query_batches_total counter\nquackgis_query_batches_total ");
    reveal_strlit("quackgis_duckdb_resource_last_success_unixtime_seconds");
    reveal_strlit("quackgis_duckdb_resource_sample_failures_total");
    reveal_strlit("quackgis_duckdb_resource_samples_total");
    reveal_strlit("quackgis_duckdb_temporary_storage_bytes");
    reveal_strlit("quackgis_duckdb_temporary_storage_bytes_high_water");
    reveal_strlit("quackgis_query_batches_total");
    lemma_sample_line_persists("quackgis_duckdb_temporary_storage_bytes"@, metrics.duckdb_temporary_storage_bytes as nat);
    assert(PROMETHEUS_24@.subrange(PROMETHEUS_24@.len() - "quackgis_duckdb_temporary_storage_bytes"@.len() - 2, PROMETHEUS_24@.len() as int) =~= seq!['\n'] + "quackgis_duckdb_temporary_storage_bytes"@ + seq![' ']);
    lemma_sample_line_at(PROMETHEUS_24@, "quackgis_duckdb_temporary_storage_bytes"@, metrics.duckdb_temporary_storage_bytes as nat, PROMETHEUS_25@);
    lemma_sample_line_persists("quackgis_duckdb_temporary_storage_bytes_high_water"@, metrics.duckdb_temporary_storage_bytes_high_water as nat);
    assert(PROMETHEUS_25@.subrange(PROMETHEUS_25@.len() - "quackgis_duckdb_temporary_storage_bytes_high_water"@.len() - 2, PROMETHEUS_25@.len() as int) =~= seq!['\n'] + "quackgis_duckdb_temporary_storage_bytes_high_water"@ + seq![' ']);
    lemma_sample_line_at(PROMETHEUS_25@, "quackgis_duckdb_temporary_storage_bytes_high_water"@, metrics.duckdb_temporary_storage_bytes_high_water as nat, PROMETHEUS_26@);
    lemma_sample_line_persists("quackgis_duckdb_resource_samples_total"@, metrics.duckdb_resource_samples as nat);
    assert(PROMETHEUS_26@.subrange(PROMETHEUS_26@.len() - "quackgis_duckdb_resource_samples_total"@.len() - 2, PROMETHEUS_26@.len() as int) =~= seq!['\n'] + "quackgis_duckdb_resource_samples_total"@ + seq![' ']);
    lemma_sample_line_at(PROMETHEUS_26@, "quackgis_duckdb_resource_samples_total"@, metrics.duckdb_resource_samples as nat, PROMETHEUS_27@);
    lemma_sample_line_persists("quackgis_duckdb_resource_sample_failures_total"@, metrics.duckdb_resource_sample_failures as nat);
    assert(PROMETHEUS_27@.subrange(PROMETHEUS_27@.len() - "quackgis_duckdb_resource_sample_failures_total"@.len() - 2, PROMETHEUS_27@.len() as int) =~= seq!['\n'] + "quackgis_duckdb_resource_sample_failures_total"@ + seq![' ']);
    lemma_sample_line_at(PROMETHEUS_27@, "quackgis_duckdb_resource_sample_failures_total"@, metrics.duckdb_resource_sample_failures as nat, PROMETHEUS_28@);
    lemma_sample_line_persists("quackgis_duckdb_resource_last_success_unixtime_seconds"@, metrics.duckdb_resource_last_success_unix_seconds as nat);
    assert(PROMETHEUS_28@.subrange(PROMETHEUS_28@.len() - "quackgis_duckdb_resource_last_success_unixtime_seconds"@.len() - 2, PROMETHEUS_28@.len() as int) =~= seq!['\n'] + "quackgis_duckdb_resource_last_success_unixtime_seconds"@ + seq![' ']);
    lemma_sample_line_at(PROMETHEUS_28@, "quackgis_duckdb_resource_last_success_unixtime_seconds"@, metrics.duckdb_resource_last_success_unix_seconds as nat, PROMETHEUS_29@);
    lemma_sample_line_persists("quackgis_query_batches_total"@, metrics.query_batches as nat);
    assert(PROMETHEUS_29@.subrange(PROMETHEUS_29@.len() - "quackgis_query_batches_total"@.len() - 2, PROMETHEUS_29@.len() as int) =~= seq!['\n'] + "quackgis_query_batches_total"@ + seq![' ']);
    lemma_sample_line_at(PROMETHEUS_29@, "quackgis_query_batches_total"@, metrics.query_batches as nat, PROMETHEUS_30@);
}

proof fn lemma_prometheus_samples_5(
    execution: ExecutionCounters,
    metrics: MetricsCounters,
    lifecycle: RuntimeLifecycle,
    writes_denied: u64,
    reads_denied: u64,
)
    ensures
        has_sample_line(prometheus_text(execution, metrics, lifecycle, writes_denied, reads_denied), "quackgis_query_batches_inflight"@, metrics.query_batches_inflight as nat),
        has_sample_line(prometheus_text(execution, metrics, lifecycle, writes_denied, reads_denied), "quackgis_query_batches_inflight_high_water"@, metrics.query_batches_inflight_high_water as nat),
        has_sample_line(prometheus_text(execution, metrics, lifecycle, writes_denied, reads_denied), "quackgis_query_batch_bytes_high_water"@, metrics.query_batch_bytes_high_water as nat),
        has_sample_line(prometheus_text(execution, metrics, lifecycle, writes_denied, reads_denied), "quackgis_query_batch_limit_rejections_total"@, metrics.query_batch_limit_rejections as nat),
        has_sample_line(prometheus_text(execution, metrics, lifecycle, writes_denied, reads_denied), "quackgis_blocking_workers_active"@, execution.blocking_active as nat),
        has_sample_line(prometheus_text(execution, metrics, lifecycle, writes_denied, reads_denied), "quackgis_blocking_regular_active"@, execution.blocking_regular_active as nat),
{
    reveal_strlit("\n# HELP quackgis_blocking_control_active Reserved control workers currently active.\n# TYPE quackgis_blocking_control_active gauge\nquackgis_blocking_control_active ");
    reveal_strlit("\n# HELP quackgis_blocking_regular_active Regular native blocking workers currently active.\n# TYPE quackgis_blocking_regular_active gauge\nquackgis_blocking_regular_active ");
    reveal_strlit("\n# HELP quackgis_blocking_workers_active Native blocking workers currently active.\n# TYPE quackgis_blocking_workers_active gauge\nquackgis_blocking_workers_active ");
    reveal_strlit("\n# HELP quackgis_query_batch_bytes_high_water Largest accepted Arrow result batch in memory bytes.\n# TYPE quackgis_query_batch_bytes_high_water gauge\nquackgis_query_batch_bytes_high_water ");
    reveal_strlit("\n# HELP quackgis_query_batch_limit_rejections_total Arrow result batches rejected by the configured byte ceiling.\n# TYPE quackgis_query_batch_limit_rejections_total counter\nquackgis_query_batch_limit_rejections_total ");
    reveal_strlit("\n# HELP quackgis_query_batches_inflight Arrow result batches currently being encoded.\n# TYPE quackgis_query_batches_inflight gauge\nquackgis_query_batches_inflight ");
    reveal_strlit("\n# HELP quackgis_query_batches_inflight_high_water Highest observed in-flight Arrow result batches.\n# TYPE quackgis_query_batches_inflight_high_water gauge\nquackgis_query_batches_inflight_high_water ");
    reveal_strlit("quackgis_blocking_regular_active");
    reveal_strlit("quackgis_blocking_workers_active");
    reveal_strlit("quackgis_query_batch_bytes_high_water");
    reveal_strlit("quackgis_query_batch_limit_rejections_total");
    reveal_strlit("quackgis_query_batches_inflight");
    reveal_strlit("quackgis_query_batches_inflight_high_water");
    lemma_sample_line_persists("quackgis_query_batches_inflight"@, metrics.query_batches_inflight as nat);
    assert(PROMETHEUS_30@.subrange(PROMETHEUS_30@.len() - "quackgis_query_batches_inflight"@.len() - 2, PROMETHEUS_30@.len() as int) =~= seq!['\n'] + "quackgis_query_batches_inflight"@ + seq![' ']);
    lemma_sample_line_at(PROMETHEUS_30@, "quackgis_query_batches_inflight"@, metrics.query_batches_inflight as nat, PROMETHEUS_31@);
    lemma_sample_line_persists("quackgis_query_batches_inflight_high_water"@, metrics.query_batches_inflight_high_water as nat);
    assert(PROMETHEUS_31@.subrange(PROMETHEUS_31@.len() - "quackgis_query_batches_inflight_high_water"@.len() - 2, PROMETHEUS_31@.len() as int) =~= seq!['\n'] + "quackgis_query_batches_inflight_high_water"@ + seq![' ']);
    lemma_sample_line_at(PROMETHEUS_31@, "quackgis_query_batches_inflight_high_water"@, metrics.query_batches_inflight_high_water as nat, PROMETHEUS_32@);
    lemma_sample_line_persists("quackgis_query_batch_bytes_high_water"@, metrics.query_batch_bytes_high_water as nat);
    assert(PROMETHEUS_32@.subrange(PROMETHEUS_32@.len() - "quackgis_query_batch_bytes_high_water"@.len() - 2, PROMETHEUS_32@.len() as int) =~= seq!['\n'] + "quackgis_query_batch_bytes_high_water"@ + seq![' ']);
    lemma_sample_line_at(PROMETHEUS_32@, "quackgis_query_batch_bytes_high_water"@, metrics.query_batch_bytes_high_water as nat, PROMETHEUS_33@);
    lemma_sample_line_persists("quackgis_query_batch_limit_rejections_total"@, metrics.query_batch_limit_rejections as nat);
    assert(PROMETHEUS_33@.subrange(PROMETHEUS_33@.len() - "quackgis_query_batch_limit_rejections_total"@.len() - 2, PROMETHEUS_33@.len() as int) =~= seq!['\n'] + "quackgis_query_batch_limit_rejections_total"@ + seq![' ']);
    lemma_sample_line_at(PROMETHEUS_33@, "quackgis_query_batch_limit_rejections_total"@, metrics.query_batch_limit_rejections as nat, PROMETHEUS_34@);
    lemma_sample_line_persists("quackgis_blocking_workers_active"@, execution.blocking_active as nat);
    assert(PROMETHEUS_34@.subrange(PROMETHEUS_34@.len() - "quackgis_blocking_workers_active"@.len() - 2, PROMETHEUS_34@.len() as int) =~= seq!['\n'] + "quackgis_blocking_workers_active"@ + seq![' ']);
    lemma_sample_line_at(PROMETHEUS_34@, "quackgis_blocking_workers_active"@, execution.blocking_active as nat, PROMETHEUS_35@);
    lemma_sample_line_persists("quackgis_blocking_regular_active"@, execution.blocking_regular_active as nat);
    assert(PROMETHEUS_35@.subrange(PROMETHEUS_35@.len() - "quackgis_blocking_regular_active"@.len() - 2, PROMETHEUS_35@.len() as int) =~= seq!['\n'] + "quackgis_blocking_regular_active"@ + seq![' ']);
    lemma_sample_line_at(PROMETHEUS_35@, "quackgis_blocking_regular_active"@, execution.blocking_regular_active as nat, PROMETHEUS_36@);
}

proof fn lemma_prometheus_samples_6(
    execution: ExecutionCounters,
    metrics: MetricsCounters,
    lifecycle: RuntimeLifecycle,
    writes_denied: u64,
    reads_denied: u64,
)
    ensures
        has_sample_line(prometheus_text(execution, metrics, lifecycle, writes_denied, reads_denied), "quackgis_blocking_control_active"@, execution.blocking_control_active as nat),
        has_sample_line(prometheus_text(execution, metrics, lifecycle, writes_denied, reads_denied), "quackgis_blocking_workers_queued"@, execution.blocking_queued as nat),
        has_sample_line(prometheus_text(execution, metrics, lifecycle, writes_denied, reads_denied), "quackgis_blocking_workers_high_water"@, execution.blocking_high_water as nat),
        has_sample_line(prometheus_text(execution, metrics, lifecycle, writes_denied, reads_denied), "quackgis_copy_active"@, metrics.copy_active as nat),
        has_sample_line(prometheus_text(execution, metrics, lifecycle, writes_denied, reads_denied), "quackgis_copy_started_total"@, metrics.copy_started as nat),
        has_sample_line(prometheus_text(execution, metrics, lifecycle, writes_denied, reads_denied), "quackgis_copy_completed_total"@, metrics.copy_completed as nat),
{
    reveal_strlit("\n# HELP quackgis_blocking_control_active Reserved control workers currently active.\n# TYPE quackgis_blocking_control_active gauge\nquackgis_blocking_control_active ");
    reveal_strlit("\n# HELP quackgis_blocking_workers_high_water Highest observed active native workers.\n# TYPE quackgis_blocking_workers_high_water gauge\nquackgis_blocking_workers_high_water ");
    reveal_strlit("\n# HELP quackgis_blocking_workers_queued Native operations waiting for a worker.\n# TYPE quackgis_blocking_workers_queued gauge\nquackgis_blocking_workers_queued ");
    reveal_strlit("\n# HELP quackgis_copy_active COPY operations currently active.\n# TYPE quackgis_copy_active gauge\nquackgis_copy_active ");
    reveal_strlit("\n# HELP quackgis_copy_completed_total COPY statements completed; an enclosing client transaction may still roll back.\n# TYPE quackgis_copy_completed_total counter\nquackgis_copy_completed_total ");
    reveal_strlit("\n# HELP quackgis_copy_failed_total COPY operations aborted.\n# TYPE quackgis_copy_failed_total counter\nquackgis_copy_failed_total ");
    reveal_strlit("\n# HELP quackgis_copy_started_total COPY operations started.\n# TYPE quackgis_copy_started_total counter\nquackgis_copy_started_total ");
    reveal_strlit("quackgis_blocking_control_active");
    reveal_strlit("quackgis_blocking_workers_high_water");
    reveal_strlit("quackgis_blocking_workers_queued");
    reveal_strlit("quackgis_copy_active");
    reveal_strlit("quackgis_copy_completed_total");
    reveal_strlit("quackgis_copy_started_total");
    lemma_sample_line_persists("quackgis_blocking_control_active"@, execution.blocking_control_active as nat);
    assert(PROMETHEUS_36@.subrange(PROMETHEUS_36@.len() - "quackgis_blocking_control_active"@.len() - 2, PROMETHEUS_36@.len() as int) =~= seq!['\n'] + "quackgis_blocking_control_active"@ + seq![' ']);
    lemma_sample_line_at(PROMETHEUS_36@, "quackgis_blocking_control_active"@, execution.blocking_control_active as nat, PROMETHEUS_37@);
    lemma_sample_line_persists("quackgis_blocking_workers_queued"@, execution.blocking_queued as nat);
    assert(PROMETHEUS_37@.subrange(PROMETHEUS_37@.len() - "quackgis_blocking_workers_queued"@.len() - 2, PROMETHEUS_37@.len() as int) =~= seq!['\n'] + "quackgis_blocking_workers_queued"@ + seq![' ']);
    lemma_sample_line_at(PROMETHEUS_37@, "quackgis_blocking_workers_queued"@, execution.blocking_queued as nat, PROMETHEUS_38@);
    lemma_sample_line_persists("quackgis_blocking_workers_high_water"@, execution.blocking_high_water as nat);
    assert(PROMETHEUS_38@.subrange(PROMETHEUS_38@.len() - "quackgis_blocking_workers_high_water"@.len() - 2, PROMETHEUS_38@.len() as int) =~= seq!['\n'] + "quackgis_blocking_workers_high_water"@ + seq![' ']);
    lemma_sample_line_at(PROMETHEUS_38@, "quackgis_blocking_workers_high_water"@, execution.blocking_high_water as nat, PROMETHEUS_39@);
    lemma_sample_line_persists("quackgis_copy_active"@, metrics.copy_active as nat);
    assert(PROMETHEUS_39@.subrange(PROMETHEUS_39@.len() - "quackgis_copy_active"@.len() - 2, PROMETHEUS_39@.len() as int) =~= seq!['\n'] + "quackgis_copy_active"@ + seq![' ']);
    lemma_sample_line_at(PROMETHEUS_39@, "quackgis_copy_active"@, metrics.copy_active as nat, PROMETHEUS_40@);
    lemma_sample_line_persists("quackgis_copy_started_total"@, metrics.copy_started as nat);
    assert(PROMETHEUS_40@.subrange(PROMETHEUS_40@.len() - "quackgis_copy_started_total"@.len() - 2, PROMETHEUS_40@.len() as int) =~= seq!['\n'] + "quackgis_copy_started_total"@ + seq![' ']);
    lemma_sample_line_at(PROMETHEUS_40@, "quackgis_copy_started_total"@, metrics.copy_started as nat, PROMETHEUS_41@);
    lemma_sample_line_persists("quackgis_copy_completed_total"@, metrics.copy_completed as nat);
    assert(PROMETHEUS_41@.subrange(PROMETHEUS_41@.len() - "quackgis_copy_completed_total"@.len() - 2, PROMETHEUS_41@.len() as int) =~= seq!['\n'] + "quackgis_copy_completed_total"@ + seq![' ']);
    lemma_sample_line_at(PROMETHEUS_41@, "quackgis_copy_completed_total"@, metrics.copy_completed as nat, PROMETHEUS_42@);
}

proof fn lemma_prometheus_samples_7(
    execution: ExecutionCounters,
    metrics: MetricsCounters,
    lifecycle: RuntimeLifecycle,
    writes_denied: u64,
    reads_denied: u64,
)
    ensures
        has_sample_line(prometheus_text(execution, metrics, lifecycle, writes_denied, reads_denied), "quackgis_copy_failed_total"@, metrics.copy_failed as nat),
        has_sample_line(prometheus_text(execution, metrics, lifecycle, writes_denied, reads_denied), "quackgis_copy_rows_total"@, metrics.copy_rows as nat),
        has_sample_line(prometheus_text(execution, metrics, lifecycle, writes_denied, reads_denied), "quackgis_copy_bytes_total"@, metrics.copy_bytes as nat),
        has_sample_line(prometheus_text(execution, metrics, lifecycle, writes_denied, reads_denied), "quackgis_copy_batches_total"@, metrics.copy_batches as nat),
        has_sample_line(prometheus_text(execution, metrics, lifecycle, writes_denied, reads_denied), "quackgis_copy_duration_microseconds_total"@, metrics.copy_duration_microseconds as nat),
        has_sample_line(prometheus_text(execution, metrics, lifecycle, writes_denied, reads_denied), "quackgis_copy_commit_microseconds_total"@, metrics.copy_commit_microseconds as nat),
{
    reveal_strlit("\n");
    reveal_strlit("\n# HELP quackgis_copy_batches_total Arrow batches accepted by completed COPY statements.\n# TYPE quackgis_copy_batches_total counter\nquackgis_copy_batches_total ");
    reveal_strlit("\n# HELP quackgis_copy_bytes_total Wire bytes accepted by committed COPY operations.\n# TYPE quackgis_copy_bytes_total counter\nquackgis_copy_bytes_total ");
    reveal_strlit("\n# HELP quackgis_copy_commit_microseconds_total Cumulative COPY finish-to-commit latency.\n# TYPE quackgis_copy_commit_microseconds_total counter\nquackgis_copy_commit_microseconds_total ");
    reveal_strlit("\n# HELP quackgis_copy_duration_microseconds_total Cumulative COPY duration.\n# TYPE quackgis_copy_duration_microseconds_total counter\nquackgis_copy_duration_microseconds_total ");
    reveal_strlit("\n# HELP quackgis_copy_failed_total COPY operations aborted.\n# TYPE quackgis_copy_failed_total counter\nquackgis_copy_failed_total ");
    reveal_strlit("\n# HELP quackgis_copy_rows_total Rows accepted by completed COPY statements.\n# TYPE quackgis_copy_rows_total counter\nquackgis_copy_rows_total ");
    reveal_strlit("quackgis_copy_batches_total");
    reveal_strlit("quackgis_copy_bytes_total");
    reveal_strlit("quackgis_copy_commit_microseconds_total");
    reveal_strlit("quackgis_copy_duration_microseconds_total");
    reveal_strlit("quackgis_copy_failed_total");
    reveal_strlit("quackgis_copy_rows_total");
    lemma_sample_line_persists("quackgis_copy_failed_total"@, metrics.copy_failed as nat);
    assert(PROMETHEUS_42@.subrange(PROMETHEUS_42@.len() - "quackgis_copy_failed_total"@.len() - 2, PROMETHEUS_42@.len() as int) =~= seq!['\n'] + "quackgis_copy_failed_total"@ + seq![' ']);
    lemma_sample_line_at(PROMETHEUS_42@, "quackgis_copy_failed_total"@, metrics.copy_failed as nat, PROMETHEUS_43@);
    lemma_sample_line_persists("quackgis_copy_rows_total"@, metrics.copy_rows as nat);
    assert(PROMETHEUS_43@.subrange(PROMETHEUS_43@.len() - "quackgis_copy_rows_total"@.len() - 2, PROMETHEUS_43@.len() as int) =~= seq!['\n'] + "quackgis_copy_rows_total"@ + seq![' ']);
    lemma_sample_line_at(PROMETHEUS_43@, "quackgis_copy_rows_total"@, metrics.copy_rows as nat, PROMETHEUS_44@);
    lemma_sample_line_persists("quackgis_copy_bytes_total"@, metrics.copy_bytes as nat);
    assert(PROMETHEUS_44@.subrange(PROMETHEUS_44@.len() - "quackgis_copy_bytes_total"@.len() - 2, PROMETHEUS_44@.len() as int) =~= seq!['\n'] + "quackgis_copy_bytes_total"@ + seq![' ']);
    lemma_sample_line_at(PROMETHEUS_44@, "quackgis_copy_bytes_total"@, metrics.copy_bytes as nat, PROMETHEUS_45@);
    lemma_sample_line_persists("quackgis_copy_batches_total"@, metrics.copy_batches as nat);
    assert(PROMETHEUS_45@.subrange(PROMETHEUS_45@.len() - "quackgis_copy_batches_total"@.len() - 2, PROMETHEUS_45@.len() as int) =~= seq!['\n'] + "quackgis_copy_batches_total"@ + seq![' ']);
    lemma_sample_line_at(PROMETHEUS_45@, "quackgis_copy_batches_total"@, metrics.copy_batches as nat, PROMETHEUS_46@);
    lemma_sample_line_persists("quackgis_copy_duration_microseconds_total"@, metrics.copy_duration_microseconds as nat);
    assert(PROMETHEUS_46@.subrange(PROMETHEUS_46@.len() - "quackgis_copy_duration_microseconds_total"@.len() - 2, PROMETHEUS_46@.len() as int) =~= seq!['\n'] + "quackgis_copy_duration_microseconds_total"@ + seq![' ']);
    lemma_sample_line_at(PROMETHEUS_46@, "quackgis_copy_duration_microseconds_total"@, metrics.copy_duration_microseconds as nat, PROMETHEUS_47@);
    lemma_sample_line_persists("quackgis_copy_commit_microseconds_total"@, metrics.copy_commit_microseconds as nat);
    assert(PROMETHEUS_47@.subrange(PROMETHEUS_47@.len() - "quackgis_copy_commit_microseconds_total"@.len() - 2, PROMETHEUS_47@.len() as int) =~= seq!['\n'] + "quackgis_copy_commit_microseconds_total"@ + seq![' ']);
    lemma_sample_line_at(PROMETHEUS_47@, "quackgis_copy_commit_microseconds_total"@, metrics.copy_commit_microseconds as nat, PROMETHEUS_48@);
}

/// Each sample line of the exposition carries its own counter: for every
/// metric, the text holds a whole line that is the metric's name (with its
/// class label where it has one), a space and that counter's value in
/// decimal.
pub proof fn lemma_prometheus_sample_lines(
    execution: ExecutionCounters,
    metrics: MetricsCounters,
    lifecycle: RuntimeLifecycle,
    writes_denied: u64,
    reads_denied: u64,
)
    ensures
        has_sample_line(prometheus_text(execution, metrics, lifecycle, writes_denied, reads_denied), "quackgis_write_denied_total"@, writes_denied as nat),
        has_sample_line(prometheus_text(execution, metrics, lifecycle, writes_denied, reads_denied), "quackgis_read_denied_total"@, reads_denied as nat),
        has_sample_line(prometheus_text(execution, metrics, lifecycle, writes_denied, reads_denied), "quackgis_operations_active"@, execution.active as nat),
        has_sample_line(prometheus_text(execution, metrics, lifecycle, writes_denied, reads_denied), "quackgis_operations_queued"@, execution.queued as nat),
        has_sample_line(prometheus_text(execution, metrics, lifecycle, writes_denied, reads_denied), "quackgis_operations_class_active{class=\"reader\"}"@, execution.reader.active as nat),
        has_sample_line(prometheus_text(execution, metrics, lifecycle, writes_denied, reads_denied), "quackgis_operations_class_active{class=\"writer\"}"@, execution.writer.active as nat),
        has_sample_line(prometheus_text(execution, metrics, lifecycle, writes_denied, reads_denied), "quackgis_operations_class_active{class=\"maintenance\"}"@, execution.maintenance.active as nat),
        has_sample_line(prometheus_text(execution, metrics, lifecycle, writes_denied, reads_denied), "quackgis_operations_class_queued{class=\"reader\"}"@, execution.reader.queued as nat),
        has_sample_line(prometheus_text(execution, metrics, lifecycle, writes_denied, reads_denied), "quackgis_operations_class_queued{class=\"writer\"}"@, execution.writer.queued as nat),
        has_sample_line(prometheus_text(execution, metrics, lifecycle, writes_denied, reads_denied), "quackgis_operations_class_queued{class=\"maintenance\"}"@, execution.maintenance.queued as nat),
        has_sample_line(prometheus_text(execution, metrics, lifecycle, writes_denied, reads_denied), "quackgis_operations_class_high_water{class=\"reader\"}"@, execution.reader.high_water as nat),
        has_sample_line(prometheus_text(execution, metrics, lifecycle, writes_denied, reads_denied), "quackgis_operations_class_high_water{class=\"writer\"}"@, execution.writer.high_water as nat),
        has_sample_line(prometheus_text(execution, metrics, lifecycle, writes_denied, reads_denied), "quackgis_operations_class_high_water{class=\"maintenance\"}"@, execution.maintenance.high_water as nat),
        has_sample_line(prometheus_text(execution, metrics, lifecycle, writes_denied, reads_denied), "quackgis_operations_started_total"@, execution.started as nat),
        has_sample_line(prometheus_text(execution, metrics, lifecycle, writes_denied, reads_denied), "quackgis_admission_rejected_total"@, execution.rejected as nat),
        has_sample_line(prometheus_text(execution, metrics, lifecycle, writes_denied, reads_denied), "quackgis_admission_queue_timeouts_total"@, execution.queue_timeouts as nat),
        has_sample_line(prometheus_text(execution, metrics, lifecycle, writes_denied, reads_denied), "quackgis_cancellations_requested_total"@, execution.cancel_requested as nat),
        has_sample_line(prometheus_text(execution, metrics, lifecycle, writes_denied, reads_denied), "quackgis_cancellations_completed_total"@, execution.cancel_completed as nat),
        has_sample_line(prometheus_text(execution, metrics, lifecycle, writes_denied, reads_denied), "quackgis_cancellations_failed_total"@, execution.cancel_failed as nat),
        has_sample_line(prometheus_text(execution, metrics, lifecycle, writes_denied, reads_denied), "quackgis_statement_timeouts_total"@, execution.statement_timeouts as nat),
        has_sample_line(prometheus_text(execution, metrics, lifecycle, writes_denied, reads_denied), "quackgis_connections_quarantined_total"@, metrics.connections_quarantined as nat),
        has_sample_line(prometheus_text(execution, metrics, lifecycle, writes_denied, reads_denied), "quackgis_transactions_active"@, lifecycle.spec_active_transactions() as nat),
        has_sample_line(prometheus_text(execution, metrics, lifecycle, writes_denied, reads_denied), "quackgis_duckdb_memory_bytes"@, metrics.duckdb_memory_bytes as nat),
        has_sample_line(prometheus_text(execution, metrics, lifecycle, writes_denied, reads_denied), "quackgis_duckdb_memory_bytes_high_water"@, metrics.duckdb_memory_bytes_high_water as nat),
        has_sample_line(prometheus_text(execution, metrics, lifecycle, writes_denied, reads_denied), "quackgis_duckdb_temporary_storage_bytes"@, metrics.duckdb_temporary_storage_bytes as nat),
        has_sample_line(prometheus_text(execution, metrics, lifecycle, writes_denied, reads_denied), "quackgis_duckdb_temporary_storage_bytes_high_water"@, metrics.duckdb_temporary_storage_bytes_high_water as nat),
        has_sample_line(prometheus_text(execution, metrics, lifecycle, writes_denied, reads_denied), "quackgis_duckdb_resource_samples_total"@, metrics.duckdb_resource_samples as nat),
        has_sample_line(prometheus_text(execution, metrics, lifecycle, writes_denied, reads_denied), "quackgis_duckdb_resource_sample_failures_total"@, metrics.duckdb_resource_sample_failures as nat),
        has_sample_line(prometheus_text(execution, metrics, lifecycle, writes_denied, reads_denied), "quackgis_duckdb_resource_last_success_unixtime_seconds"@, metrics.duckdb_resource_last_success_unix_seconds as nat),
        has_sample_line(prometheus_text(execution, metrics, lifecycle, writes_denied, reads_denied), "quackgis_query_batches_total"@, metrics.query_batches as nat),
        has_sample_line(prometheus_text(execution, metrics, lifecycle, writes_denied, reads_denied), "quackgis_query_batches_inflight"@, metrics.query_batches_inflight as nat),
        has_sample_line(prometheus_text(execution, metrics, lifecycle, writes_denied, reads_denied), "quackgis_query_batches_inflight_high_water"@, metrics.query_batches_inflight_high_water as nat),
        has_sample_line(prometheus_text(execution, metrics, lifecycle, writes_denied, reads_denied), "quackgis_query_batch_bytes_high_water"@, metrics.query_batch_bytes_high_water as nat),
        has_sample_line(prometheus_text(execution, metrics, lifecycle, writes_denied, reads_denied), "quackgis_query_batch_limit_rejections_total"@, metrics.query_batch_limit_rejections as nat),
        has_sample_line(prometheus_text(execution, metrics, lifecycle, writes_denied, reads_denied), "quackgis_blocking_workers_active"@, execution.blocking_active as nat),
        has_sample_line(prometheus_text(execution, metrics, lifecycle, writes_denied, reads_denied), "quackgis_blocking_regular_active"@, execution.blocking_regular_active as nat),
        has_sample_line(prometheus_text(execution, metrics, lifecycle, writes_denied, reads_denied), "quackgis_blocking_control_active"@, execution.blocking_control_active as nat),
        has_sample_line(prometheus_text(execution, metrics, lifecycle, writes_denied, reads_denied), "quackgis_blocking_workers_queued"@, execution.blocking_queued as nat),
        has_sample_line(prometheus_text(execution, metrics, lifecycle, writes_denied, reads_denied), "quackgis_blocking_workers_high_water"@, execution.blocking_high_water as nat),
        has_sample_line(prometheus_text(execution, metrics, lifecycle, writes_denied, reads_denied), "quackgis_copy_active"@, metrics.copy_active as nat),
        has_sample_line(prometheus_text(execution, metrics, lifecycle, writes_denied, reads_denied), "quackgis_copy_started_total"@, metrics.copy_started as nat),
        has_sample_line(prometheus_text(execution, metrics, lifecycle, writes_denied, reads_denied), "quackgis_copy_completed_total"@, metrics.copy_completed as nat),
        has_sample_line(prometheus_text(execution, metrics, lifecycle, writes_denied, reads_denied), "quackgis_copy_failed_total"@, metrics.copy_failed as nat),
        has_sample_line(prometheus_text(execution, metrics, lifecycle, writes_denied, reads_denied), "quackgis_copy_rows_total"@, metrics.copy_rows as nat),
        has_sample_line(prometheus_text(execution, metrics, lifecycle, writes_denied, reads_denied), "quackgis_copy_bytes_total"@, metrics.copy_bytes as nat),
        has_sample_line(prometheus_text(execution, metrics, lifecycle, writes_denied, reads_denied), "quackgis_copy_batches_total"@, metrics.copy_batches as nat),
        has_sample_line(prometheus_text(execution, metrics, lifecycle, writes_denied, reads_denied), "quackgis_copy_duration_microseconds_total"@, metrics.copy_duration_microseconds as nat),
        has_sample_line(prometheus_text(execution, metrics, lifecycle, writes_denied, reads_denied), "quackgis_copy_commit_microseconds_total"@, metrics.copy_commit_microseconds as nat),
{
    lemma_prometheus_samples_0(execution, metrics, lifecycle, writes_denied, reads_denied);
    lemma_prometheus_samples_1(execution, metrics, lifecycle, writes_denied, reads_denied);
    lemma_prometheus_samples_2(execution, metrics, lifecycle, writes_denied, reads_denied);
    lemma_prometheus_samples_3(execution, metrics, lifecycle, writes_denied, reads_denied);
    lemma_prometheus_samples_4(execution, metrics, lifecycle, writes_denied, reads_denied);
    lemma_prometheus_samples_5(execution, metrics, lifecycle, writes_denied, reads_denied);
    lemma_prometheus_samples_6(execution, metrics, lifecycle, writes_denied, reads_denied);
    lemma_prometheus_samples_7(execution, metrics, lifecycle, writes_denied, reads_denied);
}

/// Render the process counters in the Prometheus text exposition format.
pub fn render_prometheus(
    execution: &ExecutionCounters,
    metrics: &MetricsCounters,
    lifecycle: &RuntimeLifecycle,
    writes_denied: u64,
    reads_denied: u64,
) -> (body: String)
    ensures
        body@ == prometheus_text(*execution, *metrics, *lifecycle, writes_denied, reads_denied),
{
    let mut out = String::from_str(PROMETHEUS_0);
    push_decimal(&mut out, writes_denied as u64);
    out.append(PROMETHEUS_1);
    push_decimal(&mut out, reads_denied as u64);
    out.append(PROMETHEUS_2);
    push_decimal(&mut out, execution.active as u64);
    out.append(PROMETHEUS_3);
    push_decimal(&mut out, execution.queued as u64);
    out.append(PROMETHEUS_4);
    push_decimal(&mut out, execution.reader.active as u64);
    out.append(PROMETHEUS_5);
    push_decimal(&mut out, execution.writer.active as u64);
    out.append(PROMETHEUS_6);
    push_decimal(&mut out, execution.maintenance.active as u64);
    out.append(PROMETHEUS_7);
    push_decimal(&mut out, execution.reader.queued as u64);
    out.append(PROMETHEUS_8);
    push_decimal(&mut out, execution.writer.queued as u64);
    out.append(PROMETHEUS_9);
    push_decimal(&mut out, execution.maintenance.queued as u64);
    out.append(PROMETHEUS_10);
    push_decimal(&mut out, execution.reader.high_water as u64);
    out.append(PROMETHEUS_11);
    push_decimal(&mut out, execution.writer.high_water as u64);
    out.append(PROMETHEUS_12);
    push_decimal(&mut out, execution.maintenance.high_water as u64);
    out.append(PROMETHEUS_13);
    push_decimal(&mut out, execution.started as u64);
    out.append(PROMETHEUS_14);
    push_decimal(&mut out, execution.rejected as u64);
    out.append(PROMETHEUS_15);
    push_decimal(&mut out, execution.queue_timeouts as u64);
    out.append(PROMETHEUS_16);
    push_decimal(&mut out, execution.cancel_requested as u64);
    out.append(PROMETHEUS_17);
    push_decimal(&mut out, execution.cancel_completed as u64);
    out.append(PROMETHEUS_18);
    push_decimal(&mut out, execution.cancel_failed as u64);
    out.append(PROMETHEUS_19);
    push_decimal(&mut out, execution.statement_timeouts as u64);
    out.append(PROMETHEUS_20);
    push_decimal(&mut out, metrics.connections_quarantined as u64);
    out.append(PROMETHEUS_21);
    push_decimal(&mut out, lifecycle.active_transactions() as u64);
    out.append(PROMETHEUS_22);
    push_decimal(&mut out, metrics.duckdb_memory_bytes as u64);
    out.append(PROMETHEUS_23);
    push_decimal(&mut out, metrics.duckdb_memory_bytes_high_water as u64);
    out.append(PROMETHEUS_24);
    push_decimal(&mut out, metrics.duckdb_temporary_storage_bytes as u64);
    out.append(PROMETHEUS_25);
    push_decimal(&mut out, metrics.duckdb_temporary_storage_bytes_high_water as u64);
    out.append(PROMETHEUS_26);
    push_decimal(&mut out, metrics.duckdb_resource_samples as u64);
    out.append(PROMETHEUS_27);
    push_decimal(&mut out, metrics.duckdb_resource_sample_failures as u64);
    out.append(PROMETHEUS_28);
    push_decimal(&mut out, metrics.duckdb_resource_last_success_unix_seconds as u64);
    out.append(PROMETHEUS_29);
    push_decimal(&mut out, metrics.query_batches as u64);
    out.append(PROMETHEUS_30);
    push_decimal(&mut out, metrics.query_batches_inflight as u64);
    out.append(PROMETHEUS_31);
    push_decimal(&mut out, metrics.query_batches_inflight_high_water as u64);
    out.append(PROMETHEUS_32);
    push_decimal(&mut out, metrics.query_batch_bytes_high_water as u64);
    out.append(PROMETHEUS_33);
    push_decimal(&mut out, metrics.query_batch_limit_rejections as u64);
    out.append(PROMETHEUS_34);
    push_decimal(&mut out, execution.blocking_active as u64);
    out.append(PROMETHEUS_35);
    push_decimal(&mut out, execution.blocking_regular_active as u64);
    out.append(PROMETHEUS_36);
    push_decimal(&mut out, execution.blocking_control_active as u64);
    out.append(PROMETHEUS_37);
    push_decimal(&mut out, execution.blocking_queued as u64);
    out.append(PROMETHEUS_38);
    push_decimal(&mut out, execution.blocking_high_water as u64);
    out.append(PROMETHEUS_39);
    push_decimal(&mut out, metrics.copy_active as u64);
    out.append(PROMETHEUS_40);
    push_decimal(&mut out, metrics.copy_started as u64);
    out.append(PROMETHEUS_41);
    push_decimal(&mut out, metrics.copy_completed as u64);
    out.append(PROMETHEUS_42);
    push_decimal(&mut out, metrics.copy_failed as u64);
    out.append(PROMETHEUS_43);
    push_decimal(&mut out, metrics.copy_rows as u64);
    out.append(PROMETHEUS_44);
    push_decimal(&mut out, metrics.copy_bytes as u64);
    out.append(PROMETHEUS_45);
    push_decimal(&mut out, metrics.copy_batches as u64);
    out.append(PROMETHEUS_46);
    push_decimal(&mut out, metrics.copy_duration_microseconds as u64);
    out.append(PROMETHEUS_47);
    push_decimal(&mut out, metrics.copy_commit_microseconds as u64);
    out.append(PROMETHEUS_48);
    out
}


// ─── Status endpoint ───────────────────────────────────────────────────────

/// Whether a character has the Unicode `White_Space` property, as
/// `char::is_whitespace` decides.
pub open spec fn is_unicode_whitespace(c: char) -> bool {
    let u = c as u32;
    ||| 0x9 <= u <= 0xd
    ||| u == 0x20
    ||| u == 0x85
    ||| u == 0xa0
    ||| u == 0x1680
    ||| 0x2000 <= u <= 0x200a
    ||| u == 0x2028
    ||| u == 0x2029
    ||| u == 0x202f
    ||| u == 0x205f
    ||| u == 0x3000
}

/// Whether a character is whitespace.
pub fn is_whitespace(c: char) -> (r: bool)
    ensures
        r == is_unicode_whitespace(c),
{
    let u = c as u32;
    (0x9 <= u && u <= 0xd) || u == 0x20 || u == 0x85 || u == 0xa0 || u == 0x1680 || (0x2000 <= u && u
        <= 0x200a) || u == 0x2028 || u == 0x2029 || u == 0x202f || u == 0x205f || u == 0x3000
}

/// The index of the first line feed at or after `i`, or the length.
pub open spec fn line_break(s: Seq<char>, i: int) -> int
    decreases s.len() - i,
{
    if i >= s.len() || i < 0 {
        s.len() as int
    } else if s[i] == '\n' {
        i
    } else {
        line_break(s, i + 1)
    }
}

/// The first line of text, without its line ending (`\n` or `\r\n`).
pub open spec fn first_line(s: Seq<char>) -> Seq<char> {
    let k = line_break(s, 0);
    if k < s.len() && k > 0 && s[k - 1] == '\r' {
        s.subrange(0, k - 1)
    } else {
        s.subrange(0, k)
    }
}

/// The first index at or after `i` that is not whitespace, or the length.
pub open spec fn skip_whitespace(s: Seq<char>, i: int) -> int
    decreases s.len() - i,
{
    if i >= s.len() || i < 0 {
        s.len() as int
    } else if !is_unicode_whitespace(s[i]) {
        i
    } else {
        skip_whitespace(s, i + 1)
    }
}

/// The first index at or after `i` that is whitespace, or the length.
pub open spec fn word_end(s: Seq<char>, i: int) -> int
    decreases s.len() - i,
{
    if i >= s.len() || i < 0 {
        s.len() as int
    } else if is_unicode_whitespace(s[i]) {
        i
    } else {
        word_end(s, i + 1)
    }
}

/// The second whitespace-separated word of text, if it has one.
pub open spec fn second_word(s: Seq<char>) -> Option<Seq<char>> {
    let first = skip_whitespace(s, 0);
    let second = skip_whitespace(s, word_end(s, first));
    if second < s.len() {
        Some(s.subrange(second, word_end(s, second)))
    } else {
        None
    }
}

/// The request target of an HTTP request: the second word of its first
/// line.
pub open spec fn request_target(request: Seq<char>) -> Option<Seq<char>> {
    if request.len() == 0 {
        None
    } else {
        second_word(first_line(request))
    }
}

proof fn lemma_line_break_bounds(s: Seq<char>, i: int)
    requires
        0 <= i <= s.len(),
    ensures
        i <= line_break(s, i) <= s.len(),
    decreases s.len() - i,
{
    if i < s.len() && s[i] != '\n' {
        lemma_line_break_bounds(s, i + 1);
    }
}

proof fn lemma_skip_bounds(s: Seq<char>, i: int)
    requires
        0 <= i <= s.len(),
    ensures
        i <= skip_whitespace(s, i) <= s.len(),
        i <= word_end(s, i) <= s.len(),
    decreases s.len() - i,
{
    if i < s.len() {
        lemma_skip_bounds(s, i + 1);
    }
}

fn find_line_break(s: &str, n: usize) -> (k: usize)
    requires
        n == s@.len(),
    ensures
        k == line_break(s@, 0),
{
    let mut i: usize = 0;
    while i < n
        invariant
            n == s@.len(),
            i <= n,
            line_break(s@, i as int) == line_break(s@, 0),
        decreases n - i,
    {
        if s.get_char(i) == '\n' {
            return i;
        }
        i = i + 1;
    }
    i
}

fn skip_spaces(s: &str, from: usize, to: usize) -> (k: usize)
    requires
        from <= to <= s@.len(),
    ensures
        k == skip_whitespace(s@.subrange(0, to as int), from as int),
{
    let ghost line = s@.subrange(0, to as int);
    let mut i: usize = from;
    while i < to
        invariant
            from <= i <= to <= s@.len(),
            line == s@.subrange(0, to as int),
            skip_whitespace(line, i as int) == skip_whitespace(line, from as int),
        decreases to - i,
    {
        if !is_whitespace(s.get_char(i)) {
            return i;
        }
        i = i + 1;
    }
    i
}

fn end_of_word(s: &str, from: usize, to: usize) -> (k: usize)
    requires
        from <= to <= s@.len(),
    ensures
        k == word_end(s@.subrange(0, to as int), from as int),
{
    let ghost line = s@.subrange(0, to as int);
    let mut i: usize = from;
    while i < to
        invariant
            from <= i <= to <= s@.len(),
            line == s@.subrange(0, to as int),
            word_end(line, i as int) == word_end(line, from as int),
        decreases to - i,
    {
        if is_whitespace(s.get_char(i)) {
            return i;
        }
        i = i + 1;
    }
    i
}

/// The request target of the first line of an HTTP request.
pub fn request_path(request: &str) -> (path: Option<&str>)
    ensures
        match path {
            Some(p) => request_target(request@) == Some(p@),
            None => request_target(request@) is None,
        },
{
    let n = request.unicode_len();
    if n == 0 {
        return None;
    }
    let k = find_line_break(request, n);
    proof {
        lemma_line_break_bounds(request@, 0);
    }
    let line_len = if k < n && k > 0 && request.get_char(k - 1) == '\r' { k - 1 } else { k };
    let ghost line = request@.subrange(0, line_len as int);
    assert(line == first_line(request@));
    let first = skip_spaces(request, 0, line_len);
    proof {
        lemma_skip_bounds(line, 0);
    }
    let first_end = end_of_word(request, first, line_len);
    proof {
        lemma_skip_bounds(line, first as int);
    }
    let second = skip_spaces(request, first_end, line_len);
    proof {
        lemma_skip_bounds(line, first_end as int);
    }
    if second < line_len {
        let second_end = end_of_word(request, second, line_len);
        proof {
            lemma_skip_bounds(line, second as int);
        }
        let p = request.substring_char(second, second_end);
        assert(p@ =~= line.subrange(second as int, second_end as int));
        Some(p)
    } else {
        None
    }
}

pub const METRICS_PATH: &'static str = "/metrics";

pub const HEALTH_PATH: &'static str = "/healthz";

pub const READY_PATH: &'static str = "/readyz";

/// Whether a request target is the metrics endpoint, with or without a query.
pub open spec fn metrics_target(path: Seq<char>) -> bool {
    path == METRICS_PATH@ || has_prefix(path, METRICS_PATH@ + seq!['?'])
}

/// Whether a request target is the metrics endpoint, with or without a query.
pub fn is_metrics_path(path: &str) -> (r: bool)
    ensures
        r == metrics_target(path@),
{
    proof {
        reveal_strlit("/metrics");
        reveal_strlit("/metrics?");
    }
    assert("/metrics?"@ =~= METRICS_PATH@ + seq!['?']);
    text_eq(path, METRICS_PATH) || starts_with_text(path, "/metrics?")
}

/// What the status endpoint answers.
#[derive(Clone, Copy, Debug, PartialEq, Eq, Structural)]
pub enum StatusRoute {
    Metrics,
    Health,
    Ready,
    NotReady(ReadinessState),
    NotFound,
}

/// The answer to a request target given the server's readiness.
pub open spec fn status_route(target: Option<Seq<char>>, readiness: ReadinessState) -> StatusRoute {
    match target {
        Some(p) => if metrics_target(p) {
            StatusRoute::Metrics
        } else if p == HEALTH_PATH@ {
            StatusRoute::Health
        } else if p == READY_PATH@ {
            if readiness == ReadinessState::Ready {
                StatusRoute::Ready
            } else {
                StatusRoute::NotReady(readiness)
            }
        } else {
            StatusRoute::NotFound
        },
        None => StatusRoute::NotFound,
    }
}

/// Route a status request.
pub fn route_status_request(request: &str, readiness: ReadinessState) -> (route: StatusRoute)
    ensures
        route == status_route(request_target(request@), readiness),
{
    match request_path(request) {
        Some(path) => if is_metrics_path(path) {
            StatusRoute::Metrics
        } else if text_eq(path, HEALTH_PATH) {
            StatusRoute::Health
        } else if text_eq(path, READY_PATH) {
            if readiness == ReadinessState::Ready {
                StatusRoute::Ready
            } else {
                StatusRoute::NotReady(readiness)
            }
        } else {
            StatusRoute::NotFound
        },
        None => StatusRoute::NotFound,
    }
}

/// An HTTP reply of the status endpoint.
pub struct StatusReply {
    pub status: &'static str,
    pub content_type: &'static str,
    pub body: String,
}

/// The body of a not-ready answer.
pub open spec fn not_ready_body(readiness: ReadinessState) -> Seq<char> {
    match readiness {
        ReadinessState::Starting => "starting\n"@,
        ReadinessState::StorageUnavailable => "storage_unavailable\n"@,
        _ => "draining\n"@,
    }
}

proof fn lemma_word_end_at(s: Seq<char>, i: int, j: int)
    requires
        0 <= i <= j <= s.len(),
        forall|k: int| i <= k < j ==> !is_unicode_whitespace(#[trigger] s[k]),
        j == s.len() || is_unicode_whitespace(s[j]),
    ensures
        word_end(s, i) == j,
    decreases j - i,
{
    if i < j {
        lemma_word_end_at(s, i + 1, j);
    }
}

proof fn lemma_line_break_from(s: Seq<char>, i: int, j: int)
    requires
        0 <= i <= j <= s.len(),
        forall|k: int| i <= k < j ==> #[trigger] s[k] != '\n',
    ensures
        line_break(s, i) == line_break(s, j),
    decreases j - i,
{
    if i < j {
        lemma_line_break_from(s, i + 1, j);
    }
}

/// The target of a request is the word after its method: for a request
/// line that is a method, one space, a path and then whitespace or the end
/// of the request, with no whitespace inside the method or the path, the
/// target is that path.
pub proof fn lemma_request_target_is_path(method: Seq<char>, path: Seq<char>, rest: Seq<char>)
    requires
        method.len() > 0,
        path.len() > 0,
        forall|k: int| 0 <= k < method.len() ==> !is_unicode_whitespace(#[trigger] method[k]),
        forall|k: int| 0 <= k < path.len() ==> !is_unicode_whitespace(#[trigger] path[k]),
        rest.len() == 0 || is_unicode_whitespace(rest[0]),
    ensures
        request_target(method + seq![' '] + path + rest) == Some(path),
{
    let r = method + seq![' '] + path + rest;
    let m = method.len() as int;
    let e = m + 1 + path.len();
    assert forall|k: int| 0 <= k < e implies #[trigger] r[k] != '\n' by {
        if k < m {
            assert(r[k] == method[k]);
            assert(!is_unicode_whitespace(method[k]));
        } else if k > m {
            assert(r[k] == path[k - m - 1]);
            assert(!is_unicode_whitespace(path[k - m - 1]));
        }
    }
    lemma_line_break_from(r, 0, e);
    let kb = line_break(r, 0);
    lemma_line_break_bounds(r, e);
    let line = first_line(r);
    assert(line.len() >= e) by {
        if kb < r.len() && kb > 0 && r[kb - 1] == '\r' {
            assert(kb > e) by {
                if kb == e {
                    assert(rest.len() > 0 && r[e] == rest[0]);
                    assert(r[e] == '\n');
                    assert(r[kb - 1] == path[path.len() - 1]);
                    assert(!is_unicode_whitespace(path[path.len() - 1]));
                }
            }
        }
    }
    assert forall|k: int| 0 <= k < line.len() implies #[trigger] line[k] == r[k] by {}
    assert(line.len() == e || is_unicode_whitespace(line[e])) by {
        if line.len() > e {
            assert(line[e] == r[e]);
            assert(r[e] == rest[0]);
        }
    }
    assert(!is_unicode_whitespace(line[0])) by {
        assert(line[0] == method[0]);
    }
    assert(skip_whitespace(line, 0) == 0);
    assert forall|k: int| 0 <= k < m implies !is_unicode_whitespace(#[trigger] line[k]) by {
        assert(line[k] == method[k]);
    }
    assert(line[m] == ' ');
    lemma_word_end_at(line, 0, m);
    assert(line[m + 1] == path[0]);
    assert(skip_whitespace(line, m) == m + 1) by {
        assert(is_unicode_whitespace(line[m]));
        assert(!is_unicode_whitespace(line[m + 1]));
        assert(skip_whitespace(line, m + 1) == m + 1);
        assert(m + 1 < line.len());
    }
    assert forall|k: int| m + 1 <= k < e implies !is_unicode_whitespace(#[trigger] line[k]) by {
        assert(line[k] == path[k - m - 1]);
    }
    lemma_word_end_at(line, m + 1, e);
    assert(line.subrange(m + 1, e) =~= path);
}

/// The readiness probe answers ready exactly when the server is ready:
/// a request for `/readyz` is routed to `Ready` when the readiness is
/// `Ready` and to `NotReady` carrying the readiness otherwise (starting,
/// storage unavailable or draining); `/healthz` is healthy and `/metrics`
/// is the exposition whatever the readiness.
pub proof fn lemma_probe_routes(request: Seq<char>, readiness: ReadinessState)
    ensures
        request_target(request) == Some("/readyz"@) ==> status_route(request_target(request), readiness) == (if readiness
            == ReadinessState::Ready {
            StatusRoute::Ready
        } else {
            StatusRoute::NotReady(readiness)
        }),
        request_target(request) == Some("/readyz"@) && readiness == ReadinessState::Draining ==> status_route(
            request_target(request),
            readiness,
        ) == StatusRoute::NotReady(ReadinessState::Draining),
        request_target(request) == Some("/healthz"@) ==> status_route(request_target(request), readiness)
            == StatusRoute::Health,
        request_target(request) == Some("/metrics"@) ==> status_route(request_target(request), readiness)
            == StatusRoute::Metrics,
{
    reveal_strlit("/readyz");
    reveal_strlit("/healthz");
    reveal_strlit("/metrics");
    assert(!metrics_target("/readyz"@)) by {
        assert("/readyz"@[1] != (METRICS_PATH@ + seq!['?'])[1]);
    }
    assert(!metrics_target("/healthz"@)) by {
        assert("/healthz"@[1] != (METRICS_PATH@ + seq!['?'])[1]);
    }
    assert("/readyz"@ != HEALTH_PATH@) by {
        assert("/readyz"@[1] != HEALTH_PATH@[1]);
    }
}

/// The reply for a route; `metrics_body` is the exposition text served on
/// the metrics route.
pub fn status_reply(route: StatusRoute, metrics_body: String) -> (reply: StatusReply)
    requires
        route != StatusRoute::NotReady(ReadinessState::Ready),
    ensures
        match route {
            StatusRoute::Metrics => reply.status@ == "200 OK"@ && reply.content_type@ == METRICS_CONTENT_TYPE@
                && reply.body@ == metrics_body@,
            StatusRoute::Health => reply.status@ == "200 OK"@ && reply.content_type@
                == "text/plain; charset=utf-8"@ && reply.body@ == "ok\n"@,
            StatusRoute::Ready => reply.status@ == "200 OK"@ && reply.content_type@
                == "text/plain; charset=utf-8"@ && reply.body@ == "ready\n"@,
            StatusRoute::NotReady(r) => reply.status@ == "503 Service Unavailable"@ && reply.content_type@
                == "text/plain; charset=utf-8"@ && reply.body@ == not_ready_body(r),
            StatusRoute::NotFound => reply.status@ == "404 Not Found"@ && reply.content_type@
                == "text/plain; charset=utf-8"@ && reply.body@ == "not found\n"@,
        },
{
    match route {
        StatusRoute::Metrics => StatusReply { status: "200 OK", content_type: METRICS_CONTENT_TYPE, body: metrics_body },
        StatusRoute::Health => StatusReply {
            status: "200 OK",
            content_type: "text/plain; charset=utf-8",
            body: String::from_str("ok\n"),
        },
        StatusRoute::Ready => StatusReply {
            status: "200 OK",
            content_type: "text/plain; charset=utf-8",
            body: String::from_str("ready\n"),
        },
        StatusRoute::NotReady(r) => {
            let body = match r {
                ReadinessState::Starting => String::from_str("starting\n"),
                ReadinessState::StorageUnavailable => String::from_str("storage_unavailable\n"),
                _ => String::from_str("draining\n"),
            };
            StatusReply { status: "503 Service Unavailable", content_type: "text/plain; charset=utf-8", body }
        },
        StatusRoute::NotFound => StatusReply {
            status: "404 Not Found",
            content_type: "text/plain; charset=utf-8",
            body: String::from_str("not found\n"),
        },
    }
}

/// The status line and headers of a reply whose body has `body_len` bytes.
pub open spec fn response_head_text(status: Seq<char>, content_type: Seq<char>, body_len: nat) -> Seq<char> {
    "HTTP/1.1 "@ + status + "\r\nContent-Type: "@ + content_type + "\r\nContent-Length: "@ + decimal(
        body_len,
    ) + "\r\nConnection: close\r\n\r\n"@
}

/// Render the status line and headers of a reply.
pub fn response_head(status: &str, content_type: &str, body_len: usize) -> (head: String)
    ensures
        head@ == response_head_text(status@, content_type@, body_len as nat),
{
    let mut out = String::from_str("HTTP/1.1 ");
    out.append(status);
    out.append("\r\nContent-Type: ");
    out.append(content_type);
    out.append("\r\nContent-Length: ");
    push_decimal(&mut out, body_len as u64);
    out.append("\r\nConnection: close\r\n\r\n");
    out
}

} // verus!
