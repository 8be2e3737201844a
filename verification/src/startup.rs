//! The settings the server refuses to start with.
use vstd::prelude::*;

use crate::copy_text::MAX_BATCHES_PER_COPY_CHUNK;

verus! {

/// The startup settings that are checked before anything is opened.
pub struct StartupSettings {
    pub has_tls_cert: bool,
    pub has_tls_key: bool,
    pub tls_required: bool,
    pub has_dev_extension: bool,
    pub has_dev_extension_sha256: bool,
    pub has_catalog_url: bool,
    pub catalog_path: String,
    pub data_path: String,
    pub limits: ResourceLimits,
}

/// The resource limits of a server.
#[derive(Clone, Copy, Debug)]
pub struct ResourceLimits {
    pub max_connections: usize,
    pub max_active_queries: usize,
    pub max_reader_queries: usize,
    pub max_writer_queries: usize,
    pub max_maintenance_queries: usize,
    pub max_queued_queries: usize,
    pub max_blocking_workers: usize,
    pub duckdb_threads: Option<usize>,
    pub duckdb_memory_limit_bytes: Option<u64>,
    pub duckdb_max_temp_directory_bytes: Option<u64>,
    pub copy_batch_rows: usize,
    pub copy_batch_bytes: usize,
    pub copy_max_row_bytes: usize,
    pub result_batch_bytes: usize,
    pub pgwire_max_frame_bytes: usize,
    pub shutdown_timeout_ms: u64,
}

/// `usize` arithmetic that stops at `usize::MAX`.
pub open spec fn clamped(n: int) -> int {
    if n > usize::MAX { usize::MAX as int } else { n }
}

/// Limits the server can run with: every limit positive, no class limit
/// above the global one, one blocking worker left for control tasks beyond
/// the active queries, a wire frame that holds a COPY batch with its
/// four-byte length, and COPY batches small enough that one wire chunk
/// makes at most the allowed number of them.
pub open spec fn limits_valid(l: ResourceLimits) -> bool {
    &&& l.max_connections > 0
    &&& l.max_active_queries > 0
    &&& l.max_reader_queries > 0
    &&& l.max_writer_queries > 0
    &&& l.max_maintenance_queries > 0
    &&& l.max_reader_queries <= l.max_active_queries
    &&& l.max_writer_queries <= l.max_active_queries
    &&& l.max_maintenance_queries <= l.max_active_queries
    &&& l.max_queued_queries > 0
    &&& l.max_blocking_workers >= 2
    &&& l.max_active_queries < l.max_blocking_workers
    &&& l.duckdb_threads != Some(0usize)
    &&& l.duckdb_memory_limit_bytes != Some(0u64)
    &&& l.duckdb_max_temp_directory_bytes != Some(0u64)
    &&& l.copy_batch_rows > 0
    &&& l.copy_batch_bytes > 0
    &&& l.copy_max_row_bytes > 0
    &&& l.result_batch_bytes > 0
    &&& l.pgwire_max_frame_bytes >= 4
    &&& l.pgwire_max_frame_bytes >= clamped(l.copy_batch_bytes + 4)
    &&& l.shutdown_timeout_ms > 0
    &&& clamped(l.copy_batch_rows * MAX_BATCHES_PER_COPY_CHUNK) >= l.copy_batch_bytes
}

/// Whether resource limits are ones the server can run with.
pub fn resource_limits_valid(l: &ResourceLimits) -> (r: bool)
    ensures
        r == limits_valid(*l),
{
    let frame_needed = l.copy_batch_bytes.saturating_add(4);
    let chunk_rows = match l.copy_batch_rows.checked_mul(MAX_BATCHES_PER_COPY_CHUNK) {
        Some(v) => v,
        None => usize::MAX,
    };
    !(l.max_connections == 0 || l.max_active_queries == 0 || l.max_reader_queries == 0
        || l.max_writer_queries == 0 || l.max_maintenance_queries == 0
        || l.max_reader_queries > l.max_active_queries || l.max_writer_queries > l.max_active_queries
        || l.max_maintenance_queries > l.max_active_queries || l.max_queued_queries == 0
        || l.max_blocking_workers < 2 || l.max_active_queries >= l.max_blocking_workers
        || l.duckdb_threads == Some(0usize) || l.duckdb_memory_limit_bytes == Some(0u64)
        || l.duckdb_max_temp_directory_bytes == Some(0u64) || l.copy_batch_rows == 0
        || l.copy_batch_bytes == 0 || l.copy_max_row_bytes == 0 || l.result_batch_bytes == 0
        || l.pgwire_max_frame_bytes < 4 || l.pgwire_max_frame_bytes < frame_needed
        || l.shutdown_timeout_ms == 0 || chunk_rows < l.copy_batch_bytes)
}

/// Whether a path names a remote location (`scheme://...`).
pub open spec fn is_remote(path: Seq<char>) -> bool {
    exists|i: int| 0 <= i && i + 3 <= path.len() && #[trigger] path.subrange(i, i + 3) == seq![':', '/', '/']
}

/// Whether a path names a remote location (`scheme://...`).
pub fn remote_path(path: &str) -> (r: bool)
    ensures
        r == is_remote(path@),
{
    let n = path.unicode_len();
    let mut i: usize = 0;
    while n >= 3 && i <= n - 3
        invariant
            n == path@.len(),
            i <= n,
            forall|k: int| 0 <= k < i ==> #[trigger] path@.subrange(k, k + 3) != seq![':', '/', '/'],
        decreases n - i,
    {
        if path.get_char(i) == ':' && path.get_char(i + 1) == '/' && path.get_char(i + 2) == '/' {
            assert(path@.subrange(i as int, i + 3) =~= seq![':', '/', '/']);
            return true;
        }
        assert(path@.subrange(i as int, i + 3)[0] == path@[i as int]);
        assert(path@.subrange(i as int, i + 3)[1] == path@[i + 1]);
        assert(path@.subrange(i as int, i + 3)[2] == path@[i + 2]);
        i = i + 1;
    }
    assert forall|k: int| 0 <= k && k + 3 <= path@.len() implies #[trigger] path@.subrange(k, k + 3) != seq![
        ':',
        '/',
        '/',
    ] by {
        assert(k < i);
    }
    false
}

pub const TLS_PAIR_MESSAGE: &'static str = "--tls-cert and --tls-key must be specified together";

pub const DEV_EXTENSION_PAIR_MESSAGE: &'static str =
    "--dev-ducklake-extension and --dev-ducklake-extension-sha256 must be specified together";

pub const TLS_REQUIRED_MESSAGE: &'static str = "--tls-mode=required requires --tls-cert and --tls-key";

pub const REMOTE_PROFILE_MESSAGE: &'static str =
    "remote DuckLake profiles are not enabled yet; use local catalog/data paths";

pub const RESOURCE_LIMITS_MESSAGE: &'static str =
    "resource limits must be positive, operation-class limits must not exceed the global active-query limit, active queries must leave one reserved blocking control worker, the pgwire frame limit must accommodate COPY batch bytes plus its four-byte declared length, and COPY batch rows must bound one wire chunk to at most 128 batches";

/// The first reason, in the order they are checked, why the server refuses
/// to start with these settings.
pub open spec fn startup_refusal(s: StartupSettings) -> Option<Seq<char>> {
    if s.has_tls_cert != s.has_tls_key {
        Some(TLS_PAIR_MESSAGE@)
    } else if s.has_dev_extension != s.has_dev_extension_sha256 {
        Some(DEV_EXTENSION_PAIR_MESSAGE@)
    } else if s.tls_required && !s.has_tls_cert {
        Some(TLS_REQUIRED_MESSAGE@)
    } else if s.has_catalog_url || is_remote(s.catalog_path@) || is_remote(s.data_path@) {
        Some(REMOTE_PROFILE_MESSAGE@)
    } else if !limits_valid(s.limits) {
        Some(RESOURCE_LIMITS_MESSAGE@)
    } else {
        None
    }
}

/// Check the startup settings: `Ok` exactly when the server may start, else
/// the first refusal's message.
pub fn check_startup(s: &StartupSettings) -> (r: Result<(), &'static str>)
    ensures
        match startup_refusal(*s) {
            None => r is Ok,
            Some(message) => r matches Err(m) && m@ == message,
        },
{
    if s.has_tls_cert != s.has_tls_key {
        return Err(TLS_PAIR_MESSAGE);
    }
    if s.has_dev_extension != s.has_dev_extension_sha256 {
        return Err(DEV_EXTENSION_PAIR_MESSAGE);
    }
    if s.tls_required && !s.has_tls_cert {
        return Err(TLS_REQUIRED_MESSAGE);
    }
    if s.has_catalog_url || remote_path(s.catalog_path.as_str()) || remote_path(s.data_path.as_str()) {
        return Err(REMOTE_PROFILE_MESSAGE);
    }
    if !resource_limits_valid(&s.limits) {
        return Err(RESOURCE_LIMITS_MESSAGE);
    }
    Ok(())
}

} // verus!
