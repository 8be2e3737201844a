//! Options of the pgwire listener and the decisions taken from them before
//! connections are served.
use vstd::prelude::*;

verus! {

pub const MAX_COPY_BATCHES_PER_CHUNK: usize = crate::copy_text::MAX_BATCHES_PER_COPY_CHUNK;

/// Listener, admission and batching options of the server.
#[derive(Debug)]
pub struct ServerOptions {
    host: String,
    port: u16,
    tls_cert_path: Option<String>,
    tls_key_path: Option<String>,
    max_connections: usize,
    max_active_queries: usize,
    max_reader_queries: usize,
    max_writer_queries: usize,
    max_maintenance_queries: usize,
    max_queued_queries: usize,
    max_blocking_workers: usize,
    queue_timeout: TimeoutSpan,
    statement_timeout: TimeoutSpan,
    result_batch_bytes: usize,
    copy_batch_rows: usize,
    copy_batch_bytes: usize,
    copy_max_row_bytes: usize,
}

/// The options in mathematical terms.
pub struct OptionsView {
    pub host: Seq<char>,
    pub port: u16,
    pub tls_cert_path: Option<Seq<char>>,
    pub tls_key_path: Option<Seq<char>>,
    pub max_connections: usize,
    pub max_active_queries: usize,
    pub max_reader_queries: usize,
    pub max_writer_queries: usize,
    pub max_maintenance_queries: usize,
    pub max_queued_queries: usize,
    pub max_blocking_workers: usize,
    pub queue_timeout: TimeoutSpan,
    pub statement_timeout: TimeoutSpan,
    pub result_batch_bytes: usize,
    pub copy_batch_rows: usize,
    pub copy_batch_bytes: usize,
    pub copy_max_row_bytes: usize,
}

/// An optional text as a sequence.
pub open spec fn opt_text(s: Option<String>) -> Option<Seq<char>> {
    match s {
        Some(t) => Some(t@),
        None => None,
    }
}

impl View for ServerOptions {
    type V = OptionsView;

    closed spec fn view(&self) -> OptionsView {
        OptionsView {
            host: self.host@,
            port: self.port,
            tls_cert_path: opt_text(self.tls_cert_path),
            tls_key_path: opt_text(self.tls_key_path),
            max_connections: self.max_connections,
            max_active_queries: self.max_active_queries,
            max_reader_queries: self.max_reader_queries,
            max_writer_queries: self.max_writer_queries,
            max_maintenance_queries: self.max_maintenance_queries,
            max_queued_queries: self.max_queued_queries,
            max_blocking_workers: self.max_blocking_workers,
            queue_timeout: self.queue_timeout,
            statement_timeout: self.statement_timeout,
            result_batch_bytes: self.result_batch_bytes,
            copy_batch_rows: self.copy_batch_rows,
            copy_batch_bytes: self.copy_batch_bytes,
            copy_max_row_bytes: self.copy_max_row_bytes,
        }
    }
}

/// A span of time: whole seconds and the nanoseconds beyond them.
#[derive(Clone, Copy, Debug, PartialEq, Eq, Structural)]
pub struct TimeoutSpan {
    pub secs: u64,
    pub nanos: u32,
}

impl TimeoutSpan {
    /// The span's length in nanoseconds.
    pub open spec fn total_nanos(self) -> int {
        self.secs * 1_000_000_000 + self.nanos
    }

    /// A span of whole seconds.
    pub fn from_secs(secs: u64) -> (t: TimeoutSpan)
        ensures
            t == (TimeoutSpan { secs, nanos: 0 }),
    {
        TimeoutSpan { secs, nanos: 0 }
    }

    /// A span of whole milliseconds.
    pub fn from_millis(millis: u64) -> (t: TimeoutSpan)
        ensures
            t.nanos < 1_000_000_000,
            t.total_nanos() == millis * 1_000_000,
    {
        let nanos = ((millis % 1000) as u32) * 1_000_000;
        let t = TimeoutSpan { secs: millis / 1000, nanos };
        assert(t.total_nanos() == millis * 1_000_000) by (nonlinear_arith)
            requires
                t.secs == millis / 1000,
                t.nanos == (millis % 1000) * 1_000_000,
        ;
        t
    }
}

/// How the listener is to run: in plain text, or with TLS from a
/// certificate file and a key file.
#[derive(Debug, PartialEq, Eq)]
pub enum TlsSetup {
    Plain,
    Files(String, String),
}

impl ServerOptions {
    /// The defaults: loopback on 5432, no TLS, 64 connections, 8 active
    /// queries (8 readers, 2 writers, 1 maintenance), 64 queued, 9 blocking
    /// workers, a 30 s queue timeout and a 300 s statement timeout, 8 MiB
    /// result and COPY batches of up to 65536 rows, 1 MiB COPY rows.
    pub fn new() -> (o: ServerOptions)
        ensures
            o@.host == "127.0.0.1"@,
            o@.port == 5432,
            o@.tls_cert_path is None,
            o@.tls_key_path is None,
            o@.max_connections == 64,
            o@.max_active_queries == 8,
            o@.max_reader_queries == 8,
            o@.max_writer_queries == 2,
            o@.max_maintenance_queries == 1,
            o@.max_queued_queries == 64,
            o@.max_blocking_workers == 9,
            o@.queue_timeout == (TimeoutSpan { secs: 30, nanos: 0 }),
            o@.statement_timeout == (TimeoutSpan { secs: 300, nanos: 0 }),
            o@.result_batch_bytes == 8 * 1024 * 1024,
            o@.copy_batch_rows == 65_536,
            o@.copy_batch_bytes == 8 * 1024 * 1024,
            o@.copy_max_row_bytes == 1024 * 1024,
    {
        ServerOptions {
            host: String::from_str("127.0.0.1"),
            port: 5432,
            tls_cert_path: None,
            tls_key_path: None,
            max_connections: 64,
            max_active_queries: 8,
            max_reader_queries: 8,
            max_writer_queries: 2,
            max_maintenance_queries: 1,
            max_queued_queries: 64,
            max_blocking_workers: 9,
            queue_timeout: TimeoutSpan::from_secs(30),
            statement_timeout: TimeoutSpan::from_secs(300),
            result_batch_bytes: 8 * 1024 * 1024,
            copy_batch_rows: 65_536,
            copy_batch_bytes: 8 * 1024 * 1024,
            copy_max_row_bytes: 1024 * 1024,
        }
    }

    pub fn with_host(self, host: String) -> (o: ServerOptions)
        ensures
            o@ == (OptionsView { host: host@, ..self@ }),
    {
        ServerOptions { host, ..self }
    }

    pub fn with_port(self, port: u16) -> (o: ServerOptions)
        ensures
            o@ == (OptionsView { port, ..self@ }),
    {
        ServerOptions { port, ..self }
    }

    pub fn with_tls_cert_path(self, path: Option<String>) -> (o: ServerOptions)
        ensures
            o@ == (OptionsView { tls_cert_path: opt_text(path), ..self@ }),
    {
        ServerOptions { tls_cert_path: path, ..self }
    }

    pub fn with_tls_key_path(self, path: Option<String>) -> (o: ServerOptions)
        ensures
            o@ == (OptionsView { tls_key_path: opt_text(path), ..self@ }),
    {
        ServerOptions { tls_key_path: path, ..self }
    }

    pub fn with_max_connections(self, max_connections: usize) -> (o: ServerOptions)
        ensures
            o@ == (OptionsView { max_connections, ..self@ }),
    {
        ServerOptions { max_connections, ..self }
    }

    pub fn with_max_active_queries(self, max_active_queries: usize) -> (o: ServerOptions)
        ensures
            o@ == (OptionsView { max_active_queries, ..self@ }),
    {
        ServerOptions { max_active_queries, ..self }
    }

    pub fn with_max_reader_queries(self, max_reader_queries: usize) -> (o: ServerOptions)
        ensures
            o@ == (OptionsView { max_reader_queries, ..self@ }),
    {
        ServerOptions { max_reader_queries, ..self }
    }

    pub fn with_max_writer_queries(self, max_writer_queries: usize) -> (o: ServerOptions)
        ensures
            o@ == (OptionsView { max_writer_queries, ..self@ }),
    {
        ServerOptions { max_writer_queries, ..self }
    }

    pub fn with_max_maintenance_queries(self, max_maintenance_queries: usize) -> (o: ServerOptions)
        ensures
            o@ == (OptionsView { max_maintenance_queries, ..self@ }),
    {
        ServerOptions { max_maintenance_queries, ..self }
    }

    pub fn with_max_queued_queries(self, max_queued_queries: usize) -> (o: ServerOptions)
        ensures
            o@ == (OptionsView { max_queued_queries, ..self@ }),
    {
        ServerOptions { max_queued_queries, ..self }
    }

    pub fn with_max_blocking_workers(self, max_blocking_workers: usize) -> (o: ServerOptions)
        ensures
            o@ == (OptionsView { max_blocking_workers, ..self@ }),
    {
        ServerOptions { max_blocking_workers, ..self }
    }

    pub fn with_queue_timeout(self, queue_timeout: TimeoutSpan) -> (o: ServerOptions)
        ensures
            o@ == (OptionsView { queue_timeout, ..self@ }),
    {
        ServerOptions { queue_timeout, ..self }
    }

    pub fn with_statement_timeout(self, statement_timeout: TimeoutSpan) -> (o: ServerOptions)
        ensures
            o@ == (OptionsView { statement_timeout, ..self@ }),
    {
        ServerOptions { statement_timeout, ..self }
    }

    pub fn with_result_batch_bytes(self, result_batch_bytes: usize) -> (o: ServerOptions)
        ensures
            o@ == (OptionsView { result_batch_bytes, ..self@ }),
    {
        ServerOptions { result_batch_bytes, ..self }
    }

    pub fn with_copy_batch_rows(self, copy_batch_rows: usize) -> (o: ServerOptions)
        ensures
            o@ == (OptionsView { copy_batch_rows, ..self@ }),
    {
        ServerOptions { copy_batch_rows, ..self }
    }

    pub fn with_copy_batch_bytes(self, copy_batch_bytes: usize) -> (o: ServerOptions)
        ensures
            o@ == (OptionsView { copy_batch_bytes, ..self@ }),
    {
        ServerOptions { copy_batch_bytes, ..self }
    }

    pub fn with_copy_max_row_bytes(self, copy_max_row_bytes: usize) -> (o: ServerOptions)
        ensures
            o@ == (OptionsView { copy_max_row_bytes, ..self@ }),
    {
        ServerOptions { copy_max_row_bytes, ..self }
    }

    pub fn host(&self) -> (h: &str)
        ensures
            h@ == self@.host,
    {
        self.host.as_str()
    }

    pub fn port(&self) -> (p: u16)
        ensures
            p == self@.port,
    {
        self.port
    }

    pub fn max_active_queries(&self) -> (n: usize)
        ensures
            n == self@.max_active_queries,
    {
        self.max_active_queries
    }

    pub fn max_queued_queries(&self) -> (n: usize)
        ensures
            n == self@.max_queued_queries,
    {
        self.max_queued_queries
    }

    pub fn max_reader_queries(&self) -> (n: usize)
        ensures
            n == self@.max_reader_queries,
    {
        self.max_reader_queries
    }

    pub fn max_writer_queries(&self) -> (n: usize)
        ensures
            n == self@.max_writer_queries,
    {
        self.max_writer_queries
    }

    pub fn max_maintenance_queries(&self) -> (n: usize)
        ensures
            n == self@.max_maintenance_queries,
    {
        self.max_maintenance_queries
    }

    pub fn max_blocking_workers(&self) -> (n: usize)
        ensures
            n == self@.max_blocking_workers,
    {
        self.max_blocking_workers
    }

    pub fn queue_timeout(&self) -> (d: TimeoutSpan)
        ensures
            d == self@.queue_timeout,
    {
        self.queue_timeout
    }

    pub fn statement_timeout(&self) -> (d: TimeoutSpan)
        ensures
            d == self@.statement_timeout,
    {
        self.statement_timeout
    }

    pub fn result_batch_bytes(&self) -> (n: usize)
        ensures
            n == self@.result_batch_bytes,
    {
        self.result_batch_bytes
    }

    pub fn copy_batch_rows(&self) -> (n: usize)
        ensures
            n == self@.copy_batch_rows,
    {
        self.copy_batch_rows
    }

    pub fn copy_batch_bytes(&self) -> (n: usize)
        ensures
            n == self@.copy_batch_bytes,
    {
        self.copy_batch_bytes
    }

    pub fn copy_max_row_bytes(&self) -> (n: usize)
        ensures
            n == self@.copy_max_row_bytes,
    {
        self.copy_max_row_bytes
    }

    /// The limit on concurrent connections; zero means none.
    pub fn connection_limit(&self) -> (limit: Option<usize>)
        ensures
            limit == if self@.max_connections > 0 { Some(self@.max_connections) } else { None::<usize> },
    {
        if self.max_connections > 0 {
            Some(self.max_connections)
        } else {
            None
        }
    }

    /// How the listener is to run: TLS needs both a certificate and a key;
    /// one without the other is refused.
    pub fn tls_setup(&self) -> (r: Result<TlsSetup, &'static str>)
        ensures
            match (self@.tls_cert_path, self@.tls_key_path) {
                (Some(cert), Some(key)) => r matches Ok(TlsSetup::Files(c, k)) && c@ == cert && k@ == key,
                (None, None) => r matches Ok(TlsSetup::Plain),
                _ => r matches Err(message) && message@ == "TLS certificate and key must be configured together"@,
            },
    {
        match (&self.tls_cert_path, &self.tls_key_path) {
            (Some(cert), Some(key)) => Ok(TlsSetup::Files(cert.clone(), key.clone())),
            (None, None) => Ok(TlsSetup::Plain),
            _ => Err("TLS certificate and key must be configured together"),
        }
    }
}

fn clone_text(s: &Option<String>) -> (r: Option<String>)
    ensures
        opt_text(r) == opt_text(*s),
{
    match s {
        Some(t) => Some(t.clone()),
        None => None,
    }
}

impl Clone for ServerOptions {
    fn clone(&self) -> (o: Self)
        ensures
            o@ == self@,
    {
        ServerOptions {
            host: self.host.clone(),
            port: self.port,
            tls_cert_path: clone_text(&self.tls_cert_path),
            tls_key_path: clone_text(&self.tls_key_path),
            max_connections: self.max_connections,
            max_active_queries: self.max_active_queries,
            max_reader_queries: self.max_reader_queries,
            max_writer_queries: self.max_writer_queries,
            max_maintenance_queries: self.max_maintenance_queries,
            max_queued_queries: self.max_queued_queries,
            max_blocking_workers: self.max_blocking_workers,
            queue_timeout: self.queue_timeout,
            statement_timeout: self.statement_timeout,
            result_batch_bytes: self.result_batch_bytes,
            copy_batch_rows: self.copy_batch_rows,
            copy_batch_bytes: self.copy_batch_bytes,
            copy_max_row_bytes: self.copy_max_row_bytes,
        }
    }
}

impl Default for ServerOptions {
    fn default() -> (o: Self)
        ensures
            o@.host == "127.0.0.1"@,
            o@.port == 5432,
            o@.tls_cert_path is None,
            o@.tls_key_path is None,
            o@.max_connections == 64,
            o@.max_active_queries == 8,
            o@.max_reader_queries == 8,
            o@.max_writer_queries == 2,
            o@.max_maintenance_queries == 1,
            o@.max_queued_queries == 64,
            o@.max_blocking_workers == 9,
            o@.queue_timeout == (TimeoutSpan { secs: 30, nanos: 0 }),
            o@.statement_timeout == (TimeoutSpan { secs: 300, nanos: 0 }),
            o@.result_batch_bytes == 8 * 1024 * 1024,
            o@.copy_batch_rows == 65_536,
            o@.copy_batch_bytes == 8 * 1024 * 1024,
            o@.copy_max_row_bytes == 1024 * 1024,
    {
        ServerOptions::new()
    }
}

} // verus!
