

use quackgis_server::pgwire_server::{ServerOptions, TimeoutSpan, TlsSetup, MAX_COPY_BATCHES_PER_CHUNK};

#[test]
fn defaults_are_loopback_and_bounded() {
    let o = ServerOptions::new();
    assert_eq!(o.host(), "127.0.0.1");
    assert_eq!(o.port(), 5432);
    assert_eq!(o.connection_limit(), Some(64));
    assert_eq!(o.max_active_queries(), 8);
    assert_eq!(o.max_reader_queries(), 8);
    assert_eq!(o.max_writer_queries(), 2);
    assert_eq!(o.max_maintenance_queries(), 1);
    assert_eq!(o.max_queued_queries(), 64);
    assert_eq!(o.max_blocking_workers(), 9);
    assert_eq!(o.queue_timeout(), TimeoutSpan::from_secs(30));
    assert_eq!(o.statement_timeout(), TimeoutSpan::from_secs(300));
    assert_eq!(o.result_batch_bytes(), 8 * 1024 * 1024);
    assert_eq!(o.copy_batch_rows(), 65_536);
    assert_eq!(o.copy_batch_bytes(), 8 * 1024 * 1024);
    assert_eq!(o.copy_max_row_bytes(), 1024 * 1024);
    assert_eq!(o.tls_setup(), Ok(TlsSetup::Plain));
    assert_eq!(MAX_COPY_BATCHES_PER_CHUNK, 128);
    assert_eq!(ServerOptions::default().port(), 5432);
}

#[test]
fn builders_change_one_setting_each() {
    let o = ServerOptions::new()
        .with_host("0.0.0.0".to_string())
        .with_port(6543)
        .with_max_connections(0)
        .with_max_active_queries(16)
        .with_max_reader_queries(12)
        .with_max_writer_queries(3)
        .with_max_maintenance_queries(2)
        .with_max_queued_queries(5)
        .with_max_blocking_workers(4)
        .with_queue_timeout(TimeoutSpan::from_millis(250))
        .with_statement_timeout(TimeoutSpan::from_secs(1))
        .with_result_batch_bytes(1024)
        .with_copy_batch_rows(10)
        .with_copy_batch_bytes(2048)
        .with_copy_max_row_bytes(512);
    assert_eq!(o.host(), "0.0.0.0");
    assert_eq!(o.port(), 6543);
    assert_eq!(o.connection_limit(), None);
    assert_eq!(o.max_active_queries(), 16);
    assert_eq!(o.max_reader_queries(), 12);
    assert_eq!(o.max_writer_queries(), 3);
    assert_eq!(o.max_maintenance_queries(), 2);
    assert_eq!(o.max_queued_queries(), 5);
    assert_eq!(o.max_blocking_workers(), 4);
    assert_eq!(o.queue_timeout(), TimeoutSpan::from_millis(250));
    assert_eq!(o.statement_timeout(), TimeoutSpan::from_secs(1));
    assert_eq!(o.result_batch_bytes(), 1024);
    assert_eq!(o.copy_batch_rows(), 10);
    assert_eq!(o.copy_batch_bytes(), 2048);
    assert_eq!(o.copy_max_row_bytes(), 512);
}

#[test]
fn tls_needs_both_files() {
    let both = ServerOptions::new()
        .with_tls_cert_path(Some("cert.pem".to_string()))
        .with_tls_key_path(Some("key.pem".to_string()));
    assert_eq!(both.tls_setup(), Ok(TlsSetup::Files("cert.pem".to_string(), "key.pem".to_string())));
    let cert_only = ServerOptions::new().with_tls_cert_path(Some("cert.pem".to_string()));
    assert_eq!(cert_only.tls_setup(), Err("TLS certificate and key must be configured together"));
    let cloned = both.clone();
    assert_eq!(cloned.tls_setup(), both.tls_setup());
}
