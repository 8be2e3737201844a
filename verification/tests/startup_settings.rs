use quackgis_server::startup::{check_startup, remote_path, resource_limits_valid, ResourceLimits, StartupSettings};

fn limits() -> ResourceLimits {
    ResourceLimits {
        max_connections: 64,
        max_active_queries: 8,
        max_reader_queries: 8,
        max_writer_queries: 2,
        max_maintenance_queries: 1,
        max_queued_queries: 64,
        max_blocking_workers: 9,
        duckdb_threads: None,
        duckdb_memory_limit_bytes: None,
        duckdb_max_temp_directory_bytes: None,
        copy_batch_rows: 65_536,
        copy_batch_bytes: 8 * 1024 * 1024,
        copy_max_row_bytes: 1024 * 1024,
        result_batch_bytes: 8 * 1024 * 1024,
        pgwire_max_frame_bytes: 64 * 1024 * 1024,
        shutdown_timeout_ms: 30_000,
    }
}

fn settings() -> StartupSettings {
    StartupSettings {
        has_tls_cert: false,
        has_tls_key: false,
        tls_required: false,
        has_dev_extension: false,
        has_dev_extension_sha256: false,
        has_catalog_url: false,
        catalog_path: "catalog.ducklake".to_string(),
        data_path: "/var/lib/quackgis/data".to_string(),
        limits: limits(),
    }
}

#[test]
fn defaults_start() {
    assert!(resource_limits_valid(&limits()));
    assert_eq!(check_startup(&settings()), Ok(()));
}

#[test]
fn limits_must_leave_a_control_worker_and_fit_frames() {
    let mut l = limits();
    l.max_blocking_workers = 8;
    assert!(!resource_limits_valid(&l));
    let mut l = limits();
    l.max_writer_queries = 9;
    assert!(!resource_limits_valid(&l));
    let mut l = limits();
    l.pgwire_max_frame_bytes = l.copy_batch_bytes + 3;
    assert!(!resource_limits_valid(&l));
    l.pgwire_max_frame_bytes = l.copy_batch_bytes + 4;
    assert!(resource_limits_valid(&l));
    let mut l = limits();
    l.copy_batch_rows = 1;
    l.copy_batch_bytes = 129;
    l.pgwire_max_frame_bytes = 1024;
    assert!(!resource_limits_valid(&l));
    l.copy_batch_bytes = 128;
    assert!(resource_limits_valid(&l));
    let mut l = limits();
    l.duckdb_threads = Some(0);
    assert!(!resource_limits_valid(&l));
    let mut l = limits();
    l.copy_batch_bytes = usize::MAX;
    l.pgwire_max_frame_bytes = usize::MAX;
    l.copy_batch_rows = usize::MAX;
    assert!(resource_limits_valid(&l));
}

#[test]
fn startup_refusals_come_in_order() {
    let mut s = settings();
    s.has_tls_cert = true;
    s.limits.max_connections = 0;
    assert_eq!(check_startup(&s), Err("--tls-cert and --tls-key must be specified together"));
    let mut s = settings();
    s.has_dev_extension = true;
    assert_eq!(
        check_startup(&s),
        Err("--dev-ducklake-extension and --dev-ducklake-extension-sha256 must be specified together")
    );
    let mut s = settings();
    s.tls_required = true;
    assert_eq!(check_startup(&s), Err("--tls-mode=required requires --tls-cert and --tls-key"));
    let mut s = settings();
    s.data_path = "s3://bucket/data".to_string();
    assert_eq!(
        check_startup(&s),
        Err("remote DuckLake profiles are not enabled yet; use local catalog/data paths")
    );
    let mut s = settings();
    s.limits.shutdown_timeout_ms = 0;
    assert!(check_startup(&s).unwrap_err().starts_with("resource limits must be positive"));
    assert!(remote_path("http://x"));
    assert!(!remote_path("c:/data"));
    assert!(!remote_path(":/"));
}
