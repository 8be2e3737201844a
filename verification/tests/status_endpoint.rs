use quackgis_server::execution_control::ExecutionCounters;
use quackgis_server::lifecycle::{ReadinessState, RuntimeLifecycle};
use quackgis_server::metrics::{
    is_metrics_path, render_prometheus, request_path, response_head, route_status_request, status_reply,
    MetricsCounters, StatusRoute, METRICS_CONTENT_TYPE,
};

#[test]
fn request_path_accepts_metrics_endpoint_only() {
    assert_eq!(request_path("GET /metrics HTTP/1.1\r\n\r\n"), Some("/metrics"));
    assert!(is_metrics_path("/metrics?format=prometheus"));
    assert!(!is_metrics_path("/metrics/private"));
    assert_eq!(request_path("GET /healthz HTTP/1.1\r\n\r\n"), Some("/healthz"));
    assert_eq!(request_path("GET /readyz HTTP/1.1\r\n\r\n"), Some("/readyz"));
}

#[test]
fn prometheus_render_includes_process_counters() {
    let execution = ExecutionCounters::new();
    let metrics = MetricsCounters::new();
    let body = render_prometheus(&execution, &metrics, &RuntimeLifecycle::default(), 0, 0);
    assert!(body.contains("quackgis_write_denied_total"));
    assert!(body.contains("quackgis_read_denied_total"));
    assert!(body.contains("quackgis_copy_batches_total"));
    assert!(body.contains("quackgis_copy_commit_microseconds_total"));
    assert!(body.contains("quackgis_connections_quarantined_total"));
    assert!(body.contains("quackgis_transactions_active"));
    assert!(body.contains("quackgis_duckdb_memory_bytes"));
    assert!(body.contains("quackgis_duckdb_temporary_storage_bytes"));
    assert!(!body.contains("QUACKGIS_S3_SECRET_ACCESS_KEY"));
    assert!(!body.contains("file:///"));
}

#[test]
fn prometheus_render_reports_denials_and_gauges() {
    let mut execution = ExecutionCounters::new();
    execution.admission_queued(quackgis_server::execution_control::OperationClass::Reader);
    let mut lifecycle = RuntimeLifecycle::default();
    assert!(lifecycle.try_start_transaction());
    let body = render_prometheus(&execution, &MetricsCounters::new(), &lifecycle, 3, 5);
    assert!(body.contains("quackgis_write_denied_total 3\n"));
    assert!(body.contains("quackgis_read_denied_total 5\n"));
    assert!(body.contains("quackgis_transactions_active 1\n"));
    assert!(body.contains("quackgis_operations_queued 1\n"));
}

#[test]
fn request_path_edge_cases() {
    assert_eq!(request_path(""), None);
    assert_eq!(request_path("GET\r\n"), None);
    assert_eq!(request_path("  GET   /x?y=1   HTTP/1.1"), Some("/x?y=1"));
    assert_eq!(request_path("GET /a\nHost: b\n"), Some("/a"));
    assert!(is_metrics_path("/metrics"));
    assert!(!is_metrics_path("/metricsx"));
}

#[test]
fn status_routes_follow_readiness() {
    let get = |path: &str| format!("GET {path} HTTP/1.1\r\nHost: localhost\r\n\r\n");
    assert_eq!(route_status_request(&get("/healthz"), ReadinessState::Starting), StatusRoute::Health);
    assert_eq!(
        route_status_request(&get("/readyz"), ReadinessState::Starting),
        StatusRoute::NotReady(ReadinessState::Starting)
    );
    assert_eq!(route_status_request(&get("/readyz"), ReadinessState::Ready), StatusRoute::Ready);
    assert_eq!(
        route_status_request(&get("/readyz"), ReadinessState::StorageUnavailable),
        StatusRoute::NotReady(ReadinessState::StorageUnavailable)
    );
    assert_eq!(route_status_request(&get("/metrics?x"), ReadinessState::Draining), StatusRoute::Metrics);
    assert_eq!(route_status_request(&get("/other"), ReadinessState::Ready), StatusRoute::NotFound);
    assert_eq!(route_status_request("garbage", ReadinessState::Ready), StatusRoute::NotFound);
}

#[test]
fn status_replies_carry_status_and_body() {
    let health = status_reply(StatusRoute::Health, String::new());
    assert_eq!(health.status, "200 OK");
    assert_eq!(health.body, "ok\n");
    let starting = status_reply(StatusRoute::NotReady(ReadinessState::Starting), String::new());
    assert_eq!(starting.status, "503 Service Unavailable");
    assert_eq!(starting.body, "starting\n");
    let ready = status_reply(StatusRoute::Ready, String::new());
    assert_eq!(ready.body, "ready\n");
    let failed = status_reply(StatusRoute::NotReady(ReadinessState::StorageUnavailable), String::new());
    assert_eq!(failed.body, "storage_unavailable\n");
    let draining = status_reply(StatusRoute::NotReady(ReadinessState::Draining), String::new());
    assert_eq!(draining.body, "draining\n");
    let metrics = status_reply(StatusRoute::Metrics, "x 1\n".to_string());
    assert_eq!(metrics.content_type, METRICS_CONTENT_TYPE);
    assert_eq!(metrics.body, "x 1\n");
    let missing = status_reply(StatusRoute::NotFound, String::new());
    assert_eq!(missing.status, "404 Not Found");
    assert_eq!(
        response_head("200 OK", "text/plain; charset=utf-8", 3),
        "HTTP/1.1 200 OK\r\nContent-Type: text/plain; charset=utf-8\r\nContent-Length: 3\r\nConnection: close\r\n\r\n"
    );
}
