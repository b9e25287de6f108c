use charles::control::{control_endpoint, control_response, metrics_body, ControlEndpoint};
use charles::state::ProxyMetrics;
use charles::text::decimal_string;

#[test]
fn health_probe() {
    let r = control_response("GET", "/health", &ProxyMetrics::new());
    assert_eq!(r.status, 200);
    assert!(r.json);
    assert_eq!(r.body, r#"{"status":"ok"}"#);
}

#[test]
fn metrics_snapshot_body() {
    let mut m = ProxyMetrics::new();
    m.total_requests = 12;
    m.active_requests = 0;
    m.total_errors = 3;
    assert_eq!(
        metrics_body(&m),
        r#"{"total_requests":12,"active_requests":0,"total_errors":3,"upstreams":[]}"#
    );
    let r = control_response("GET", "/metrics", &m);
    assert_eq!(r.status, 200);
    assert!(r.json);
    assert_eq!(r.body, metrics_body(&m));
}

#[test]
fn other_control_requests_are_not_found() {
    let m = ProxyMetrics::new();
    for (method, path) in [("POST", "/health"), ("GET", "/"), ("GET", "/metrics/x"), ("get", "/health")] {
        let r = control_response(method, path, &m);
        assert_eq!(r.status, 404);
        assert!(!r.json);
        assert_eq!(r.body, "Not Found");
    }
    assert_eq!(control_endpoint("GET", "/metrics"), ControlEndpoint::Metrics);
    assert_eq!(control_endpoint("GET", "/health"), ControlEndpoint::Health);
}

#[test]
fn decimal_rendering() {
    assert_eq!(decimal_string(0), "0");
    assert_eq!(decimal_string(7), "7");
    assert_eq!(decimal_string(10), "10");
    assert_eq!(decimal_string(407), "407");
    assert_eq!(decimal_string(u64::MAX), "18446744073709551615");
}
