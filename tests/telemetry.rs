use charles::forward::Outcome;
use charles::ring::LogRing;
use charles::state::{ProxyMetrics, RequestLog, SharedState, UpstreamStatus, LOG_CAPACITY};

fn entry(i: usize) -> RequestLog {
    RequestLog {
        timestamp_ms: i as i64,
        method: "GET".to_string(),
        path: format!("/r/{}", i),
        host: "a.com".to_string(),
        status: 200,
        duration_ms: 1,
        upstream: "http://u1".to_string(),
    }
}

#[test]
fn ring_evicts_oldest_after_capacity() {
    let mut state = SharedState::new();
    for i in 0..1001 {
        state.add_request_log(entry(i));
    }
    let logs = state.get_request_logs();
    assert_eq!(LOG_CAPACITY, 1000);
    assert_eq!(logs.len(), 1000);
    assert_eq!(logs[0].path, "/r/1");
    assert_eq!(logs[999].path, "/r/1000");
    assert!(logs.iter().all(|l| l.path != "/r/0"));
}

#[test]
fn ring_keeps_everything_below_capacity() {
    let mut ring: LogRing<RequestLog> = LogRing::new(3);
    assert_eq!(ring.capacity(), 3);
    for i in 0..3 {
        ring.push(entry(i));
    }
    assert_eq!(ring.len(), 3);
    ring.push(entry(3));
    assert_eq!(ring.len(), 3);
    let kept: Vec<String> = ring.snapshot().into_iter().map(|l| l.path).collect();
    assert_eq!(kept, vec!["/r/1", "/r/2", "/r/3"]);
    let recent: Vec<String> = ring.recent(2).into_iter().map(|l| l.path).collect();
    assert_eq!(recent, vec!["/r/3", "/r/2"]);
    assert_eq!(ring.recent(10).len(), 3);
}

#[test]
fn repeated_failed_requests_count_each_time() {
    let mut state = SharedState::new();
    let failed = Outcome::UpstreamFailed { upstream: "http://127.0.0.1:1".to_string() };
    for round in 1..=3u64 {
        let before = state.get_metrics();
        state.begin_request();
        assert_eq!(state.get_metrics().active_requests, before.active_requests + 1);
        state.finish_request(&failed, "GET".to_string(), "/".to_string(), "a.com".to_string(), 5);
        let after = state.get_metrics();
        assert_eq!(after.total_requests, round);
        assert_eq!(after.total_errors, round);
        assert_eq!(after.active_requests, before.active_requests);
    }
    let logs = state.get_request_logs();
    assert_eq!(logs.len(), 3);
    assert!(logs.iter().all(|l| l.status == 502 && l.upstream == "http://127.0.0.1:1"));
}

#[test]
fn relayed_request_is_not_an_error() {
    let mut state = SharedState::new();
    state.begin_request();
    let ok = Outcome::Relayed { upstream: "http://u1".to_string(), status: 500 };
    state.finish_request(&ok, "POST".to_string(), "/x".to_string(), "a.com".to_string(), 2);
    let m = state.get_metrics();
    assert_eq!(m.total_requests, 1);
    assert_eq!(m.total_errors, 0);
    assert_eq!(state.get_request_logs()[0].status, 500);
}

#[test]
fn active_count_never_goes_below_zero() {
    let mut state = SharedState::default();
    state.decrement_active_requests();
    assert_eq!(state.get_metrics().active_requests, 0);
    state.increment_active_requests();
    assert_eq!(state.get_metrics().active_requests, 1);
    state.decrement_active_requests();
    state.decrement_active_requests();
    assert_eq!(state.get_metrics().active_requests, 0);
    let mut m = ProxyMetrics::new();
    m.record_request_end(&Outcome::NoRoute);
    assert_eq!(m.active_requests, 0);
    assert_eq!(m.total_errors, 1);
}

#[test]
fn counters_increment_independently() {
    let mut state = SharedState::new();
    state.increment_total_requests();
    state.increment_total_requests();
    state.increment_errors();
    let m = state.get_metrics();
    assert_eq!(m.total_requests, 2);
    assert_eq!(m.total_errors, 1);
    assert_eq!(m.active_requests, 0);
    assert!(m.upstreams_status.is_empty());
    let mut full = ProxyMetrics::new();
    full.total_requests = u64::MAX;
    full.record_request_start();
    assert_eq!(full.total_requests, u64::MAX);
}

#[test]
fn upstream_status_is_replaced() {
    let mut state = SharedState::new();
    state.update_upstream_status(vec![UpstreamStatus { url: "http://u1".to_string(), healthy: false, failures: 4 }]);
    let m = state.get_metrics();
    assert_eq!(m.upstreams_status.len(), 1);
    assert_eq!(m.upstreams_status[0].url, "http://u1");
    assert!(!m.upstreams_status[0].healthy);
    assert_eq!(m.upstreams_status[0].failures, 4);
}

#[test]
fn log_record_for_outcome() {
    let log = RequestLog::for_outcome(
        "DELETE".to_string(),
        "/p".to_string(),
        "h.com".to_string(),
        &Outcome::Relayed { upstream: "http://u9".to_string(), status: 204 },
        17,
    );
    assert_eq!(log.method, "DELETE");
    assert_eq!(log.status, 204);
    assert_eq!(log.upstream, "http://u9");
    assert_eq!(log.duration_ms, 17);
    assert!(log.timestamp_ms > 0);
}
