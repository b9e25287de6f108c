use charles::config::{Route, Upstream};
use charles::forward::{
    dispatch_for_target, plan_request, rewrite_path, route_request, target_uri, Dispatch, Outcome,
    RouteDecision,
};
use charles::routing::RouteMatcher;
use charles::selector::{FirstAvailable, UpstreamSelector};
use charles::state::SharedState;

fn upstream(url: &str) -> Upstream {
    Upstream { url: url.to_string(), weight: 1, fail_threshold: 3, cooldown_secs: 15 }
}

fn api_route() -> Route {
    Route {
        name: "api".to_string(),
        hosts: vec!["a.com".to_string()],
        path_prefix: "/api".to_string(),
        strip_prefix: true,
        rewrite_prefix: Some("/v2".to_string()),
        upstreams: vec![upstream("http://u1")],
    }
}

#[test]
fn strip_and_rewrite_forward_target() {
    let m = RouteMatcher::new(vec![api_route()]);
    match route_request(&m, &FirstAvailable, "a.com", "/api/users", Some("x=1")) {
        RouteDecision::Forward { upstream, target } => {
            assert_eq!(upstream, "http://u1");
            assert_eq!(target, "http://u1/v2/users?x=1");
        }
        other => panic!("unexpected decision {:?}", other),
    }
    match plan_request(&m, &FirstAvailable, "a.com", "/api/users", Some("x=1")) {
        Dispatch::Send { upstream, target, uri } => {
            assert_eq!(upstream, "http://u1");
            assert_eq!(target, "http://u1/v2/users?x=1");
            assert_eq!(uri.to_string(), "http://u1/v2/users?x=1");
            assert_eq!(uri.path(), "/v2/users");
            assert_eq!(uri.query(), Some("x=1"));
        }
        other => panic!("unexpected dispatch {:?}", other),
    }
}

#[test]
fn rewrite_policies() {
    let mut r = api_route();
    assert_eq!(rewrite_path(&r, "/api/users"), "/v2/users");
    assert_eq!(rewrite_path(&r, "/other"), "/v2/other");
    r.rewrite_prefix = None;
    assert_eq!(rewrite_path(&r, "/api/users"), "/users");
    assert_eq!(rewrite_path(&r, "/api"), "");
    r.strip_prefix = false;
    r.rewrite_prefix = Some("/v2".to_string());
    assert_eq!(rewrite_path(&r, "/api/users"), "/api/users");
}

#[test]
fn target_without_query() {
    let r = api_route();
    assert_eq!(target_uri("http://u1", &r, "/api/x", None), "http://u1/v2/x");
    assert_eq!(target_uri("http://u1", &r, "/api/x", Some("")), "http://u1/v2/x?");
}

#[test]
fn unconfigured_host_is_404_with_none_upstream() {
    let m = RouteMatcher::new(vec![api_route()]);
    let mut state = SharedState::new();
    state.begin_request();
    let outcome = match plan_request(&m, &FirstAvailable, "other.com", "/api/users", None) {
        Dispatch::Respond(o) => o,
        other => panic!("unexpected dispatch {:?}", other),
    };
    assert!(matches!(outcome, Outcome::NoRoute));
    assert_eq!(outcome.status(), 404);
    assert_eq!(outcome.error_message(), Some("No route configured"));
    state.finish_request(&outcome, "GET".to_string(), "/api/users".to_string(), "other.com".to_string(), 3);
    let logs = state.get_request_logs();
    assert_eq!(logs.len(), 1);
    assert_eq!(logs[0].status, 404);
    assert_eq!(logs[0].upstream, "none");
    assert_eq!(logs[0].host, "other.com");
    assert_eq!(logs[0].method, "GET");
    assert_eq!(logs[0].duration_ms, 3);
    let metrics = state.get_metrics();
    assert_eq!(metrics.total_requests, 1);
    assert_eq!(metrics.total_errors, 1);
    assert_eq!(metrics.active_requests, 0);
}

#[test]
fn empty_upstream_list_is_503_with_none_upstream() {
    let mut r = api_route();
    r.upstreams.clear();
    let m = RouteMatcher::new(vec![r]);
    let mut state = SharedState::new();
    state.begin_request();
    let outcome = match plan_request(&m, &FirstAvailable, "a.com", "/api/users", None) {
        Dispatch::Respond(o) => o,
        other => panic!("unexpected dispatch {:?}", other),
    };
    assert!(matches!(outcome, Outcome::NoUpstream));
    assert_eq!(outcome.error_message(), Some("No upstream available"));
    state.finish_request(&outcome, "GET".to_string(), "/api/users".to_string(), "a.com".to_string(), 0);
    let logs = state.get_request_logs();
    assert_eq!(logs.len(), 1);
    assert_eq!(logs[0].status, 503);
    assert_eq!(logs[0].upstream, "none");
    assert_eq!(state.get_metrics().total_errors, 1);
}

#[test]
fn malformed_target_is_502() {
    let mut r = api_route();
    r.upstreams = vec![upstream("http://bad host")];
    let m = RouteMatcher::new(vec![r]);
    match plan_request(&m, &FirstAvailable, "a.com", "/api/users", None) {
        Dispatch::Respond(Outcome::InvalidTarget { upstream }) => {
            assert_eq!(upstream, "http://bad host");
        }
        other => panic!("unexpected dispatch {:?}", other),
    }
    let o = Outcome::InvalidTarget { upstream: "http://bad host".to_string() };
    assert_eq!(o.status(), 502);
    assert!(o.is_error());
    assert_eq!(o.upstream_label(), "http://bad host");
    assert_eq!(o.error_message(), Some("Invalid upstream URI"));
}

#[test]
fn dispatch_follows_the_parse() {
    let bad: Result<hyper::Uri, _> = "http://a b".parse::<hyper::Uri>();
    match dispatch_for_target("http://a b".to_string(), "http://a b/x".to_string(), bad) {
        Dispatch::Respond(Outcome::InvalidTarget { upstream }) => assert_eq!(upstream, "http://a b"),
        other => panic!("unexpected dispatch {:?}", other),
    }
    let good = "http://u1/x".parse::<hyper::Uri>();
    match dispatch_for_target("http://u1".to_string(), "http://u1/x".to_string(), good) {
        Dispatch::Send { upstream, target, uri } => {
            assert_eq!(upstream, "http://u1");
            assert_eq!(target, "http://u1/x");
            assert_eq!(uri.host(), Some("u1"));
        }
        other => panic!("unexpected dispatch {:?}", other),
    }
}

#[test]
fn outcome_statuses_and_labels() {
    let failed = Outcome::UpstreamFailed { upstream: "http://u1".to_string() };
    assert_eq!(failed.status(), 502);
    assert!(failed.is_error());
    assert_eq!(failed.error_message(), Some("Upstream error"));
    let relayed = Outcome::Relayed { upstream: "http://u1".to_string(), status: 201 };
    assert_eq!(relayed.status(), 201);
    assert!(!relayed.is_error());
    assert_eq!(relayed.error_message(), None);
    assert_eq!(relayed.upstream_label(), "http://u1");
    assert_eq!(Outcome::NoRoute.upstream_label(), "none");
    assert_eq!(Outcome::NoUpstream.status(), 503);
}

#[test]
fn first_available_picks_index_zero() {
    let ups = vec![upstream("http://u1"), upstream("http://u2")];
    assert_eq!(FirstAvailable.select(&ups), Some(0));
    assert_eq!(FirstAvailable.select(&[]), None);
    let m = RouteMatcher::new(vec![Route { upstreams: ups, strip_prefix: false, ..api_route() }]);
    match route_request(&m, &FirstAvailable, "a.com", "/api/users", None) {
        RouteDecision::Forward { upstream, target } => {
            assert_eq!(upstream, "http://u1");
            assert_eq!(target, "http://u1/api/users");
        }
        other => panic!("unexpected decision {:?}", other),
    }
}
