//! The read-only control surface: a liveness probe and a metrics snapshot.

use vstd::prelude::*;
use crate::state::ProxyMetrics;
use crate::text::{decimal, decimal_string, same_text};

verus! {

/// What a control request asks for.
#[derive(Debug, Clone, Copy, PartialEq, Eq, Structural)]
pub enum ControlEndpoint {
    Health,
    Metrics,
    NotFound,
}

/// A control reply: status, whether the body is JSON, and the body.
#[derive(Debug, Clone)]
pub struct ControlReply {
    pub status: u16,
    pub json: bool,
    pub body: String,
}

/// `GET /health` and `GET /metrics` are served; anything else is not found.
pub open spec fn endpoint_of(method: Seq<char>, path: Seq<char>) -> ControlEndpoint {
    if method == "GET"@ && path == "/health"@ {
        ControlEndpoint::Health
    } else if method == "GET"@ && path == "/metrics"@ {
        ControlEndpoint::Metrics
    } else {
        ControlEndpoint::NotFound
    }
}

/// The metrics document; the `upstreams` array is reserved and always empty.
pub open spec fn metrics_json(m: ProxyMetrics) -> Seq<char> {
    "{\"total_requests\":"@ + decimal(m.total_requests as nat) + ",\"active_requests\":"@ + decimal(
        m.active_requests as nat,
    ) + ",\"total_errors\":"@ + decimal(m.total_errors as nat) + ",\"upstreams\":[]}"@
}

/// The endpoint a control request is for.
pub fn control_endpoint(method: &str, path: &str) -> (r: ControlEndpoint)
    ensures
        r == endpoint_of(method@, path@),
{
    if same_text(method, "GET") && same_text(path, "/health") {
        ControlEndpoint::Health
    } else if same_text(method, "GET") && same_text(path, "/metrics") {
        ControlEndpoint::Metrics
    } else {
        ControlEndpoint::NotFound
    }
}

/// The metrics document for a snapshot of the counters.
pub fn metrics_body(m: &ProxyMetrics) -> (r: String)
    ensures
        r@ == metrics_json(*m),
{
    let r = String::from_str("{\"total_requests\":")
        .concat(decimal_string(m.total_requests).as_str())
        .concat(",\"active_requests\":")
        .concat(decimal_string(m.active_requests).as_str())
        .concat(",\"total_errors\":")
        .concat(decimal_string(m.total_errors).as_str())
        .concat(",\"upstreams\":[]}");
    assert(r@ =~= metrics_json(*m));
    r
}

/// The reply to a control request: 200 with a JSON body for the two
/// endpoints, 404 with a plain `Not Found` otherwise.
pub fn control_response(method: &str, path: &str, metrics: &ProxyMetrics) -> (r: ControlReply)
    ensures
        match endpoint_of(method@, path@) {
            ControlEndpoint::Health => r.status == 200 && r.json && r.body@ == "{\"status\":\"ok\"}"@,
            ControlEndpoint::Metrics => r.status == 200 && r.json && r.body@ == metrics_json(*metrics),
            ControlEndpoint::NotFound => r.status == 404 && !r.json && r.body@ == "Not Found"@,
        },
{
    match control_endpoint(method, path) {
        ControlEndpoint::Health => ControlReply { status: 200, json: true, body: String::from_str("{\"status\":\"ok\"}") },
        ControlEndpoint::Metrics => ControlReply { status: 200, json: true, body: metrics_body(metrics) },
        ControlEndpoint::NotFound => ControlReply { status: 404, json: false, body: String::from_str("Not Found") },
    }
}

} // verus!
