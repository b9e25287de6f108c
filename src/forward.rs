//! Forwarding decisions: which upstream a request goes to, under which
//! target URI, and how each way a request can end is reported.

use vstd::prelude::*;
use crate::config::Route;
use crate::routing::{first_match, RouteMatcher};
use crate::selector::UpstreamSelector;
use crate::text::{has_prefix, starts_with};

verus! {

/// `http::Uri` (re-exported by hyper), carried opaque to the sender.
#[verifier::external_type_specification]
#[verifier::external_body]
pub struct ExUri(hyper::Uri);

/// The error `http::Uri`'s parser returns, carried opaque.
#[verifier::external_type_specification]
#[verifier::external_body]
pub struct ExInvalidUri(hyper::http::uri::InvalidUri);

/// Whether the URI grammar of the `http` crate accepts the text.
pub uninterp spec fn uri_accepts(s: Seq<char>) -> bool;

/// Relies on `http::Uri`'s `FromStr` impl (reached as `str::parse`): it
/// accepts or refuses the text by its characters alone.
#[verifier::external_body]
fn parse_uri(s: &str) -> (r: Result<hyper::Uri, hyper::http::uri::InvalidUri>)
    ensures
        r is Ok <==> uri_accepts(s@),
{
    s.parse::<hyper::Uri>()
}

/// The request path after the route's policy: with strip-prefix set, the
/// path prefix is removed (the path is kept whole if it does not begin
/// with it) and the rewrite prefix, if any, is put in front.
pub open spec fn rewritten_path(route: Route, path: Seq<char>) -> Seq<char> {
    if route.strip_prefix {
        let rest = if has_prefix(path, route.path_prefix@) {
            path.subrange(route.path_prefix@.len() as int, path.len() as int)
        } else {
            path
        };
        match route.rewrite_prefix {
            Some(rewrite) => rewrite@ + rest,
            None => rest,
        }
    } else {
        path
    }
}

/// The query string as it is appended to a target: `?` and the query, or
/// nothing.
pub open spec fn query_part(query: Option<&str>) -> Seq<char> {
    match query {
        Some(q) => seq!['?'] + q@,
        None => Seq::empty(),
    }
}

/// The target URI: the upstream's base URL, the rewritten path, and the
/// original query verbatim.
pub open spec fn target_of(base: Seq<char>, route: Route, path: Seq<char>, query: Option<&str>) -> Seq<char> {
    base + rewritten_path(route, path) + query_part(query)
}

/// Applies the route's strip and rewrite policy to a request path.
pub fn rewrite_path(route: &Route, path: &str) -> (r: String)
    ensures
        r@ == rewritten_path(*route, path@),
{
    if route.strip_prefix {
        let rest: &str = if starts_with(path, route.path_prefix.as_str()) {
            let from = route.path_prefix.as_str().unicode_len();
            path.substring_char(from, path.unicode_len())
        } else {
            path
        };
        match &route.rewrite_prefix {
            Some(rewrite) => String::from_str(rewrite.as_str()).concat(rest),
            None => String::from_str(rest),
        }
    } else {
        String::from_str(path)
    }
}

/// The URI a request is forwarded to.
pub fn target_uri(base: &str, route: &Route, path: &str, query: Option<&str>) -> (r: String)
    ensures
        r@ == target_of(base@, *route, path@, query),
{
    let rewritten = rewrite_path(route, path);
    let with_path = String::from_str(base).concat(rewritten.as_str());
    proof {
        reveal_strlit("?");
    }
    match query {
        Some(q) => {
            let r = with_path.concat("?").concat(q);
            assert(r@ =~= target_of(base@, *route, path@, query));
            r
        },
        None => {
            assert(with_path@ =~= target_of(base@, *route, path@, query));
            with_path
        },
    }
}

/// How a request ended, as the telemetry store records it.
#[derive(Debug, Clone)]
pub enum Outcome {
    /// No route accepts the request (404).
    NoRoute,
    /// A route accepts it but its selector picks no upstream (503).
    NoUpstream,
    /// The computed target is not a valid URI (502).
    InvalidTarget { upstream: String },
    /// The upstream could not be reached or failed in transport (502).
    UpstreamFailed { upstream: String },
    /// The upstream answered; its status is relayed unchanged.
    Relayed { upstream: String, status: u16 },
}

impl Outcome {
    pub open spec fn spec_status(&self) -> u16 {
        match self {
            Outcome::NoRoute => 404,
            Outcome::NoUpstream => 503,
            Outcome::InvalidTarget { .. } => 502,
            Outcome::UpstreamFailed { .. } => 502,
            Outcome::Relayed { status, .. } => *status,
        }
    }

    /// Every outcome but a relayed answer counts as an error.
    pub open spec fn spec_is_error(&self) -> bool {
        !(self is Relayed)
    }

    /// The upstream named in the request log: `none` when no upstream was
    /// picked.
    pub open spec fn spec_upstream_label(&self) -> Seq<char> {
        match self {
            Outcome::NoRoute => "none"@,
            Outcome::NoUpstream => "none"@,
            Outcome::InvalidTarget { upstream } => upstream@,
            Outcome::UpstreamFailed { upstream } => upstream@,
            Outcome::Relayed { upstream, .. } => upstream@,
        }
    }

    /// The HTTP status the caller receives.
    pub fn status(&self) -> (r: u16)
        ensures
            r == self.spec_status(),
    {
        match self {
            Outcome::NoRoute => 404,
            Outcome::NoUpstream => 503,
            Outcome::InvalidTarget { .. } => 502,
            Outcome::UpstreamFailed { .. } => 502,
            Outcome::Relayed { status, .. } => *status,
        }
    }

    /// Whether the outcome counts as an error.
    pub fn is_error(&self) -> (r: bool)
        ensures
            r == self.spec_is_error(),
    {
        match self {
            Outcome::Relayed { .. } => false,
            _ => true,
        }
    }

    /// The upstream named in the request log.
    pub fn upstream_label(&self) -> (r: String)
        ensures
            r@ == self.spec_upstream_label(),
    {
        match self {
            Outcome::NoRoute => String::from_str("none"),
            Outcome::NoUpstream => String::from_str("none"),
            Outcome::InvalidTarget { upstream } => upstream.clone(),
            Outcome::UpstreamFailed { upstream } => upstream.clone(),
            Outcome::Relayed { upstream, .. } => upstream.clone(),
        }
    }

    /// The short diagnostic body sent with an error; `None` for a relayed
    /// answer, whose body is the upstream's own.
    pub fn error_message(&self) -> (r: Option<&'static str>)
        ensures
            r is None <==> !self.spec_is_error(),
            self is NoRoute ==> r == Some("No route configured"),
            self is NoUpstream ==> r == Some("No upstream available"),
            self is InvalidTarget ==> r == Some("Invalid upstream URI"),
            self is UpstreamFailed ==> r == Some("Upstream error"),
    {
        match self {
            Outcome::NoRoute => Some("No route configured"),
            Outcome::NoUpstream => Some("No upstream available"),
            Outcome::InvalidTarget { .. } => Some("Invalid upstream URI"),
            Outcome::UpstreamFailed { .. } => Some("Upstream error"),
            Outcome::Relayed { .. } => None,
        }
    }
}

/// Where an inbound request goes, before any URI is parsed.
#[derive(Debug, Clone)]
pub enum RouteDecision {
    NoRoute,
    NoUpstream,
    Forward { upstream: String, target: String },
}

/// The decision for a request over a route table and a selector: the first
/// route that accepts it, the upstream the selector picks on that route,
/// and the target URI built from them.
pub open spec fn decision_holds<S: UpstreamSelector>(
    d: RouteDecision,
    routes: Seq<Route>,
    selector: S,
    host: Seq<char>,
    path: &str,
    query: Option<&str>,
) -> bool {
    match first_match(routes, host, path@) {
        None => d is NoRoute,
        Some(i) => match selector.choice(routes[i].upstreams@) {
            None => d is NoUpstream,
            Some(k) => {
                let base = routes[i].upstreams@[k].url@;
                &&& d is Forward
                &&& d->upstream@ == base
                &&& d->target@ == target_of(base, routes[i], path@, query)
            },
        },
    }
}

/// Decides where a request goes: no route (404), no upstream (503), or an
/// upstream and the target URI to forward to.
pub fn route_request<S: UpstreamSelector>(
    matcher: &RouteMatcher,
    selector: &S,
    host: &str,
    path: &str,
    query: Option<&str>,
) -> (d: RouteDecision)
    ensures
        decision_holds(d, matcher@, *selector, host@, path, query),
{
    match matcher.find_route(host, path) {
        None => RouteDecision::NoRoute,
        Some(route) => match selector.select(route.upstreams.as_slice()) {
            None => RouteDecision::NoUpstream,
            Some(k) => {
                let upstream = route.upstreams[k].url.clone();
                let target = target_uri(upstream.as_str(), route, path, query);
                RouteDecision::Forward { upstream, target }
            },
        },
    }
}

/// What the proxy does with a request: answer it at once, or send it to an
/// upstream under a parsed URI.
#[derive(Debug)]
pub enum Dispatch {
    Respond(Outcome),
    Send { upstream: String, target: String, uri: hyper::Uri },
}

/// The dispatch once the target has been parsed: a parsed URI is sent, a
/// refused one answers as an invalid target (502).
pub fn dispatch_for_target(
    upstream: String,
    target: String,
    parsed: Result<hyper::Uri, hyper::http::uri::InvalidUri>,
) -> (r: Dispatch)
    ensures
        match parsed {
            Ok(uri) => r == (Dispatch::Send { upstream, target, uri }),
            Err(_) => r == Dispatch::Respond(Outcome::InvalidTarget { upstream }),
        },
{
    match parsed {
        Ok(uri) => Dispatch::Send { upstream, target, uri },
        Err(_) => Dispatch::Respond(Outcome::InvalidTarget { upstream }),
    }
}

/// Routes a request and parses its target: the answer for no route or no
/// upstream, otherwise what `dispatch_for_target` makes of the parse of the
/// target that `route_request` decides.
pub fn plan_request<S: UpstreamSelector>(
    matcher: &RouteMatcher,
    selector: &S,
    host: &str,
    path: &str,
    query: Option<&str>,
) -> (r: Dispatch)
    ensures
        exists|d: RouteDecision| {
            &&& decision_holds(d, matcher@, *selector, host@, path, query)
            &&& match d {
                RouteDecision::NoRoute => r == Dispatch::Respond(Outcome::NoRoute),
                RouteDecision::NoUpstream => r == Dispatch::Respond(Outcome::NoUpstream),
                RouteDecision::Forward { upstream, target } => if uri_accepts(target@) {
                    r matches Dispatch::Send { upstream: u, target: t, .. } && u == upstream && t == target
                } else {
                    r == Dispatch::Respond(Outcome::InvalidTarget { upstream })
                },
            }
        },
{
    let d = route_request(matcher, selector, host, path, query);
    let ghost dd = d;
    match d {
        RouteDecision::NoRoute => Dispatch::Respond(Outcome::NoRoute),
        RouteDecision::NoUpstream => Dispatch::Respond(Outcome::NoUpstream),
        RouteDecision::Forward { upstream, target } => {
            let parsed = parse_uri(target.as_str());
            let r = dispatch_for_target(upstream, target, parsed);
            assert(dd matches RouteDecision::Forward { upstream: u, target: t } && u == upstream && t == target);
            r
        },
    }
}

} // verus!
