//! The route table and the matcher that picks the first route whose host
//! pattern and path prefix accept a request.

use vstd::prelude::*;
use crate::config::Route;
use crate::text::{has_prefix, has_suffix, same_text, starts_with, ends_with};

verus! {

/// The two characters that open a wildcard host pattern.
pub open spec fn wildcard_lead() -> Seq<char> {
    seq!['*', '.']
}

/// A host pattern accepts a host. A pattern `*.suffix` accepts every host
/// that ends with `suffix` (so `*.example.com` accepts `example.com`,
/// `a.example.com` and also `notexample.com`); any other pattern accepts
/// only the host equal to it.
pub open spec fn pattern_matches(pattern: Seq<char>, host: Seq<char>) -> bool {
    if has_prefix(pattern, wildcard_lead()) {
        has_suffix(host, pattern.subrange(2, pattern.len() as int))
    } else {
        pattern == host
    }
}

/// Some pattern of the list accepts the host.
pub open spec fn host_matches(patterns: Seq<String>, host: Seq<char>) -> bool {
    exists|j: int| 0 <= j < patterns.len() && #[trigger] pattern_matches(patterns[j]@, host)
}

/// A route accepts a request: a host pattern accepts its host and its path
/// begins with the route's path prefix.
pub open spec fn route_matches(route: Route, host: Seq<char>, path: Seq<char>) -> bool {
    host_matches(route.hosts@, host) && has_prefix(path, route.path_prefix@)
}

/// The index of the first route, at `start` or after it, that accepts the
/// request.
pub open spec fn first_match_from(routes: Seq<Route>, host: Seq<char>, path: Seq<char>, start: int) -> Option<int>
    decreases routes.len() - start,
{
    if start < 0 || start >= routes.len() {
        None
    } else if route_matches(routes[start], host, path) {
        Some(start)
    } else {
        first_match_from(routes, host, path, start + 1)
    }
}

/// The index of the first route of the table that accepts the request.
pub open spec fn first_match(routes: Seq<Route>, host: Seq<char>, path: Seq<char>) -> Option<int> {
    first_match_from(routes, host, path, 0)
}

/// Whether one host pattern accepts the host.
pub fn pattern_accepts(pattern: &str, host: &str) -> (r: bool)
    ensures
        r == pattern_matches(pattern@, host@),
{
    proof {
        reveal_strlit("*.");
        assert("*."@ =~= wildcard_lead());
    }
    if starts_with(pattern, "*.") {
        let n = pattern.unicode_len();
        ends_with(host, pattern.substring_char(2, n))
    } else {
        same_text(pattern, host)
    }
}

/// An ordered, immutable route table with first-match lookup.
pub struct RouteMatcher {
    routes: Vec<Route>,
}

impl View for RouteMatcher {
    type V = Seq<Route>;

    closed spec fn view(&self) -> Seq<Route> {
        self.routes@
    }
}

impl RouteMatcher {
    /// A matcher over the routes, in the order given.
    pub fn new(routes: Vec<Route>) -> (m: Self)
        ensures
            m@ == routes@,
    {
        RouteMatcher { routes }
    }

    /// The first route, in table order, whose host patterns accept `host` and
    /// whose path prefix begins `path`; `None` when no route does.
    pub fn find_route(&self, host: &str, path: &str) -> (r: Option<&Route>)
        ensures
            match first_match(self@, host@, path@) {
                Some(i) => r == Some(&self@[i]),
                None => r is None,
            },
    {
        let mut i: usize = 0;
        while i < self.routes.len()
            invariant
                i <= self.routes@.len(),
                first_match(self@, host@, path@) == first_match_from(self@, host@, path@, i as int),
            decreases self.routes@.len() - i,
        {
            let route = &self.routes[i];
            if self.matches_host(route.hosts.as_slice(), host) && starts_with(path, route.path_prefix.as_str()) {
                return Some(route);
            }
            i += 1;
        }
        None
    }

    /// Whether some pattern of the list accepts `host`.
    pub fn matches_host(&self, patterns: &[String], host: &str) -> (r: bool)
        ensures
            r == host_matches(patterns@, host@),
    {
        let mut i: usize = 0;
        while i < patterns.len()
            invariant
                i <= patterns@.len(),
                forall|j: int| 0 <= j < i ==> !pattern_matches(#[trigger] patterns@[j]@, host@),
            decreases patterns@.len() - i,
        {
            if pattern_accepts(patterns[i].as_str(), host) {
                return true;
            }
            i += 1;
        }
        false
    }
}

/// A wildcard pattern `*.suffix` accepts exactly the hosts that end with
/// `suffix`: there is no check for a dot boundary.
pub proof fn lemma_wildcard_accepts_iff_suffix(suffix: Seq<char>, host: Seq<char>)
    ensures
        pattern_matches(wildcard_lead() + suffix, host) <==> has_suffix(host, suffix),
{
    let p = wildcard_lead() + suffix;
    assert(p.subrange(0, 2) =~= wildcard_lead());
    assert(p.subrange(2, p.len() as int) =~= suffix);
}

proof fn lemma_first_match_from(routes: Seq<Route>, host: Seq<char>, path: Seq<char>, start: int, i: int)
    requires
        0 <= start,
    ensures
        first_match_from(routes, host, path, start) == Some(i) <==> (start <= i < routes.len()
            && route_matches(routes[i], host, path)
            && forall|j: int| start <= j < i ==> !route_matches(#[trigger] routes[j], host, path)),
    decreases routes.len() - start,
{
    if start < routes.len() {
        lemma_first_match_from(routes, host, path, start + 1, i);
    }
}

/// The route chosen for a request is the first in table order that accepts
/// it: route `i` is chosen exactly when it accepts the request and no route
/// before it does, however specific a later route may be.
pub proof fn lemma_first_match_wins(routes: Seq<Route>, host: Seq<char>, path: Seq<char>, i: int)
    ensures
        first_match(routes, host, path) == Some(i) <==> (0 <= i < routes.len()
            && route_matches(routes[i], host, path)
            && forall|j: int| 0 <= j < i ==> !route_matches(#[trigger] routes[j], host, path)),
{
    lemma_first_match_from(routes, host, path, 0, i);
}

proof fn lemma_no_match_from(routes: Seq<Route>, host: Seq<char>, path: Seq<char>, start: int)
    requires
        0 <= start,
    ensures
        first_match_from(routes, host, path, start) is None <==> forall|j: int|
            start <= j < routes.len() ==> !route_matches(#[trigger] routes[j], host, path),
    decreases routes.len() - start,
{
    if start < routes.len() {
        lemma_no_match_from(routes, host, path, start + 1);
    }
}

/// No route is chosen exactly when no route of the table accepts the request.
pub proof fn lemma_no_match(routes: Seq<Route>, host: Seq<char>, path: Seq<char>)
    ensures
        first_match(routes, host, path) is None <==> forall|j: int|
            0 <= j < routes.len() ==> !route_matches(#[trigger] routes[j], host, path),
{
    lemma_no_match_from(routes, host, path, 0);
}

} // verus!
