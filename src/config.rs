//! The configuration surface that the proxy core consumes.

use vstd::prelude::*;

verus! {

/// The whole configuration: the proxy listener, the control listener, and
/// the ordered route table.
#[derive(Debug, Clone)]
pub struct Config {
    pub listen: String,
    pub control: ControlConfig,
    pub routes: Vec<Route>,
}

/// Where the read-only control surface listens.
#[derive(Debug, Clone)]
pub struct ControlConfig {
    pub listen: String,
}

/// A named rule from host and path prefix to a list of upstreams.
///
/// A host pattern is an exact host name or `*.suffix`; the path prefix is a
/// literal prefix of the request path. An empty upstream list is valid: the
/// route then answers that no upstream is available.
#[derive(Debug, Clone)]
pub struct Route {
    pub name: String,
    pub hosts: Vec<String>,
    pub path_prefix: String,
    pub strip_prefix: bool,
    pub rewrite_prefix: Option<String>,
    pub upstreams: Vec<Upstream>,
}

/// One backend a route may forward to. Weight, failure threshold and
/// cooldown are carried for selection strategies that consult them; the
/// default strategy does not.
#[derive(Debug, Clone)]
pub struct Upstream {
    pub url: String,
    pub weight: u32,
    pub fail_threshold: u32,
    pub cooldown_secs: u64,
}

/// Weight of an upstream when the configuration gives none.
pub fn default_weight() -> (r: u32)
    ensures
        r == 1,
{
    1
}

/// Failure threshold of an upstream when the configuration gives none.
pub fn default_fail_threshold() -> (r: u32)
    ensures
        r == 3,
{
    3
}

/// Cooldown, in seconds, of an upstream when the configuration gives none.
pub fn default_cooldown_secs() -> (r: u64)
    ensures
        r == 15,
{
    15
}

} // verus!
