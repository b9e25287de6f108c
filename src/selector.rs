//! Upstream selection as a swappable strategy.

use vstd::prelude::*;
use crate::config::Upstream;

verus! {

/// A policy that picks one upstream of a route's list, or none.
pub trait UpstreamSelector {
    /// The index that this policy picks among `upstreams`, if any.
    spec fn choice(&self, upstreams: Seq<Upstream>) -> Option<int>;

    /// Picks an upstream; the index is always within the list.
    fn select(&self, upstreams: &[Upstream]) -> (r: Option<usize>)
        ensures
            match r {
                Some(i) => i < upstreams@.len() && self.choice(upstreams@) == Some(i as int),
                None => self.choice(upstreams@) is None,
            },
    ;
}

/// The default policy: the first upstream of the list, if there is one.
/// Weight, failure threshold and cooldown are not consulted.
pub struct FirstAvailable;

impl UpstreamSelector for FirstAvailable {
    open spec fn choice(&self, upstreams: Seq<Upstream>) -> Option<int> {
        if upstreams.len() > 0 {
            Some(0)
        } else {
            None
        }
    }

    fn select(&self, upstreams: &[Upstream]) -> (r: Option<usize>) {
        if upstreams.len() > 0 {
            Some(0)
        } else {
            None
        }
    }
}

} // verus!
