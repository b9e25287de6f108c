//! The telemetry store: running counters and a bounded ring of recent
//! request records, updated by every request.

use vstd::prelude::*;
use crate::forward::Outcome;
use crate::ring::{push_bounded, LogRing, Record};

verus! {

/// How many request records the store keeps.
pub const LOG_CAPACITY: usize = 1000;

/// Relies on `chrono::Utc::now` and `DateTime::timestamp_millis`: the
/// current time in milliseconds since the Unix epoch. Nothing is promised
/// of the value. (`Utc::now` panics if the system clock reads before 1970.)
#[verifier::external_body]
fn utc_now_millis() -> (r: i64) {
    chrono::Utc::now().timestamp_millis()
}

/// One completed request.
#[derive(Debug, Clone)]
pub struct RequestLog {
    /// Milliseconds since the Unix epoch, UTC.
    pub timestamp_ms: i64,
    pub method: String,
    pub path: String,
    pub host: String,
    pub status: u16,
    pub duration_ms: u64,
    /// The upstream URL used, or `none`.
    pub upstream: String,
}

impl Record for RequestLog {
    fn copy_record(&self) -> (r: Self) {
        RequestLog {
            timestamp_ms: self.timestamp_ms,
            method: self.method.clone(),
            path: self.path.clone(),
            host: self.host.clone(),
            status: self.status,
            duration_ms: self.duration_ms,
            upstream: self.upstream.clone(),
        }
    }
}

impl RequestLog {
    /// The record of a request that ended with `outcome`, stamped with the
    /// current time.
    pub fn for_outcome(method: String, path: String, host: String, outcome: &Outcome, duration_ms: u64) -> (r: RequestLog)
        ensures
            r.method == method,
            r.path == path,
            r.host == host,
            r.status == outcome.spec_status(),
            r.duration_ms == duration_ms,
            r.upstream@ == outcome.spec_upstream_label(),
    {
        RequestLog {
            timestamp_ms: utc_now_millis(),
            method,
            path,
            host,
            status: outcome.status(),
            duration_ms,
            upstream: outcome.upstream_label(),
        }
    }
}

/// Health of one upstream, as a health checker would report it.
#[derive(Debug, Clone)]
pub struct UpstreamStatus {
    pub url: String,
    pub healthy: bool,
    pub failures: u32,
}

impl Record for UpstreamStatus {
    fn copy_record(&self) -> (r: Self) {
        UpstreamStatus { url: self.url.clone(), healthy: self.healthy, failures: self.failures }
    }
}

/// Running counters. `upstreams_status` is filled by no one yet: it is the
/// place for a health checker's reports.
#[derive(Debug, Clone)]
pub struct ProxyMetrics {
    pub total_requests: u64,
    pub active_requests: u64,
    pub total_errors: u64,
    pub upstreams_status: Vec<UpstreamStatus>,
}

/// One more, stopping at the largest value.
pub open spec fn sat_inc(x: u64) -> u64 {
    if x == u64::MAX {
        x
    } else {
        (x + 1) as u64
    }
}

/// One less, stopping at zero.
pub open spec fn sat_dec(x: u64) -> u64 {
    if x == 0 {
        0
    } else {
        (x - 1) as u64
    }
}

/// The counters once a request has begun.
pub open spec fn started(m: ProxyMetrics) -> ProxyMetrics {
    ProxyMetrics {
        total_requests: sat_inc(m.total_requests),
        active_requests: sat_inc(m.active_requests),
        ..m
    }
}

/// The counters once a request has ended, as an error or not.
pub open spec fn ended(m: ProxyMetrics, error: bool) -> ProxyMetrics {
    ProxyMetrics {
        total_errors: if error { sat_inc(m.total_errors) } else { m.total_errors },
        active_requests: sat_dec(m.active_requests),
        ..m
    }
}

/// Two sets of counters agree, upstream reports included.
pub open spec fn same_metrics(a: ProxyMetrics, b: ProxyMetrics) -> bool {
    &&& a.total_requests == b.total_requests
    &&& a.active_requests == b.active_requests
    &&& a.total_errors == b.total_errors
    &&& a.upstreams_status@ == b.upstreams_status@
}

impl ProxyMetrics {
    /// All counters at zero, no upstream reports.
    pub fn new() -> (r: ProxyMetrics)
        ensures
            r.total_requests == 0,
            r.active_requests == 0,
            r.total_errors == 0,
            r.upstreams_status@.len() == 0,
    {
        ProxyMetrics { total_requests: 0, active_requests: 0, total_errors: 0, upstreams_status: Vec::new() }
    }

    /// Counts a request that has begun: one more in total and one more in
    /// flight.
    pub fn record_request_start(&mut self)
        ensures
            *final(self) == started(*old(self)),
    {
        self.total_requests = self.total_requests.saturating_add(1);
        self.active_requests = self.active_requests.saturating_add(1);
    }

    /// Counts a request that has ended: one more error if the outcome is
    /// one, and one less in flight, never below zero.
    pub fn record_request_end(&mut self, outcome: &Outcome)
        ensures
            *final(self) == ended(*old(self), outcome.spec_is_error()),
    {
        if outcome.is_error() {
            self.total_errors = self.total_errors.saturating_add(1);
        }
        self.active_requests = self.active_requests.saturating_sub(1);
    }

    /// A point-in-time copy.
    pub fn snapshot(&self) -> (r: ProxyMetrics)
        ensures
            same_metrics(r, *self),
    {
        let mut statuses: Vec<UpstreamStatus> = Vec::new();
        let mut i: usize = 0;
        while i < self.upstreams_status.len()
            invariant
                i <= self.upstreams_status@.len(),
                statuses@ == self.upstreams_status@.subrange(0, i as int),
            decreases self.upstreams_status@.len() - i,
        {
            statuses.push(self.upstreams_status[i].copy_record());
            i += 1;
            assert(statuses@ =~= self.upstreams_status@.subrange(0, i as int));
        }
        assert(statuses@ =~= self.upstreams_status@);
        ProxyMetrics {
            total_requests: self.total_requests,
            active_requests: self.active_requests,
            total_errors: self.total_errors,
            upstreams_status: statuses,
        }
    }
}

/// The whole telemetry store: the request-log ring and the counters. The
/// two parts are independent; nothing updates both at once.
pub struct SharedState {
    pub request_logs: LogRing<RequestLog>,
    pub metrics: ProxyMetrics,
}

impl SharedState {
    /// Well-formed: the ring keeps at most `LOG_CAPACITY` records.
    pub open spec fn wf(&self) -> bool {
        self.request_logs.wf() && self.request_logs.spec_capacity() == LOG_CAPACITY
    }

    /// An empty store: no records, all counters at zero.
    pub fn new() -> (r: SharedState)
        ensures
            r.wf(),
            r.request_logs@.len() == 0,
            r.metrics.total_requests == 0,
            r.metrics.active_requests == 0,
            r.metrics.total_errors == 0,
            r.metrics.upstreams_status@.len() == 0,
    {
        SharedState { request_logs: LogRing::new(LOG_CAPACITY), metrics: ProxyMetrics::new() }
    }

    /// Appends a record, evicting the oldest once `LOG_CAPACITY` are held.
    pub fn add_request_log(&mut self, log: RequestLog)
        requires
            old(self).wf(),
        ensures
            final(self).wf(),
            final(self).request_logs@ == push_bounded(old(self).request_logs@, log, LOG_CAPACITY as nat),
            final(self).metrics == old(self).metrics,
    {
        self.request_logs.push(log);
    }

    pub fn increment_total_requests(&mut self)
        ensures
            final(self).metrics == (ProxyMetrics { total_requests: sat_inc(old(self).metrics.total_requests), ..old(self).metrics }),
            final(self).request_logs == old(self).request_logs,
    {
        self.metrics.total_requests = self.metrics.total_requests.saturating_add(1);
    }

    pub fn increment_active_requests(&mut self)
        ensures
            final(self).metrics == (ProxyMetrics { active_requests: sat_inc(old(self).metrics.active_requests), ..old(self).metrics }),
            final(self).request_logs == old(self).request_logs,
    {
        self.metrics.active_requests = self.metrics.active_requests.saturating_add(1);
    }

    /// One less request in flight; at zero the count stays at zero.
    pub fn decrement_active_requests(&mut self)
        ensures
            final(self).metrics == (ProxyMetrics { active_requests: sat_dec(old(self).metrics.active_requests), ..old(self).metrics }),
            final(self).request_logs == old(self).request_logs,
    {
        if self.metrics.active_requests > 0 {
            self.metrics.active_requests = self.metrics.active_requests - 1;
        }
    }

    pub fn increment_errors(&mut self)
        ensures
            final(self).metrics == (ProxyMetrics { total_errors: sat_inc(old(self).metrics.total_errors), ..old(self).metrics }),
            final(self).request_logs == old(self).request_logs,
    {
        self.metrics.total_errors = self.metrics.total_errors.saturating_add(1);
    }

    /// Replaces the upstream health reports.
    pub fn update_upstream_status(&mut self, statuses: Vec<UpstreamStatus>)
        ensures
            final(self).metrics == (ProxyMetrics { upstreams_status: statuses, ..old(self).metrics }),
            final(self).request_logs == old(self).request_logs,
    {
        self.metrics.upstreams_status = statuses;
    }

    /// A copy of the kept records, oldest first.
    pub fn get_request_logs(&self) -> (r: Vec<RequestLog>)
        ensures
            r@ == self.request_logs@,
    {
        self.request_logs.snapshot()
    }

    /// A point-in-time copy of the counters.
    pub fn get_metrics(&self) -> (r: ProxyMetrics)
        ensures
            same_metrics(r, self.metrics),
    {
        self.metrics.snapshot()
    }

    /// Counts a request that has begun.
    pub fn begin_request(&mut self)
        ensures
            final(self).metrics == started(old(self).metrics),
            final(self).request_logs == old(self).request_logs,
    {
        self.metrics.record_request_start();
    }

    /// Closes a request: its counters and exactly one record for it.
    pub fn finish_request(&mut self, outcome: &Outcome, method: String, path: String, host: String, duration_ms: u64)
        requires
            old(self).wf(),
        ensures
            final(self).wf(),
            final(self).metrics == ended(old(self).metrics, outcome.spec_is_error()),
            exists|log: RequestLog| {
                &&& final(self).request_logs@ == push_bounded(old(self).request_logs@, log, LOG_CAPACITY as nat)
                &&& log.method == method && log.path == path && log.host == host
                &&& log.status == outcome.spec_status()
                &&& log.upstream@ == outcome.spec_upstream_label()
                &&& log.duration_ms == duration_ms
            },
    {
        self.metrics.record_request_end(outcome);
        let log = RequestLog::for_outcome(method, path, host, outcome, duration_ms);
        self.request_logs.push(log);
    }
}

impl Default for SharedState {
    fn default() -> (r: SharedState)
        ensures
            r.wf(),
            r.request_logs@.len() == 0,
            r.metrics.total_requests == 0,
            r.metrics.active_requests == 0,
            r.metrics.total_errors == 0,
            r.metrics.upstreams_status@.len() == 0,
    {
        SharedState::new()
    }
}

/// The counters after `n` requests in a row that each end with `outcome`,
/// each begun and ended before the next.
pub open spec fn after_repeated_requests(m: ProxyMetrics, outcome: Outcome, n: nat) -> ProxyMetrics
    decreases n,
{
    if n == 0 {
        m
    } else {
        ended(started(after_repeated_requests(m, outcome, (n - 1) as nat)), outcome.spec_is_error())
    }
}

/// Repeating a request that fails (against an unreachable upstream, say)
/// counts every attempt on its own: each adds exactly one to the total and
/// one to the errors, and the in-flight count is back where it was after
/// each.
pub proof fn lemma_failed_requests_each_count_once(m: ProxyMetrics, outcome: Outcome, n: nat)
    requires
        outcome.spec_is_error(),
        m.total_requests + n <= u64::MAX,
        m.total_errors + n <= u64::MAX,
        m.active_requests < u64::MAX,
    ensures
        after_repeated_requests(m, outcome, n).total_requests == m.total_requests + n,
        after_repeated_requests(m, outcome, n).total_errors == m.total_errors + n,
        after_repeated_requests(m, outcome, n).active_requests == m.active_requests,
        after_repeated_requests(m, outcome, n).upstreams_status == m.upstreams_status,
    decreases n,
{
    if n > 0 {
        lemma_failed_requests_each_count_once(m, outcome, (n - 1) as nat);
    }
}

/// The in-flight count after a sequence of events, where `true` is a
/// request that begins and `false` one that ends.
pub open spec fn active_after(a: u64, events: Seq<bool>) -> u64
    decreases events.len(),
{
    if events.len() == 0 {
        a
    } else {
        let b = active_after(a, events.drop_last());
        if events.last() {
            sat_inc(b)
        } else {
            sat_dec(b)
        }
    }
}

/// How many events of each kind a sequence holds.
pub open spec fn count_events(events: Seq<bool>, kind: bool) -> nat
    decreases events.len(),
{
    if events.len() == 0 {
        0
    } else {
        count_events(events.drop_last(), kind) + if events.last() == kind { 1nat } else { 0nat }
    }
}

/// Whatever the order of begins and ends, an end before its begin included,
/// the in-flight count never wraps below zero: it stays within the start
/// value less the ends and the start value plus the begins.
pub proof fn lemma_active_never_underflows(a: u64, events: Seq<bool>)
    ensures
        a - count_events(events, false) <= active_after(a, events),
        active_after(a, events) <= a + count_events(events, true),
    decreases events.len(),
{
    if events.len() > 0 {
        lemma_active_never_underflows(a, events.drop_last());
    }
}

} // verus!
