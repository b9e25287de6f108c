//! The dashboard's store of recent transactions and running statistics.

use vstd::prelude::*;
use crate::ring::{newest_first, push_bounded, LogRing, Record};

verus! {

/// How many transactions the history keeps.
pub const MAX_HISTORY: usize = 1000;

/// One request/response exchange.
#[derive(Debug, Clone)]
pub struct Transaction {
    pub id: usize,
    /// Milliseconds since the Unix epoch, UTC.
    pub timestamp_ms: i64,
    pub method: String,
    pub path: String,
    pub status: u16,
    pub duration_ms: u64,
    pub request_size: usize,
    pub response_size: usize,
}

impl Record for Transaction {
    fn copy_record(&self) -> (r: Self) {
        Transaction {
            id: self.id,
            timestamp_ms: self.timestamp_ms,
            method: self.method.clone(),
            path: self.path.clone(),
            status: self.status,
            duration_ms: self.duration_ms,
            request_size: self.request_size,
            response_size: self.response_size,
        }
    }
}

/// Running statistics shown by the dashboard.
#[derive(Debug, Clone, Copy, PartialEq, Eq, Structural)]
pub struct ProxyStats {
    pub total_requests: u64,
    pub successful_requests: u64,
    pub failed_requests: u64,
    pub total_bytes_sent: u64,
    pub total_bytes_received: u64,
    pub active_connections: usize,
}

/// Statistics with every count at zero.
pub open spec fn zero_stats() -> ProxyStats {
    ProxyStats {
        total_requests: 0,
        successful_requests: 0,
        failed_requests: 0,
        total_bytes_sent: 0,
        total_bytes_received: 0,
        active_connections: 0,
    }
}

impl Default for ProxyStats {
    fn default() -> (r: ProxyStats)
        ensures
            r == zero_stats(),
    {
        ProxyStats {
            total_requests: 0,
            successful_requests: 0,
            failed_requests: 0,
            total_bytes_sent: 0,
            total_bytes_received: 0,
            active_connections: 0,
        }
    }
}

/// Recent transactions, at most `MAX_HISTORY` of them, and statistics.
pub struct ProxyState {
    pub transactions: LogRing<Transaction>,
    pub stats: ProxyStats,
}

impl ProxyState {
    /// Well-formed: the history keeps at most `MAX_HISTORY` transactions.
    pub open spec fn wf(&self) -> bool {
        self.transactions.wf() && self.transactions.spec_capacity() == MAX_HISTORY
    }

    /// No transactions, all statistics at zero.
    pub fn new() -> (r: ProxyState)
        ensures
            r.wf(),
            r.transactions@.len() == 0,
            r.stats == zero_stats(),
    {
        ProxyState { transactions: LogRing::new(MAX_HISTORY), stats: ProxyStats::default() }
    }

    /// Appends a transaction, evicting the oldest once `MAX_HISTORY` are held.
    pub fn add_transaction(&mut self, transaction: Transaction)
        requires
            old(self).wf(),
        ensures
            final(self).wf(),
            final(self).transactions@ == push_bounded(old(self).transactions@, transaction, MAX_HISTORY as nat),
            final(self).stats == old(self).stats,
    {
        self.transactions.push(transaction);
    }

    /// Applies `updater` to the statistics.
    pub fn update_stats<F: FnOnce(ProxyStats) -> ProxyStats>(&mut self, updater: F)
        requires
            updater.requires((old(self).stats,)),
        ensures
            updater.ensures((old(self).stats,), final(self).stats),
            final(self).transactions == old(self).transactions,
    {
        self.stats = updater(self.stats);
    }

    pub fn get_stats(&self) -> (r: ProxyStats)
        ensures
            r == self.stats,
    {
        self.stats
    }

    /// Copies of the `count` most recent transactions, newest first.
    pub fn get_recent_transactions(&self, count: usize) -> (r: Vec<Transaction>)
        ensures
            r@ == newest_first(self.transactions@, count as nat),
    {
        self.transactions.recent(count)
    }
}

impl Default for ProxyState {
    fn default() -> (r: ProxyState)
        ensures
            r.wf(),
            r.transactions@.len() == 0,
            r.stats == zero_stats(),
    {
        ProxyState::new()
    }
}

} // verus!
