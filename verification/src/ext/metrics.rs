//! An earlier form of the metrics that Firecracker writes, and a buffer that collects them.

use vstd::prelude::*;

verus! {

#[derive(Debug, Clone, PartialEq, Eq, PartialOrd, Ord, Hash)]
pub struct MetricsEntry {
    pub utc_timestamp_ms: u64,
    pub api_server: ApiServerMetrics,
    pub balloon: BalloonMetrics,
}

#[derive(Debug, Clone, PartialEq, Eq, PartialOrd, Ord, Hash)]
pub struct ApiServerMetrics {
    pub process_startup_time_us: u64,
    pub process_startup_time_cpu_us: u64,
    pub sync_response_fails: u64,
    pub sync_vmm_send_timeout_count: u64,
}

#[derive(Debug, Clone, PartialEq, Eq, PartialOrd, Ord, Hash)]
pub struct BalloonMetrics {
    pub activate_fails: u64,
    pub inflate_count: u64,
    pub stats_updates_count: u64,
    pub stats_update_fails: u64,
    pub deflate_count: u64,
    pub event_fails: u64,
}

#[derive(Debug, Clone, PartialEq, Eq, PartialOrd, Ord, Hash)]
pub struct MetricsAggregate {
    pub min_us: u64,
    pub max_us: u64,
    pub sum_us: u64,
}

/// Something that receives metrics entries.
pub trait MetricsBuffer {
    /// Receive one entry.
    fn recv_metrics(&mut self, metrics_entry: MetricsEntry);
}

/// A buffer that keeps every received entry in memory, in the order received.
pub struct InMemoryMetricsBuffer {
    vec: Vec<MetricsEntry>,
}

impl InMemoryMetricsBuffer {
    /// The entries received so far, in order.
    pub closed spec fn spec_entries(self) -> Seq<MetricsEntry> {
        self.vec@
    }

    /// An empty buffer.
    pub fn new() -> (r: Self)
        ensures
            r.spec_entries() == Seq::<MetricsEntry>::empty(),
    {
        InMemoryMetricsBuffer { vec: Vec::new() }
    }

    /// An empty buffer with room for `capacity` entries.
    pub fn with_capacity(capacity: usize) -> (r: Self)
        ensures
            r.spec_entries() == Seq::<MetricsEntry>::empty(),
    {
        InMemoryMetricsBuffer { vec: Vec::with_capacity(capacity) }
    }

    /// The entries received so far, in order.
    pub fn entries(&self) -> (r: &Vec<MetricsEntry>)
        ensures
            r@ == self.spec_entries(),
    {
        &self.vec
    }
}

impl MetricsBuffer for InMemoryMetricsBuffer {
    /// Keep the entry after those received before.
    fn recv_metrics(&mut self, metrics_entry: MetricsEntry)
        ensures
            final(self).spec_entries() == old(self).spec_entries().push(metrics_entry),
    {
        self.vec.push(metrics_entry);
    }
}

} // verus!
