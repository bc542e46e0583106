use crate::series::{keep_last, BoundedSeries};
use vstd::prelude::*;

verus! {

/// Latency samples retained: about fifteen seconds at one sample per 100 ms.
pub const PING_CAPACITY: usize = 150;

/// Throughput samples retained: about fifty seconds at one sample per second.
pub const THROUGHPUT_CAPACITY: usize = 50;

/// The three live series of the dashboard: round-trip latency in
/// microseconds, and bytes sent and received per throughput tick.
pub struct SeriesStore {
    ping: BoundedSeries<u64>,
    sent: BoundedSeries<i64>,
    received: BoundedSeries<i64>,
}

impl SeriesStore {
    pub closed spec fn ping_view(&self) -> Seq<u64> {
        self.ping@
    }

    pub closed spec fn sent_view(&self) -> Seq<i64> {
        self.sent@
    }

    pub closed spec fn received_view(&self) -> Seq<i64> {
        self.received@
    }

    /// Each series is within its capacity, and the capacities are the
    /// store's fixed ones.
    pub closed spec fn wf(&self) -> bool {
        &&& self.ping.wf()
        &&& self.sent.wf()
        &&& self.received.wf()
        &&& self.ping.cap() == PING_CAPACITY
        &&& self.sent.cap() == THROUGHPUT_CAPACITY
        &&& self.received.cap() == THROUGHPUT_CAPACITY
    }

    /// A store whose three series are empty.
    pub fn new() -> (r: Self)
        ensures
            r.wf(),
            r.ping_view() == Seq::<u64>::empty(),
            r.sent_view() == Seq::<i64>::empty(),
            r.received_view() == Seq::<i64>::empty(),
    {
        SeriesStore {
            ping: BoundedSeries::new(PING_CAPACITY),
            sent: BoundedSeries::new(THROUGHPUT_CAPACITY),
            received: BoundedSeries::new(THROUGHPUT_CAPACITY),
        }
    }

    /// Appends one latency sample; the throughput series are untouched.
    pub fn append_ping(&mut self, value: u64)
        requires
            old(self).wf(),
        ensures
            final(self).wf(),
            final(self).ping_view() == keep_last(
                old(self).ping_view().push(value),
                PING_CAPACITY as int,
            ),
            final(self).sent_view() == old(self).sent_view(),
            final(self).received_view() == old(self).received_view(),
    {
        self.ping.append(value);
    }

    /// Appends one throughput sample to each of the sent and received
    /// series; the latency series is untouched.
    pub fn append_throughput(&mut self, sent_delta: i64, received_delta: i64)
        requires
            old(self).wf(),
        ensures
            final(self).wf(),
            final(self).ping_view() == old(self).ping_view(),
            final(self).sent_view() == keep_last(
                old(self).sent_view().push(sent_delta),
                THROUGHPUT_CAPACITY as int,
            ),
            final(self).received_view() == keep_last(
                old(self).received_view().push(received_delta),
                THROUGHPUT_CAPACITY as int,
            ),
    {
        self.sent.append(sent_delta);
        self.received.append(received_delta);
    }

    pub fn snapshot_ping(&self) -> (r: Vec<u64>)
        requires
            self.wf(),
        ensures
            r@ == self.ping_view(),
            r@.len() <= PING_CAPACITY,
    {
        self.ping.snapshot()
    }

    pub fn snapshot_sent(&self) -> (r: Vec<i64>)
        requires
            self.wf(),
        ensures
            r@ == self.sent_view(),
            r@.len() <= THROUGHPUT_CAPACITY,
    {
        self.sent.snapshot()
    }

    pub fn snapshot_received(&self) -> (r: Vec<i64>)
        requires
            self.wf(),
        ensures
            r@ == self.received_view(),
            r@.len() <= THROUGHPUT_CAPACITY,
    {
        self.received.snapshot()
    }
}

} // verus!
