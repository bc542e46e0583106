use crate::series::keep_last;
use crate::store::{SeriesStore, PING_CAPACITY, THROUGHPUT_CAPACITY};
use vstd::prelude::*;

verus! {

/// Cumulative byte counters of one network interface, or of several summed.
#[derive(Clone, Copy, Debug, PartialEq, Eq, Structural)]
pub struct Totals {
    pub received: u64,
    pub transmitted: u64,
}

pub open spec fn sum_received(s: Seq<Totals>) -> int
    decreases s.len(),
{
    if s.len() == 0 {
        0
    } else {
        sum_received(s.drop_last()) + s.last().received
    }
}

pub open spec fn sum_transmitted(s: Seq<Totals>) -> int
    decreases s.len(),
{
    if s.len() == 0 {
        0
    } else {
        sum_transmitted(s.drop_last()) + s.last().transmitted
    }
}

/// `x`, or `u64::MAX` when `x` is larger.
pub open spec fn cap_u64(x: int) -> u64 {
    if x <= u64::MAX {
        x as u64
    } else {
        u64::MAX
    }
}

/// `x` brought into the range of `i64`.
pub open spec fn clamp_i64(x: int) -> i64 {
    if x > i64::MAX {
        i64::MAX
    } else if x < i64::MIN {
        i64::MIN
    } else {
        x as i64
    }
}

/// The signed change of a cumulative counter between two readings.
pub open spec fn counter_delta(current: u64, previous: u64) -> i64 {
    clamp_i64(current - previous)
}

/// The counters of all interfaces summed, saturating at `u64::MAX`.
pub fn total_bytes(interfaces: &Vec<Totals>) -> (r: Totals)
    ensures
        r.received == cap_u64(sum_received(interfaces@)),
        r.transmitted == cap_u64(sum_transmitted(interfaces@)),
{
    let mut received: u64 = 0;
    let mut transmitted: u64 = 0;
    let mut i: usize = 0;
    while i < interfaces.len()
        invariant
            i <= interfaces@.len(),
            received == cap_u64(sum_received(interfaces@.take(i as int))),
            transmitted == cap_u64(sum_transmitted(interfaces@.take(i as int))),
        decreases interfaces@.len() - i,
    {
        let t = interfaces[i];
        proof {
            let pre = interfaces@.take(i as int);
            assert(interfaces@.take(i + 1).drop_last() =~= pre);
            assert(sum_received(pre) >= 0) by {
                lemma_sums_nonnegative(pre);
            }
            assert(sum_transmitted(pre) >= 0) by {
                lemma_sums_nonnegative(pre);
            }
        }
        received = received.saturating_add(t.received);
        transmitted = transmitted.saturating_add(t.transmitted);
        i = i + 1;
    }
    proof {
        assert(interfaces@.take(i as int) =~= interfaces@);
    }
    Totals { received, transmitted }
}

proof fn lemma_sums_nonnegative(s: Seq<Totals>)
    ensures
        sum_received(s) >= 0,
        sum_transmitted(s) >= 0,
    decreases s.len(),
{
    if s.len() > 0 {
        lemma_sums_nonnegative(s.drop_last());
    }
}

fn delta(current: u64, previous: u64) -> (r: i64)
    ensures
        r == counter_delta(current, previous),
{
    if current >= previous {
        let d: u64 = current - previous;
        if d > i64::MAX as u64 {
            i64::MAX
        } else {
            d as i64
        }
    } else {
        let d: u64 = previous - current;
        if d > i64::MAX as u64 {
            i64::MIN
        } else {
            -(d as i64)
        }
    }
}

/// Turns successive readings of cumulative counters into per-tick deltas.
pub struct ThroughputProbe {
    last: Totals,
}

impl ThroughputProbe {
    /// A probe whose first delta is measured from `baseline`.
    pub fn new(baseline: Totals) -> (r: Self)
        ensures
            r.baseline() == baseline,
    {
        ThroughputProbe { last: baseline }
    }

    /// The reading that the next delta is measured from.
    pub closed spec fn baseline(&self) -> Totals {
        self.last
    }

    pub fn last_totals(&self) -> (r: Totals)
        ensures
            r == self.baseline(),
    {
        self.last
    }

    /// Consumes one tick's reading, returning `(sent, received)` deltas since
    /// the previous reading. A failed reading (`None`) counts as no traffic
    /// and keeps the previous reading as the baseline.
    pub fn tick(&mut self, current: Option<Totals>) -> (r: (i64, i64))
        ensures
            match current {
                Some(c) => {
                    &&& r == (
                        counter_delta(c.transmitted, old(self).baseline().transmitted),
                        counter_delta(c.received, old(self).baseline().received),
                    )
                    &&& final(self).baseline() == c
                },
                None => {
                    &&& r == (0i64, 0i64)
                    &&& final(self).baseline() == old(self).baseline()
                },
            },
    {
        match current {
            Some(c) => {
                let sent = delta(c.transmitted, self.last.transmitted);
                let received = delta(c.received, self.last.received);
                self.last = c;
                (sent, received)
            },
            None => (0, 0),
        }
    }

    /// Consumes one tick's reading and appends its deltas to the store.
    pub fn record(&mut self, store: &mut SeriesStore, current: Option<Totals>)
        requires
            old(store).wf(),
        ensures
            final(store).wf(),
            final(store).ping_view() == old(store).ping_view(),
            match current {
                Some(c) => {
                    &&& final(store).sent_view() == keep_last(
                        old(store).sent_view().push(
                            counter_delta(c.transmitted, old(self).baseline().transmitted),
                        ),
                        THROUGHPUT_CAPACITY as int,
                    )
                    &&& final(store).received_view() == keep_last(
                        old(store).received_view().push(
                            counter_delta(c.received, old(self).baseline().received),
                        ),
                        THROUGHPUT_CAPACITY as int,
                    )
                    &&& final(self).baseline() == c
                },
                None => {
                    &&& final(store).sent_view() == keep_last(
                        old(store).sent_view().push(0),
                        THROUGHPUT_CAPACITY as int,
                    )
                    &&& final(store).received_view() == keep_last(
                        old(store).received_view().push(0),
                        THROUGHPUT_CAPACITY as int,
                    )
                    &&& final(self).baseline() == old(self).baseline()
                },
            },
    {
        let (sent, received) = self.tick(current);
        store.append_throughput(sent, received);
    }
}

/// Records the outcome of one latency tick: a successful measurement (in
/// microseconds) is appended; a failed attempt leaves the store unchanged.
pub fn record_latency(store: &mut SeriesStore, outcome: Option<u64>)
    requires
        old(store).wf(),
    ensures
        final(store).wf(),
        final(store).sent_view() == old(store).sent_view(),
        final(store).received_view() == old(store).received_view(),
        final(store).ping_view() == match outcome {
            Some(v) => keep_last(old(store).ping_view().push(v), PING_CAPACITY as int),
            None => old(store).ping_view(),
        },
{
    match outcome {
        Some(v) => store.append_ping(v),
        None => {},
    }
}

} // verus!
