use netgraph::{record_latency, SeriesStore, PING_CAPACITY, THROUGHPUT_CAPACITY};

#[test]
fn store_capacities() {
    assert_eq!(PING_CAPACITY, 150);
    assert_eq!(THROUGHPUT_CAPACITY, 50);
}

#[test]
fn appending_ping_leaves_throughput_alone() {
    let mut store = SeriesStore::new();
    store.append_throughput(5, 6);
    store.append_ping(42);
    store.append_ping(43);
    assert_eq!(store.snapshot_ping(), vec![42, 43]);
    assert_eq!(store.snapshot_sent(), vec![5]);
    assert_eq!(store.snapshot_received(), vec![6]);
}

#[test]
fn appending_throughput_leaves_ping_alone() {
    let mut store = SeriesStore::new();
    store.append_ping(9);
    for i in 0..60 {
        store.append_throughput(i, -i);
    }
    assert_eq!(store.snapshot_ping(), vec![9]);
    assert_eq!(store.snapshot_sent(), (10..60).collect::<Vec<i64>>());
    assert_eq!(store.snapshot_received(), (10..60).map(|i| -i).collect::<Vec<i64>>());
}

#[test]
fn failed_pings_add_nothing_then_one_success_adds_one() {
    let mut store = SeriesStore::new();
    store.append_ping(1);
    let before = store.snapshot_ping().len();
    for _ in 0..5 {
        record_latency(&mut store, None);
    }
    assert_eq!(store.snapshot_ping().len(), before);
    record_latency(&mut store, Some(1234));
    assert_eq!(store.snapshot_ping().len(), before + 1);
    assert_eq!(store.snapshot_ping(), vec![1, 1234]);
}

#[test]
fn ping_history_scrolls_past_capacity() {
    let mut store = SeriesStore::new();
    for v in 1..=100u64 {
        record_latency(&mut store, Some(v));
    }
    assert_eq!(store.snapshot_ping(), (1..=100).collect::<Vec<u64>>());
    for v in 101..=160u64 {
        record_latency(&mut store, Some(v));
    }
    assert_eq!(store.snapshot_ping(), (11..=160).collect::<Vec<u64>>());
}
