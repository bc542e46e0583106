use netgraph::{BoundedSeries, PushTotal};
use std::collections::VecDeque;

#[test]
fn append_keeps_last_capacity_values_in_order() {
    let mut s: BoundedSeries<i64> = BoundedSeries::new(3);
    for v in 1..=5 {
        s.append(v);
    }
    assert_eq!(s.snapshot(), vec![3, 4, 5]);
    assert_eq!(s.len(), 3);
    assert_eq!(s.capacity(), 3);
}

#[test]
fn append_below_capacity_keeps_everything() {
    let mut s: BoundedSeries<u64> = BoundedSeries::new(10);
    for v in 1..=4 {
        s.append(v);
    }
    assert_eq!(s.snapshot(), vec![1, 2, 3, 4]);
    assert_eq!(s.latest(), Some(4));
}

#[test]
fn new_series_is_empty() {
    let s: BoundedSeries<u64> = BoundedSeries::new(5);
    assert!(s.is_empty());
    assert_eq!(s.snapshot(), Vec::<u64>::new());
    assert_eq!(s.latest(), None);
}

#[test]
fn zero_capacity_retains_nothing() {
    let mut s: BoundedSeries<i64> = BoundedSeries::new(0);
    s.append(7);
    assert!(s.is_empty());
    assert_eq!(s.latest(), None);
}

#[test]
fn append_all_equals_one_by_one() {
    let mut a: BoundedSeries<i64> = BoundedSeries::new(4);
    let mut b: BoundedSeries<i64> = BoundedSeries::new(4);
    let values: Vec<i64> = (1..=9).collect();
    a.append_all(&values);
    for v in &values {
        b.append(*v);
    }
    assert_eq!(a.snapshot(), vec![6, 7, 8, 9]);
    assert_eq!(a.snapshot(), b.snapshot());
}

#[test]
fn snapshot_never_exceeds_capacity() {
    let mut s: BoundedSeries<u64> = BoundedSeries::new(7);
    for v in 0..200 {
        s.append(v);
        assert!(s.snapshot().len() <= 7);
    }
    assert_eq!(s.snapshot(), (193..200).collect::<Vec<u64>>());
}

#[test]
fn push_total_evicts_oldest() {
    let mut d: VecDeque<i64> = VecDeque::new();
    d.push_total(1, 2);
    d.push_total(2, 2);
    d.push_total(3, 2);
    assert_eq!(d, VecDeque::from(vec![2, 3]));
}

#[test]
fn push_total_trims_an_overfull_deque_to_max() {
    let mut d: VecDeque<i64> = VecDeque::from(vec![1, 2, 3, 4, 5]);
    d.push_total(6, 2);
    assert_eq!(d, VecDeque::from(vec![5, 6]));
}
