use netgraph::{
    chart_points, chart_spec, plan_frame, screen_layout, Region, SeriesStore, PING_CAPACITY,
    PING_Y_MAX, THROUGHPUT_CAPACITY, THROUGHPUT_Y_MAX,
};

#[test]
fn points_pair_index_with_value() {
    assert_eq!(chart_points(&vec![7i64, -3, 9]), vec![(0, 7), (1, -3), (2, 9)]);
    assert_eq!(chart_points::<u64>(&Vec::new()), Vec::new());
}

#[test]
fn chart_title_uses_newest_or_placeholder() {
    let c = chart_spec(&vec![4u64, 5, 6], 10, 100, 0);
    assert_eq!(c.latest, 6);
    assert_eq!(c.x_max, 10);
    assert_eq!(c.y_max, 100);
    let e = chart_spec::<i64>(&Vec::new(), 10, 100, 0);
    assert_eq!(e.latest, 0);
    assert!(e.points.is_empty());
}

#[test]
fn layout_splits_forty_sixty_then_halves() {
    let area = Region { x: 0, y: 0, width: 100, height: 50 };
    let l = screen_layout(area);
    assert_eq!(l.ping, Region { x: 0, y: 0, width: 100, height: 20 });
    assert_eq!(l.upload, Region { x: 0, y: 20, width: 50, height: 30 });
    assert_eq!(l.download, Region { x: 50, y: 20, width: 50, height: 30 });
}

#[test]
fn frame_plan_reads_each_series() {
    let mut store = SeriesStore::new();
    store.append_ping(1500);
    store.append_ping(2500);
    store.append_throughput(300, 400);
    let plan = plan_frame(&store, Region { x: 0, y: 0, width: 80, height: 24 });
    assert_eq!(plan.ping.points, vec![(0, 1500), (1, 2500)]);
    assert_eq!(plan.ping.latest, 2500);
    assert_eq!(plan.ping.x_max, PING_CAPACITY);
    assert_eq!(plan.ping.y_max, PING_Y_MAX);
    assert_eq!(plan.upload.points, vec![(0, 300)]);
    assert_eq!(plan.download.points, vec![(0, 400)]);
    assert_eq!(plan.download.latest, 400);
    assert_eq!(plan.upload.x_max, THROUGHPUT_CAPACITY);
    assert_eq!(plan.upload.y_max, THROUGHPUT_Y_MAX);
}

#[test]
fn empty_store_plans_placeholder_titles() {
    let store = SeriesStore::new();
    let plan = plan_frame(&store, Region { x: 0, y: 0, width: 80, height: 24 });
    assert_eq!(plan.ping.latest, 0);
    assert_eq!(plan.upload.latest, 0);
    assert_eq!(plan.download.latest, 0);
    assert!(plan.ping.points.is_empty());
}
