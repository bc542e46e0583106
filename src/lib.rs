//! Sampling and bounded history for a terminal network dashboard.
//!
//! Probes measure latency and throughput on fixed cadences and append samples
//! into fixed-capacity series; a render step maps each series to chart data.

pub mod input;
pub mod probe;
pub mod render;
pub mod series;
pub mod store;

pub use input::InputLine;
pub use probe::{record_latency, total_bytes, ThroughputProbe, Totals};
pub use render::{
    chart_points, chart_spec, plan_frame, screen_layout, ChartSpec, FramePlan, Region, ScreenLayout,
    PING_HEIGHT_PERCENT, PING_Y_MAX, THROUGHPUT_HEIGHT_PERCENT, THROUGHPUT_Y_MAX,
};
pub use series::{keep_last, BoundedSeries, PushTotal};
pub use store::{SeriesStore, PING_CAPACITY, THROUGHPUT_CAPACITY};
