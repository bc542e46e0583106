use crate::store::{SeriesStore, PING_CAPACITY, THROUGHPUT_CAPACITY};
use ratatui::layout::{Constraint, Layout, Rect};
use vstd::prelude::*;

verus! {

/// Upper bound of the latency chart's y-axis: 200 ms, in microseconds.
pub const PING_Y_MAX: u64 = 200_000;

/// Upper bound of the throughput charts' y-axis, in bytes per second.
pub const THROUGHPUT_Y_MAX: i64 = 20_000;

/// Share of the screen height given to the latency chart, in percent.
pub const PING_HEIGHT_PERCENT: u16 = 40;

/// Share of the screen height given to the two throughput charts, in percent.
pub const THROUGHPUT_HEIGHT_PERCENT: u16 = 60;

/// A rectangle of terminal cells.
#[derive(Clone, Copy, Debug, PartialEq, Eq, Structural)]
pub struct Region {
    pub x: u16,
    pub y: u16,
    pub width: u16,
    pub height: u16,
}

/// The two areas, top then bottom, of `area` split by height into
/// `top` and `bottom` percent.
pub uninterp spec fn rows_by_percent(area: Region, top: u16, bottom: u16) -> (Region, Region);

/// The two areas, left then right, of `area` split by width, each given
/// `num / den` of it.
pub uninterp spec fn columns_by_ratio(area: Region, num: u32, den: u32) -> (Region, Region);

/// Relies on ratatui's `Layout::vertical(..).areas(..)` with two percentage
/// constraints; its result depends on the area and the percentages alone.
#[verifier::external_body]
fn split_rows(area: Region, top: u16, bottom: u16) -> (r: (Region, Region))
    ensures
        r == rows_by_percent(area, top, bottom),
{
    let rect = Rect::new(area.x, area.y, area.width, area.height);
    let [a, b] = Layout::vertical([Constraint::Percentage(top), Constraint::Percentage(bottom)])
        .areas(rect);
    (
        Region { x: a.x, y: a.y, width: a.width, height: a.height },
        Region { x: b.x, y: b.y, width: b.width, height: b.height },
    )
}

/// Relies on ratatui's `Layout::horizontal(..).areas(..)` with two equal
/// ratio constraints; its result depends on the area and the ratio alone.
#[verifier::external_body]
fn split_columns(area: Region, num: u32, den: u32) -> (r: (Region, Region))
    ensures
        r == columns_by_ratio(area, num, den),
{
    let rect = Rect::new(area.x, area.y, area.width, area.height);
    let [a, b] = Layout::horizontal([Constraint::Ratio(num, den), Constraint::Ratio(num, den)])
        .areas(rect);
    (
        Region { x: a.x, y: a.y, width: a.width, height: a.height },
        Region { x: b.x, y: b.y, width: b.width, height: b.height },
    )
}

/// Where each of the three charts is drawn.
#[derive(Clone, Copy, Debug, PartialEq, Eq, Structural)]
pub struct ScreenLayout {
    pub ping: Region,
    pub upload: Region,
    pub download: Region,
}

pub open spec fn screen_layout_of(area: Region) -> ScreenLayout {
    let rows = rows_by_percent(area, PING_HEIGHT_PERCENT, THROUGHPUT_HEIGHT_PERCENT);
    let columns = columns_by_ratio(rows.1, 1, 2);
    ScreenLayout { ping: rows.0, upload: columns.0, download: columns.1 }
}

/// Splits the screen: the top 40% for latency, the bottom 60% halved into
/// upload (left) and download (right).
pub fn screen_layout(area: Region) -> (r: ScreenLayout)
    ensures
        r == screen_layout_of(area),
{
    let (top, bottom) = split_rows(area, PING_HEIGHT_PERCENT, THROUGHPUT_HEIGHT_PERCENT);
    let (left, right) = split_columns(bottom, 1, 2);
    ScreenLayout { ping: top, upload: left, download: right }
}

/// The points of a line chart: sample `i` is drawn at `(i, samples[i])`.
pub open spec fn points_of<T>(samples: Seq<T>) -> Seq<(usize, T)> {
    Seq::new(samples.len(), |i: int| (i as usize, samples[i]))
}

/// What one chart shows: its points, its axis bounds (both starting at 0),
/// and the value named in its title.
pub struct ChartSpec<T> {
    pub points: Vec<(usize, T)>,
    pub x_max: usize,
    pub y_max: T,
    pub latest: T,
}

/// The newest sample, or `placeholder` when there is none.
pub open spec fn latest_or<T>(samples: Seq<T>, placeholder: T) -> T {
    if samples.len() == 0 {
        placeholder
    } else {
        samples.last()
    }
}

/// Maps a series snapshot to chart coordinates.
pub fn chart_points<T: Copy>(samples: &Vec<T>) -> (r: Vec<(usize, T)>)
    ensures
        r@ == points_of(samples@),
{
    let mut out: Vec<(usize, T)> = Vec::new();
    let mut i: usize = 0;
    while i < samples.len()
        invariant
            i <= samples@.len(),
            out@ == points_of(samples@.take(i as int)),
        decreases samples@.len() - i,
    {
        out.push((i, samples[i]));
        proof {
            assert(out@ =~= points_of(samples@.take(i + 1)));
        }
        i = i + 1;
    }
    proof {
        assert(samples@.take(i as int) =~= samples@);
    }
    out
}

/// The chart of one series snapshot, with an x-axis as wide as the series'
/// capacity.
pub fn chart_spec<T: Copy>(samples: &Vec<T>, x_max: usize, y_max: T, placeholder: T) -> (r:
    ChartSpec<T>)
    ensures
        r.points@ == points_of(samples@),
        r.x_max == x_max,
        r.y_max == y_max,
        r.latest == latest_or(samples@, placeholder),
{
    let points = chart_points(samples);
    let n = samples.len();
    let latest = if n == 0 {
        placeholder
    } else {
        samples[n - 1]
    };
    ChartSpec { points, x_max, y_max, latest }
}

/// One frame: each chart with the region it is drawn in.
pub struct FramePlan {
    pub layout: ScreenLayout,
    pub ping: ChartSpec<u64>,
    pub upload: ChartSpec<i64>,
    pub download: ChartSpec<i64>,
}

/// Plans a frame from the store's current contents on a screen of `area`.
pub fn plan_frame(store: &SeriesStore, area: Region) -> (r: FramePlan)
    requires
        store.wf(),
    ensures
        r.layout == screen_layout_of(area),
        r.ping.points@ == points_of(store.ping_view()),
        r.ping.x_max == PING_CAPACITY,
        r.ping.y_max == PING_Y_MAX,
        r.ping.latest == latest_or(store.ping_view(), 0),
        r.upload.points@ == points_of(store.sent_view()),
        r.upload.x_max == THROUGHPUT_CAPACITY,
        r.upload.y_max == THROUGHPUT_Y_MAX,
        r.upload.latest == latest_or(store.sent_view(), 0),
        r.download.points@ == points_of(store.received_view()),
        r.download.x_max == THROUGHPUT_CAPACITY,
        r.download.y_max == THROUGHPUT_Y_MAX,
        r.download.latest == latest_or(store.received_view(), 0),
{
    let layout = screen_layout(area);
    let ping = chart_spec(&store.snapshot_ping(), PING_CAPACITY, PING_Y_MAX, 0);
    let upload = chart_spec(&store.snapshot_sent(), THROUGHPUT_CAPACITY, THROUGHPUT_Y_MAX, 0);
    let download = chart_spec(
        &store.snapshot_received(),
        THROUGHPUT_CAPACITY,
        THROUGHPUT_Y_MAX,
        0,
    );
    FramePlan { layout, ping, upload, download }
}

} // verus!
