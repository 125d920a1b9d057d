//! The scene: everything that is to be drawn, in pixels.
//!
//! `assemble_scene` is the one entry point that a renderer needs. It refuses
//! a dataset that it cannot lay out faithfully and otherwise returns the size
//! of the canvas, the ticks of the axis and one marker per event, in the order
//! of the events. A renderer draws what it is given and computes nothing.
//!
//! Two choices are made here. The axis must run from one bare year to
//! another; a full date as a bound is refused as `UnsupportedAxisShape`. And
//! an event must lie on the axis with all of its dates, the bounds included;
//! one event that does not has the whole dataset refused as
//! `OutOfBoundsPoint`, and nothing is clamped.

use vstd::prelude::*;

use crate::axis::{spec_axis_ticks, tick_views, ticks_of_axis, Tick, TickView, END_RADIUS};
use crate::coords::{
    spec_x_from_point, spec_y_from_lane, x_of_point, y_from_lane, PIXELS_PER_YEAR, SIDE_MARGIN,
};
use crate::error::LayoutError;
use crate::stacking::{lane_of, EventStackingManager};
use crate::timeline_data::{EventTime, TimePeriod, TimelineData, TimelineEvent, Timestamp};

verus! {

/// The height of the canvas.
pub const HEIGHT: u32 = 250;

/// The vertical position of the axis: the middle of the canvas.
pub const CENTER_Y: u32 = HEIGHT / 2;

/// The free space between the tallest tick and the lowest lane.
pub const EVENTS_BOTTOM_MARGIN: u32 = 5;

/// The vertical position of lane 0: above the tallest tick, with the margin
/// between them.
pub const EVENTS_Y: u32 = CENTER_Y - END_RADIUS - EVENTS_BOTTOM_MARGIN;

/// The shape of a marker, with its horizontal extent.
#[derive(Debug, Clone, Copy, PartialEq, Eq, Structural)]
pub enum MarkerShape {
    /// A dot at `x`, for an event at a single point in time.
    PointMarker { x: i64 },
    /// A line from `x1` to `x2`, for an event that spans a period.
    RangeMarker { x1: i64, x2: i64 },
}

/// A place on the canvas.
#[derive(Debug, Clone, Copy, PartialEq, Eq, Structural)]
pub struct Anchor {
    pub x: i64,
    pub y: i64,
}

/// What a `MarkerShape` holds, as mathematical values.
pub enum MarkerShapeView {
    PointMarker { x: int },
    RangeMarker { x1: int, x2: int },
}

impl View for MarkerShape {
    type V = MarkerShapeView;

    open spec fn view(&self) -> MarkerShapeView {
        match self {
            MarkerShape::PointMarker { x } => MarkerShapeView::PointMarker { x: *x as int },
            MarkerShape::RangeMarker { x1, x2 } => MarkerShapeView::RangeMarker {
                x1: *x1 as int,
                x2: *x2 as int,
            },
        }
    }
}

/// What an `Anchor` holds, as mathematical values.
pub struct AnchorView {
    pub x: int,
    pub y: int,
}

impl View for Anchor {
    type V = AnchorView;

    open spec fn view(&self) -> AnchorView {
        AnchorView { x: self.x as int, y: self.y as int }
    }
}

/// The marker of one event.
#[derive(Debug, Clone, PartialEq, Eq)]
pub struct EventMarker {
    pub shape: MarkerShape,
    /// The lane of the event: the number of earlier events that it overlaps.
    pub lane: u32,
    /// The vertical position of the marker, from its lane.
    pub y: i64,
    pub color: String,
    /// Where the detail panel of the event hangs.
    pub anchor: Anchor,
}

/// What an `EventMarker` holds, as mathematical values.
pub struct EventMarkerView {
    pub shape: MarkerShapeView,
    pub lane: nat,
    pub y: int,
    pub color: Seq<char>,
    pub anchor: AnchorView,
}

impl View for EventMarker {
    type V = EventMarkerView;

    open spec fn view(&self) -> EventMarkerView {
        EventMarkerView {
            shape: self.shape@,
            lane: self.lane as nat,
            y: self.y as int,
            color: self.color@,
            anchor: self.anchor@,
        }
    }
}

/// All that a renderer draws.
#[derive(Debug, Clone, PartialEq, Eq)]
pub struct Scene {
    pub width: i64,
    pub height: u32,
    pub ticks: Vec<Tick>,
    /// One marker per event, in the order of the events.
    pub markers: Vec<EventMarker>,
}

/// What a `Scene` holds, as mathematical values.
pub struct SceneView {
    pub width: int,
    pub height: int,
    pub ticks: Seq<TickView>,
    pub markers: Seq<EventMarkerView>,
}

impl View for Scene {
    type V = SceneView;

    open spec fn view(&self) -> SceneView {
        SceneView {
            width: self.width as int,
            height: self.height as int,
            ticks: tick_views(self.ticks@),
            markers: self.markers@.map_values(|marker: EventMarker| marker@),
        }
    }
}

/// Both bounds of the axis are bare years.
pub open spec fn axis_is_year_range(axis: TimePeriod) -> bool {
    axis.start() is Year && axis.end() is Year
}

/// The event time lies on the axis from its first to its last date.
pub open spec fn event_on_axis(axis: TimePeriod, time: EventTime) -> bool {
    axis.covers(&time.start_date()) && axis.covers(&time.end_date())
}

/// The times of the events, in their order.
pub open spec fn event_times(events: Seq<TimelineEvent>) -> Seq<EventTime> {
    events.map_values(|event: TimelineEvent| event.time)
}

/// The width of the canvas for an axis: its years, and a margin on both
/// sides.
pub open spec fn canvas_width(axis: TimePeriod) -> int {
    axis.spec_years() * PIXELS_PER_YEAR + 2 * SIDE_MARGIN
}

/// The shape of the marker of an event at `time` on an axis that starts with
/// `axis_start_year`.
pub open spec fn marker_shape(axis_start_year: int, time: EventTime) -> MarkerShapeView {
    match time {
        EventTime::Single(single) => MarkerShapeView::PointMarker {
            x: spec_x_from_point(axis_start_year, single.date()),
        },
        EventTime::Period(period) => MarkerShapeView::RangeMarker {
            x1: spec_x_from_point(axis_start_year, period.start().date()),
            x2: spec_x_from_point(axis_start_year, period.end().date()),
        },
    }
}

/// The marker of the event at index `k`.
pub open spec fn marker_of(data: TimelineData, k: int) -> EventMarkerView
    recommends
        0 <= k < data.events@.len(),
{
    let axis_start_year = data.time_period.start().year() as int;
    let event = data.events@[k];
    let lane = lane_of(event_times(data.events@), k);
    let y = spec_y_from_lane(EVENTS_Y as int, lane as int);
    EventMarkerView {
        shape: marker_shape(axis_start_year, event.time),
        lane,
        y,
        color: event.color@,
        anchor: AnchorView { x: spec_x_from_point(axis_start_year, event.time.start_date()), y },
    }
}

/// The scene of a dataset that can be laid out.
pub open spec fn scene_of(data: TimelineData) -> SceneView {
    SceneView {
        width: canvas_width(data.time_period),
        height: HEIGHT as int,
        ticks: spec_axis_ticks(
            data.time_period.start().year() as int,
            data.time_period.end().year() as int,
        ),
        markers: Seq::new(data.events@.len(), |k: int| marker_of(data, k)),
    }
}

/// Lays out a dataset.
///
/// The dataset is refused as `UnsupportedAxisShape` where a bound of its axis
/// is not a bare year, and else as `OutOfBoundsPoint` where one of its events
/// does not lie on the axis. In every other case the scene comes back.
pub fn assemble_scene(data: &TimelineData) -> (r: Result<Scene, LayoutError>)
    requires
        data.events@.len() <= u32::MAX,
    ensures
        match r {
            Ok(scene) => {
                &&& axis_is_year_range(data.time_period)
                &&& forall|k: int|
                    0 <= k < data.events@.len() ==> event_on_axis(
                        data.time_period,
                        (#[trigger] data.events@[k]).time,
                    )
                &&& scene@ == scene_of(*data)
            },
            Err(LayoutError::UnsupportedAxisShape) => !axis_is_year_range(data.time_period),
            Err(LayoutError::OutOfBoundsPoint) => {
                &&& axis_is_year_range(data.time_period)
                &&& exists|k: int|
                    0 <= k < data.events@.len() && !event_on_axis(
                        data.time_period,
                        (#[trigger] data.events@[k]).time,
                    )
            },
            Err(LayoutError::MalformedPeriod) => false,
        },
{
    let axis = &data.time_period;
    let (start, end) = match (axis.start(), axis.end()) {
        (Timestamp::Year(start), Timestamp::Year(end)) => (start, end),
        _ => {
            return Err(LayoutError::UnsupportedAxisShape);
        },
    };
    proof {
        use_type_invariant(axis);
    }
    let years = axis.years();
    assert(years * PIXELS_PER_YEAR == years * 5);
    let width: i64 = years as i64 * (PIXELS_PER_YEAR as i64) + 2 * (SIDE_MARGIN as i64);
    let ticks = ticks_of_axis(start, end);
    let ghost times = event_times(data.events@);
    let mut stacking = EventStackingManager::new();
    let mut markers: Vec<EventMarker> = Vec::new();
    let mut k: usize = 0;
    while k < data.events.len()
        invariant
            k <= data.events@.len(),
            data.events@.len() <= u32::MAX,
            axis == &data.time_period,
            axis.start() == Timestamp::Year(start),
            axis.end() == Timestamp::Year(end),
            times == event_times(data.events@),
            stacking@ == times.take(k as int),
            markers@.len() == k,
            forall|j: int|
                0 <= j < k ==> event_on_axis(data.time_period, (#[trigger] data.events@[j]).time),
            forall|j: int| 0 <= j < k ==> (#[trigger] markers@[j])@ == marker_of(*data, j),
        decreases data.events@.len() - k,
    {
        let event = &data.events[k];
        if !on_axis(axis, &event.time) {
            return Err(LayoutError::OutOfBoundsPoint);
        }
        let lane = stacking.register(event.time);
        proof {
            assert(times.take(k + 1) =~= times.take(k as int).push(times[k as int]));
        }
        let y = y_from_lane(EVENTS_Y, lane);
        let shape = match event.time {
            EventTime::Single(single) => MarkerShape::PointMarker {
                x: x_of_point(start, &single.date()),
            },
            EventTime::Period(period) => {
                proof {
                    use_type_invariant(period);
                }
                MarkerShape::RangeMarker {
                    x1: x_of_point(start, &period.start().date()),
                    x2: x_of_point(start, &period.end().date()),
                }
            },
        };
        let anchor = Anchor { x: x_of_point(start, &event.time.start_date()), y };
        markers.push(EventMarker { shape, lane, y, color: event.color.clone(), anchor });
        k += 1;
    }
    let scene = Scene { width, height: HEIGHT, ticks, markers };
    assert(scene@.markers =~= scene_of(*data).markers);
    Ok(scene)
}

/// Whether the event time lies on the axis from its first to its last date.
fn on_axis(axis: &TimePeriod, time: &EventTime) -> (r: bool)
    ensures
        r == event_on_axis(*axis, *time),
{
    axis.covers(&time.start_date()) && axis.covers(&time.end_date())
}

} // verus!
