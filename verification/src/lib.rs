//! Layout engine for a horizontal timeline of historical events.
//!
//! The crate turns a list of dated events and an overall covering period into
//! pixel geometry: an axis with tick marks, one marker per event, and a lane
//! per event so that events close in time do not collide. Everything here is
//! a pure function of its arguments; drawing is left to the caller.

pub mod axis;
pub mod coords;
pub mod error;
pub mod scene;
pub mod stacking;
pub mod text;
pub mod timeline_data;

pub use axis::{axis_ticks, ceil_nearest_ten, Tick};
pub use coords::{x_from_point, x_from_year, y_from_lane};
pub use error::LayoutError;
pub use scene::{assemble_scene, Anchor, EventMarker, MarkerShape, Scene};
pub use stacking::{assign_lanes, EventStackingManager};
pub use timeline_data::{
    default_color, EventTime, SimpleDate, TimePeriod, TimelineData, TimelineEvent, TimelineEvents,
    Timestamp,
};
