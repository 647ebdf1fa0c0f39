use super::internal_message::text_view;
use vstd::prelude::*;

verus! {

/// How the time of a waypoint is to be read.
#[derive(Debug, Clone, Copy, PartialEq, Eq, Structural)]
pub enum TimeFormat {
    TOD,
    EPOCH,
    /// No way of reading it is given; the default.
    Unspecified,
}

impl Default for TimeFormat {
    fn default() -> (format: Self)
        ensures
            format == TimeFormat::Unspecified,
    {
        TimeFormat::Unspecified
    }
}

/// Where a waypoint lies relative to the fix it is named after.
#[derive(Debug, Clone, Copy, PartialEq, Eq, Structural)]
pub struct Offset {
    /// Bearing from the fix, in whole degrees.
    pub bearing: u16,
    /// Distance from the fix, in tenths of a nautical mile.
    pub distance: u16,
}

impl Default for Offset {
    fn default() -> (offset: Self)
        ensures
            offset == (Offset { bearing: 0, distance: 0 }),
    {
        Offset { bearing: 0, distance: 0 }
    }
}

/// One leg of a route.
///
/// A leg read from text has a position or an offset from a named fix,
/// never both; nothing stops a caller from setting both.
#[derive(Debug, Clone, PartialEq, Eq)]
pub struct Waypoint {
    pub name: String,
    /// Latitude in ticks, north positive.
    pub latitude: Option<i32>,
    /// Longitude in ticks, east positive.
    pub longitude: Option<i32>,
    /// Time over the waypoint, as the text that is shown for it.
    pub time: Option<String>,
    pub time_format: Option<TimeFormat>,
    pub offset: Option<Offset>,
}

/// A `Waypoint` with its texts as sequences of characters.
pub struct WaypointView {
    pub name: Seq<char>,
    pub latitude: Option<i32>,
    pub longitude: Option<i32>,
    pub time: Option<Seq<char>>,
    pub time_format: Option<TimeFormat>,
    pub offset: Option<Offset>,
}

impl View for Waypoint {
    type V = WaypointView;

    open spec fn view(&self) -> WaypointView {
        WaypointView {
            name: self.name@,
            latitude: self.latitude,
            longitude: self.longitude,
            time: text_view(self.time),
            time_format: self.time_format,
            offset: self.offset,
        }
    }
}

impl WaypointView {
    /// The waypoint that has a name and nothing else.
    pub open spec fn named(name: Seq<char>) -> WaypointView {
        WaypointView {
            name,
            latitude: None,
            longitude: None,
            time: None,
            time_format: None,
            offset: None,
        }
    }
}

impl Default for Waypoint {
    fn default() -> (waypoint: Self)
        ensures
            waypoint@ == WaypointView::named(Seq::empty()),
    {
        Waypoint {
            name: String::new(),
            latitude: None,
            longitude: None,
            time: None,
            time_format: None,
            offset: None,
        }
    }
}

} // verus!
