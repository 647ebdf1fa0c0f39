use super::internal_message::text_view;
use super::waypoint::{Waypoint, WaypointView};
use vstd::prelude::*;

verus! {

/// A flight route: its legs in the order in which they are flown.
pub struct Route {
    pub name: Option<String>,
    pub runway: Option<String>,
    pub waypoints: Vec<Waypoint>,
}

/// A `Route` with its texts as sequences of characters.
pub struct RouteView {
    pub name: Option<Seq<char>>,
    pub runway: Option<Seq<char>>,
    pub waypoints: Seq<WaypointView>,
}

/// The views of a list of waypoints, in the same order.
pub open spec fn waypoint_views(waypoints: Seq<Waypoint>) -> Seq<WaypointView> {
    Seq::new(waypoints.len(), |i: int| waypoints[i]@)
}

impl View for Route {
    type V = RouteView;

    open spec fn view(&self) -> RouteView {
        RouteView {
            name: text_view(self.name),
            runway: text_view(self.runway),
            waypoints: waypoint_views(self.waypoints@),
        }
    }
}

} // verus!
