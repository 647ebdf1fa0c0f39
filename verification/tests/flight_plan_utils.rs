use acars_decoder::common::route::Route;
use acars_decoder::common::waypoint::{Offset, TimeFormat, Waypoint};
use acars_decoder::utils::flight_plan_utils::RouteUtils;

fn named(name: &str) -> Waypoint {
    Waypoint { name: name.to_string(), ..Default::default() }
}

fn route(name: Option<&str>, runway: Option<&str>, names: &[&str]) -> Route {
    Route {
        name: name.map(|text| text.to_string()),
        runway: runway.map(|text| text.to_string()),
        waypoints: names.iter().map(|name| named(name)).collect(),
    }
}

#[test]
fn flight_state_of_each_code() {
    assert_eq!(RouteUtils::format_flight_state("TO"), "Takeoff");
    assert_eq!(RouteUtils::format_flight_state("IC"), "Initial Climb");
    assert_eq!(RouteUtils::format_flight_state("CL"), "Climb");
    assert_eq!(RouteUtils::format_flight_state("ER"), "En Route");
    assert_eq!(RouteUtils::format_flight_state("DC"), "Descent");
    assert_eq!(RouteUtils::format_flight_state("AP"), "Approach");
}

#[test]
fn flight_state_of_unknown_codes() {
    assert_eq!(RouteUtils::format_flight_state("ZZ"), "Unknown ZZ");
    assert_eq!(RouteUtils::format_flight_state(""), "Unknown ");
    assert_eq!(RouteUtils::format_flight_state("to"), "Unknown to");
    assert_eq!(RouteUtils::format_flight_state("TOO"), "Unknown TOO");
    assert_eq!(RouteUtils::format_flight_state("T"), "Unknown T");
    assert_eq!(RouteUtils::format_flight_state("TC"), "Unknown TC");
    assert_eq!(RouteUtils::format_flight_state("\u{e9}\u{e9}"), "Unknown \u{e9}\u{e9}");
}

#[test]
fn leg_with_offset() {
    let waypoint = RouteUtils::get_waypoint("ABC123-0456");
    assert_eq!(
        waypoint,
        Waypoint {
            name: "ABC".to_string(),
            latitude: None,
            longitude: None,
            time: None,
            time_format: None,
            offset: Some(Offset { bearing: 123, distance: 456 }),
        }
    );
    let offset = waypoint.offset.unwrap();
    assert_eq!(offset.bearing as f32, 123.0);
    assert_eq!(offset.distance as f32 / 10.0, 45.6);
}

#[test]
fn leg_with_offset_at_the_limits() {
    let waypoint = RouteUtils::get_waypoint("A000-0000");
    assert_eq!(waypoint.name, "A");
    assert_eq!(waypoint.offset, Some(Offset { bearing: 0, distance: 0 }));
    let waypoint = RouteUtils::get_waypoint("LONGNAME999-9999");
    assert_eq!(waypoint.name, "LONGNAME");
    assert_eq!(waypoint.offset, Some(Offset { bearing: 999, distance: 9999 }));
}

#[test]
fn legs_that_only_look_like_offsets_are_names() {
    for leg in [
        "123-0456",
        "abc123-0456",
        "ABC12-0456",
        "ABC123-456",
        "ABC1234-0456",
        "ABC123-04567",
        "ABC123_0456",
        "AB1C123-0456",
        " ABC123-0456",
        "ABC123-0456 ",
        "ABC123-0456\n",
        "ABC\u{661}\u{662}\u{663}-0456",
        "\u{c9}BC123-0456",
    ] {
        assert_eq!(RouteUtils::get_waypoint(leg), named(leg), "{:?}", leg);
    }
}

#[test]
fn leg_with_name_and_position() {
    let waypoint = RouteUtils::get_waypoint("FIX,N12345W123456");
    assert_eq!(
        waypoint,
        Waypoint {
            name: "FIX".to_string(),
            latitude: Some(37725),
            longitude: Some(-371280),
            time: None,
            time_format: None,
            offset: None,
        }
    );
    let waypoint = RouteUtils::get_waypoint("Z\u{fc}rich,S12345 E123456");
    assert_eq!(waypoint.name, "Z\u{fc}rich");
    assert_eq!(waypoint.latitude, Some(-37725));
    assert_eq!(waypoint.longitude, Some(371280));
    let waypoint = RouteUtils::get_waypoint(",N12345W123456");
    assert_eq!(waypoint.name, "");
    assert_eq!(waypoint.latitude, Some(37725));
}

#[test]
fn leg_that_is_a_bare_position() {
    let waypoint = RouteUtils::get_waypoint("N12345W123456");
    assert_eq!(
        waypoint,
        Waypoint {
            name: String::new(),
            latitude: Some(37725),
            longitude: Some(-371280),
            time: None,
            time_format: None,
            offset: None,
        }
    );
    let waypoint = RouteUtils::get_waypoint("N12345 W123456");
    assert_eq!(waypoint.name, "");
    assert_eq!(waypoint.longitude, Some(-371280));
    let waypoint = RouteUtils::get_waypoint("N12345W123456,");
    assert_eq!(waypoint.name, "N12345W123456");
    assert_eq!(waypoint.latitude, Some(37725));
    let waypoint = RouteUtils::get_waypoint("N12345W123456X");
    assert_eq!(waypoint.name, "");
    assert_eq!(waypoint.latitude, Some(37725));
}

#[test]
fn leg_that_is_a_name() {
    for leg in [
        "",
        "FIX",
        "FIX,NOWHERE",
        "A,B,C",
        "A,N12345W123456,",
        "FIX,N12345W12345",
        "N12345W123456XY",
        "N12345W12345",
    ] {
        assert_eq!(RouteUtils::get_waypoint(leg), named(leg), "{:?}", leg);
    }
}

#[test]
fn waypoint_with_a_name_only() {
    assert_eq!(RouteUtils::waypoint_to_string(&named("FIX")), "FIX");
    assert_eq!(RouteUtils::waypoint_to_string(&named("")), "");
}

#[test]
fn waypoint_with_a_position() {
    let mut waypoint = named("FIX");
    waypoint.latitude = Some(37035);
    waypoint.longitude = Some(-370368);
    assert_eq!(RouteUtils::waypoint_to_string(&waypoint), "FIX(12.345 N, 123.456 W)");
    waypoint.longitude = None;
    assert_eq!(RouteUtils::waypoint_to_string(&waypoint), "FIX");
    waypoint.latitude = None;
    waypoint.longitude = Some(1);
    assert_eq!(RouteUtils::waypoint_to_string(&waypoint), "FIX");
}

#[test]
fn waypoint_with_an_offset() {
    let mut waypoint = named("ABC");
    waypoint.offset = Some(Offset { bearing: 123, distance: 456 });
    assert_eq!(RouteUtils::waypoint_to_string(&waypoint), "ABC[123\u{b0} 45.6nm]");
    waypoint.offset = Some(Offset { bearing: 7, distance: 450 });
    assert_eq!(RouteUtils::waypoint_to_string(&waypoint), "ABC[7\u{b0} 45nm]");
    waypoint.offset = Some(Offset { bearing: 0, distance: 0 });
    assert_eq!(RouteUtils::waypoint_to_string(&waypoint), "ABC[0\u{b0} 0nm]");
    waypoint.offset = Some(Offset { bearing: 360, distance: 5 });
    assert_eq!(RouteUtils::waypoint_to_string(&waypoint), "ABC[360\u{b0} 0.5nm]");
    waypoint.offset = Some(Offset { bearing: u16::MAX, distance: u16::MAX });
    assert_eq!(RouteUtils::waypoint_to_string(&waypoint), "ABC[65535\u{b0} 6553.5nm]");
}

#[test]
fn waypoint_with_a_time() {
    let mut waypoint = named("FIX");
    waypoint.time = Some("12:00:00".to_string());
    assert_eq!(RouteUtils::waypoint_to_string(&waypoint), "FIX");
    waypoint.time_format = Some(TimeFormat::TOD);
    assert_eq!(RouteUtils::waypoint_to_string(&waypoint), "FIX@12:00:00");
    waypoint.time_format = Some(TimeFormat::Unspecified);
    assert_eq!(RouteUtils::waypoint_to_string(&waypoint), "FIX@12:00:00");
    waypoint.time = None;
    assert_eq!(RouteUtils::waypoint_to_string(&waypoint), "FIX");
}

#[test]
fn waypoint_with_everything() {
    let waypoint = Waypoint {
        name: "FIX".to_string(),
        latitude: Some(-3000),
        longitude: Some(6001),
        time: Some("noon".to_string()),
        time_format: Some(TimeFormat::EPOCH),
        offset: Some(Offset { bearing: 90, distance: 12 }),
    };
    assert_eq!(
        RouteUtils::waypoint_to_string(&waypoint),
        "FIX(1.000 S, 2.000 E)[90\u{b0} 1.2nm]@noon"
    );
}

#[test]
fn leg_that_was_read_is_rendered() {
    let waypoint = RouteUtils::get_waypoint("ABC123-0456");
    assert_eq!(RouteUtils::waypoint_to_string(&waypoint), "ABC[123\u{b0} 45.6nm]");
    let waypoint = RouteUtils::get_waypoint("FIX,N12345W123456");
    assert_eq!(RouteUtils::waypoint_to_string(&waypoint), "FIX(12.575 N, 123.760 W)");
}

#[test]
fn route_of_two_plain_waypoints() {
    assert_eq!(RouteUtils::route_to_string(&route(None, None, &["A", "B"])), "A > B");
}

#[test]
fn route_without_waypoints() {
    assert_eq!(RouteUtils::route_to_string(&route(None, None, &[])), "");
    assert_eq!(RouteUtils::route_to_string(&route(Some("R1"), None, &[])), "R1: ");
    assert_eq!(RouteUtils::route_to_string(&route(None, Some("27L"), &[])), "(27L): ");
}

#[test]
fn route_with_name_and_runway() {
    assert_eq!(
        RouteUtils::route_to_string(&route(Some("R1"), Some("27L"), &["A", "B", "C"])),
        "R1(27L): A > B > C"
    );
    assert_eq!(RouteUtils::route_to_string(&route(Some("R1"), None, &["A", "B"])), "R1: A > B");
    assert_eq!(
        RouteUtils::route_to_string(&route(None, Some("27L"), &["A", "B"])),
        "(27L): A > B"
    );
    assert_eq!(RouteUtils::route_to_string(&route(Some(""), None, &["A", "B"])), "A > B");
    assert_eq!(RouteUtils::route_to_string(&route(Some(""), Some(""), &["A", "B"])), "(): A > B");
}

#[test]
fn route_with_one_waypoint() {
    assert_eq!(RouteUtils::route_to_string(&route(None, None, &["A"])), "A");
    assert_eq!(
        RouteUtils::route_to_string(&route(Some("R1"), None, &["A"])),
        "R1 starting at A"
    );
    assert_eq!(
        RouteUtils::route_to_string(&route(Some("R1"), Some("09"), &["A"])),
        "R1(09) starting at A"
    );
}

#[test]
fn route_with_empty_waypoints() {
    assert_eq!(RouteUtils::route_to_string(&route(None, None, &["A", "", "B"])), "A >> B");
    assert_eq!(RouteUtils::route_to_string(&route(None, None, &["", "A"])), ">> A");
    assert_eq!(RouteUtils::route_to_string(&route(None, None, &["A", ""])), "A > ");
    assert_eq!(RouteUtils::route_to_string(&route(None, None, &["", ""])), ">> ");
    assert_eq!(RouteUtils::route_to_string(&route(None, None, &["", "", "A"])), " >> A");
    assert_eq!(
        RouteUtils::route_to_string(&route(None, None, &["A", "", "", "B"])),
        "A >>  > B"
    );
    assert_eq!(
        RouteUtils::route_to_string(&route(Some("R"), None, &["", "A"])),
        "R: >> A"
    );
}

#[test]
fn route_with_arrows_in_its_names() {
    assert_eq!(RouteUtils::route_to_string(&route(None, None, &["A>  >B"])), "A>>B");
    assert_eq!(RouteUtils::route_to_string(&route(None, None, &[" > A"])), ">> A");
    assert_eq!(RouteUtils::route_to_string(&route(None, None, &[">  >  >"])), ">>  >");
}

#[test]
fn route_of_legs_that_were_read() {
    let route = Route {
        name: Some("ARRIVAL".to_string()),
        runway: Some("27L".to_string()),
        waypoints: ["ABC123-0456", "FIX,N12345W123456", "N12345W123456", "END"]
            .iter()
            .map(|leg| RouteUtils::get_waypoint(leg))
            .collect(),
    };
    assert_eq!(
        RouteUtils::route_to_string(&route),
        "ARRIVAL(27L): ABC[123\u{b0} 45.6nm] > FIX(12.575 N, 123.760 W) > (12.575 N, 123.760 W) > END"
    );
}
