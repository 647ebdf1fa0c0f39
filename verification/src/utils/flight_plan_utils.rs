use super::coordinate_utils::{
    all_digits, coordinate_string, coordinate_text, decimal_minutes_coordinates,
    decode_string_coordinates_decimal_minutes, digits_value, is_digit, lemma_digits_value_bound,
    parse_digits,
};
use super::text_utils::{
    chars_of, decimal_text, digit_char, digit_of, joined, push_decimal, replace, replaced,
    string_of, DIGIT_ZERO,
};
use crate::common::coords::Coordinates;
use crate::common::route::{waypoint_views, Route, RouteView};
use crate::common::waypoint::{Offset, Waypoint, WaypointView};
use vstd::prelude::*;
use vstd::utf8::{encode_utf8, is_ascii_chars, is_ascii_chars_encode_utf8};

verus! {

/// The pattern of a leg that lies at an offset from a fix: the name of the
/// fix in capital letters, three digits of bearing, a dash and four digits
/// of distance, and nothing before or behind them.
pub const OFFSET_LEG_PATTERN: &'static str = "^([A-Z]+)([0-9]{3})-([0-9]{4})$";

/// True of the capital letters `A` to `Z`.
pub open spec fn is_capital(c: char) -> bool {
    'A' <= c <= 'Z'
}

/// True of the digits `0` to `9`.
pub open spec fn is_digit_char(c: char) -> bool {
    '0' <= c <= '9'
}

/// True when every character of `text` is a digit.
pub open spec fn all_digit_chars(text: Seq<char>) -> bool {
    forall|i: int| 0 <= i < text.len() ==> is_digit_char(#[trigger] text[i])
}

/// The number that a text of digits writes down.
pub open spec fn number_of(text: Seq<char>) -> nat
    decreases text.len(),
{
    if text.len() == 0 {
        0
    } else {
        (10 * number_of(text.drop_last()) + (text.last() as nat - DIGIT_ZERO)) as nat
    }
}

/// The name of the fix in an offset leg: all but its last eight characters.
pub open spec fn offset_leg_name(leg: Seq<char>) -> Seq<char> {
    leg.subrange(0, leg.len() - 8)
}

/// The three digits of bearing in an offset leg.
pub open spec fn offset_leg_bearing(leg: Seq<char>) -> Seq<char> {
    leg.subrange(leg.len() - 8, leg.len() - 5)
}

/// The four digits of distance in an offset leg.
pub open spec fn offset_leg_distance(leg: Seq<char>) -> Seq<char> {
    leg.subrange(leg.len() - 4, leg.len() as int)
}

/// True of the legs that `OFFSET_LEG_PATTERN` describes.
pub open spec fn is_offset_leg(leg: Seq<char>) -> bool {
    &&& leg.len() >= 9
    &&& forall|i: int| 0 <= i < leg.len() - 8 ==> is_capital(#[trigger] leg[i])
    &&& all_digit_chars(offset_leg_bearing(leg))
    &&& leg[leg.len() - 5] == '-'
    &&& all_digit_chars(offset_leg_distance(leg))
}

/// True when `text` has a comma at `at` and nowhere else.
pub open spec fn only_comma_at(text: Seq<char>, at: int) -> bool {
    &&& 0 <= at < text.len()
    &&& text[at] == ','
    &&& forall|j: int| 0 <= j < text.len() && j != at ==> text[j] != ','
}

/// A text split in two at its comma.
pub struct TwoParts {
    /// What stands before the comma.
    pub name: Seq<char>,
    /// What stands behind the comma.
    pub rest: Seq<char>,
}

/// The two parts of a text that holds exactly one comma.
pub open spec fn two_parts(text: Seq<char>) -> Option<TwoParts> {
    if exists|at: int| only_comma_at(text, at) {
        let at = choose|at: int| only_comma_at(text, at);
        Some(
            TwoParts {
                name: text.subrange(0, at),
                rest: text.subrange(at + 1, text.len() as int),
            },
        )
    } else {
        None
    }
}

/// The waypoint with a name and a position.
pub open spec fn positioned(name: Seq<char>, position: Coordinates) -> WaypointView {
    WaypointView {
        name,
        latitude: Some(position.latitude),
        longitude: Some(position.longitude),
        time: None,
        time_format: None,
        offset: None,
    }
}

/// The waypoint that an offset leg describes.
pub open spec fn offset_waypoint(leg: Seq<char>) -> WaypointView {
    WaypointView {
        name: offset_leg_name(leg),
        latitude: None,
        longitude: None,
        time: None,
        time_format: None,
        offset: Some(
            Offset {
                bearing: number_of(offset_leg_bearing(leg)) as u16,
                distance: number_of(offset_leg_distance(leg)) as u16,
            },
        ),
    }
}

/// The waypoint of a leg that names a position: a text with exactly one
/// comma, behind which stands a coordinate in degrees and decimal minutes.
pub open spec fn named_position(leg: Seq<char>) -> Option<WaypointView> {
    match two_parts(leg) {
        Some(parts) => match decimal_minutes_coordinates(encode_utf8(parts.rest)) {
            Some(position) => Some(positioned(parts.name, position)),
            None => None,
        },
        None => None,
    }
}

/// The waypoint of a leg that is a bare position: a text of 13 or 14 bytes
/// that is a coordinate in degrees and decimal minutes. Its name is what
/// stands before the comma if the text has exactly one, else empty.
pub open spec fn bare_position(leg: Seq<char>) -> Option<WaypointView> {
    let bytes = encode_utf8(leg);
    if bytes.len() == 13 || bytes.len() == 14 {
        match decimal_minutes_coordinates(bytes) {
            Some(position) => Some(
                positioned(
                    match two_parts(leg) {
                        Some(parts) => parts.name,
                        None => Seq::empty(),
                    },
                    position,
                ),
            ),
            None => None,
        }
    } else {
        None
    }
}

/// The waypoint that a leg describes. The first of these that applies
/// decides:
///
/// 1. an offset leg gives the fix and the offset from it;
/// 2. a leg that names a position gives the name and the position;
/// 3. a leg that is a bare position gives the position;
/// 4. any other text is the name of a waypoint of which no more is known.
pub open spec fn leg_waypoint(leg: Seq<char>) -> WaypointView {
    if is_offset_leg(leg) {
        offset_waypoint(leg)
    } else if named_position(leg) is Some {
        named_position(leg)->0
    } else if bare_position(leg) is Some {
        bare_position(leg)->0
    } else {
        WaypointView::named(leg)
    }
}

/// The words for a two-letter flight phase code; a code that is not known
/// is given back behind the word `Unknown`.
pub open spec fn flight_state_text(state: Seq<char>) -> Seq<char> {
    if state == "TO"@ {
        "Takeoff"@
    } else if state == "IC"@ {
        "Initial Climb"@
    } else if state == "CL"@ {
        "Climb"@
    } else if state == "ER"@ {
        "En Route"@
    } else if state == "DC"@ {
        "Descent"@
    } else if state == "AP"@ {
        "Approach"@
    } else {
        "Unknown "@ + state
    }
}

/// A count of tenths written as a decimal number: with one digit behind
/// the point, or without a point where that digit would be zero.
pub open spec fn tenths_text(count: nat) -> Seq<char> {
    if count % 10 == 0 {
        decimal_text(count / 10)
    } else {
        decimal_text(count / 10) + seq!['.', digit_char(count % 10)]
    }
}

/// The text of an offset: bearing in degrees and distance in nautical
/// miles, in square brackets.
pub open spec fn offset_text(offset: Offset) -> Seq<char> {
    seq!['['] + decimal_text(offset.bearing as nat) + seq!['\u{b0}', ' '] + tenths_text(
        offset.distance as nat,
    ) + seq!['n', 'm', ']']
}

/// What the position of a waypoint adds to its text: the position in round
/// brackets where latitude and longitude are both known, else nothing.
pub open spec fn position_suffix(waypoint: WaypointView) -> Seq<char> {
    match (waypoint.latitude, waypoint.longitude) {
        (Some(latitude), Some(longitude)) => seq!['('] + coordinate_text(
            Coordinates { latitude, longitude },
        ) + seq![')'],
        _ => Seq::empty(),
    }
}

/// What the offset of a waypoint adds to its text.
pub open spec fn offset_suffix(waypoint: WaypointView) -> Seq<char> {
    match waypoint.offset {
        Some(offset) => offset_text(offset),
        None => Seq::empty(),
    }
}

/// What the time of a waypoint adds to its text: `@` and the time where
/// both the time and its format are given, else nothing.
pub open spec fn time_suffix(waypoint: WaypointView) -> Seq<char> {
    match (waypoint.time, waypoint.time_format) {
        (Some(time), Some(_)) => seq!['@'] + time,
        _ => Seq::empty(),
    }
}

/// The text of a waypoint: its name, then whatever of position, offset and
/// time it has, in this order.
pub open spec fn waypoint_text(waypoint: WaypointView) -> Seq<char> {
    waypoint.name + position_suffix(waypoint) + offset_suffix(waypoint) + time_suffix(waypoint)
}

/// The text of a list of waypoints before its arrows are tidied: the
/// waypoints joined by ` > `.
pub open spec fn chained_text(waypoints: Seq<WaypointView>) -> Seq<char> {
    joined(waypoint_texts(waypoints), " > "@)
}

/// The texts of a list of waypoints, in the same order.
pub open spec fn waypoint_texts(waypoints: Seq<WaypointView>) -> Seq<Seq<char>> {
    Seq::new(waypoints.len(), |i: int| waypoint_text(waypoints[i]))
}

/// The text of a list of waypoints.
///
/// In the chained text every `>  >`, an arrow on either side of an empty
/// text, becomes `>>`; and where the result begins with ` > `, its first
/// two characters are replaced by `>>`.
pub open spec fn waypoints_text(waypoints: Seq<WaypointView>) -> Seq<char> {
    let collapsed = replaced(chained_text(waypoints), ">  >"@, ">>"@);
    if collapsed.len() >= 3 && collapsed.subrange(0, 3) == " > "@ {
        ">>"@ + collapsed.subrange(2, collapsed.len() as int)
    } else {
        collapsed
    }
}

/// What stands before the waypoints of a route: its name and, in round
/// brackets, its runway, as far as they are given.
pub open spec fn route_prefix(route: RouteView) -> Seq<char> {
    (match route.name {
        Some(name) => name,
        None => Seq::empty(),
    }) + (match route.runway {
        Some(runway) => seq!['('] + runway + seq![')'],
        None => Seq::empty(),
    })
}

/// What joins the prefix of a route to its waypoints.
pub open spec fn route_separator(route: RouteView) -> Seq<char> {
    if route_prefix(route).len() > 0 && route.waypoints.len() == 1 {
        " starting at "@
    } else if route_prefix(route).len() > 0 {
        ": "@
    } else {
        Seq::empty()
    }
}

/// The text of a route.
pub open spec fn route_text(route: RouteView) -> Seq<char> {
    route_prefix(route) + route_separator(route) + waypoints_text(route.waypoints)
}

/// Functions that read and write the legs of a route.
pub struct RouteUtils;

impl RouteUtils {
    /// Puts a flight phase code into words.
    pub fn format_flight_state(state: &str) -> (words: String)
        ensures
            words@ == flight_state_text(state@),
    {
        proof {
            reveal_strlit("TO");
            reveal_strlit("IC");
            reveal_strlit("CL");
            reveal_strlit("ER");
            reveal_strlit("DC");
            reveal_strlit("AP");
        }
        let code = chars_of(state);
        if code.len() == 2 {
            let first = code[0];
            let second = code[1];
            assert(state@ =~= seq![first, second]);
            if first == 'T' && second == 'O' {
                assert(state@ =~= "TO"@);
                return String::from_str("Takeoff");
            } else if first == 'I' && second == 'C' {
                assert(state@ =~= "IC"@);
                return String::from_str("Initial Climb");
            } else if first == 'C' && second == 'L' {
                assert(state@ =~= "CL"@);
                return String::from_str("Climb");
            } else if first == 'E' && second == 'R' {
                assert(state@ =~= "ER"@);
                return String::from_str("En Route");
            } else if first == 'D' && second == 'C' {
                assert(state@ =~= "DC"@);
                return String::from_str("Descent");
            } else if first == 'A' && second == 'P' {
                assert(state@ =~= "AP"@);
                return String::from_str("Approach");
            }
        }
        let mut words = String::from_str("Unknown ");
        words.append(state);
        words
    }

    /// Renders a route as text: its name and runway, and behind them its
    /// waypoints in order, with arrows from each to the next.
    pub fn route_to_string(route: &Route) -> (text: String)
        ensures
            text@ == route_text(route@),
    {
        let mut str = String::new();
        if let Some(name) = &route.name {
            str.append(name.as_str());
        }
        if let Some(runway) = &route.runway {
            push_runway(&mut str, runway.as_str());
        }
        assert(str@ == route_prefix(route@));
        if !str.as_str().is_empty() && route.waypoints.len() == 1 {
            str.append(" starting at ");
        } else if !str.as_str().is_empty() {
            str.append(": ");
        }
        assert(str@ == route_prefix(route@) + route_separator(route@));
        let legs = RouteUtils::waypoints_to_string(&route.waypoints);
        str.append(legs.as_str());
        str
    }

    /// Reads one leg of a route.
    pub fn get_waypoint(leg: &str) -> (waypoint: Waypoint)
        ensures
            waypoint@ == leg_waypoint(leg@),
    {
        if let Some((name, bearing, distance)) = offset_leg_captures(OFFSET_LEG_PATTERN, leg) {
            proof {
                lemma_number_of_bytes(bearing@);
                lemma_number_of_bytes(distance@);
                lemma_digits_value_bound(encode_utf8(bearing@));
                lemma_digits_value_bound(encode_utf8(distance@));
            }
            let bearing = parse_number(bearing.as_str());
            let distance = parse_number(distance.as_str());
            return Waypoint {
                name,
                latitude: None,
                longitude: None,
                time: None,
                time_format: None,
                offset: Some(Offset { bearing: bearing as u16, distance: distance as u16 }),
            };
        }
        let chars = chars_of(leg);
        let commas = find_commas(&chars);
        if let Commas::Single(at) = commas {
            let coordinate = substring(&chars, at + 1, chars.len());
            if let Some(position) = decode_string_coordinates_decimal_minutes(coordinate) {
                return Waypoint {
                    name: substring(&chars, 0, at),
                    latitude: Some(position.latitude),
                    longitude: Some(position.longitude),
                    time: None,
                    time_format: None,
                    offset: None,
                };
            }
        }
        let size = leg.as_bytes().len();
        if size == 13 || size == 14 {
            if let Some(position) = decode_string_coordinates_decimal_minutes(leg.to_owned()) {
                let name = if let Commas::Single(at) = commas {
                    substring(&chars, 0, at)
                } else {
                    String::new()
                };
                return Waypoint {
                    name,
                    latitude: Some(position.latitude),
                    longitude: Some(position.longitude),
                    time: None,
                    time_format: None,
                    offset: None,
                };
            }
        }
        Waypoint {
            name: leg.to_owned(),
            latitude: None,
            longitude: None,
            time: None,
            time_format: None,
            offset: None,
        }
    }

    /// Renders a list of waypoints as text, with arrows from each to the
    /// next.
    fn waypoints_to_string(waypoints: &Vec<Waypoint>) -> (text: String)
        ensures
            text@ == waypoints_text(waypoint_views(waypoints@)),
    {
        let chain = chain_waypoints(waypoints);
        let arrows_apart = chars_of(">  >");
        let arrows_joined = chars_of(">>");
        let result = replace(&chars_of(chain.as_str()), &arrows_apart, &arrows_joined);
        proof {
            reveal_strlit(" > ");
        }
        if result.len() >= 3 && result[0] == ' ' && result[1] == '>' && result[2] == ' ' {
            assert(result@.subrange(0, 3) =~= " > "@);
            let mut text = String::from_str(">>");
            let mut i: usize = 2;
            while i < result.len()
                invariant
                    2 <= i <= result@.len(),
                    text@ == ">>"@ + result@.subrange(2, i as int),
                decreases result@.len() - i,
            {
                text.push(result[i]);
                i = i + 1;
                assert(result@.subrange(2, i as int) == result@.subrange(2, i - 1).push(
                    result@[i - 1],
                ));
            }
            text
        } else {
            assert(!(result@.len() >= 3 && result@.subrange(0, 3) == " > "@)) by {
                if result@.len() >= 3 {
                    assert(result@.subrange(0, 3)[0] == result@[0]);
                    assert(result@.subrange(0, 3)[1] == result@[1]);
                    assert(result@.subrange(0, 3)[2] == result@[2]);
                }
            }
            string_of(&result)
        }
    }

    /// Renders a waypoint as text.
    pub fn waypoint_to_string(waypoint: &Waypoint) -> (text: String)
        ensures
            text@ == waypoint_text(waypoint@),
    {
        let mut s = waypoint.name.clone();
        if let (Some(lat), Some(lon)) = (waypoint.latitude, waypoint.longitude) {
            push_position(&mut s, Coordinates { latitude: lat, longitude: lon });
        }
        if let Some(offset) = &waypoint.offset {
            push_offset(&mut s, offset);
        }
        if let (Some(time), Some(_)) = (&waypoint.time, &waypoint.time_format) {
            push_time(&mut s, time.as_str());
        }
        s
    }
}

/// Matches a leg against `OFFSET_LEG_PATTERN` with `regex::Regex::new` and
/// `regex::Regex::captures`, and hands out the texts of the pattern's three
/// groups.
///
/// The contract is the meaning that the `regex` crate gives to this one
/// pattern: the anchors `^` and `$` hold the match to the whole text, the
/// classes `[A-Z]` and `[0-9]` match those characters and no others, and
/// since the two runs of digits and the dash have fixed lengths, the first
/// group can only be all that stands before the last eight characters.
#[verifier::external_body]
fn offset_leg_captures(pattern: &str, leg: &str) -> (parts: Option<(String, String, String)>)
    requires
        pattern@ == OFFSET_LEG_PATTERN@,
    ensures
        parts is Some <==> is_offset_leg(leg@),
        parts matches Some((name, bearing, distance)) ==> {
            &&& name@ == offset_leg_name(leg@)
            &&& bearing@ == offset_leg_bearing(leg@)
            &&& distance@ == offset_leg_distance(leg@)
        },
{
    let caps = regex::Regex::new(pattern).ok()?.captures(leg)?;
    Some(
        (
            caps.get(1)?.as_str().to_string(),
            caps.get(2)?.as_str().to_string(),
            caps.get(3)?.as_str().to_string(),
        ),
    )
}

/// Reads a text of at most six digits as a number.
fn parse_number(text: &str) -> (value: u32)
    requires
        all_digit_chars(text@),
        text@.len() <= 6,
    ensures
        value == number_of(text@),
{
    proof {
        lemma_number_of_bytes(text@);
    }
    let bytes = text.as_bytes();
    assert(bytes@.subrange(0, bytes@.len() as int) == bytes@);
    match parse_digits(bytes, 0, bytes.len()) {
        Some(value) => value,
        None => 0,
    }
}

/// Where the commas of a text stand, as far as a split in two needs it.
enum Commas {
    /// The text has no comma.
    Absent,
    /// The text has one comma, at this index.
    Single(usize),
    /// The text has more than one comma.
    Several,
}

/// Looks for the commas of a text.
fn find_commas(text: &Vec<char>) -> (commas: Commas)
    ensures
        match commas {
            Commas::Single(at) => only_comma_at(text@, at as int) && two_parts(text@) == Some(
                TwoParts {
                    name: text@.subrange(0, at as int),
                    rest: text@.subrange(at + 1, text@.len() as int),
                },
            ),
            _ => two_parts(text@) is None,
        },
{
    let mut commas = Commas::Absent;
    let mut i: usize = 0;
    while i < text.len()
        invariant
            i <= text@.len(),
            match commas {
                Commas::Absent => forall|j: int| 0 <= j < i ==> text@[j] != ',',
                Commas::Single(at) => {
                    &&& at < i
                    &&& text@[at as int] == ','
                    &&& forall|j: int| 0 <= j < i && j != at ==> text@[j] != ','
                },
                Commas::Several => exists|a: int, b: int|
                    0 <= a < b < i && text@[a] == ',' && text@[b] == ',',
            },
        decreases text@.len() - i,
    {
        if text[i] == ',' {
            commas =
            match commas {
                Commas::Absent => Commas::Single(i),
                Commas::Single(at) => {
                    assert(0 <= at < i < i + 1 && text@[at as int] == ',' && text@[i as int]
                        == ',');
                    Commas::Several
                },
                Commas::Several => Commas::Several,
            };
        }
        i = i + 1;
    }
    proof {
        match commas {
            Commas::Single(at) => {
                assert(only_comma_at(text@, at as int));
                let chosen = choose|k: int| only_comma_at(text@, k);
                assert(chosen == at);
            },
            Commas::Absent => {
                assert forall|k: int| !only_comma_at(text@, k) by {}
            },
            Commas::Several => {
                let (a, b) = choose|a: int, b: int|
                    0 <= a < b < text@.len() && text@[a] == ',' && text@[b] == ',';
                assert forall|k: int| !only_comma_at(text@, k) by {
                    if only_comma_at(text@, k) {
                        assert(a == k || b == k);
                        if a == k {
                            assert(text@[b] != ',');
                        } else {
                            assert(text@[a] != ',');
                        }
                    }
                }
            },
        }
    }
    commas
}

/// The text that the characters `chars[from..to]` spell.
fn substring(chars: &Vec<char>, from: usize, to: usize) -> (text: String)
    requires
        from <= to <= chars@.len(),
    ensures
        text@ == chars@.subrange(from as int, to as int),
{
    let mut text = String::new();
    let mut i: usize = from;
    while i < to
        invariant
            from <= i <= to <= chars@.len(),
            text@ == chars@.subrange(from as int, i as int),
        decreases to - i,
    {
        text.push(chars[i]);
        i = i + 1;
        assert(chars@.subrange(from as int, i as int) == chars@.subrange(from as int, i - 1).push(
            chars@[i - 1],
        ));
    }
    text
}

/// Writes a runway in round brackets at the end of `out`.
fn push_runway(out: &mut String, runway: &str)
    ensures
        final(out)@ == old(out)@ + (seq!['('] + runway@ + seq![')']),
{
    out.push('(');
    out.append(runway);
    out.push(')');
    assert(final(out)@ == old(out)@ + (seq!['('] + runway@ + seq![')']));
}

/// Renders each waypoint and joins the texts by ` > `.
fn chain_waypoints(waypoints: &Vec<Waypoint>) -> (chain: String)
    ensures
        chain@ == chained_text(waypoint_views(waypoints@)),
{
    let ghost texts = waypoint_texts(waypoint_views(waypoints@));
    let mut chain = String::new();
    let mut i: usize = 0;
    while i < waypoints.len()
        invariant
            i <= waypoints@.len(),
            texts == waypoint_texts(waypoint_views(waypoints@)),
            chain@ == joined(texts.subrange(0, i as int), " > "@),
        decreases waypoints@.len() - i,
    {
        if i > 0 {
            chain.append(" > ");
        }
        let text = RouteUtils::waypoint_to_string(&waypoints[i]);
        chain.append(text.as_str());
        proof {
            assert(texts.subrange(0, i + 1).drop_last() == texts.subrange(0, i as int));
            assert(texts.subrange(0, i + 1).last() == text@);
            if i == 0 {
                assert(joined(texts.subrange(0, 0), " > "@) == Seq::<char>::empty());
            }
        }
        i = i + 1;
    }
    assert(texts.subrange(0, i as int) == texts);
    chain
}

/// Writes a position in round brackets at the end of `out`.
fn push_position(out: &mut String, position: Coordinates)
    ensures
        final(out)@ == old(out)@ + (seq!['('] + coordinate_text(position) + seq![')']),
{
    out.push('(');
    let text = coordinate_string(position);
    out.append(text.as_str());
    out.push(')');
    assert(final(out)@ == old(out)@ + (seq!['('] + coordinate_text(position) + seq![')']));
}

/// Writes a count of tenths at the end of `out`.
fn push_tenths(out: &mut String, count: u16)
    ensures
        final(out)@ == old(out)@ + tenths_text(count as nat),
{
    push_decimal(out, (count / 10) as u32);
    if count % 10 != 0 {
        out.push('.');
        out.push(digit_of((count % 10) as u32));
        assert(final(out)@ == old(out)@ + (decimal_text((count / 10) as nat) + seq![
            '.',
            digit_char((count % 10) as nat),
        ]));
    }
}

/// Writes an offset in square brackets at the end of `out`.
fn push_offset(out: &mut String, offset: &Offset)
    ensures
        final(out)@ == old(out)@ + offset_text(*offset),
{
    out.push('[');
    push_decimal(out, offset.bearing as u32);
    out.push('\u{b0}');
    out.push(' ');
    push_tenths(out, offset.distance);
    out.push('n');
    out.push('m');
    out.push(']');
    assert(final(out)@ == old(out)@ + offset_text(*offset));
}

/// Writes `@` and a time at the end of `out`.
fn push_time(out: &mut String, time: &str)
    ensures
        final(out)@ == old(out)@ + (seq!['@'] + time@),
{
    out.push('@');
    out.append(time);
    assert(final(out)@ == old(out)@ + (seq!['@'] + time@));
}

/// A text of digits and its bytes write down the same number.
pub proof fn lemma_number_of_bytes(text: Seq<char>)
    requires
        all_digit_chars(text),
    ensures
        encode_utf8(text).len() == text.len(),
        all_digits(encode_utf8(text)),
        digits_value(encode_utf8(text)) == number_of(text),
{
    assert(is_ascii_chars(text)) by {
        assert forall|i: int| 0 <= i < text.len() implies '\0' <= #[trigger] text[i]
            <= '\u{7f}' by {
            assert(is_digit_char(text[i]));
        }
    }
    is_ascii_chars_encode_utf8(text);
    lemma_number_of_matching(text, encode_utf8(text));
}

/// Bytes that agree with a text of digits character by character write
/// down the same number.
proof fn lemma_number_of_matching(text: Seq<char>, bytes: Seq<u8>)
    requires
        all_digit_chars(text),
        bytes.len() == text.len(),
        forall|i: int| 0 <= i < text.len() ==> text[i] as u8 == bytes[i],
    ensures
        all_digits(bytes),
        digits_value(bytes) == number_of(text),
    decreases text.len(),
{
    assert forall|i: int| 0 <= i < bytes.len() implies is_digit(#[trigger] bytes[i]) by {
        assert(is_digit_char(text[i]));
        assert(text[i] as u8 == bytes[i]);
    }
    if text.len() > 0 {
        let front = text.drop_last();
        assert(all_digit_chars(front)) by {
            assert forall|i: int| 0 <= i < front.len() implies is_digit_char(
                #[trigger] front[i],
            ) by {
                assert(front[i] == text[i]);
            }
        }
        assert forall|i: int| 0 <= i < front.len() implies front[i] as u8 == bytes.drop_last()[i] by {
            assert(front[i] == text[i]);
        }
        lemma_number_of_matching(front, bytes.drop_last());
        assert(is_digit_char(text[text.len() - 1]));
        assert(text.last() as u8 == bytes.last());
    }
}

} // verus!
