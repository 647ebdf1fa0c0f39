use acars_decoder::common::coords::{Coordinates, TICKS_PER_DEGREE};
use acars_decoder::utils::coordinate_utils::{
    coordinate_string, decode_string_coordinates, decode_string_coordinates_decimal_minutes,
    get_direction,
};

fn assert_almost_eq(actual: f32, expected: f32, tolerance: f32) {
    let diff = (actual - expected).abs();
    if diff > tolerance {
        panic!(
            "assertion failed: `(left == right)`\n      left: `{:?}`,\n     right: `{:?}`",
            actual, expected
        )
    }
}

fn degrees(ticks: i32) -> f32 {
    ticks as f32 / TICKS_PER_DEGREE as f32
}

fn ticks(thousandths_of_degree: i32) -> i32 {
    thousandths_of_degree * 3
}

#[test]
fn test_decode_string_coordinates() {
    let coords = "N12345W123456".to_string();
    let result = decode_string_coordinates(coords);
    assert!(result.is_some());
    let coords = result.unwrap();
    assert_almost_eq(degrees(coords.latitude), 12.345, f32::EPSILON);
    assert_almost_eq(degrees(coords.longitude), -123.456, f32::EPSILON);

    let coords = "N12345 W123456".to_string();
    let result = decode_string_coordinates(coords);
    assert!(result.is_some());
    let coords = result.unwrap();
    assert_almost_eq(degrees(coords.latitude), 12.345, f32::EPSILON);
    assert_almost_eq(degrees(coords.longitude), -123.456, f32::EPSILON);
}

#[test]
fn test_coordinate_string() {
    let coords = Coordinates {
        latitude: ticks(12345),
        longitude: ticks(-123456),
    };
    assert_almost_eq(degrees(coords.latitude), 12.345, f32::EPSILON);
    assert_almost_eq(degrees(coords.longitude), -123.456, f32::EPSILON);
    let result = coordinate_string(coords);
    assert_eq!(result, "12.345 N, 123.456 W");
}

#[test]
fn test_decode_string_coordinates_dm() {
    let coords = "N12345W123456".to_string();
    let result = decode_string_coordinates_decimal_minutes(coords);
    assert!(result.is_some());
    let coords = result.unwrap();

    assert_almost_eq(degrees(coords.latitude), 12.575, f32::EPSILON);
    assert_almost_eq(degrees(coords.longitude), -123.76, f32::EPSILON);

    let coords = "N12345 W123456".to_string();
    let result = decode_string_coordinates_decimal_minutes(coords);
    assert!(result.is_some());
    let coords = result.unwrap();
    assert_almost_eq(degrees(coords.latitude), 12.575, f32::EPSILON);
    assert_almost_eq(degrees(coords.longitude), -123.76, f32::EPSILON);
}

#[test]
fn decimal_degrees_are_three_ticks_per_thousandth() {
    let position = decode_string_coordinates("N12345W123456".to_string()).unwrap();
    assert_eq!(position, Coordinates { latitude: 37035, longitude: -370368 });
    let position = decode_string_coordinates("S00001E000001".to_string()).unwrap();
    assert_eq!(position, Coordinates { latitude: -3, longitude: 3 });
    let position = decode_string_coordinates("S99999E999999".to_string()).unwrap();
    assert_eq!(position, Coordinates { latitude: -299997, longitude: 2999997 });
}

#[test]
fn decimal_minutes_are_five_ticks_per_tenth_of_a_minute() {
    let position = decode_string_coordinates_decimal_minutes("N12345W123456".to_string()).unwrap();
    assert_eq!(position, Coordinates { latitude: 37725, longitude: -371280 });
    let position = decode_string_coordinates_decimal_minutes("S00001E000001".to_string()).unwrap();
    assert_eq!(position, Coordinates { latitude: -5, longitude: 5 });
    let position = decode_string_coordinates_decimal_minutes("S45300E090599".to_string()).unwrap();
    assert_eq!(position, Coordinates { latitude: -136500, longitude: 272995 });
}

#[test]
fn space_before_longitude_letter_makes_no_difference() {
    let pairs = [
        ("N12345W123456", "N12345 W123456"),
        ("S00000E000000", "S00000 E000000"),
        ("N1234xW123456", "N1234x W123456"),
        ("X12345W123456", "X12345 W123456"),
        ("N12345W12345", "N12345 W12345"),
        ("N12345Q123456", "N12345 Q123456"),
    ];
    for (plain, spaced) in pairs {
        assert_eq!(
            decode_string_coordinates(plain.to_string()),
            decode_string_coordinates(spaced.to_string())
        );
        assert_eq!(
            decode_string_coordinates_decimal_minutes(plain.to_string()),
            decode_string_coordinates_decimal_minutes(spaced.to_string())
        );
    }
}

#[test]
fn short_strings_are_refused() {
    for text in ["", "N", "N12345", "N12345W", "N12345W12345", "N12345 W12345", "N12345 W1234"] {
        assert_eq!(decode_string_coordinates(text.to_string()), None);
        assert_eq!(decode_string_coordinates_decimal_minutes(text.to_string()), None);
    }
}

#[test]
fn bytes_behind_the_longitude_are_not_looked_at() {
    assert_eq!(
        decode_string_coordinates("N12345W123456XYZ".to_string()),
        Some(Coordinates { latitude: 37035, longitude: -370368 })
    );
    assert_eq!(
        decode_string_coordinates_decimal_minutes("N12345 W123456,".to_string()),
        Some(Coordinates { latitude: 37725, longitude: -371280 })
    );
}

#[test]
fn wrong_letters_and_blocks_are_refused() {
    for text in [
        "E12345W123456",
        "n12345W123456",
        "N12345N123456",
        "N12345w123456",
        "N1234 W123456",
        "N12.45W123456",
        "N+2345W123456",
        "N12345W12345x",
        "N12345W1 3456",
        "N12345  W123456",
        "N12345W-23456",
        "N1e345W123456",
        "N12345W12345\u{e9}",
        "\u{e9}12345W123456",
    ] {
        assert_eq!(decode_string_coordinates(text.to_string()), None, "{}", text);
        assert_eq!(decode_string_coordinates_decimal_minutes(text.to_string()), None, "{}", text);
    }
}

#[test]
fn direction_of_each_letter() {
    assert_eq!(get_direction('N'), 1);
    assert_eq!(get_direction('E'), 1);
    assert_eq!(get_direction('S'), -1);
    assert_eq!(get_direction('W'), -1);
    assert_eq!(get_direction('n'), 0);
    assert_eq!(get_direction(' '), 0);
    assert_eq!(get_direction('X'), 0);
}

#[test]
fn rendering_rounds_to_the_nearest_thousandth() {
    assert_eq!(coordinate_string(Coordinates { latitude: 0, longitude: 0 }), "0.000 N, 0.000 E");
    assert_eq!(coordinate_string(Coordinates { latitude: 1, longitude: -1 }), "0.000 N, 0.000 W");
    assert_eq!(coordinate_string(Coordinates { latitude: 2, longitude: -2 }), "0.001 N, 0.001 W");
    assert_eq!(coordinate_string(Coordinates { latitude: -3, longitude: 3 }), "0.001 S, 0.001 E");
    assert_eq!(
        coordinate_string(Coordinates { latitude: 37725, longitude: -371280 }),
        "12.575 N, 123.760 W"
    );
    assert_eq!(
        coordinate_string(Coordinates { latitude: -270000, longitude: 540000 }),
        "90.000 S, 180.000 E"
    );
    assert_eq!(
        coordinate_string(Coordinates { latitude: 3001, longitude: 30302 }),
        "1.000 N, 10.101 E"
    );
    assert_eq!(
        coordinate_string(Coordinates { latitude: i32::MAX, longitude: i32::MIN }),
        "715827.882 N, 715827.883 W"
    );
}

#[test]
fn rendering_shows_what_was_decoded() {
    for (text, shown) in [
        ("N12345W123456", "12.345 N, 123.456 W"),
        ("S01000E000999", "1.000 S, 0.999 E"),
        ("S00000W000000", "0.000 N, 0.000 E"),
        ("N99999 E999999", "99.999 N, 999.999 E"),
    ] {
        let position = decode_string_coordinates(text.to_string()).unwrap();
        assert_eq!(coordinate_string(position), shown);
    }
}
