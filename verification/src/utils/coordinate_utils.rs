use super::text_utils::{
    decimal_text, digit_char, digit_of, push_decimal, DIGIT_NINE, DIGIT_ZERO,
};
use crate::common::coords::{
    Coordinates, TICKS_PER_DEGREE, TICKS_PER_TENTH_OF_MINUTE, TICKS_PER_THOUSANDTH,
};
use vstd::prelude::*;
use vstd::utf8::encode_utf8;

verus! {

/// The byte of the letter `N`.
pub const NORTH: u8 = 0x4e;

/// The byte of the letter `S`.
pub const SOUTH: u8 = 0x53;

/// The byte of the letter `E`.
pub const EAST: u8 = 0x45;

/// The byte of the letter `W`.
pub const WEST: u8 = 0x57;

/// The byte of a space.
pub const SPACE: u8 = 0x20;

/// True of the byte of an ASCII decimal digit.
pub open spec fn is_digit(b: u8) -> bool {
    DIGIT_ZERO <= b <= DIGIT_NINE
}

/// True when every byte of `block` is an ASCII decimal digit.
pub open spec fn all_digits(block: Seq<u8>) -> bool {
    forall|i: int| 0 <= i < block.len() ==> is_digit(#[trigger] block[i])
}

/// The number that a block of decimal digits writes down.
pub open spec fn digits_value(block: Seq<u8>) -> nat
    decreases block.len(),
{
    if block.len() == 0 {
        0
    } else {
        (10 * digits_value(block.drop_last()) + (block.last() - DIGIT_ZERO)) as nat
    }
}

/// Sign that a hemisphere letter gives to an angle: `N` and `E` count
/// positive, `S` and `W` negative, and any other character gives zero.
pub open spec fn direction(hemisphere: char) -> int {
    if hemisphere == 'N' || hemisphere == 'E' {
        1
    } else if hemisphere == 'S' || hemisphere == 'W' {
        -1
    } else {
        0
    }
}

/// The four parts of a fixed-width coordinate string.
pub struct FixedLayout {
    /// Hemisphere letter of the latitude, the first byte.
    pub north_south: u8,
    /// The five bytes of the latitude block.
    pub latitude: Seq<u8>,
    /// Hemisphere letter of the longitude.
    pub east_west: u8,
    /// The six bytes of the longitude block.
    pub longitude: Seq<u8>,
}

/// Splits a coordinate string into its parts by position alone.
///
/// The longitude letter stands at byte 6, or at byte 7 when byte 6 is a
/// space. Bytes behind the longitude block are not looked at. Strings too
/// short to hold all four parts have no layout.
pub open spec fn fixed_layout(bytes: Seq<u8>) -> Option<FixedLayout> {
    if bytes.len() < 13 {
        None
    } else if bytes[6] == SPACE {
        if bytes.len() < 14 {
            None
        } else {
            Some(
                FixedLayout {
                    north_south: bytes[0],
                    latitude: bytes.subrange(1, 6),
                    east_west: bytes[7],
                    longitude: bytes.subrange(8, 14),
                },
            )
        }
    } else {
        Some(
            FixedLayout {
                north_south: bytes[0],
                latitude: bytes.subrange(1, 6),
                east_west: bytes[6],
                longitude: bytes.subrange(7, 13),
            },
        )
    }
}

/// True when the hemisphere letters and both digit blocks of a layout are
/// well-formed.
pub open spec fn well_formed(layout: FixedLayout) -> bool {
    &&& layout.north_south == NORTH || layout.north_south == SOUTH
    &&& layout.east_west == EAST || layout.east_west == WEST
    &&& all_digits(layout.latitude)
    &&& all_digits(layout.longitude)
}

/// Ticks of an angle written as thousandths of a degree.
pub open spec fn decimal_degrees_ticks(digits: nat) -> nat {
    TICKS_PER_THOUSANDTH as nat * digits
}

/// Ticks of an angle written as whole degrees followed by three digits of
/// minutes in tenths: the degrees are `digits / 1000`, the minutes
/// `(digits % 1000) / 10`.
pub open spec fn decimal_minutes_ticks(digits: nat) -> nat {
    TICKS_PER_DEGREE as nat * (digits / 1000) + TICKS_PER_TENTH_OF_MINUTE as nat * (digits % 1000)
}

/// The ticks of degrees and decimal minutes are those of the degrees and
/// of the tenths of a minute behind them, six hundred of which make a
/// degree.
pub proof fn lemma_decimal_minutes_in_tenths(digits: nat)
    ensures
        600 * decimal_minutes_ticks(digits) == TICKS_PER_DEGREE * (600 * (digits / 1000) + digits
            % 1000),
{
}

/// What a coordinate string in thousandths of a degree decodes to.
pub open spec fn decimal_degrees_coordinates(bytes: Seq<u8>) -> Option<Coordinates> {
    match fixed_layout(bytes) {
        Some(layout) => if well_formed(layout) {
            Some(
                Coordinates {
                    latitude: (direction(layout.north_south as char) * decimal_degrees_ticks(
                        digits_value(layout.latitude),
                    )) as i32,
                    longitude: (direction(layout.east_west as char) * decimal_degrees_ticks(
                        digits_value(layout.longitude),
                    )) as i32,
                },
            )
        } else {
            None
        },
        None => None,
    }
}

/// What a coordinate string in degrees and decimal minutes decodes to.
pub open spec fn decimal_minutes_coordinates(bytes: Seq<u8>) -> Option<Coordinates> {
    match fixed_layout(bytes) {
        Some(layout) => if well_formed(layout) {
            Some(
                Coordinates {
                    latitude: (direction(layout.north_south as char) * decimal_minutes_ticks(
                        digits_value(layout.latitude),
                    )) as i32,
                    longitude: (direction(layout.east_west as char) * decimal_minutes_ticks(
                        digits_value(layout.longitude),
                    )) as i32,
                },
            )
        } else {
            None
        },
        None => None,
    }
}

/// A block of `n` digits writes a number below `10^n`; stated here for
/// blocks of up to six digits.
pub proof fn lemma_digits_value_bound(block: Seq<u8>)
    requires
        all_digits(block),
    ensures
        block.len() == 0 ==> digits_value(block) == 0,
        block.len() == 1 ==> digits_value(block) < 10,
        block.len() == 2 ==> digits_value(block) < 100,
        block.len() == 3 ==> digits_value(block) < 1000,
        block.len() == 4 ==> digits_value(block) < 10000,
        block.len() == 5 ==> digits_value(block) < 100000,
        block.len() == 6 ==> digits_value(block) < 1000000,
    decreases block.len(),
{
    if block.len() > 0 {
        let front = block.drop_last();
        assert(all_digits(front)) by {
            assert forall|i: int| 0 <= i < front.len() implies is_digit(#[trigger] front[i]) by {
                assert(front[i] == block[i]);
            }
        }
        assert(is_digit(block[block.len() - 1]));
        lemma_digits_value_bound(front);
    }
}

/// Reads the block `bytes[from..to]` as a decimal number, or finds the
/// first byte in it that is no digit.
pub(crate) fn parse_digits(bytes: &[u8], from: usize, to: usize) -> (value: Option<u32>)
    requires
        from <= to <= bytes@.len(),
        to - from <= 6,
    ensures
        value is Some <==> all_digits(bytes@.subrange(from as int, to as int)),
        value matches Some(v) ==> v == digits_value(bytes@.subrange(from as int, to as int)),
{
    let mut value: u32 = 0;
    let mut i: usize = from;
    while i < to
        invariant
            from <= i <= to <= bytes@.len(),
            to - from <= 6,
            all_digits(bytes@.subrange(from as int, i as int)),
            value == digits_value(bytes@.subrange(from as int, i as int)),
        decreases to - i,
    {
        let b = bytes[i];
        let ghost seen = bytes@.subrange(from as int, i as int);
        let ghost next = bytes@.subrange(from as int, i + 1);
        proof {
            assert(next.drop_last() =~= seen);
            assert(next.last() == b);
        }
        if b < DIGIT_ZERO || b > DIGIT_NINE {
            proof {
                let block = bytes@.subrange(from as int, to as int);
                assert(block[i - from] == b);
            }
            return None;
        }
        proof {
            lemma_digits_value_bound(seen);
            assert(all_digits(next)) by {
                assert forall|k: int| 0 <= k < next.len() implies is_digit(#[trigger] next[k]) by {
                    if k < seen.len() {
                        assert(next[k] == seen[k]);
                    }
                }
            }
        }
        value = value * 10 + (b - DIGIT_ZERO) as u32;
        i = i + 1;
    }
    Some(value)
}

/// Sign of a hemisphere letter: `1` for `N` and `E`, `-1` for `S` and `W`.
///
/// Any other character gives `0`, which would erase the angle it is
/// multiplied with; the decoders never ask for one.
pub fn get_direction(coord: char) -> (sign: i32)
    ensures
        sign == direction(coord),
{
    if coord == 'E' || coord == 'N' {
        1
    } else if coord == 'W' || coord == 'S' {
        -1
    } else {
        0
    }
}

/// A coordinate string with one space put in before its longitude letter.
pub open spec fn with_space(bytes: Seq<u8>) -> Seq<u8>
    recommends
        bytes.len() > 6,
{
    bytes.subrange(0, 6) + seq![SPACE] + bytes.subrange(6, bytes.len() as int)
}

/// One space before the longitude letter makes no difference: with it and
/// without it a coordinate string decodes to the same position, or is
/// refused, in either notation.
pub proof fn lemma_space_makes_no_difference(bytes: Seq<u8>)
    requires
        bytes.len() > 6,
        bytes[6] != SPACE,
    ensures
        decimal_degrees_coordinates(with_space(bytes)) == decimal_degrees_coordinates(bytes),
        decimal_minutes_coordinates(with_space(bytes)) == decimal_minutes_coordinates(bytes),
{
    let spaced = with_space(bytes);
    assert(spaced.len() == bytes.len() + 1);
    assert(spaced[6] == SPACE);
    if bytes.len() >= 13 {
        assert(spaced[0] == bytes[0]);
        assert(spaced[7] == bytes[6]);
        assert(spaced.subrange(1, 6) == bytes.subrange(1, 6));
        assert(spaced.subrange(8, 14) == bytes.subrange(7, 13));
    }
}

/// A string of fewer than 13 bytes, or of fewer than 14 with a space before
/// its longitude letter, is refused in either notation.
pub proof fn lemma_short_strings_are_refused(bytes: Seq<u8>)
    requires
        bytes.len() < 13 || (bytes[6] == SPACE && bytes.len() < 14),
    ensures
        decimal_degrees_coordinates(bytes) is None,
        decimal_minutes_coordinates(bytes) is None,
{
}

/// How a decoder reads the bytes of a coordinate string: the layout that
/// it finds is the one that `fixed_layout` describes.
proof fn lemma_layout_parts(bytes: Seq<u8>, longitude_start: int)
    requires
        bytes.len() >= 13,
        bytes[6] == SPACE ==> bytes.len() >= 14 && longitude_start == 8,
        bytes[6] != SPACE ==> longitude_start == 7,
    ensures
        fixed_layout(bytes) == Some(
            FixedLayout {
                north_south: bytes[0],
                latitude: bytes.subrange(1, 6),
                east_west: bytes[longitude_start - 1],
                longitude: bytes.subrange(longitude_start, longitude_start + 6),
            },
        ),
{
}

/// Gives a count of ticks the sign of its hemisphere.
fn signed_ticks(ticks: u32, sign: i32) -> (angle: i32)
    requires
        ticks <= 0x7fff_ffff,
        -1 <= sign <= 1,
    ensures
        angle == sign * ticks,
{
    let magnitude = ticks as i32;
    assert(sign * ticks == if sign > 0 {
        ticks as int
    } else if sign < 0 {
        -(ticks as int)
    } else {
        0
    }) by (nonlinear_arith)
        requires
            -1 <= sign <= 1,
    ;
    if sign > 0 {
        magnitude
    } else if sign < 0 {
        -magnitude
    } else {
        0
    }
}

/// Decodes a coordinate string whose digit blocks count thousandths of a
/// degree, such as `N12345W123456` or `N12345 W123456`.
///
/// The result is `None` unless the string holds, from its first byte on,
/// `N` or `S`, five digits, at most one space, `E` or `W` and six digits.
pub fn decode_string_coordinates(coords: String) -> (position: Option<Coordinates>)
    ensures
        position == decimal_degrees_coordinates(encode_utf8(coords@)),
{
    // format: N12345W123456 or N12345 W123456
    let coords_as_slice = coords.as_str().as_bytes();

    if coords_as_slice.len() < 13 {
        return None;
    }
    let first_char = coords_as_slice[0];
    let mut middle_char = coords_as_slice[6];
    let mut longitude_start: usize = 7;

    if middle_char == SPACE {
        if coords_as_slice.len() < 14 {
            return None;
        }
        middle_char = coords_as_slice[7];
        longitude_start = 8;
    }
    proof {
        lemma_layout_parts(coords_as_slice@, longitude_start as int);
    }
    if (first_char == NORTH || first_char == SOUTH) && (middle_char == EAST || middle_char == WEST) {
        let lat = match parse_digits(coords_as_slice, 1, 6) {
            Some(digits) => digits,
            None => { return None; },
        };
        let lon = match parse_digits(coords_as_slice, longitude_start, longitude_start + 6) {
            Some(digits) => digits,
            None => { return None; },
        };
        proof {
            lemma_digits_value_bound(coords_as_slice@.subrange(1, 6));
            lemma_digits_value_bound(
                coords_as_slice@.subrange(longitude_start as int, longitude_start + 6),
            );
        }
        let lat = signed_ticks(lat * TICKS_PER_THOUSANDTH, get_direction(first_char as char));
        let lon = signed_ticks(lon * TICKS_PER_THOUSANDTH, get_direction(middle_char as char));

        Some(Coordinates { latitude: lat, longitude: lon })
    } else {
        None
    }
}

/// Decodes a coordinate string whose digit blocks hold whole degrees
/// followed by three digits of minutes in tenths, such as `N12345W123456`
/// for 12 degrees 34.5 minutes north, 123 degrees 45.6 minutes west.
///
/// The byte layout, and the strings that are refused, are those of
/// [`decode_string_coordinates`].
pub fn decode_string_coordinates_decimal_minutes(coords: String) -> (position: Option<
    Coordinates,
>)
    ensures
        position == decimal_minutes_coordinates(encode_utf8(coords@)),
{
    // format: N12345W123456 or N12345 W123456
    let coords_as_slice = coords.as_str().as_bytes();
    if coords_as_slice.len() < 13 {
        return None;
    }
    let first_char = coords_as_slice[0];
    let mut middle_char = coords_as_slice[6];
    let mut longitude_start: usize = 7;

    if middle_char == SPACE {
        if coords_as_slice.len() < 14 {
            return None;
        }
        middle_char = coords_as_slice[7];
        longitude_start = 8;
    }
    proof {
        lemma_layout_parts(coords_as_slice@, longitude_start as int);
    }
    let lat = match parse_digits(coords_as_slice, 1, 6) {
        Some(digits) => digits,
        None => { return None; },
    };
    let lon = match parse_digits(coords_as_slice, longitude_start, longitude_start + 6) {
        Some(digits) => digits,
        None => { return None; },
    };
    proof {
        lemma_digits_value_bound(coords_as_slice@.subrange(1, 6));
        lemma_digits_value_bound(
            coords_as_slice@.subrange(longitude_start as int, longitude_start + 6),
        );
    }
    let lat_deg = lat / 1000;
    let lat_min = lat % 1000;
    let lon_deg = lon / 1000;
    let lon_min = lon % 1000;

    if (first_char == NORTH || first_char == SOUTH) && (middle_char == EAST || middle_char == WEST) {
        let latitude = signed_ticks(
            lat_deg * (TICKS_PER_DEGREE as u32) + lat_min * TICKS_PER_TENTH_OF_MINUTE,
            get_direction(first_char as char),
        );
        let longitude = signed_ticks(
            lon_deg * (TICKS_PER_DEGREE as u32) + lon_min * TICKS_PER_TENTH_OF_MINUTE,
            get_direction(middle_char as char),
        );
        Some(Coordinates { latitude, longitude })
    } else {
        None
    }
}

/// An angle in thousandths of a degree, rounded to the nearest and without
/// its sign. A tick is a third of a thousandth, so no angle lies half-way.
pub open spec fn thousandths(ticks: int) -> nat {
    (((if ticks < 0 {
        -ticks
    } else {
        ticks
    }) + 1) / (TICKS_PER_THOUSANDTH as int)) as nat
}

/// A count of thousandths written with a decimal point and exactly three
/// digits behind it.
pub open spec fn three_places_text(count: nat) -> Seq<char> {
    decimal_text(count / 1000) + seq![
        '.',
        digit_char(count / 100 % 10),
        digit_char(count / 10 % 10),
        digit_char(count % 10),
    ]
}

/// The text of a position: the latitude in degrees with three decimal
/// places and `N` or `S`, a comma, and the longitude likewise with `E` or
/// `W`. An angle of zero counts as north or east.
pub open spec fn coordinate_text(coords: Coordinates) -> Seq<char> {
    three_places_text(thousandths(coords.latitude as int)) + seq![
        ' ',
        if coords.latitude >= 0 {
            'N'
        } else {
            'S'
        },
        ',',
        ' ',
    ] + three_places_text(thousandths(coords.longitude as int)) + seq![
        ' ',
        if coords.longitude >= 0 {
            'E'
        } else {
            'W'
        },
    ]
}

/// A position decoded from thousandths of a degree is rendered with the
/// thousandths that were read, and an angle that is not zero is rendered
/// in the hemisphere that was read. An angle of zero is rendered as north
/// or east, whatever was read.
pub proof fn lemma_rendering_keeps_what_was_read(bytes: Seq<u8>)
    requires
        decimal_degrees_coordinates(bytes) is Some,
    ensures
        ({
            let layout = fixed_layout(bytes)->0;
            let latitude = digits_value(layout.latitude);
            let longitude = digits_value(layout.longitude);
            coordinate_text(decimal_degrees_coordinates(bytes)->0) == three_places_text(latitude)
                + seq![
                ' ',
                if layout.north_south == NORTH || latitude == 0 {
                    'N'
                } else {
                    'S'
                },
                ',',
                ' ',
            ] + three_places_text(longitude) + seq![
                ' ',
                if layout.east_west == EAST || longitude == 0 {
                    'E'
                } else {
                    'W'
                },
            ]
        }),
{
    let layout = fixed_layout(bytes)->0;
    lemma_digits_value_bound(layout.latitude);
    lemma_digits_value_bound(layout.longitude);
    let north = direction(layout.north_south as char);
    let east = direction(layout.east_west as char);
    let latitude = decimal_degrees_ticks(digits_value(layout.latitude));
    let longitude = decimal_degrees_ticks(digits_value(layout.longitude));
    assert(north == 1 || north == -1);
    assert(east == 1 || east == -1);
    assert(north * latitude == if north == 1 {
        latitude as int
    } else {
        -latitude
    }) by (nonlinear_arith)
        requires
            north == 1 || north == -1,
    ;
    assert(east * longitude == if east == 1 {
        longitude as int
    } else {
        -longitude
    }) by (nonlinear_arith)
        requires
            east == 1 || east == -1,
    ;
}

/// Rounds an angle in ticks to thousandths of a degree and drops its sign.
fn rounded_thousandths(ticks: i32) -> (count: u32)
    ensures
        count == thousandths(ticks as int),
{
    let magnitude: u32 = if ticks >= 0 {
        ticks as u32
    } else {
        (-(ticks as i64)) as u32
    };
    (magnitude + 1) / TICKS_PER_THOUSANDTH
}

/// Writes a count of thousandths with three decimal places at the end of
/// `out`.
fn push_three_places(out: &mut String, count: u32)
    ensures
        final(out)@ == old(out)@ + three_places_text(count as nat),
{
    push_decimal(out, count / 1000);
    out.push('.');
    out.push(digit_of(count / 100 % 10));
    out.push(digit_of(count / 10 % 10));
    out.push(digit_of(count % 10));
    assert(final(out)@ == old(out)@ + three_places_text(count as nat));
}

/// Renders a position as text, such as `12.345 N, 123.456 W`.
pub fn coordinate_string(coords: Coordinates) -> (text: String)
    ensures
        text@ == coordinate_text(coords),
{
    let lat_dir = if coords.latitude >= 0 {
        'N'
    } else {
        'S'
    };
    let lon_dir = if coords.longitude >= 0 {
        'E'
    } else {
        'W'
    };
    let lat = rounded_thousandths(coords.latitude);
    let lon = rounded_thousandths(coords.longitude);

    let mut text = String::new();
    push_three_places(&mut text, lat);
    text.push(' ');
    text.push(lat_dir);
    text.push(',');
    text.push(' ');
    push_three_places(&mut text, lon);
    text.push(' ');
    text.push(lon_dir);
    assert(text@ == coordinate_text(coords));
    text
}

} // verus!
