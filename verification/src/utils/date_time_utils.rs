use super::coordinate_utils::is_digit;
use super::text_utils::{DIGIT_NINE, DIGIT_ZERO};
use vstd::prelude::*;
use vstd::utf8::encode_utf8;

verus! {

/// The byte of a plus sign.
pub const PLUS: u8 = 0x2b;

/// A time of day, to the minute.
#[derive(Debug, Clone, Copy, PartialEq, Eq, Structural)]
pub struct TimeOfDay {
    /// Hours since midnight, below 24.
    pub hours: u8,
    /// Minutes of the hour, below 60.
    pub minutes: u8,
}

/// The number that two bytes write down as an unsigned number would be
/// written: in two digits, or in a plus sign and one digit.
pub open spec fn two_byte_number(first: u8, second: u8) -> Option<nat> {
    if is_digit(first) && is_digit(second) {
        Some((10 * (first - DIGIT_ZERO) + (second - DIGIT_ZERO)) as nat)
    } else if first == PLUS && is_digit(second) {
        Some((second - DIGIT_ZERO) as nat)
    } else {
        None
    }
}

/// The time of day that a text in the form `HHMM` gives: its first two
/// bytes are the hours and the two behind them the minutes. Bytes after
/// these are not looked at. Hours from 24 on and minutes from 60 on give
/// no time, and neither does a text of fewer than four bytes.
pub open spec fn time_of_day(bytes: Seq<u8>) -> Option<TimeOfDay> {
    if bytes.len() < 4 {
        None
    } else {
        match (two_byte_number(bytes[0], bytes[1]), two_byte_number(bytes[2], bytes[3])) {
            (Some(hours), Some(minutes)) => if hours < 24 && minutes < 60 {
                Some(TimeOfDay { hours: hours as u8, minutes: minutes as u8 })
            } else {
                None
            },
            _ => None,
        }
    }
}

/// Reads two bytes as a number.
fn read_two_bytes(first: u8, second: u8) -> (number: Option<u8>)
    ensures
        match number {
            Some(n) => two_byte_number(first, second) == Some(n as nat),
            None => two_byte_number(first, second) is None,
        },
{
    if second < DIGIT_ZERO || second > DIGIT_NINE {
        None
    } else if first >= DIGIT_ZERO && first <= DIGIT_NINE {
        Some(10 * (first - DIGIT_ZERO) + (second - DIGIT_ZERO))
    } else if first == PLUS {
        Some(second - DIGIT_ZERO)
    } else {
        None
    }
}

/// Reads a time of day from a text in the form `HHMM`.
pub fn hours_and_minutes(utc: &str) -> (time: Option<TimeOfDay>)
    ensures
        time == time_of_day(encode_utf8(utc@)),
{
    let bytes = utc.as_bytes();
    if bytes.len() < 4 {
        return None;
    }
    let hours = match read_two_bytes(bytes[0], bytes[1]) {
        Some(n) => n,
        None => { return None; },
    };
    let minutes = match read_two_bytes(bytes[2], bytes[3]) {
        Some(n) => n,
        None => { return None; },
    };
    if hours < 24 && minutes < 60 {
        Some(TimeOfDay { hours, minutes })
    } else {
        None
    }
}

} // verus!
