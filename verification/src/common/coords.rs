use vstd::prelude::*;

verus! {

/// Number of ticks in one degree of arc.
///
/// A tick is the coarsest unit in which both a thousandth of a degree
/// (3 ticks) and a tenth of an arc-minute (5 ticks) are whole numbers.
pub const TICKS_PER_DEGREE: i32 = 3000;

/// Number of ticks in a thousandth of a degree.
pub const TICKS_PER_THOUSANDTH: u32 = 3;

/// Number of ticks in a tenth of an arc-minute, of which a degree has 600.
pub const TICKS_PER_TENTH_OF_MINUTE: u32 = 5;

/// A position on the globe, each angle counted in ticks.
///
/// Northern latitudes and eastern longitudes are positive, southern and
/// western ones negative. The range of either angle is not restricted.
#[derive(Debug, Clone, Copy, PartialEq, Eq, Structural)]
pub struct Coordinates {
    pub latitude: i32,
    pub longitude: i32,
}

} // verus!
