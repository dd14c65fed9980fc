//! One reservation as it is read.

use vstd::prelude::*;

verus! {

/// One row of the input file, decoded.
#[derive(Debug, PartialEq)]
pub struct InputRow {
    pub city_code: String,
    pub hotel_code: String,
    pub room_type: String,
    pub room_code: String,
    pub meal: String,
    /// The first day of the stay, as year, month and day without separators.
    pub checkin: String,
    pub adults: u32,
    pub children: u32,
    /// The price of the whole stay, a single-precision number, as its bit
    /// pattern.
    pub price: u32,
    pub source: String,
}

} // verus!
