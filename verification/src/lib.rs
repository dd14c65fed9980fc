//! Converts hotel reservation records into enriched report rows.
//!
//! A reservation names a hotel by its code. The report row carries that
//! hotel's name, city and category from a lookup table, the number of
//! guests, the stay's first and second day as ISO dates, and the price per
//! guest.
//!
//! The library works on decoded values. Reading and writing files, decoding
//! the lines of the hotel file and the records of the input file, and the
//! arithmetic on prices are the caller's part: [`hotel::HotelMap::new`]
//! takes the decoded lines, [`convert`] and [`run`] take the decoded records
//! with their prices per guest.
//!
//! What is unknown never stops a conversion: a hotel that the table does not
//! hold, a line of the hotel file that could not be decoded and a date that
//! could not be read are reported as [`hotel::UNKNOWN`]. Only a record of
//! the input file that could not be decoded does.

pub mod cli;
pub mod date;
pub mod hotel;
pub mod input;
pub mod output;

use crate::hotel::HotelMap;
use crate::input::InputRow;
use crate::output::{converted, OutputRow};
use vstd::prelude::*;

verus! {

/// Converts one record of the input file.
///
/// `record` is the decoded row together with its price per guest, or the
/// reason why the row could not be decoded. A decoded row always gives a
/// report row; the reason is handed back unchanged.
pub fn convert<'a, E>(record: Result<(InputRow, String), E>, hotels: &'a HotelMap) -> (outcome:
    Result<OutputRow<'a>, E>)
    ensures
        match record {
            Ok(priced) => outcome matches Ok(row) && row@ == converted(
                priced.0,
                hotels@,
                priced.1@,
            ),
            Err(reason) => outcome == Err::<OutputRow<'a>, E>(reason),
        },
{
    match record {
        Ok((input, price_per_person)) => Ok(OutputRow::new(input, hotels, price_per_person)),
        Err(reason) => Err(reason),
    }
}

/// Converts the records of the input file in order, and stops at the first
/// one that could not be decoded.
///
/// The rows returned are those of the records before that one, in order; the
/// records after it give no row. The second part of the result is that
/// record's reason, or `Ok` where every record was decoded.
pub fn run<'a, E>(records: Vec<Result<(InputRow, String), E>>, hotels: &'a HotelMap) -> (outcome: (
    Vec<OutputRow<'a>>,
    Result<(), E>,
))
    ensures
        outcome.0.len() <= records.len(),
        forall|i: int|
            0 <= i < outcome.0.len() ==> (#[trigger] records[i] matches Ok(priced)
                && outcome.0[i]@ == converted(priced.0, hotels@, priced.1@)),
        outcome.0.len() == records.len() ==> outcome.1 is Ok,
        outcome.0.len() < records.len() ==> (records[outcome.0.len() as int] matches Err(reason)
            && outcome.1 == Err::<(), E>(reason)),
{
    let mut rows: Vec<OutputRow<'a>> = Vec::new();
    let ghost all = records@;
    for record in it: records.into_iter()
        invariant
            it.seq() == all,
            rows.len() == it.index(),
            forall|i: int|
                0 <= i < rows.len() ==> (#[trigger] all[i] matches Ok(priced) && rows[i]@
                    == converted(priced.0, hotels@, priced.1@)),
    {
        match convert(record, hotels) {
            Ok(row) => {
                rows.push(row);
            },
            Err(reason) => {
                return (rows, Err(reason));
            },
        }
    }
    (rows, Ok(()))
}

} // verus!
