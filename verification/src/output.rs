//! One row of the report, and how it is made from a reservation.

use crate::date::{compact_date, iso_text, parse_compact, successor, Date, DateView};
use crate::hotel::{category_in, city_in, name_in, HotelMap, HotelView, UNKNOWN, UNKNOWN_CATEGORY};
use crate::input::InputRow;
use vstd::prelude::*;
use vstd::string::*;

verus! {

/// One row of the output file.
#[derive(Debug, PartialEq)]
pub struct OutputRow<'a> {
    pub room_type_and_meal: String,
    pub room_code: String,
    pub source: String,
    pub hotel_name: &'a str,
    pub city_name: &'a str,
    pub city_code: String,
    /// The hotel's category, a single-precision number, as its bit pattern.
    pub hotel_category: u32,
    pub pax: u64,
    pub adults: u32,
    pub children: u32,
    pub checkin: String,
    pub checkout: String,
    pub price: String,
}

/// An [`OutputRow`] with its texts as sequences of characters.
pub struct OutputRowView {
    pub room_type_and_meal: Seq<char>,
    pub room_code: Seq<char>,
    pub source: Seq<char>,
    pub hotel_name: Seq<char>,
    pub city_name: Seq<char>,
    pub city_code: Seq<char>,
    pub hotel_category: u32,
    pub pax: u64,
    pub adults: u32,
    pub children: u32,
    pub checkin: Seq<char>,
    pub checkout: Seq<char>,
    pub price: Seq<char>,
}

impl<'a> View for OutputRow<'a> {
    type V = OutputRowView;

    open spec fn view(&self) -> OutputRowView {
        OutputRowView {
            room_type_and_meal: self.room_type_and_meal@,
            room_code: self.room_code@,
            source: self.source@,
            hotel_name: self.hotel_name@,
            city_name: self.city_name@,
            city_code: self.city_code@,
            hotel_category: self.hotel_category,
            pax: self.pax,
            adults: self.adults,
            children: self.children,
            checkin: self.checkin@,
            checkout: self.checkout@,
            price: self.price@,
        }
    }
}

/// The numbers of a date, if there is one.
pub open spec fn numbers(date: Option<Date>) -> Option<DateView> {
    match date {
        Some(d) => Some(d@),
        None => None,
    }
}

/// The check-in column for a reservation whose first day was read as
/// `date`: the day in ISO 8601 form, or [`UNKNOWN`] where none was read.
pub open spec fn checkin_text(date: Option<DateView>) -> Seq<char> {
    match date {
        Some(d) => iso_text(d),
        None => UNKNOWN@,
    }
}

/// The check-out column for a reservation whose first day was read as
/// `date`: the following day in ISO 8601 form, or [`UNKNOWN`] where no day was
/// read or the calendar ends with it.
pub open spec fn checkout_text(date: Option<DateView>) -> Seq<char> {
    match date {
        Some(d) => match successor(d) {
            Some(next) => iso_text(next),
            None => UNKNOWN@,
        },
        None => UNKNOWN@,
    }
}

/// The price column: the price per guest as it was handed in, or
/// [`UNKNOWN`] for a reservation without guests, which has no such price.
pub open spec fn price_text(adults: u32, children: u32, price_per_person: Seq<char>) -> Seq<
    char,
> {
    if adults + children == 0 {
        UNKNOWN@
    } else {
        price_per_person
    }
}

/// The report row for the reservation `input`, with the hotels of `table` and
/// the price per guest written as `price_per_person`.
pub open spec fn converted(
    input: InputRow,
    table: Map<Seq<char>, HotelView>,
    price_per_person: Seq<char>,
) -> OutputRowView {
    OutputRowView {
        room_type_and_meal: input.room_type@ + seq![' '] + input.meal@,
        room_code: input.room_code@,
        source: input.source@,
        hotel_name: name_in(table, input.hotel_code@),
        city_name: city_in(table, input.hotel_code@),
        city_code: input.city_code@,
        hotel_category: category_in(table, input.hotel_code@),
        pax: (input.adults + input.children) as u64,
        adults: input.adults,
        children: input.children,
        checkin: checkin_text(compact_date(input.checkin@)),
        checkout: checkout_text(compact_date(input.checkin@)),
        price: price_text(input.adults, input.children, price_per_person),
    }
}

/// The number of guests is the number of adults plus the number of
/// children, for every reservation: the sum is never cut to fit.
pub proof fn lemma_pax_is_adults_plus_children(
    input: InputRow,
    table: Map<Seq<char>, HotelView>,
    price_per_person: Seq<char>,
)
    ensures
        converted(input, table, price_per_person).pax == input.adults + input.children,
{
}

/// A reservation for a hotel that the table does not hold gets the
/// fallbacks in the three hotel columns, and in every other column what it
/// gets with any table.
pub proof fn lemma_unknown_hotel_changes_three_columns(
    input: InputRow,
    table: Map<Seq<char>, HotelView>,
    other: Map<Seq<char>, HotelView>,
    price_per_person: Seq<char>,
)
    requires
        !table.contains_key(input.hotel_code@),
    ensures
        converted(input, table, price_per_person) == (OutputRowView {
            hotel_name: UNKNOWN@,
            city_name: UNKNOWN@,
            hotel_category: UNKNOWN_CATEGORY,
            ..converted(input, other, price_per_person)
        }),
{
}

impl<'a> OutputRow<'a> {
    /// The report row for `input`.
    ///
    /// The hotel's name, city and category come from `hotels`, with their
    /// fallbacks for a hotel that is not there. `pax` is the sum of adults
    /// and children, in a type wide enough for every sum. The price per
    /// guest is rounded and written by the caller; a reservation without
    /// guests has no such price, and [`UNKNOWN`] in its place.
    pub fn new<'b>(input: InputRow, hotels: &'b HotelMap, price_per_person: String) -> (row:
        OutputRow<'b>)
        ensures
            row@ == converted(input, hotels@, price_per_person@),
            row.pax == input.adults + input.children,
    {
        proof {
            reveal_strlit(" ");
        }
        let mut room_type_and_meal = input.room_type.clone();
        room_type_and_meal.append(" ");
        room_type_and_meal.append(input.meal.as_str());
        assert(" "@ =~= seq![' ']);
        assert(room_type_and_meal@ =~= input.room_type@ + seq![' '] + input.meal@);
        let price = if input.adults == 0 && input.children == 0 {
            UNKNOWN.to_owned()
        } else {
            price_per_person
        };
        OutputRow {
            room_type_and_meal,
            room_code: input.room_code.clone(),
            source: input.source.clone(),
            hotel_name: hotels.get_name(input.hotel_code.as_str()),
            city_name: hotels.get_city_name(input.hotel_code.as_str()),
            hotel_category: hotels.get_category(input.hotel_code.as_str()),
            pax: input.adults as u64 + input.children as u64,
            adults: input.adults,
            children: input.children,
            checkin: Self::get_checkin(input.checkin.as_str()),
            checkout: Self::get_checkout(input.checkin.as_str()),
            city_code: input.city_code,
            price,
        }
    }

    /// The check-in column for the first day written as `checkin`.
    pub fn get_checkin(checkin: &str) -> (text: String)
        ensures
            text@ == checkin_text(compact_date(checkin@)),
    {
        Self::format_checkin(parse_compact(checkin))
    }

    /// The check-out column for the first day written as `checkin`: the day
    /// after it.
    pub fn get_checkout(checkin: &str) -> (text: String)
        ensures
            text@ == checkout_text(compact_date(checkin@)),
    {
        Self::format_checkout(parse_compact(checkin))
    }

    /// The check-in column for a first day that was read as `date`.
    pub fn format_checkin(date: Option<Date>) -> (text: String)
        ensures
            text@ == checkin_text(numbers(date)),
    {
        match date {
            Some(day) => day.to_iso(),
            None => UNKNOWN.to_owned(),
        }
    }

    /// The check-out column for a first day that was read as `date`.
    pub fn format_checkout(date: Option<Date>) -> (text: String)
        ensures
            text@ == checkout_text(numbers(date)),
    {
        match date {
            Some(day) => match day.next_day() {
                Some(next) => next.to_iso(),
                None => UNKNOWN.to_owned(),
            },
            None => UNKNOWN.to_owned(),
        }
    }
}

} // verus!
