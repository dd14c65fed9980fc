//! The table of hotels that reservations are joined against.

use vstd::hash_map::StringHashMap;
use vstd::prelude::*;

verus! {

/// The text reported in place of what is not known: the name and the city of
/// a hotel that the table does not hold, a date that could not be read, a
/// price that does not exist.
pub const UNKNOWN: &'static str = "???";

/// The category reported for a hotel that the table does not hold: the bit
/// pattern of zero.
pub const UNKNOWN_CATEGORY: u32 = 0;

/// One line of the hotel file, decoded.
#[derive(Debug, PartialEq)]
pub struct HotelRow {
    pub id: String,
    pub city_code: String,
    pub name: String,
    /// The category, a single-precision number, as its bit pattern.
    pub category: u32,
    pub country_code: String,
    pub city: String,
}

/// What the table keeps of a hotel.
#[derive(Debug)]
pub struct Hotel {
    pub name: String,
    /// The category, a single-precision number, as its bit pattern.
    pub category: u32,
    pub city: String,
}

/// A [`Hotel`] with its texts as sequences of characters.
pub struct HotelView {
    pub name: Seq<char>,
    pub category: u32,
    pub city: Seq<char>,
}

impl View for Hotel {
    type V = HotelView;

    open spec fn view(&self) -> HotelView {
        HotelView { name: self.name@, category: self.category, city: self.city@ }
    }
}

/// The entry that stands for every line that could not be decoded.
pub open spec fn placeholder() -> HotelView {
    HotelView { name: UNKNOWN@, category: UNKNOWN_CATEGORY, city: UNKNOWN@ }
}

/// The key under which a line of the hotel file is entered: the hotel's
/// identifier, or [`UNKNOWN`] for a line that could not be decoded.
pub open spec fn entry_key(row: Option<HotelRow>) -> Seq<char> {
    match row {
        Some(r) => r.id@,
        None => UNKNOWN@,
    }
}

/// The hotel that a line of the hotel file is entered as.
pub open spec fn entry_hotel(row: Option<HotelRow>) -> HotelView {
    match row {
        Some(r) => HotelView { name: r.name@, category: r.category, city: r.city@ },
        None => placeholder(),
    }
}

/// The table after the lines `rows` were entered in order, each one unless
/// its key was already there.
pub open spec fn loaded(rows: Seq<Option<HotelRow>>) -> Map<Seq<char>, HotelView>
    decreases rows.len(),
{
    if rows.len() == 0 {
        Map::empty()
    } else {
        let before = loaded(rows.drop_last());
        let key = entry_key(rows.last());
        if before.contains_key(key) {
            before
        } else {
            before.insert(key, entry_hotel(rows.last()))
        }
    }
}

/// The name that `table` gives for the hotel `id`.
pub open spec fn name_in(table: Map<Seq<char>, HotelView>, id: Seq<char>) -> Seq<char> {
    if table.contains_key(id) {
        table[id].name
    } else {
        UNKNOWN@
    }
}

/// The category that `table` gives for the hotel `id`.
pub open spec fn category_in(table: Map<Seq<char>, HotelView>, id: Seq<char>) -> u32 {
    if table.contains_key(id) {
        table[id].category
    } else {
        UNKNOWN_CATEGORY
    }
}

/// The city that `table` gives for the hotel `id`.
pub open spec fn city_in(table: Map<Seq<char>, HotelView>, id: Seq<char>) -> Seq<char> {
    if table.contains_key(id) {
        table[id].city
    } else {
        UNKNOWN@
    }
}

/// Whether the `i`-th line is the first of `rows` with its key.
pub open spec fn is_first_occurrence(rows: Seq<Option<HotelRow>>, i: int) -> bool {
    &&& 0 <= i < rows.len()
    &&& forall|j: int| 0 <= j < i ==> entry_key(#[trigger] rows[j]) != entry_key(rows[i])
}

impl Hotel {
    /// The hotel that a decoded line describes.
    pub fn new(row: HotelRow) -> (hotel: Hotel)
        ensures
            hotel@ == entry_hotel(Some(row)),
    {
        Hotel { name: row.name, category: row.category, city: row.city }
    }

    /// The key and the hotel that a line of the hotel file is entered as.
    /// `None` is a line that could not be decoded: it gives the placeholder
    /// under the key [`UNKNOWN`].
    pub fn parse(row: Option<HotelRow>) -> (entry: (String, Hotel))
        ensures
            entry.0@ == entry_key(row),
            entry.1@ == entry_hotel(row),
    {
        match row {
            Some(hotel_row) => {
                let id = hotel_row.id.clone();
                (id, Hotel::new(hotel_row))
            },
            None => (
                UNKNOWN.to_owned(),
                Hotel {
                    name: UNKNOWN.to_owned(),
                    category: UNKNOWN_CATEGORY,
                    city: UNKNOWN.to_owned(),
                },
            ),
        }
    }
}

/// Maps a hotel's identifier to the hotel.
pub struct HotelMap {
    map: StringHashMap<Hotel>,
}

impl View for HotelMap {
    type V = Map<Seq<char>, HotelView>;

    closed spec fn view(&self) -> Map<Seq<char>, HotelView> {
        self.map@.map_values(|hotel: Hotel| hotel@)
    }
}

impl HotelMap {
    /// The table of the hotel file whose decoded lines are `rows`, in the
    /// file's order. Of two lines with one key the first is kept.
    pub fn new(rows: Vec<Option<HotelRow>>) -> (table: HotelMap)
        ensures
            table@ == loaded(rows@),
            forall|key: Seq<char>|
                table@.contains_key(key) <==> exists|i: int|
                    0 <= i < rows.len() && entry_key(#[trigger] rows[i]) == key,
            forall|i: int|
                is_first_occurrence(rows@, i) ==> table@.contains_key(entry_key(#[trigger] rows[i]))
                    && table@[entry_key(rows[i])] == entry_hotel(rows[i]),
    {
        let mut result = HotelMap { map: StringHashMap::new() };
        let ghost all = rows@;
        assert(result@ =~= loaded(all.take(0)));
        for row in it: rows.into_iter()
            invariant
                it.seq() == all,
                result@ == loaded(all.take(it.index() as int)),
        {
            assert(all.take(it.index() + 1).drop_last() =~= all.take(it.index() as int));
            let (id, hotel) = Hotel::parse(row);
            result.add(id, hotel);
        }
        proof {
            assert(all.take(all.len() as int) =~= all);
            assert forall|key: Seq<char>|
                loaded(all).contains_key(key) <==> exists|i: int|
                    0 <= i < all.len() && entry_key(#[trigger] all[i]) == key by {
                lemma_loaded_keys(all, key);
            }
            assert forall|i: int| is_first_occurrence(all, i) implies loaded(all).contains_key(
                entry_key(#[trigger] all[i]),
            ) && loaded(all)[entry_key(all[i])] == entry_hotel(all[i]) by {
                lemma_first_occurrence_wins(all, i);
            }
        }
        result
    }

    /// Enters `hotel` under `id` unless the table already has a hotel there.
    pub fn add(&mut self, id: String, hotel: Hotel)
        ensures
            final(self)@ == if old(self)@.contains_key(id@) {
                old(self)@
            } else {
                old(self)@.insert(id@, hotel@)
            },
    {
        if !self.map.contains_key(id.as_str()) {
            self.map.insert(id, hotel);
            assert(self@ =~= old(self)@.insert(id@, hotel@));
        }
    }

    /// The number of hotels in the table.
    pub fn len(&self) -> (count: usize)
        ensures
            count == self@.len(),
    {
        broadcast use vstd::hash_map::group_hash_map_axioms;
        proof {
            assert(self@.dom() =~= self.map@.dom());
        }
        self.map.len()
    }

    /// Whether the table has a hotel under `id`.
    pub fn contains_key(&self, id: &str) -> (found: bool)
        ensures
            found == self@.contains_key(id@),
    {
        self.map.contains_key(id)
    }

    /// The name of the hotel `id`, or [`UNKNOWN`] where the table has none.
    pub fn get_name(&self, id: &str) -> (name: &str)
        ensures
            name@ == name_in(self@, id@),
    {
        match self.map.get(id) {
            Some(hotel) => hotel.name.as_str(),
            None => UNKNOWN,
        }
    }

    /// The category of the hotel `id`, or [`UNKNOWN_CATEGORY`] where the
    /// table has none.
    pub fn get_category(&self, id: &str) -> (category: u32)
        ensures
            category == category_in(self@, id@),
    {
        match self.map.get(id) {
            Some(hotel) => hotel.category,
            None => UNKNOWN_CATEGORY,
        }
    }

    /// The city of the hotel `id`, or [`UNKNOWN`] where the table has none.
    pub fn get_city_name(&self, id: &str) -> (city: &str)
        ensures
            city@ == city_in(self@, id@),
    {
        match self.map.get(id) {
            Some(hotel) => hotel.city.as_str(),
            None => UNKNOWN,
        }
    }
}

/// The table holds a key exactly if some line has it.
pub proof fn lemma_loaded_keys(rows: Seq<Option<HotelRow>>, key: Seq<char>)
    ensures
        loaded(rows).contains_key(key) <==> exists|i: int|
            0 <= i < rows.len() && entry_key(#[trigger] rows[i]) == key,
    decreases rows.len(),
{
    if rows.len() > 0 {
        let init = rows.drop_last();
        lemma_loaded_keys(init, key);
        if loaded(rows).contains_key(key) {
            if loaded(init).contains_key(key) {
                let i = choose|i: int| 0 <= i < init.len() && entry_key(#[trigger] init[i]) == key;
                assert(entry_key(rows[i]) == key);
            } else {
                assert(entry_key(rows[rows.len() - 1]) == key);
            }
        }
        if exists|i: int| 0 <= i < rows.len() && entry_key(#[trigger] rows[i]) == key {
            let i = choose|i: int| 0 <= i < rows.len() && entry_key(#[trigger] rows[i]) == key;
            if i < rows.len() - 1 {
                assert(entry_key(init[i]) == key);
            }
        }
    }
}

/// The first line with a key decides what the table gives for that key:
/// a later line with the same key changes nothing.
pub proof fn lemma_first_occurrence_wins(rows: Seq<Option<HotelRow>>, i: int)
    requires
        is_first_occurrence(rows, i),
    ensures
        loaded(rows).contains_key(entry_key(rows[i])),
        loaded(rows)[entry_key(rows[i])] == entry_hotel(rows[i]),
        name_in(loaded(rows), entry_key(rows[i])) == entry_hotel(rows[i]).name,
        category_in(loaded(rows), entry_key(rows[i])) == entry_hotel(rows[i]).category,
        city_in(loaded(rows), entry_key(rows[i])) == entry_hotel(rows[i]).city,
    decreases rows.len(),
{
    let init = rows.drop_last();
    let key = entry_key(rows[i]);
    if i == rows.len() - 1 {
        lemma_loaded_keys(init, key);
        if loaded(init).contains_key(key) {
            let j = choose|j: int| 0 <= j < init.len() && entry_key(#[trigger] init[j]) == key;
            assert(entry_key(rows[j]) == key);
        }
    } else {
        assert forall|j: int| 0 <= j < i implies entry_key(#[trigger] init[j]) != entry_key(
            init[i],
        ) by {
            assert(entry_key(rows[j]) != entry_key(rows[i]));
        }
        lemma_first_occurrence_wins(init, i);
    }
}

/// Once a line could not be decoded, the table answers for the key
/// [`UNKNOWN`] with the placeholder's name, category and city, unless a
/// decoded line that calls itself [`UNKNOWN`] came first with other values.
pub proof fn lemma_undecoded_line_gives_placeholder(rows: Seq<Option<HotelRow>>, i: int)
    requires
        0 <= i < rows.len(),
        rows[i] is None,
        forall|f: int|
            is_first_occurrence(rows, f) && entry_key(#[trigger] rows[f]) == UNKNOWN@
                ==> entry_hotel(rows[f]) == placeholder(),
    ensures
        name_in(loaded(rows), UNKNOWN@) == UNKNOWN@,
        category_in(loaded(rows), UNKNOWN@) == UNKNOWN_CATEGORY,
        city_in(loaded(rows), UNKNOWN@) == UNKNOWN@,
{
    let f = first_with_key(rows, UNKNOWN@, i);
    lemma_first_occurrence_wins(rows, f);
}

/// The index of the first line with the key `key`, given that the `i`-th
/// line has it.
proof fn first_with_key(rows: Seq<Option<HotelRow>>, key: Seq<char>, i: int) -> (f: int)
    requires
        0 <= i < rows.len(),
        entry_key(rows[i]) == key,
    ensures
        is_first_occurrence(rows, f),
        entry_key(rows[f]) == key,
        f <= i,
    decreases i,
{
    if exists|j: int| 0 <= j < i && entry_key(#[trigger] rows[j]) == key {
        let j = choose|j: int| 0 <= j < i && entry_key(#[trigger] rows[j]) == key;
        first_with_key(rows, key, j)
    } else {
        i
    }
}

} // verus!
