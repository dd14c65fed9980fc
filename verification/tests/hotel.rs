use rustconv::hotel::{Hotel, HotelMap, HotelRow, UNKNOWN, UNKNOWN_CATEGORY};

fn row(id: &str, name: &str, category: f32, city: &str) -> Option<HotelRow> {
    Some(HotelRow {
        id: String::from(id),
        city_code: String::from("BER"),
        name: String::from(name),
        category: category.to_bits(),
        country_code: String::from("DE"),
        city: String::from(city),
    })
}

#[test]
fn create_hotel_map() {
    let mut result = HotelMap::new(Vec::new());
    result.add(
        String::from("BER00002"),
        Hotel {
            name: String::from("Crowne Plaza Berlin City Centre"),
            category: 4.0f32.to_bits(),
            city: String::from("Berlin"),
        },
    );
    result.add(
        String::from("BER00003"),
        Hotel {
            name: String::from("Berlin Marriott Hotel"),
            category: 5.0f32.to_bits(),
            city: String::from("Berlin"),
        },
    );

    assert_eq!(2, result.len());
    assert!(result.contains_key("BER00002"));
    assert!(result.contains_key("BER00003"));
}

#[test]
fn empty_table_has_no_hotel() {
    let table = HotelMap::new(Vec::new());
    assert_eq!(0, table.len());
    assert!(!table.contains_key("BER00002"));
    assert!(!table.contains_key(UNKNOWN));
}

#[test]
fn lookups_find_the_hotel() {
    let table = HotelMap::new(vec![
        row("BER00002", "Crowne Plaza Berlin City Centre", 4.0, "Berlin"),
        row("BER00003", "Berlin Marriott Hotel", 5.0, "Berlin"),
        row("PAR00001", "Le Meurice", 4.5, "Paris"),
    ]);
    assert_eq!(3, table.len());
    assert_eq!("Crowne Plaza Berlin City Centre", table.get_name("BER00002"));
    assert_eq!("Berlin", table.get_city_name("BER00002"));
    assert_eq!(4.0, f32::from_bits(table.get_category("BER00002")));
    assert_eq!("Berlin Marriott Hotel", table.get_name("BER00003"));
    assert_eq!(5.0, f32::from_bits(table.get_category("BER00003")));
    assert_eq!("Le Meurice", table.get_name("PAR00001"));
    assert_eq!("Paris", table.get_city_name("PAR00001"));
    assert_eq!(4.5, f32::from_bits(table.get_category("PAR00001")));
}

#[test]
fn lookups_fall_back_for_an_unknown_hotel() {
    let table = HotelMap::new(vec![row("BER00002", "Crowne Plaza Berlin City Centre", 4.0, "Berlin")]);
    assert_eq!("???", table.get_name("BER00009"));
    assert_eq!("???", table.get_city_name("BER00009"));
    assert_eq!(0, table.get_category("BER00009"));
    assert_eq!(0.0, f32::from_bits(table.get_category("BER00009")));
    assert_eq!("???", table.get_name(""));
    assert_eq!("???", table.get_name("ber00002"));
}

#[test]
fn fallback_constants() {
    assert_eq!("???", UNKNOWN);
    assert_eq!(0.0f32.to_bits(), UNKNOWN_CATEGORY);
}

#[test]
fn first_occurrence_wins() {
    let table = HotelMap::new(vec![
        row("BER00002", "Crowne Plaza Berlin City Centre", 4.0, "Berlin"),
        row("BER00003", "Berlin Marriott Hotel", 5.0, "Berlin"),
        row("BER00002", "Some Other Hotel", 1.0, "Potsdam"),
    ]);
    assert_eq!(2, table.len());
    assert_eq!("Crowne Plaza Berlin City Centre", table.get_name("BER00002"));
    assert_eq!("Berlin", table.get_city_name("BER00002"));
    assert_eq!(4.0, f32::from_bits(table.get_category("BER00002")));
}

#[test]
fn add_keeps_the_hotel_that_is_there() {
    let mut table = HotelMap::new(vec![row("BER00002", "Crowne Plaza Berlin City Centre", 4.0, "Berlin")]);
    table.add(
        String::from("BER00002"),
        Hotel { name: String::from("Late"), category: 2.0f32.to_bits(), city: String::from("Bonn") },
    );
    assert_eq!(1, table.len());
    assert_eq!("Crowne Plaza Berlin City Centre", table.get_name("BER00002"));
    table.add(
        String::from("BON00001"),
        Hotel { name: String::from("Late"), category: 2.0f32.to_bits(), city: String::from("Bonn") },
    );
    assert_eq!(2, table.len());
    assert_eq!("Late", table.get_name("BON00001"));
    assert_eq!("Bonn", table.get_city_name("BON00001"));
    assert_eq!(2.0, f32::from_bits(table.get_category("BON00001")));
}

#[test]
fn undecoded_line_gives_the_placeholder() {
    let table = HotelMap::new(vec![
        row("BER00002", "Crowne Plaza Berlin City Centre", 4.0, "Berlin"),
        None,
        row("BER00003", "Berlin Marriott Hotel", 5.0, "Berlin"),
    ]);
    assert_eq!(3, table.len());
    assert!(table.contains_key("???"));
    assert_eq!("???", table.get_name("???"));
    assert_eq!("???", table.get_city_name("???"));
    assert_eq!(0.0, f32::from_bits(table.get_category("???")));
    assert_eq!("Berlin Marriott Hotel", table.get_name("BER00003"));
}

#[test]
fn undecoded_lines_share_one_entry() {
    let table = HotelMap::new(vec![None, None, row("BER00002", "A", 4.0, "Berlin"), None]);
    assert_eq!(2, table.len());
    assert_eq!("???", table.get_name("???"));
}

#[test]
fn decoded_line_under_the_fallback_key_comes_first() {
    let table = HotelMap::new(vec![row("???", "Hotel Enigma", 3.0, "Bletchley"), None]);
    assert_eq!(1, table.len());
    assert_eq!("Hotel Enigma", table.get_name("???"));
    assert_eq!("Bletchley", table.get_city_name("???"));
    assert_eq!(3.0, f32::from_bits(table.get_category("???")));

    let table = HotelMap::new(vec![None, row("???", "Hotel Enigma", 3.0, "Bletchley")]);
    assert_eq!(1, table.len());
    assert_eq!("???", table.get_name("???"));
    assert_eq!("???", table.get_city_name("???"));
    assert_eq!(0, table.get_category("???"));
}

#[test]
fn parse_takes_the_fields_of_a_decoded_line() {
    let (id, hotel) = Hotel::parse(row("BER00002", "Crowne Plaza Berlin City Centre", 4.0, "Berlin"));
    assert_eq!("BER00002", id);
    assert_eq!("Crowne Plaza Berlin City Centre", hotel.name);
    assert_eq!(4.0f32.to_bits(), hotel.category);
    assert_eq!("Berlin", hotel.city);
}

#[test]
fn parse_gives_the_placeholder_for_an_undecoded_line() {
    let (id, hotel) = Hotel::parse(None);
    assert_eq!("???", id);
    assert_eq!("???", hotel.name);
    assert_eq!(0, hotel.category);
    assert_eq!("???", hotel.city);
}

#[test]
fn hotel_new_drops_the_codes() {
    let hotel = Hotel::new(row("PAR00001", "Le Meurice", 4.5, "Paris").unwrap());
    assert_eq!("Le Meurice", hotel.name);
    assert_eq!(4.5f32.to_bits(), hotel.category);
    assert_eq!("Paris", hotel.city);
}
