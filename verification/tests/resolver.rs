use e164_phones_countries::e164_number_to_iso3166;
use e164_phones_countries::iso3166_to_e164_country_code;

#[test]
fn short_phone_strings_are_not_found() {
    assert_eq!(e164_number_to_iso3166(""), None);
    assert_eq!(e164_number_to_iso3166("1"), None);
    assert_eq!(e164_number_to_iso3166("120693592"), None);
    assert_eq!(e164_number_to_iso3166("998935929"), None);
}

#[test]
fn resolves_zone1_number_to_us() {
    assert_eq!(e164_number_to_iso3166("12069359290"), Some("US"));
}

#[test]
fn unknown_zone1_area_code_is_not_found() {
    assert_eq!(e164_number_to_iso3166("12229359290"), None);
}

#[test]
fn resolves_three_digit_code_to_uz() {
    assert_eq!(e164_number_to_iso3166("99893592902"), Some("UZ"));
}

#[test]
fn resolves_shared_code_to_yt() {
    assert_eq!(e164_number_to_iso3166("26226992902"), Some("YT"));
}

#[test]
fn us_identifier_maps_to_calling_code_one() {
    assert_eq!(iso3166_to_e164_country_code("US"), Some(1));
}

#[test]
fn unknown_identifier_is_not_found() {
    assert_eq!(iso3166_to_e164_country_code("ZZ"), None);
}

#[test]
fn round_trip_through_both_tables() {
    assert_eq!(iso3166_to_e164_country_code("UZ"), Some(998));
    assert_eq!(e164_number_to_iso3166("99800000000"), Some("UZ"));
    assert_eq!(iso3166_to_e164_country_code("GB"), Some(44));
    assert_eq!(e164_number_to_iso3166("44000000000"), Some("GB"));
    assert_eq!(iso3166_to_e164_country_code("US"), Some(1));
    assert_eq!(e164_number_to_iso3166("12069359290"), Some("US"));
    // A shared calling code comes back as the table's representative, which
    // need not be the country the round trip started from.
    assert_eq!(iso3166_to_e164_country_code("RE"), Some(262));
    assert_eq!(e164_number_to_iso3166("26200000000"), Some("YT"));
}

#[test]
fn two_digit_key_beats_one_digit_key() {
    // 77 is a key of its own, so it must win over the one-digit key 7.
    assert_eq!(iso3166_to_e164_country_code("KZ"), Some(7));
    assert_eq!(e164_number_to_iso3166("77893592902"), Some("KZ"));
    // With no longer key in the window, the one-digit key 7 matches.
    assert_eq!(e164_number_to_iso3166("70693592902"), Some("RU"));
}

#[test]
fn malformed_input_is_not_found() {
    assert_eq!(e164_number_to_iso3166("1a069359290"), None);
    assert_eq!(e164_number_to_iso3166("9a893592902"), None);
    assert_eq!(e164_number_to_iso3166("99x93592902"), None);
    assert_eq!(e164_number_to_iso3166("abcdefghijk"), None);
}

#[test]
fn non_digit_past_the_window_is_ignored() {
    // Only the first six characters are ever read for a number outside
    // numbering zone 1, so a later non-digit does not make it malformed.
    assert_eq!(e164_number_to_iso3166("998935a2902"), Some("UZ"));
}

#[test]
fn identifier_lookup_is_exact_match_only() {
    assert_eq!(iso3166_to_e164_country_code("us"), None);
    assert_eq!(iso3166_to_e164_country_code("USA"), None);
    assert_eq!(iso3166_to_e164_country_code("U"), None);
    assert_eq!(iso3166_to_e164_country_code(""), None);
}

#[test]
fn ten_character_number_is_long_enough() {
    assert_eq!(e164_number_to_iso3166("2622699290"), Some("YT"));
}

#[test]
fn zone1_number_with_absent_low_key_is_not_found() {
    assert_eq!(e164_number_to_iso3166("10000000000"), None);
    assert_eq!(e164_number_to_iso3166("11234567890"), None);
}

#[test]
fn resolves_other_zone1_countries() {
    assert_eq!(e164_number_to_iso3166("12042345678"), Some("CA"));
    assert_eq!(e164_number_to_iso3166("18762345678"), Some("JM"));
    assert_eq!(iso3166_to_e164_country_code("CA"), Some(1));
    assert_eq!(iso3166_to_e164_country_code("JM"), Some(1));
}

#[test]
fn candidates_are_read_by_numeric_value() {
    // A leading zero drops out when a candidate is read as a number, so the
    // three-character candidate 044 hits the key 44.
    assert_eq!(e164_number_to_iso3166("04412345678"), Some("GB"));
}
