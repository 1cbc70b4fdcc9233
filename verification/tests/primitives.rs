use nmea0183::primitives::{
    parse_coordinate, parse_date, parse_decimal, parse_hex_u8, parse_time, parse_u8, parse_usize,
    str_eq, u64_to_string, usize_to_string,
};
use nmea0183::types::{Cordinate, Date, Decimal, Status, TalkerIds, Time};

fn dec(negative: bool, units: u64, fraction: u64, scale: usize) -> Decimal {
    Decimal { negative, units, fraction, scale }
}

#[test]
fn unsigned_parsing_follows_the_numeral_grammar() {
    assert_eq!(parse_u8("0"), Some(0));
    assert_eq!(parse_u8("08"), Some(8));
    assert_eq!(parse_u8("+5"), Some(5));
    assert_eq!(parse_u8("255"), Some(255));
    assert_eq!(parse_u8("256"), None);
    assert_eq!(parse_u8(""), None);
    assert_eq!(parse_u8("+"), None);
    assert_eq!(parse_u8("-1"), None);
    assert_eq!(parse_u8("1 "), None);
    assert_eq!(parse_usize("12345"), Some(12345));
    assert_eq!(parse_usize("99999999999999999999999999"), None);
}

#[test]
fn hex_byte_parsing_accepts_both_cases() {
    assert_eq!(parse_hex_u8("62"), Some(0x62));
    assert_eq!(parse_hex_u8("ff"), Some(255));
    assert_eq!(parse_hex_u8("FF"), Some(255));
    assert_eq!(parse_hex_u8("0"), Some(0));
    assert_eq!(parse_hex_u8("0ff"), Some(255));
    assert_eq!(parse_hex_u8("100"), None);
    assert_eq!(parse_hex_u8(""), None);
    assert_eq!(parse_hex_u8("G1"), None);
}

#[test]
fn decimal_parsing_keeps_the_numeral_exactly() {
    assert_eq!(parse_decimal("1.09"), Some(dec(false, 1, 9, 2)));
    assert_eq!(parse_decimal("11.5"), Some(dec(false, 11, 5, 1)));
    assert_eq!(parse_decimal("-0.354"), Some(dec(true, 0, 354, 3)));
    assert_eq!(parse_decimal("+7"), Some(dec(false, 7, 0, 0)));
    assert_eq!(parse_decimal("5."), Some(dec(false, 5, 0, 0)));
    assert_eq!(parse_decimal(".5"), Some(dec(false, 0, 5, 1)));
    assert_eq!(parse_decimal("-.5"), Some(dec(true, 0, 5, 1)));
    assert_eq!(parse_decimal("."), None);
    assert_eq!(parse_decimal("-"), None);
    assert_eq!(parse_decimal(""), None);
    assert_eq!(parse_decimal("1.2.3"), None);
    assert_eq!(parse_decimal("1a"), None);
}

#[test]
fn time_fields_split_into_pairs_and_fraction() {
    assert_eq!(
        parse_time("161009.00"),
        Some(Time { hour: 16, minute: 10, second: 9, decimal_seconds: 0 })
    );
    assert_eq!(
        parse_time("225444.12"),
        Some(Time { hour: 22, minute: 54, second: 44, decimal_seconds: 12 })
    );
    assert_eq!(
        parse_time("161009"),
        Some(Time { hour: 16, minute: 10, second: 9, decimal_seconds: 0 })
    );
    assert_eq!(parse_time("16100"), None);
    assert_eq!(parse_time("16100.5"), None);
    assert_eq!(parse_time("161009."), None);
    assert_eq!(parse_time("161009.1.2"), None);
    assert_eq!(parse_time("1610a9"), None);
    assert_eq!(parse_time(""), None);
}

#[test]
fn date_fields_slice_day_month_year() {
    assert_eq!(parse_date("111022"), Some(Date { year: 22, month: 10, day: 11 }));
    assert_eq!(parse_date("010299"), Some(Date { year: 99, month: 2, day: 1 }));
    assert_eq!(parse_date("01023"), None);
    assert_eq!(parse_date("0102"), None);
    assert_eq!(parse_date("010"), None);
    assert_eq!(parse_date(""), None);
}

#[test]
fn coordinates_use_a_three_character_degree_prefix() {
    assert_eq!(
        parse_coordinate("1122.20418"),
        Some(Cordinate { degree: 112, minute: dec(false, 2, 20418, 5) })
    );
    assert_eq!(
        parse_coordinate("02339.35234"),
        Some(Cordinate { degree: 23, minute: dec(false, 39, 35234, 5) })
    );
    assert_eq!(parse_coordinate("12"), None);
    assert_eq!(parse_coordinate("123"), None);
    assert_eq!(parse_coordinate("abc1.0"), None);
}

#[test]
fn string_equality_compares_character_sequences() {
    assert!(str_eq("GGA", "GGA"));
    assert!(!str_eq("GGA", "GGL"));
    assert!(!str_eq("GGA", "GGAA"));
    assert!(str_eq("", ""));
}

#[test]
fn numbers_render_without_leading_zeroes() {
    assert_eq!(u64_to_string(0), "0".to_string());
    assert_eq!(u64_to_string(7), "7".to_string());
    assert_eq!(u64_to_string(538), "538".to_string());
    assert_eq!(u64_to_string(65535), "65535".to_string());
    assert_eq!(
        u64_to_string(18446744073709551615),
        "18446744073709551615".to_string()
    );
    assert_eq!(usize_to_string(17), "17".to_string());
}

#[test]
fn talker_codes_require_the_dollar_prefix() {
    assert!(TalkerIds::is_correct("$GP"));
    assert!(TalkerIds::is_correct("$GQ"));
    assert!(!TalkerIds::is_correct("GP"));
    assert!(!TalkerIds::is_correct("$GX"));
    assert_eq!(TalkerIds::parse("$GL"), TalkerIds::GL);
}

#[test]
fn status_letters_decode_or_reject() {
    assert_eq!(Status::from_str("A"), Ok(Status::Valid));
    assert_eq!(Status::from_str("V"), Ok(Status::Invalid));
    assert!(Status::from_str("B").is_err());
    assert!(Status::from_str("").is_err());
}
