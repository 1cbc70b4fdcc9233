use nmea0183::commands::gga::GGA;
use nmea0183::commands::gsv::{GSVPage, Satellite};
use nmea0183::parser::Parser;
use nmea0183::types::{
    CardinalDirection, CommandTypes, Cordinate, Decimal, Error, GGAStatus, Time,
};

fn dec(negative: bool, units: u64, fraction: u64, scale: usize) -> Decimal {
    Decimal { negative, units, fraction, scale }
}

#[test]
fn gga_line_decodes_to_populated_record() {
    let line = "$GPGGA,161009.00,1122.20418,N,02339.35234,E,1,08,1.09,11.5,M,11.3,M,,*62";
    let parsed = Parser::parse_line(line);
    assert_eq!(
        parsed,
        Ok(CommandTypes::GGA(GGA {
            time: Time { hour: 16, minute: 10, second: 9, decimal_seconds: 0 },
            lat: Cordinate { degree: 112, minute: dec(false, 2, 20418, 5) },
            northing_indicator: CardinalDirection::North,
            lon: Cordinate { degree: 23, minute: dec(false, 39, 35234, 5) },
            easting_indicator: CardinalDirection::East,
            status: GGAStatus::S2d3D,
            number_of_satellites: 8,
            horizontal_dilution_of_position: dec(false, 1, 9, 2),
            altitude: dec(false, 11, 5, 1),
            altitude_unit: "M".to_string(),
            geoid_separation: dec(false, 11, 3, 1),
            geoid_separation_unit: "M".to_string(),
            differential_age_of_position: 0,
            differential_reference_station_id: 0,
        }))
    );
}

#[test]
fn altered_checksum_reports_both_values() {
    let line = "$GPGGA,161009.00,1122.20418,N,02339.35234,E,1,08,1.09,11.5,M,11.3,M,,*63";
    let parsed = Parser::parse_line(line);
    assert_eq!(parsed, Err(Error::ChecksumError(0x63, 0x62)));
}

#[test]
fn unknown_type_code_is_reported() {
    let parsed = Parser::parse_line("$GPXYZ,1,2*4F");
    assert_eq!(parsed, Err(Error::UnknownCommand("XYZ".to_string())));
}

#[test]
fn lowercase_checksum_is_accepted() {
    let parsed = Parser::parse_line("$GPXYZ,1,2*4f");
    assert_eq!(parsed, Err(Error::UnknownCommand("XYZ".to_string())));
}

#[test]
fn vtg_with_eight_fields_cites_expected_nine() {
    let parsed = Parser::parse_line("$GPVTG,81.47,T,,M,0.788,N,1.459,K*64");
    assert_eq!(
        parsed,
        Err(Error::ParseError(
            "Invalid command length for VTG, expected 9 fields, got 8".to_string()
        ))
    );
}

#[test]
fn gsv_page_with_five_slot_fields_decodes_partially() {
    let parsed = Parser::parse_line("$GPGSV,2,1,08,01,40,083,46,02*60");
    assert_eq!(
        parsed,
        Ok(CommandTypes::GSV(GSVPage {
            total_pages: 2,
            page_id: 1,
            number_of_known_satellites_in_view: 8,
            satellites: vec![
                Satellite {
                    id: Some(1),
                    elevation: Some(40),
                    azimuth: Some(83),
                    snr: Some(46)
                },
                Satellite { id: Some(2), elevation: None, azimuth: None, snr: None },
                Satellite { id: None, elevation: None, azimuth: None, snr: None },
                Satellite { id: None, elevation: None, azimuth: None, snr: None },
            ],
            signal_id: Some(2),
        }))
    );
}

#[test]
fn reparsing_a_line_gives_equal_records() {
    let line = "$GPGGA,161009.00,1122.20418,N,02339.35234,E,1,08,1.09,11.5,M,11.3,M,,*62";
    let first = Parser::parse_line(line);
    let second = Parser::parse_line(line);
    assert!(first.is_ok());
    assert_eq!(first, second);
}

#[test]
fn line_without_star_is_rejected() {
    let parsed = Parser::parse_line("$GPGGA,161009.00");
    assert_eq!(parsed, Err(Error::ParseError("Invalid line".to_string())));
}

#[test]
fn hex_only_line_without_star_is_still_rejected() {
    // Even though "F" reads as a hex byte, a line without a `*` never
    // reaches the checksum comparison.
    let parsed = Parser::parse_line("F");
    assert_eq!(parsed, Err(Error::ParseError("Invalid line".to_string())));
}

#[test]
fn non_hex_checksum_names_the_token() {
    let parsed = Parser::parse_line("$GPGGA,1*ZZ");
    assert_eq!(
        parsed,
        Err(Error::ParseError(
            "Invalid line, checksum is invalid \"ZZ\"".to_string()
        ))
    );
}

#[test]
fn wrong_talker_prefix_is_reported() {
    let parsed = Parser::parse_line("$XXGGA,1*5C");
    assert_eq!(
        parsed,
        Err(Error::ParseError("Invalid command start \"$XX\"".to_string()))
    );
}

#[test]
fn line_too_short_for_a_type_code_is_invalid() {
    // The checksum body before the `*` is empty and folds to zero, so the
    // line passes the checksum test and fails on its framing.
    let parsed = Parser::parse_line("*0");
    assert_eq!(parsed, Err(Error::ParseError("Invalid line".to_string())));
}

#[test]
fn gga_with_thirteen_fields_defaults_the_station() {
    let line = "$GPGGA,161009.00,1122.20418,N,02339.35234,E,1,08,1.09,11.5,M,11.3,M,5*7B";
    match Parser::parse_line(line) {
        Ok(CommandTypes::GGA(gga)) => {
            assert_eq!(gga.differential_age_of_position, 5);
            assert_eq!(gga.differential_reference_station_id, 0);
        }
        other => panic!("expected a GGA record, got {:?}", other),
    }
}

#[test]
fn gga_quality_digit_above_five_is_rejected() {
    let line = "$GPGGA,161009.00,1122.20418,N,02339.35234,E,6,08,1.09,11.5,M,11.3,M,,*65";
    assert_eq!(
        Parser::parse_line(line),
        Err(Error::ParseError("Invalid status for GGA".to_string()))
    );
}

#[test]
fn gga_with_fourteen_fields_decodes_age_and_station() {
    let line = "$GPGGA,161009.00,1122.20418,N,02339.35234,E,1,08,1.09,11.5,M,11.3,M,12,7*56";
    match Parser::parse_line(line) {
        Ok(CommandTypes::GGA(gga)) => {
            assert_eq!(gga.differential_age_of_position, 12);
            assert_eq!(gga.differential_reference_station_id, 7);
        }
        other => panic!("expected a GGA record, got {:?}", other),
    }
}

#[test]
fn rmc_with_unknown_variation_indicator_is_rejected() {
    let line = "$GPRMC,110419.00,A,1122.20418,N,02339.35234,E,0.035,81.2,111022,3.2,X,A*1E";
    assert_eq!(
        Parser::parse_line(line),
        Err(Error::ParseError(
            "Invalid magnetic variation indicator".to_string()
        ))
    );
}

#[test]
fn rmc_with_eleven_fields_is_rejected() {
    let line = "$GPRMC,110419.00,A,1122.20418,N,02339.35234,E,0.035,,111022,,*11";
    assert_eq!(
        Parser::parse_line(line),
        Err(Error::ParseError(
            "Invalid command length for RMC, expected 12 or 13 fields, got 11".to_string()
        ))
    );
}

#[test]
fn rmc_with_fourteen_fields_is_rejected() {
    let line = "$GPRMC,110419.00,A,1122.20418,N,02339.35234,E,0.035,81.2,111022,3.2,W,A,B,C*10";
    assert_eq!(
        Parser::parse_line(line),
        Err(Error::ParseError(
            "Invalid command length for RMC, expected 12 or 13 fields, got 14".to_string()
        ))
    );
}

#[test]
fn gll_with_eight_fields_is_rejected() {
    let line = "$GPGLL,4916.450,N,12311.120,W,225444.12,A,A,X*05";
    assert_eq!(
        Parser::parse_line(line),
        Err(Error::ParseError(
            "Invalid command length for GLL, expected 7 fields, got 8".to_string()
        ))
    );
}

#[test]
fn gsa_with_too_few_fields_is_rejected() {
    let line = "$GPGSA,A,3,04,05,,09,12,,,24,,,,,2.5,1.3*38";
    assert_eq!(
        Parser::parse_line(line),
        Err(Error::ParseError(
            "Invalid command length for GSA, expected 17 fields, got 16".to_string()
        ))
    );
}

#[test]
fn gsa_with_unknown_operation_mode_cites_the_field() {
    let line = "$GPGSA,Q,3,04,05,,09,12,,,24,,,,,2.5,1.3,2.1*29";
    assert_eq!(
        Parser::parse_line(line),
        Err(Error::ParseError("Invalid operation mode: Q".to_string()))
    );
}

#[test]
fn zda_with_five_fields_is_rejected() {
    let line = "$GPZDA,160012.71,11,03,2004,01*4C";
    assert_eq!(
        Parser::parse_line(line),
        Err(Error::ParseError(
            "Invalid command length for ZDA, expected 6 fields, got 5".to_string()
        ))
    );
}

#[test]
fn every_talker_code_is_recognized() {
    for talker in ["GA", "GB", "GP", "GL", "GN", "GQ"] {
        let body = format!("{}XYZ,1,2", talker);
        let mut check: u8 = 0;
        for b in body.bytes() {
            check ^= b;
        }
        let line = format!("${}*{:02X}", body, check);
        assert_eq!(
            Parser::parse_line(&line),
            Err(Error::UnknownCommand("XYZ".to_string()))
        );
    }
}
