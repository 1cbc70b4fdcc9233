use nmea0183::commands::dtm::DTM;
use nmea0183::commands::gbs::GBS;
use nmea0183::commands::gll::GLL;
use nmea0183::commands::gsa::GSA;
use nmea0183::commands::rmc::RMC;
use nmea0183::commands::vtg::VTG;
use nmea0183::commands::zda::ZDA;
use nmea0183::parser::Parser;
use nmea0183::types::{
    CardinalDirection, CommandTypes, Cordinate, Date, Decimal, GSAOperationMode, ModeIndicator,
    NavigationMode, Status, Time, VTGUnit,
};

fn dec(negative: bool, units: u64, fraction: u64, scale: usize) -> Decimal {
    Decimal { negative, units, fraction, scale }
}

#[test]
fn gll_line_decodes() {
    let parsed = Parser::parse_line("$GPGLL,4916.450,N,12311.120,W,225444.12,A,A*71");
    assert_eq!(
        parsed,
        Ok(CommandTypes::GLL(GLL {
            lat: Cordinate { degree: 491, minute: dec(false, 6, 450, 3) },
            northing_indicator: CardinalDirection::North,
            lon: Cordinate { degree: 123, minute: dec(false, 11, 120, 3) },
            easting_indicator: CardinalDirection::West,
            time: Time { hour: 22, minute: 54, second: 44, decimal_seconds: 12 },
            status: Status::Valid,
            mode_indicator: ModeIndicator::Autonomous,
        }))
    );
}

#[test]
fn gsa_line_decodes_with_absent_slots() {
    let parsed = Parser::parse_line("$GPGSA,A,3,04,05,,09,12,,,24,,,,,2.5,1.3,2.1*39");
    assert_eq!(
        parsed,
        Ok(CommandTypes::GSA(GSA {
            operation_mode: GSAOperationMode::Automatic,
            navigation_mode: NavigationMode::Fix3D,
            satellites: vec![
                Some(4),
                Some(5),
                None,
                Some(9),
                Some(12),
                None,
                None,
                Some(24),
                None,
                None,
                None,
                None
            ],
            number_of_satellites: 5,
            pdop: dec(false, 2, 5, 1),
            hdop: dec(false, 1, 3, 1),
            vdop: dec(false, 2, 1, 1),
        }))
    );
}

#[test]
fn dtm_line_decodes() {
    let parsed = Parser::parse_line("$GPDTM,W84,X,0.5,N,1.25,E,3.0,W84*07");
    assert_eq!(
        parsed,
        Ok(CommandTypes::DTM(DTM {
            local_datum_code: "W84".to_string(),
            local_datum_sub_division_code: "X".to_string(),
            latitude_offset: dec(false, 0, 5, 1),
            northing_indicator: CardinalDirection::North,
            longitude_offset: dec(false, 1, 25, 2),
            easting_indicator: CardinalDirection::East,
            altitude_offset: dec(false, 3, 0, 1),
            reference_datum_code: "W84".to_string(),
        }))
    );
}

#[test]
fn gbs_line_decodes_with_negative_errors() {
    let parsed =
        Parser::parse_line("$GPGBS,015509.00,-0.031,-0.186,0.219,19,0.000,-0.354,6.972*4D");
    assert_eq!(
        parsed,
        Ok(CommandTypes::GBS(GBS {
            time: Time { hour: 1, minute: 55, second: 9, decimal_seconds: 0 },
            latitude: dec(true, 0, 31, 3),
            longitude: dec(true, 0, 186, 3),
            altitude: dec(false, 0, 219, 3),
            failed_satellite_id: 19,
            probability_of_missed_detection: dec(false, 0, 0, 3),
            estimate_of_bias: dec(true, 0, 354, 3),
            standard_deviation_of_bias_estimate: dec(false, 6, 972, 3),
        }))
    );
}

#[test]
fn zda_line_decodes() {
    let parsed = Parser::parse_line("$GPZDA,160012.71,11,03,2004,01,00*60");
    assert_eq!(
        parsed,
        Ok(CommandTypes::ZDA(ZDA {
            time: Time { hour: 16, minute: 0, second: 12, decimal_seconds: 71 },
            date: Date { year: 2004, month: 3, day: 11 },
            local_zone_hours: 1,
            local_zone_minutes: 0,
        }))
    );
}

#[test]
fn vtg_line_decodes_with_empty_magnetic_course() {
    let parsed = Parser::parse_line("$GPVTG,81.47,T,,M,0.788,N,1.459,K,A*09");
    assert_eq!(
        parsed,
        Ok(CommandTypes::VTG(VTG {
            course_over_ground_true: Some(dec(false, 81, 47, 2)),
            course_over_ground_unit: 'T',
            course_over_ground_magnetic: None,
            course_over_ground_magnetic_unit: 'M',
            speed_over_ground_first: Some(dec(false, 0, 788, 3)),
            speed_over_ground_first_unit: VTGUnit::Knots,
            speed_over_ground_second: Some(dec(false, 1, 459, 3)),
            speed_over_ground_second_unit: VTGUnit::Kmh,
            mode_indicator: ModeIndicator::Autonomous,
        }))
    );
}

#[test]
fn rmc_with_empty_variation_field_decodes_to_absent() {
    let parsed =
        Parser::parse_line("$GPRMC,110419.00,A,1122.20418,N,02339.35234,E,0.035,,111022,,,A*7C");
    assert_eq!(
        parsed,
        Ok(CommandTypes::RMC(RMC {
            time: Time { hour: 11, minute: 4, second: 19, decimal_seconds: 0 },
            status: Status::Valid,
            lat: Cordinate { degree: 112, minute: dec(false, 2, 20418, 5) },
            northing_indicator: CardinalDirection::North,
            lon: Cordinate { degree: 23, minute: dec(false, 39, 35234, 5) },
            easting_indicator: CardinalDirection::East,
            speed_over_ground: dec(false, 0, 35, 3),
            course_over_ground: None,
            date: Date { year: 22, month: 10, day: 11 },
            magnetic_variation: None,
            magnetic_variation_indicator: None,
        }))
    );
}

#[test]
fn rmc_with_westerly_variation_decodes() {
    let parsed = Parser::parse_line(
        "$GPRMC,110419.00,A,1122.20418,N,02339.35234,E,0.035,81.2,111022,-3.2,W,A*3C",
    );
    match parsed {
        Ok(CommandTypes::RMC(rmc)) => {
            assert_eq!(rmc.course_over_ground, Some(dec(false, 81, 2, 1)));
            assert_eq!(rmc.magnetic_variation, Some(dec(true, 3, 2, 1)));
            assert_eq!(
                rmc.magnetic_variation_indicator,
                Some(CardinalDirection::West)
            );
        }
        other => panic!("expected an RMC record, got {:?}", other),
    }
}

#[test]
fn gns_with_empty_optionals_decodes_to_absent() {
    let parsed =
        Parser::parse_line("$GNGNS,103600.01,1101.024,N,01720.498,E,ANNN,07,1.18,,,5.2,0538*7C");
    match parsed {
        Ok(CommandTypes::GNS(gns)) => {
            assert_eq!(
                gns.time,
                Time { hour: 10, minute: 36, second: 0, decimal_seconds: 1 }
            );
            assert_eq!(gns.latitude, Some(dec(false, 1101, 24, 3)));
            assert_eq!(gns.latitude_direction, Some(CardinalDirection::North));
            assert_eq!(gns.longitude, Some(dec(false, 1720, 498, 3)));
            assert_eq!(gns.longitude_direction, Some(CardinalDirection::East));
            assert_eq!(gns.gps_mode_indicator, Some(ModeIndicator::Autonomous));
            assert_eq!(gns.glonass_mode_indicator, Some(ModeIndicator::NoFix));
            assert_eq!(gns.galileo_mode_indicator, Some(ModeIndicator::NoFix));
            assert_eq!(gns.beidou_mode_indicator, Some(ModeIndicator::NoFix));
            assert_eq!(gns.qzss_mode_indicator, None);
            assert_eq!(gns.number_of_satellites_in_use, 7);
            assert_eq!(
                gns.horizontal_dilution_of_precision,
                Some(dec(false, 1, 18, 2))
            );
            assert_eq!(gns.orthometric_height, None);
            assert_eq!(gns.geodial_separation, None);
            assert_eq!(gns.age_of_differential_gps_data, dec(false, 5, 2, 1));
            assert_eq!(gns.reference_station_id, Some("538".to_string()));
        }
        other => panic!("expected a GNS record, got {:?}", other),
    }
}

#[test]
fn gsv_full_page_decodes_all_four_slots() {
    let parsed = Parser::parse_line(
        "$GPGSV,3,1,11,03,03,111,00,04,15,270,00,06,01,010,00,13,06,292,00*74",
    );
    match parsed {
        Ok(CommandTypes::GSV(page)) => {
            assert_eq!(page.total_pages, 3);
            assert_eq!(page.page_id, 1);
            assert_eq!(page.number_of_known_satellites_in_view, 11);
            assert_eq!(page.satellites.len(), 4);
            assert_eq!(page.satellites[0].id, Some(3));
            assert_eq!(page.satellites[0].azimuth, Some(111));
            assert_eq!(page.satellites[1].id, Some(4));
            assert_eq!(page.satellites[2].azimuth, Some(10));
            assert_eq!(page.satellites[3].id, Some(13));
            assert_eq!(page.satellites[3].snr, Some(0));
            assert_eq!(page.signal_id, Some(0));
        }
        other => panic!("expected a GSV page, got {:?}", other),
    }
}
