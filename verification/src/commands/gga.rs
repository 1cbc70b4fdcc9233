use vstd::prelude::*;

use crate::commands::{first_cardinal, spec_first_cardinal};
use crate::primitives;
use crate::types::{CardinalDirection, Cordinate, Decimal, Error, ErrorView, GGAStatus, Time};

verus! {

/// GGA record: positioning-system fix data.
#[derive(Debug, Clone, PartialEq)]
pub struct GGA {
    /// UTC time of day.
    pub time: Time,
    /// Latitude.
    pub lat: Cordinate,
    /// North/south indicator.
    pub northing_indicator: CardinalDirection,
    /// Longitude.
    pub lon: Cordinate,
    /// East/west indicator.
    pub easting_indicator: CardinalDirection,
    /// Quality indicator of the fix.
    pub status: GGAStatus,
    /// Number of satellites in use.
    pub number_of_satellites: u8,
    /// Horizontal dilution of precision.
    pub horizontal_dilution_of_position: Decimal,
    /// Antenna altitude above mean sea level.
    pub altitude: Decimal,
    /// Unit of the altitude, `M` for metres.
    pub altitude_unit: String,
    /// Difference between the ellipsoid and mean sea level.
    pub geoid_separation: Decimal,
    /// Unit of the geoid separation, `M` for metres.
    pub geoid_separation_unit: String,
    /// Age of the differential corrections; zero when absent.
    pub differential_age_of_position: usize,
    /// Differential reference station; zero when absent.
    pub differential_reference_station_id: usize,
}

/// Spec-level image of a [`GGA`] record, with strings as character sequences.
#[verifier::ext_equal]
pub struct GGAView {
    /// UTC time of day.
    pub time: Time,
    /// Latitude.
    pub lat: Cordinate,
    /// North/south indicator.
    pub northing_indicator: CardinalDirection,
    /// Longitude.
    pub lon: Cordinate,
    /// East/west indicator.
    pub easting_indicator: CardinalDirection,
    /// Quality indicator of the fix.
    pub status: GGAStatus,
    /// Number of satellites in use.
    pub number_of_satellites: u8,
    /// Horizontal dilution of precision.
    pub horizontal_dilution_of_position: Decimal,
    /// Antenna altitude above mean sea level.
    pub altitude: Decimal,
    /// Unit of the altitude.
    pub altitude_unit: Seq<char>,
    /// Difference between the ellipsoid and mean sea level.
    pub geoid_separation: Decimal,
    /// Unit of the geoid separation.
    pub geoid_separation_unit: Seq<char>,
    /// Age of the differential corrections; zero when absent.
    pub differential_age_of_position: usize,
    /// Differential reference station; zero when absent.
    pub differential_reference_station_id: usize,
}

impl View for GGA {
    type V = GGAView;

    open spec fn view(&self) -> GGAView {
        GGAView {
            time: self.time,
            lat: self.lat,
            northing_indicator: self.northing_indicator,
            lon: self.lon,
            easting_indicator: self.easting_indicator,
            status: self.status,
            number_of_satellites: self.number_of_satellites,
            horizontal_dilution_of_position: self.horizontal_dilution_of_position,
            altitude: self.altitude,
            altitude_unit: self.altitude_unit@,
            geoid_separation: self.geoid_separation,
            geoid_separation_unit: self.geoid_separation_unit@,
            differential_age_of_position: self.differential_age_of_position,
            differential_reference_station_id: self.differential_reference_station_id,
        }
    }
}

impl GGA {
    /// The placeholder record: zero values, invalid fix, north and east.
    pub open spec fn spec_default() -> GGAView {
        GGAView {
            time: Time::spec_zero(),
            lat: Cordinate::spec_zero(),
            northing_indicator: CardinalDirection::North,
            lon: Cordinate::spec_zero(),
            easting_indicator: CardinalDirection::East,
            status: GGAStatus::Invalid,
            number_of_satellites: 0,
            horizontal_dilution_of_position: Decimal::spec_zero(),
            altitude: Decimal::spec_zero(),
            altitude_unit: Seq::empty(),
            geoid_separation: Decimal::spec_zero(),
            geoid_separation_unit: Seq::empty(),
            differential_age_of_position: 0,
            differential_reference_station_id: 0,
        }
    }
}

impl Default for GGA {
    /// The default record is all zeroes with an invalid fix.
    fn default() -> (r: GGA)
        ensures
            r@ == GGA::spec_default(),
    {
        GGA {
            time: Time::default(),
            lat: Cordinate::default(),
            northing_indicator: CardinalDirection::North,
            lon: Cordinate::default(),
            easting_indicator: CardinalDirection::East,
            status: GGAStatus::Invalid,
            number_of_satellites: 0,
            horizontal_dilution_of_position: Decimal::zero(),
            altitude: Decimal::zero(),
            altitude_unit: String::new(),
            geoid_separation: Decimal::zero(),
            geoid_separation_unit: String::new(),
            differential_age_of_position: 0,
            differential_reference_station_id: 0,
        }
    }
}

/// Result of decoding GGA fields: thirteen or fourteen fields, in order the
/// time of day, latitude and longitude with their directions, the quality
/// digit, satellite count, horizontal dilution, altitude and geoid
/// separation each followed by a unit field, and the differential age and
/// station, which may be empty or missing and then read as zero.
pub open spec fn spec_parse_gga(f: Seq<Seq<char>>) -> Result<GGAView, ErrorView> {
    if f.len() != 14 && f.len() != 13 {
        Err(
            ErrorView::ParseError(
                "Invalid command length for GGA, expected 13 or 14 fields, got "@
                    + primitives::dec_digits_of(f.len()),
            ),
        )
    } else {
        match primitives::spec_time(f[0]) {
            None => Err(ErrorView::ParseError("Invalid time field"@)),
            Some(time) => match primitives::spec_coordinate(f[1]) {
                None => Err(ErrorView::ParseError("Invalid coordinate field"@)),
                Some(lat) => match spec_first_cardinal(f[2]) {
                    None => Err(ErrorView::ParseError("Invalid northing indicator"@)),
                    Some(northing_indicator) => match primitives::spec_coordinate(f[3]) {
                        None => Err(ErrorView::ParseError("Invalid coordinate field"@)),
                        Some(lon) => match spec_first_cardinal(f[4]) {
                            None => Err(ErrorView::ParseError("Invalid easting indicator"@)),
                            Some(easting_indicator) => spec_parse_gga_tail(
                                f,
                                time,
                                lat,
                                northing_indicator,
                                lon,
                                easting_indicator,
                            ),
                        },
                    },
                },
            },
        }
    }
}

/// Continues [`spec_parse_gga`] past the position fields.
pub open spec fn spec_parse_gga_tail(
    f: Seq<Seq<char>>,
    time: Time,
    lat: Cordinate,
    northing_indicator: CardinalDirection,
    lon: Cordinate,
    easting_indicator: CardinalDirection,
) -> Result<GGAView, ErrorView> {
    match primitives::spec_parse_u8(f[5]) {
        None => Err(ErrorView::ParseError("Invalid numeric field"@)),
        Some(digit) => match GGAStatus::spec_from(digit) {
            None => Err(ErrorView::ParseError("Invalid status for GGA"@)),
            Some(status) => match (
                primitives::spec_parse_u8(f[6]),
                primitives::spec_parse_decimal(f[7]),
                primitives::spec_parse_decimal(f[8]),
                primitives::spec_parse_decimal(f[10]),
            ) {
                (Some(number_of_satellites), Some(hdop), Some(altitude), Some(geoid)) => {
                    let age = if f[12].len() == 0 {
                        Some(0usize)
                    } else {
                        primitives::spec_parse_usize(f[12])
                    };
                    let station = if f.len() == 13 || f[13].len() == 0 {
                        Some(0usize)
                    } else {
                        primitives::spec_parse_usize(f[13])
                    };
                    match (age, station) {
                        (Some(differential_age_of_position), Some(station_id)) => Ok(
                            GGAView {
                                time,
                                lat,
                                northing_indicator,
                                lon,
                                easting_indicator,
                                status,
                                number_of_satellites,
                                horizontal_dilution_of_position: hdop,
                                altitude,
                                altitude_unit: f[9],
                                geoid_separation: geoid,
                                geoid_separation_unit: f[11],
                                differential_age_of_position,
                                differential_reference_station_id: station_id,
                            },
                        ),
                        _ => Err(ErrorView::ParseError("Invalid numeric field"@)),
                    }
                },
                _ => Err(ErrorView::ParseError("Invalid numeric field"@)),
            },
        },
    }
}

impl GGA {
    /// Decodes the GGA fields.
    pub fn parse_command(&self, command: Vec<String>) -> (r: Result<GGA, Error>)
        ensures
            (match r {
                Ok(v) => spec_parse_gga(command.deep_view()) == Ok::<GGAView, ErrorView>(v@),
                Err(e) => spec_parse_gga(command.deep_view()) == Err::<GGAView, ErrorView>(e@),
            }),
    {
        if command.len() != 14 && command.len() != 13 {
            let msg = String::from_str(
                "Invalid command length for GGA, expected 13 or 14 fields, got ",
            ).concat(primitives::usize_to_string(command.len()).as_str());
            return Err(Error::ParseError(msg));
        }
        let time = match primitives::parse_time(command[0].as_str()) {
            Some(v) => v,
            None => {
                return Err(Error::ParseError(String::from_str("Invalid time field")));
            },
        };
        let lat = match primitives::parse_coordinate(command[1].as_str()) {
            Some(v) => v,
            None => {
                return Err(Error::ParseError(String::from_str("Invalid coordinate field")));
            },
        };
        let northing_indicator = match first_cardinal(command[2].as_str()) {
            Some(v) => v,
            None => {
                return Err(Error::ParseError(String::from_str("Invalid northing indicator")));
            },
        };
        let lon = match primitives::parse_coordinate(command[3].as_str()) {
            Some(v) => v,
            None => {
                return Err(Error::ParseError(String::from_str("Invalid coordinate field")));
            },
        };
        let easting_indicator = match first_cardinal(command[4].as_str()) {
            Some(v) => v,
            None => {
                return Err(Error::ParseError(String::from_str("Invalid easting indicator")));
            },
        };
        let digit = match primitives::parse_u8(command[5].as_str()) {
            Some(v) => v,
            None => {
                return Err(Error::ParseError(String::from_str("Invalid numeric field")));
            },
        };
        let status = match GGAStatus::from_digit(digit) {
            Some(v) => v,
            None => {
                return Err(Error::ParseError(String::from_str("Invalid status for GGA")));
            },
        };
        let number_of_satellites = match primitives::parse_u8(command[6].as_str()) {
            Some(v) => v,
            None => {
                return Err(Error::ParseError(String::from_str("Invalid numeric field")));
            },
        };
        let horizontal_dilution_of_position = match primitives::parse_decimal(command[7].as_str()) {
            Some(v) => v,
            None => {
                return Err(Error::ParseError(String::from_str("Invalid numeric field")));
            },
        };
        let altitude = match primitives::parse_decimal(command[8].as_str()) {
            Some(v) => v,
            None => {
                return Err(Error::ParseError(String::from_str("Invalid numeric field")));
            },
        };
        let geoid_separation = match primitives::parse_decimal(command[10].as_str()) {
            Some(v) => v,
            None => {
                return Err(Error::ParseError(String::from_str("Invalid numeric field")));
            },
        };
        let differential_age_of_position: usize = if command[12].as_str().is_empty() {
            0
        } else {
            match primitives::parse_usize(command[12].as_str()) {
                Some(v) => v,
                None => {
                    return Err(Error::ParseError(String::from_str("Invalid numeric field")));
                },
            }
        };
        let differential_reference_station_id: usize = if command.len() == 13 {
            0
        } else if command[13].as_str().is_empty() {
            0
        } else {
            match primitives::parse_usize(command[13].as_str()) {
                Some(v) => v,
                None => {
                    return Err(Error::ParseError(String::from_str("Invalid numeric field")));
                },
            }
        };
        let altitude_unit = command[9].clone();
        let geoid_separation_unit = command[11].clone();
        let r = GGA {
            time,
            lat,
            northing_indicator,
            lon,
            easting_indicator,
            status,
            number_of_satellites,
            horizontal_dilution_of_position,
            altitude,
            altitude_unit,
            geoid_separation,
            geoid_separation_unit,
            differential_age_of_position,
            differential_reference_station_id,
        };
        proof {
            assert(spec_parse_gga(command.deep_view()) matches Ok(v) && v =~= r@);
        }
        Ok(r)
    }
}

} // verus!
