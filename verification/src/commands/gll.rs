use vstd::prelude::*;

use crate::commands::{first_cardinal, spec_first_cardinal};
use crate::primitives;
use crate::types::{CardinalDirection, Cordinate, Error, ErrorView, ModeIndicator, Status, Time};

verus! {

/// GLL record: geographic position with time, status and mode.
#[derive(Debug, Clone, PartialEq)]
pub struct GLL {
    /// Latitude.
    pub lat: Cordinate,
    /// North/south indicator.
    pub northing_indicator: CardinalDirection,
    /// Longitude.
    pub lon: Cordinate,
    /// East/west indicator.
    pub easting_indicator: CardinalDirection,
    /// UTC time of day.
    pub time: Time,
    /// Data validity flag.
    pub status: Status,
    /// Positioning mode.
    pub mode_indicator: ModeIndicator,
}

impl GLL {
    /// The placeholder record: zero position and time, invalid, no fix.
    pub open spec fn spec_default() -> GLL {
        GLL {
            lat: Cordinate::spec_zero(),
            northing_indicator: CardinalDirection::North,
            lon: Cordinate::spec_zero(),
            easting_indicator: CardinalDirection::East,
            time: Time::spec_zero(),
            status: Status::Invalid,
            mode_indicator: ModeIndicator::NoFix,
        }
    }
}

impl Default for GLL {
    /// The default record is zero, invalid, with no fix.
    fn default() -> (r: GLL)
        ensures
            r == GLL::spec_default(),
    {
        GLL {
            lat: Cordinate::default(),
            northing_indicator: CardinalDirection::North,
            lon: Cordinate::default(),
            easting_indicator: CardinalDirection::East,
            time: Time::default(),
            status: Status::Invalid,
            mode_indicator: ModeIndicator::NoFix,
        }
    }
}

/// Result of decoding GLL fields: exactly seven fields, in order latitude
/// and its direction, longitude and its direction, the time of day, the
/// status letter and the mode letter, all mandatory.
pub open spec fn spec_parse_gll(f: Seq<Seq<char>>) -> Result<GLL, ErrorView> {
    if f.len() != 7 {
        Err(
            ErrorView::ParseError(
                "Invalid command length for GLL, expected 7 fields, got "@
                    + primitives::dec_digits_of(f.len()),
            ),
        )
    } else {
        match primitives::spec_coordinate(f[0]) {
            None => Err(ErrorView::ParseError("Invalid coordinate field"@)),
            Some(lat) => match spec_first_cardinal(f[1]) {
                None => Err(ErrorView::ParseError("Invalid northing indicator"@)),
                Some(northing_indicator) => match primitives::spec_coordinate(f[2]) {
                    None => Err(ErrorView::ParseError("Invalid coordinate field"@)),
                    Some(lon) => match spec_first_cardinal(f[3]) {
                        None => Err(ErrorView::ParseError("Invalid easting indicator"@)),
                        Some(easting_indicator) => match primitives::spec_time(f[4]) {
                            None => Err(ErrorView::ParseError("Invalid time field"@)),
                            Some(time) => match Status::spec_from(f[5]) {
                                None => Err(ErrorView::ParseError("Invalid status"@)),
                                Some(status) => match ModeIndicator::spec_from(f[6]) {
                                    None => Err(ErrorView::ParseError("Invalid mode indicator"@)),
                                    Some(mode_indicator) => Ok(
                                        GLL {
                                            lat,
                                            northing_indicator,
                                            lon,
                                            easting_indicator,
                                            time,
                                            status,
                                            mode_indicator,
                                        },
                                    ),
                                },
                            },
                        },
                    },
                },
            },
        }
    }
}

impl GLL {
    /// Decodes the seven GLL fields; the time is read from the fifth field.
    pub fn parse_command(&self, command: Vec<String>) -> (r: Result<GLL, Error>)
        ensures
            (match r {
                Ok(v) => spec_parse_gll(command.deep_view()) == Ok::<GLL, ErrorView>(v),
                Err(e) => spec_parse_gll(command.deep_view()) == Err::<GLL, ErrorView>(e@),
            }),
    {
        if command.len() != 7 {
            let msg = String::from_str("Invalid command length for GLL, expected 7 fields, got ")
                .concat(primitives::usize_to_string(command.len()).as_str());
            return Err(Error::ParseError(msg));
        }
        let lat = match primitives::parse_coordinate(command[0].as_str()) {
            Some(v) => v,
            None => {
                return Err(Error::ParseError(String::from_str("Invalid coordinate field")));
            },
        };
        let northing_indicator = match first_cardinal(command[1].as_str()) {
            Some(v) => v,
            None => {
                return Err(Error::ParseError(String::from_str("Invalid northing indicator")));
            },
        };
        let lon = match primitives::parse_coordinate(command[2].as_str()) {
            Some(v) => v,
            None => {
                return Err(Error::ParseError(String::from_str("Invalid coordinate field")));
            },
        };
        let easting_indicator = match first_cardinal(command[3].as_str()) {
            Some(v) => v,
            None => {
                return Err(Error::ParseError(String::from_str("Invalid easting indicator")));
            },
        };
        let time = match primitives::parse_time(command[4].as_str()) {
            Some(v) => v,
            None => {
                return Err(Error::ParseError(String::from_str("Invalid time field")));
            },
        };
        let status = match Status::from_str(command[5].as_str()) {
            Ok(v) => v,
            Err(_) => {
                return Err(Error::ParseError(String::from_str("Invalid status")));
            },
        };
        let mode_indicator = match ModeIndicator::from_str(command[6].as_str()) {
            Ok(v) => v,
            Err(_) => {
                return Err(Error::ParseError(String::from_str("Invalid mode indicator")));
            },
        };
        Ok(GLL { lat, northing_indicator, lon, easting_indicator, time, status, mode_indicator })
    }
}

} // verus!
