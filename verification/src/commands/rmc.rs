use vstd::prelude::*;

use crate::commands::{first_cardinal, spec_first_cardinal};
use crate::primitives;
use crate::types::{CardinalDirection, Cordinate, Date, Decimal, Error, ErrorView, Status, Time};

verus! {

/// RMC record: the recommended minimum of positioning data.
#[derive(Debug, Clone, PartialEq)]
pub struct RMC {
    /// UTC time of day.
    pub time: Time,
    /// Data validity flag.
    pub status: Status,
    /// Latitude.
    pub lat: Cordinate,
    /// North/south indicator.
    pub northing_indicator: CardinalDirection,
    /// Longitude.
    pub lon: Cordinate,
    /// East/west indicator.
    pub easting_indicator: CardinalDirection,
    /// Speed over ground, in knots.
    pub speed_over_ground: Decimal,
    /// Course over ground, in degrees; absent when not numeric.
    pub course_over_ground: Option<Decimal>,
    /// UTC date.
    pub date: Date,
    /// Magnetic variation, in degrees; absent when not numeric.
    pub magnetic_variation: Option<Decimal>,
    /// East/west indicator of the magnetic variation; absent when the field
    /// is empty, a space, or the null character.
    pub magnetic_variation_indicator: Option<CardinalDirection>,
}

impl RMC {
    /// The placeholder record: zero values, invalid, north and east.
    pub open spec fn spec_default() -> RMC {
        RMC {
            time: Time::spec_zero(),
            status: Status::Invalid,
            lat: Cordinate::spec_zero(),
            northing_indicator: CardinalDirection::North,
            lon: Cordinate::spec_zero(),
            easting_indicator: CardinalDirection::East,
            speed_over_ground: Decimal::spec_zero(),
            course_over_ground: None,
            date: Date::spec_zero(),
            magnetic_variation: None,
            magnetic_variation_indicator: None,
        }
    }
}

impl Default for RMC {
    /// The default record is all zeroes, invalid, with absent options.
    fn default() -> (r: RMC)
        ensures
            r == RMC::spec_default(),
    {
        RMC {
            time: Time::default(),
            status: Status::Invalid,
            lat: Cordinate::default(),
            northing_indicator: CardinalDirection::North,
            lon: Cordinate::default(),
            easting_indicator: CardinalDirection::East,
            speed_over_ground: Decimal::zero(),
            course_over_ground: None,
            date: Date::default(),
            magnetic_variation: None,
            magnetic_variation_indicator: None,
        }
    }
}

/// Result of reading the magnetic-variation indicator field: the outer
/// `None` rejects the field, the inner option is the decoded direction.  An
/// empty field, a leading space and a leading null character all stand for
/// an absent direction.
pub open spec fn spec_mag_indicator(s: Seq<char>) -> Option<Option<CardinalDirection>> {
    if s.len() == 0 {
        Some(None)
    } else if s[0] == 'E' {
        Some(Some(CardinalDirection::East))
    } else if s[0] == 'W' {
        Some(Some(CardinalDirection::West))
    } else if s[0] == ' ' || s[0] == '\0' {
        Some(None)
    } else {
        None
    }
}

/// Reads the magnetic-variation indicator field.
pub fn mag_indicator(s: &str) -> (r: Option<Option<CardinalDirection>>)
    ensures
        r == spec_mag_indicator(s@),
{
    if s.unicode_len() == 0 {
        return Some(None);
    }
    let c = s.get_char(0);
    if c == 'E' {
        Some(Some(CardinalDirection::East))
    } else if c == 'W' {
        Some(Some(CardinalDirection::West))
    } else if c == ' ' || c == '\0' {
        Some(None)
    } else {
        None
    }
}

/// Result of decoding RMC fields: twelve or thirteen fields, in order the
/// time of day, status letter, latitude and longitude with their directions,
/// the speed, the optional course, the date, and the optional magnetic
/// variation with its indicator; the trailing mode fields are not decoded.
pub open spec fn spec_parse_rmc(f: Seq<Seq<char>>) -> Result<RMC, ErrorView> {
    if f.len() != 12 && f.len() != 13 {
        Err(
            ErrorView::ParseError(
                "Invalid command length for RMC, expected 12 or 13 fields, got "@
                    + primitives::dec_digits_of(f.len()),
            ),
        )
    } else {
        match primitives::spec_time(f[0]) {
            None => Err(ErrorView::ParseError("Invalid time field"@)),
            Some(time) => match Status::spec_from(f[1]) {
                None => Err(ErrorView::ParseError("Invalid status"@)),
                Some(status) => match primitives::spec_coordinate(f[2]) {
                    None => Err(ErrorView::ParseError("Invalid coordinate field"@)),
                    Some(lat) => match spec_first_cardinal(f[3]) {
                        None => Err(ErrorView::ParseError("Invalid northing indicator"@)),
                        Some(northing_indicator) => match primitives::spec_coordinate(f[4]) {
                            None => Err(ErrorView::ParseError("Invalid coordinate field"@)),
                            Some(lon) => match spec_first_cardinal(f[5]) {
                                None => Err(ErrorView::ParseError("Invalid easting indicator"@)),
                                Some(easting_indicator) => spec_parse_rmc_tail(
                                    f,
                                    time,
                                    status,
                                    lat,
                                    northing_indicator,
                                    lon,
                                    easting_indicator,
                                ),
                            },
                        },
                    },
                },
            },
        }
    }
}

/// Continues [`spec_parse_rmc`] past the position fields.
pub open spec fn spec_parse_rmc_tail(
    f: Seq<Seq<char>>,
    time: Time,
    status: Status,
    lat: Cordinate,
    northing_indicator: CardinalDirection,
    lon: Cordinate,
    easting_indicator: CardinalDirection,
) -> Result<RMC, ErrorView> {
    match primitives::spec_parse_decimal(f[6]) {
        None => Err(ErrorView::ParseError("Invalid numeric field"@)),
        Some(speed_over_ground) => match primitives::spec_date(f[8]) {
            None => Err(ErrorView::ParseError("Invalid date field"@)),
            Some(date) => match spec_mag_indicator(f[10]) {
                None => Err(ErrorView::ParseError("Invalid magnetic variation indicator"@)),
                Some(magnetic_variation_indicator) => Ok(
                    RMC {
                        time,
                        status,
                        lat,
                        northing_indicator,
                        lon,
                        easting_indicator,
                        speed_over_ground,
                        course_over_ground: primitives::spec_parse_decimal(f[7]),
                        date,
                        magnetic_variation: primitives::spec_parse_decimal(f[9]),
                        magnetic_variation_indicator,
                    },
                ),
            },
        },
    }
}

/// An RMC sentence with an empty field in place of the magnetic variation
/// decodes to an absent variation rather than failing; likewise an empty
/// indicator field decodes to an absent direction.
pub proof fn lemma_rmc_empty_variation_absent(f: Seq<Seq<char>>)
    requires
        f.len() >= 12,
    ensures
        f[9].len() == 0 ==> (spec_parse_rmc(f) matches Ok(v) ==> v.magnetic_variation is None),
        f[10].len() == 0 ==> (spec_parse_rmc(f) matches Ok(v) ==> v.magnetic_variation_indicator
            is None),
{
    if f[9].len() == 0 {
        assert(primitives::spec_parse_decimal(f[9]) is None);
    }
}

impl RMC {
    /// Decodes the RMC fields.
    pub fn parse_command(&self, command: Vec<String>) -> (r: Result<RMC, Error>)
        ensures
            (match r {
                Ok(v) => spec_parse_rmc(command.deep_view()) == Ok::<RMC, ErrorView>(v),
                Err(e) => spec_parse_rmc(command.deep_view()) == Err::<RMC, ErrorView>(e@),
            }),
    {
        if command.len() != 12 && command.len() != 13 {
            let msg = String::from_str(
                "Invalid command length for RMC, expected 12 or 13 fields, got ",
            ).concat(primitives::usize_to_string(command.len()).as_str());
            return Err(Error::ParseError(msg));
        }
        let time = match primitives::parse_time(command[0].as_str()) {
            Some(v) => v,
            None => {
                return Err(Error::ParseError(String::from_str("Invalid time field")));
            },
        };
        let status = match Status::from_str(command[1].as_str()) {
            Ok(v) => v,
            Err(_) => {
                return Err(Error::ParseError(String::from_str("Invalid status")));
            },
        };
        let lat = match primitives::parse_coordinate(command[2].as_str()) {
            Some(v) => v,
            None => {
                return Err(Error::ParseError(String::from_str("Invalid coordinate field")));
            },
        };
        let northing_indicator = match first_cardinal(command[3].as_str()) {
            Some(v) => v,
            None => {
                return Err(Error::ParseError(String::from_str("Invalid northing indicator")));
            },
        };
        let lon = match primitives::parse_coordinate(command[4].as_str()) {
            Some(v) => v,
            None => {
                return Err(Error::ParseError(String::from_str("Invalid coordinate field")));
            },
        };
        let easting_indicator = match first_cardinal(command[5].as_str()) {
            Some(v) => v,
            None => {
                return Err(Error::ParseError(String::from_str("Invalid easting indicator")));
            },
        };
        let speed_over_ground = match primitives::parse_decimal(command[6].as_str()) {
            Some(v) => v,
            None => {
                return Err(Error::ParseError(String::from_str("Invalid numeric field")));
            },
        };
        let course_over_ground = primitives::parse_decimal(command[7].as_str());
        let date = match primitives::parse_date(command[8].as_str()) {
            Some(v) => v,
            None => {
                return Err(Error::ParseError(String::from_str("Invalid date field")));
            },
        };
        let magnetic_variation = primitives::parse_decimal(command[9].as_str());
        let magnetic_variation_indicator = match mag_indicator(command[10].as_str()) {
            Some(v) => v,
            None => {
                return Err(
                    Error::ParseError(String::from_str("Invalid magnetic variation indicator")),
                );
            },
        };
        Ok(
            RMC {
                time,
                status,
                lat,
                northing_indicator,
                lon,
                easting_indicator,
                speed_over_ground,
                course_over_ground,
                date,
                magnetic_variation,
                magnetic_variation_indicator,
            },
        )
    }
}

} // verus!
