use vstd::prelude::*;

use crate::primitives;
use crate::types::{CardinalDirection, Decimal, Error, ErrorView, ModeIndicator, Time};

verus! {

/// GNS record: combined GNSS fix data.
#[derive(Debug, Clone, PartialEq)]
pub struct GNS {
    /// UTC time of day.
    pub time: Time,
    /// Latitude numeral; absent when the field is not numeric.
    pub latitude: Option<Decimal>,
    /// Direction of the latitude; absent unless the field is one direction
    /// letter.
    pub latitude_direction: Option<CardinalDirection>,
    /// Longitude numeral; absent when the field is not numeric.
    pub longitude: Option<Decimal>,
    /// Direction of the longitude; absent unless the field is one direction
    /// letter.
    pub longitude_direction: Option<CardinalDirection>,
    /// Mode letter for GPS, the first character of the mode field.
    pub gps_mode_indicator: Option<ModeIndicator>,
    /// Mode letter for GLONASS, the second character of the mode field.
    pub glonass_mode_indicator: Option<ModeIndicator>,
    /// Mode letter for Galileo, the third character of the mode field.
    pub galileo_mode_indicator: Option<ModeIndicator>,
    /// Mode letter for BeiDou, the fourth character of the mode field.
    pub beidou_mode_indicator: Option<ModeIndicator>,
    /// Mode letter for QZSS, the fifth character of the mode field.
    pub qzss_mode_indicator: Option<ModeIndicator>,
    /// Number of satellites in use.
    pub number_of_satellites_in_use: u8,
    /// Horizontal dilution of precision; absent when not numeric.
    pub horizontal_dilution_of_precision: Option<Decimal>,
    /// Orthometric height, in metres; absent when not numeric.
    pub orthometric_height: Option<Decimal>,
    /// Geoidal separation, in metres; absent when not numeric.
    pub geodial_separation: Option<Decimal>,
    /// Age of the differential data, in seconds.
    pub age_of_differential_gps_data: Decimal,
    /// Reference station, re-rendered without leading zeroes; absent when
    /// the field does not read as a small number.
    pub reference_station_id: Option<String>,
}

/// Spec-level image of a [`GNS`] record, with the station as a character
/// sequence.
#[verifier::ext_equal]
pub struct GNSView {
    /// UTC time of day.
    pub time: Time,
    /// Latitude numeral.
    pub latitude: Option<Decimal>,
    /// Direction of the latitude.
    pub latitude_direction: Option<CardinalDirection>,
    /// Longitude numeral.
    pub longitude: Option<Decimal>,
    /// Direction of the longitude.
    pub longitude_direction: Option<CardinalDirection>,
    /// Mode letter for GPS.
    pub gps_mode_indicator: Option<ModeIndicator>,
    /// Mode letter for GLONASS.
    pub glonass_mode_indicator: Option<ModeIndicator>,
    /// Mode letter for Galileo.
    pub galileo_mode_indicator: Option<ModeIndicator>,
    /// Mode letter for BeiDou.
    pub beidou_mode_indicator: Option<ModeIndicator>,
    /// Mode letter for QZSS.
    pub qzss_mode_indicator: Option<ModeIndicator>,
    /// Number of satellites in use.
    pub number_of_satellites_in_use: u8,
    /// Horizontal dilution of precision.
    pub horizontal_dilution_of_precision: Option<Decimal>,
    /// Orthometric height, in metres.
    pub orthometric_height: Option<Decimal>,
    /// Geoidal separation, in metres.
    pub geodial_separation: Option<Decimal>,
    /// Age of the differential data, in seconds.
    pub age_of_differential_gps_data: Decimal,
    /// Reference station digits.
    pub reference_station_id: Option<Seq<char>>,
}

impl View for GNS {
    type V = GNSView;

    open spec fn view(&self) -> GNSView {
        GNSView {
            time: self.time,
            latitude: self.latitude,
            latitude_direction: self.latitude_direction,
            longitude: self.longitude,
            longitude_direction: self.longitude_direction,
            gps_mode_indicator: self.gps_mode_indicator,
            glonass_mode_indicator: self.glonass_mode_indicator,
            galileo_mode_indicator: self.galileo_mode_indicator,
            beidou_mode_indicator: self.beidou_mode_indicator,
            qzss_mode_indicator: self.qzss_mode_indicator,
            number_of_satellites_in_use: self.number_of_satellites_in_use,
            horizontal_dilution_of_precision: self.horizontal_dilution_of_precision,
            orthometric_height: self.orthometric_height,
            geodial_separation: self.geodial_separation,
            age_of_differential_gps_data: self.age_of_differential_gps_data,
            reference_station_id: match &self.reference_station_id {
                Some(s) => Some(s@),
                None => None,
            },
        }
    }
}

impl GNS {
    /// The placeholder record: zero time, every optional attribute absent.
    pub open spec fn spec_default() -> GNSView {
        GNSView {
            time: Time::spec_zero(),
            latitude: None,
            latitude_direction: None,
            longitude: None,
            longitude_direction: None,
            gps_mode_indicator: None,
            glonass_mode_indicator: None,
            galileo_mode_indicator: None,
            beidou_mode_indicator: None,
            qzss_mode_indicator: None,
            number_of_satellites_in_use: 0,
            horizontal_dilution_of_precision: None,
            orthometric_height: None,
            geodial_separation: None,
            age_of_differential_gps_data: Decimal::spec_zero(),
            reference_station_id: None,
        }
    }
}

impl Default for GNS {
    /// The default record has zero time and absent optional attributes.
    fn default() -> (r: GNS)
        ensures
            r@ == GNS::spec_default(),
    {
        GNS {
            time: Time::default(),
            latitude: None,
            latitude_direction: None,
            longitude: None,
            longitude_direction: None,
            gps_mode_indicator: None,
            glonass_mode_indicator: None,
            galileo_mode_indicator: None,
            beidou_mode_indicator: None,
            qzss_mode_indicator: None,
            number_of_satellites_in_use: 0,
            horizontal_dilution_of_precision: None,
            orthometric_height: None,
            geodial_separation: None,
            age_of_differential_gps_data: Decimal::zero(),
            reference_station_id: None,
        }
    }
}

/// The mode named by the character at `i` of the mode field, absent when the
/// field is shorter or the letter unknown.
pub open spec fn spec_mode_at(s: Seq<char>, i: int) -> Option<ModeIndicator> {
    if 0 <= i < s.len() {
        ModeIndicator::spec_from_char(s[i])
    } else {
        None
    }
}

/// The direction named by a one-character field, absent otherwise.
pub open spec fn spec_direction_field(s: Seq<char>) -> Option<CardinalDirection> {
    match primitives::spec_single_char(s) {
        Some(c) => CardinalDirection::spec_from_char(c),
        None => None,
    }
}

/// The station field re-rendered: present exactly when it reads as a
/// sixteen-bit number, whose digits (without leading zeroes) it becomes.
pub open spec fn spec_station_field(s: Seq<char>) -> Option<Seq<char>> {
    match primitives::spec_parse_u16(s) {
        Some(v) => Some(primitives::dec_digits_of(v as nat)),
        None => None,
    }
}

/// Result of decoding GNS fields: exactly twelve fields, in order the time
/// of day, the optional position with its directions, the per-system mode
/// letters, the mandatory satellite count, three optional qualities, the
/// mandatory differential age and the optional reference station.
pub open spec fn spec_parse_gns(f: Seq<Seq<char>>) -> Result<GNSView, ErrorView> {
    if f.len() != 12 {
        Err(
            ErrorView::ParseError(
                "Invalid command length for GNS, expected 12 fields, got "@
                    + primitives::dec_digits_of(f.len()),
            ),
        )
    } else {
        match primitives::spec_time(f[0]) {
            None => Err(ErrorView::ParseError("Invalid time field"@)),
            Some(time) => match primitives::spec_parse_u8(f[6]) {
                None => Err(ErrorView::ParseError("Invalid numeric field"@)),
                Some(number_of_satellites_in_use) => match primitives::spec_parse_decimal(f[10]) {
                    None => Err(ErrorView::ParseError("Invalid numeric field"@)),
                    Some(age_of_differential_gps_data) => Ok(
                        GNSView {
                            time,
                            latitude: primitives::spec_parse_decimal(f[1]),
                            latitude_direction: spec_direction_field(f[2]),
                            longitude: primitives::spec_parse_decimal(f[3]),
                            longitude_direction: spec_direction_field(f[4]),
                            gps_mode_indicator: spec_mode_at(f[5], 0),
                            glonass_mode_indicator: spec_mode_at(f[5], 1),
                            galileo_mode_indicator: spec_mode_at(f[5], 2),
                            beidou_mode_indicator: spec_mode_at(f[5], 3),
                            qzss_mode_indicator: spec_mode_at(f[5], 4),
                            number_of_satellites_in_use,
                            horizontal_dilution_of_precision: primitives::spec_parse_decimal(f[7]),
                            orthometric_height: primitives::spec_parse_decimal(f[8]),
                            geodial_separation: primitives::spec_parse_decimal(f[9]),
                            age_of_differential_gps_data,
                            reference_station_id: spec_station_field(f[11]),
                        },
                    ),
                },
            },
        }
    }
}

/// A GNS sentence with an empty field in place of an optional quality value
/// decodes to an absent value for that attribute rather than failing.
pub proof fn lemma_gns_empty_optionals_absent(f: Seq<Seq<char>>)
    requires
        f.len() >= 12,
    ensures
        f[7].len() == 0 ==> (spec_parse_gns(f) matches Ok(v)
            ==> v.horizontal_dilution_of_precision is None),
        f[8].len() == 0 ==> (spec_parse_gns(f) matches Ok(v) ==> v.orthometric_height is None),
        f[9].len() == 0 ==> (spec_parse_gns(f) matches Ok(v) ==> v.geodial_separation is None),
{
    if f[7].len() == 0 {
        assert(primitives::spec_parse_decimal(f[7]) is None);
    }
    if f[8].len() == 0 {
        assert(primitives::spec_parse_decimal(f[8]) is None);
    }
    if f[9].len() == 0 {
        assert(primitives::spec_parse_decimal(f[9]) is None);
    }
}

/// Reads the direction named by a one-character field.
fn direction_field(s: &str) -> (r: Option<CardinalDirection>)
    ensures
        r == spec_direction_field(s@),
{
    match primitives::single_char(s) {
        Some(c) => CardinalDirection::from_char(c),
        None => None,
    }
}

/// Reads the mode letter at `i` of the mode field.
fn mode_at(s: &str, i: usize) -> (r: Option<ModeIndicator>)
    ensures
        r == spec_mode_at(s@, i as int),
{
    if i < s.unicode_len() {
        ModeIndicator::from_char(s.get_char(i))
    } else {
        None
    }
}

impl GNS {
    /// Decodes the GNS fields.
    pub fn parse_command(&self, command: Vec<String>) -> (r: Result<GNS, Error>)
        ensures
            (match r {
                Ok(v) => spec_parse_gns(command.deep_view()) == Ok::<GNSView, ErrorView>(v@),
                Err(e) => spec_parse_gns(command.deep_view()) == Err::<GNSView, ErrorView>(e@),
            }),
    {
        if command.len() != 12 {
            let msg = String::from_str("Invalid command length for GNS, expected 12 fields, got ")
                .concat(primitives::usize_to_string(command.len()).as_str());
            return Err(Error::ParseError(msg));
        }
        let time = match primitives::parse_time(command[0].as_str()) {
            Some(v) => v,
            None => {
                return Err(Error::ParseError(String::from_str("Invalid time field")));
            },
        };
        let latitude = primitives::parse_decimal(command[1].as_str());
        let latitude_direction = direction_field(command[2].as_str());
        let longitude = primitives::parse_decimal(command[3].as_str());
        let longitude_direction = direction_field(command[4].as_str());
        let modes = command[5].as_str();
        let gps_mode_indicator = mode_at(modes, 0);
        let glonass_mode_indicator = mode_at(modes, 1);
        let galileo_mode_indicator = mode_at(modes, 2);
        let beidou_mode_indicator = mode_at(modes, 3);
        let qzss_mode_indicator = mode_at(modes, 4);
        let number_of_satellites_in_use = match primitives::parse_u8(command[6].as_str()) {
            Some(v) => v,
            None => {
                return Err(Error::ParseError(String::from_str("Invalid numeric field")));
            },
        };
        let horizontal_dilution_of_precision = primitives::parse_decimal(command[7].as_str());
        let orthometric_height = primitives::parse_decimal(command[8].as_str());
        let geodial_separation = primitives::parse_decimal(command[9].as_str());
        let age_of_differential_gps_data = match primitives::parse_decimal(command[10].as_str()) {
            Some(v) => v,
            None => {
                return Err(Error::ParseError(String::from_str("Invalid numeric field")));
            },
        };
        let reference_station_id = match primitives::parse_u16(command[11].as_str()) {
            Some(v) => Some(primitives::u64_to_string(v as u64)),
            None => None,
        };
        let r = GNS {
            time,
            latitude,
            latitude_direction,
            longitude,
            longitude_direction,
            gps_mode_indicator,
            glonass_mode_indicator,
            galileo_mode_indicator,
            beidou_mode_indicator,
            qzss_mode_indicator,
            number_of_satellites_in_use,
            horizontal_dilution_of_precision,
            orthometric_height,
            geodial_separation,
            age_of_differential_gps_data,
            reference_station_id,
        };
        proof {
            assert(spec_parse_gns(command.deep_view()) matches Ok(v) && v =~= r@);
        }
        Ok(r)
    }
}

} // verus!
