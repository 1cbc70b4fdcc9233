use vstd::prelude::*;

use crate::commands::{first_cardinal, spec_first_cardinal};
use crate::primitives;
use crate::types::{CardinalDirection, Decimal, Error, ErrorView};

verus! {

/// DTM record: the local datum and its offsets from the reference datum.
#[derive(Debug, Clone, PartialEq)]
pub struct DTM {
    /// Local datum code.
    pub local_datum_code: String,
    /// Local datum subdivision code.
    pub local_datum_sub_division_code: String,
    /// Latitude offset, in minutes.
    pub latitude_offset: Decimal,
    /// North/south indicator for the latitude offset.
    pub northing_indicator: CardinalDirection,
    /// Longitude offset, in minutes.
    pub longitude_offset: Decimal,
    /// East/west indicator for the longitude offset.
    pub easting_indicator: CardinalDirection,
    /// Altitude offset, in metres.
    pub altitude_offset: Decimal,
    /// Reference datum code.
    pub reference_datum_code: String,
}

/// Spec-level image of a [`DTM`] record, with strings as character sequences.
#[verifier::ext_equal]
pub struct DTMView {
    /// Local datum code.
    pub local_datum_code: Seq<char>,
    /// Local datum subdivision code.
    pub local_datum_sub_division_code: Seq<char>,
    /// Latitude offset, in minutes.
    pub latitude_offset: Decimal,
    /// North/south indicator for the latitude offset.
    pub northing_indicator: CardinalDirection,
    /// Longitude offset, in minutes.
    pub longitude_offset: Decimal,
    /// East/west indicator for the longitude offset.
    pub easting_indicator: CardinalDirection,
    /// Altitude offset, in metres.
    pub altitude_offset: Decimal,
    /// Reference datum code.
    pub reference_datum_code: Seq<char>,
}

impl View for DTM {
    type V = DTMView;

    open spec fn view(&self) -> DTMView {
        DTMView {
            local_datum_code: self.local_datum_code@,
            local_datum_sub_division_code: self.local_datum_sub_division_code@,
            latitude_offset: self.latitude_offset,
            northing_indicator: self.northing_indicator,
            longitude_offset: self.longitude_offset,
            easting_indicator: self.easting_indicator,
            altitude_offset: self.altitude_offset,
            reference_datum_code: self.reference_datum_code@,
        }
    }
}

impl DTM {
    /// The placeholder record: empty codes, zero offsets, north and east.
    pub open spec fn spec_default() -> DTMView {
        DTMView {
            local_datum_code: Seq::empty(),
            local_datum_sub_division_code: Seq::empty(),
            latitude_offset: Decimal::spec_zero(),
            northing_indicator: CardinalDirection::North,
            longitude_offset: Decimal::spec_zero(),
            easting_indicator: CardinalDirection::East,
            altitude_offset: Decimal::spec_zero(),
            reference_datum_code: Seq::empty(),
        }
    }
}

impl Default for DTM {
    /// The default record has empty codes, zero offsets, north and east.
    fn default() -> (r: DTM)
        ensures
            r@ == DTM::spec_default(),
    {
        DTM {
            local_datum_code: String::new(),
            local_datum_sub_division_code: String::new(),
            latitude_offset: Decimal::zero(),
            northing_indicator: CardinalDirection::North,
            longitude_offset: Decimal::zero(),
            easting_indicator: CardinalDirection::East,
            altitude_offset: Decimal::zero(),
            reference_datum_code: String::new(),
        }
    }
}

/// Result of decoding DTM fields: exactly eight fields, in order the two
/// datum codes, the latitude offset with its direction, the longitude offset
/// with its direction, the altitude offset and the reference datum code.
pub open spec fn spec_parse_dtm(f: Seq<Seq<char>>) -> Result<DTMView, ErrorView> {
    if f.len() != 8 {
        Err(
            ErrorView::ParseError(
                "Invalid command length for DTM, expected 8 fields, got "@
                    + primitives::dec_digits_of(f.len()),
            ),
        )
    } else {
        match primitives::spec_parse_decimal(f[2]) {
            None => Err(ErrorView::ParseError("Invalid numeric field"@)),
            Some(latitude_offset) => match spec_first_cardinal(f[3]) {
                None => Err(ErrorView::ParseError("Invalid northing indicator"@)),
                Some(northing_indicator) => match primitives::spec_parse_decimal(f[4]) {
                    None => Err(ErrorView::ParseError("Invalid numeric field"@)),
                    Some(longitude_offset) => match spec_first_cardinal(f[5]) {
                        None => Err(ErrorView::ParseError("Invalid easting indicator"@)),
                        Some(easting_indicator) => match primitives::spec_parse_decimal(f[6]) {
                            None => Err(ErrorView::ParseError("Invalid numeric field"@)),
                            Some(altitude_offset) => Ok(
                                DTMView {
                                    local_datum_code: f[0],
                                    local_datum_sub_division_code: f[1],
                                    latitude_offset,
                                    northing_indicator,
                                    longitude_offset,
                                    easting_indicator,
                                    altitude_offset,
                                    reference_datum_code: f[7],
                                },
                            ),
                        },
                    },
                },
            },
        }
    }
}

impl DTM {
    /// Decodes the eight DTM fields.
    pub fn parse_command(&self, command: Vec<String>) -> (r: Result<DTM, Error>)
        ensures
            (match r {
                Ok(v) => spec_parse_dtm(command.deep_view()) == Ok::<DTMView, ErrorView>(v@),
                Err(e) => spec_parse_dtm(command.deep_view()) == Err::<DTMView, ErrorView>(e@),
            }),
    {
        if command.len() != 8 {
            let msg = String::from_str("Invalid command length for DTM, expected 8 fields, got ")
                .concat(primitives::usize_to_string(command.len()).as_str());
            return Err(Error::ParseError(msg));
        }
        let latitude_offset = match primitives::parse_decimal(command[2].as_str()) {
            Some(v) => v,
            None => {
                return Err(Error::ParseError(String::from_str("Invalid numeric field")));
            },
        };
        let northing_indicator = match first_cardinal(command[3].as_str()) {
            Some(v) => v,
            None => {
                return Err(Error::ParseError(String::from_str("Invalid northing indicator")));
            },
        };
        let longitude_offset = match primitives::parse_decimal(command[4].as_str()) {
            Some(v) => v,
            None => {
                return Err(Error::ParseError(String::from_str("Invalid numeric field")));
            },
        };
        let easting_indicator = match first_cardinal(command[5].as_str()) {
            Some(v) => v,
            None => {
                return Err(Error::ParseError(String::from_str("Invalid easting indicator")));
            },
        };
        let altitude_offset = match primitives::parse_decimal(command[6].as_str()) {
            Some(v) => v,
            None => {
                return Err(Error::ParseError(String::from_str("Invalid numeric field")));
            },
        };
        let local_datum_code = command[0].clone();
        let local_datum_sub_division_code = command[1].clone();
        let reference_datum_code = command[7].clone();
        let r = DTM {
            local_datum_code,
            local_datum_sub_division_code,
            latitude_offset,
            northing_indicator,
            longitude_offset,
            easting_indicator,
            altitude_offset,
            reference_datum_code,
        };
        proof {
            assert(spec_parse_dtm(command.deep_view()) matches Ok(v) && v =~= r@);
        }
        Ok(r)
    }
}

} // verus!
