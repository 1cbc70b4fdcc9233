use vstd::prelude::*;

use crate::primitives;
use crate::types::{Decimal, Error, ErrorView, Time};

verus! {

/// GBS record: expected position errors and the most likely failed satellite.
#[derive(Debug, Clone, PartialEq)]
pub struct GBS {
    /// UTC time of day.
    pub time: Time,
    /// Expected error in latitude, in metres.
    pub latitude: Decimal,
    /// Expected error in longitude, in metres.
    pub longitude: Decimal,
    /// Expected error in altitude, in metres.
    pub altitude: Decimal,
    /// Identifier of the most likely failed satellite.
    pub failed_satellite_id: usize,
    /// Probability of missed detection for that satellite.
    pub probability_of_missed_detection: Decimal,
    /// Estimated bias on that satellite, in metres.
    pub estimate_of_bias: Decimal,
    /// Standard deviation of the bias estimate.
    pub standard_deviation_of_bias_estimate: Decimal,
}

impl GBS {
    /// The all-zero placeholder record.
    pub open spec fn spec_default() -> GBS {
        GBS {
            time: Time::spec_zero(),
            latitude: Decimal::spec_zero(),
            longitude: Decimal::spec_zero(),
            altitude: Decimal::spec_zero(),
            failed_satellite_id: 0,
            probability_of_missed_detection: Decimal::spec_zero(),
            estimate_of_bias: Decimal::spec_zero(),
            standard_deviation_of_bias_estimate: Decimal::spec_zero(),
        }
    }
}

impl Default for GBS {
    /// The default record is all zeroes.
    fn default() -> (r: GBS)
        ensures
            r == GBS::spec_default(),
    {
        GBS {
            time: Time::default(),
            latitude: Decimal::zero(),
            longitude: Decimal::zero(),
            altitude: Decimal::zero(),
            failed_satellite_id: 0,
            probability_of_missed_detection: Decimal::zero(),
            estimate_of_bias: Decimal::zero(),
            standard_deviation_of_bias_estimate: Decimal::zero(),
        }
    }
}

/// Result of decoding GBS fields: exactly eight fields, in order the time
/// of day, three expected errors, the failed satellite, and three statistics
/// of its fault, all mandatory.
pub open spec fn spec_parse_gbs(f: Seq<Seq<char>>) -> Result<GBS, ErrorView> {
    if f.len() != 8 {
        Err(
            ErrorView::ParseError(
                "Invalid command length for GBS, expected 8 fields, got "@
                    + primitives::dec_digits_of(f.len()),
            ),
        )
    } else {
        match primitives::spec_time(f[0]) {
            None => Err(ErrorView::ParseError("Invalid time field"@)),
            Some(time) => match (
                primitives::spec_parse_decimal(f[1]),
                primitives::spec_parse_decimal(f[2]),
                primitives::spec_parse_decimal(f[3]),
                primitives::spec_parse_usize(f[4]),
                primitives::spec_parse_decimal(f[5]),
                primitives::spec_parse_decimal(f[6]),
                primitives::spec_parse_decimal(f[7]),
            ) {
                (
                    Some(latitude),
                    Some(longitude),
                    Some(altitude),
                    Some(failed_satellite_id),
                    Some(probability_of_missed_detection),
                    Some(estimate_of_bias),
                    Some(standard_deviation_of_bias_estimate),
                ) => Ok(
                    GBS {
                        time,
                        latitude,
                        longitude,
                        altitude,
                        failed_satellite_id,
                        probability_of_missed_detection,
                        estimate_of_bias,
                        standard_deviation_of_bias_estimate,
                    },
                ),
                _ => Err(ErrorView::ParseError("Invalid numeric field"@)),
            },
        }
    }
}

impl GBS {
    /// Decodes the eight GBS fields.
    pub fn parse_command(&self, command: Vec<String>) -> (r: Result<GBS, Error>)
        ensures
            (match r {
                Ok(v) => spec_parse_gbs(command.deep_view()) == Ok::<GBS, ErrorView>(v),
                Err(e) => spec_parse_gbs(command.deep_view()) == Err::<GBS, ErrorView>(e@),
            }),
    {
        if command.len() != 8 {
            let msg = String::from_str("Invalid command length for GBS, expected 8 fields, got ")
                .concat(primitives::usize_to_string(command.len()).as_str());
            return Err(Error::ParseError(msg));
        }
        let time = match primitives::parse_time(command[0].as_str()) {
            Some(t) => t,
            None => {
                return Err(Error::ParseError(String::from_str("Invalid time field")));
            },
        };
        let latitude = match primitives::parse_decimal(command[1].as_str()) {
            Some(v) => v,
            None => {
                return Err(Error::ParseError(String::from_str("Invalid numeric field")));
            },
        };
        let longitude = match primitives::parse_decimal(command[2].as_str()) {
            Some(v) => v,
            None => {
                return Err(Error::ParseError(String::from_str("Invalid numeric field")));
            },
        };
        let altitude = match primitives::parse_decimal(command[3].as_str()) {
            Some(v) => v,
            None => {
                return Err(Error::ParseError(String::from_str("Invalid numeric field")));
            },
        };
        let failed_satellite_id = match primitives::parse_usize(command[4].as_str()) {
            Some(v) => v,
            None => {
                return Err(Error::ParseError(String::from_str("Invalid numeric field")));
            },
        };
        let probability_of_missed_detection = match primitives::parse_decimal(command[5].as_str()) {
            Some(v) => v,
            None => {
                return Err(Error::ParseError(String::from_str("Invalid numeric field")));
            },
        };
        let estimate_of_bias = match primitives::parse_decimal(command[6].as_str()) {
            Some(v) => v,
            None => {
                return Err(Error::ParseError(String::from_str("Invalid numeric field")));
            },
        };
        let standard_deviation_of_bias_estimate = match primitives::parse_decimal(
            command[7].as_str(),
        ) {
            Some(v) => v,
            None => {
                return Err(Error::ParseError(String::from_str("Invalid numeric field")));
            },
        };
        Ok(
            GBS {
                time,
                latitude,
                longitude,
                altitude,
                failed_satellite_id,
                probability_of_missed_detection,
                estimate_of_bias,
                standard_deviation_of_bias_estimate,
            },
        )
    }
}

} // verus!
