use vstd::prelude::*;

use crate::primitives;
use crate::types::{Date, Error, ErrorView, Time};

verus! {

/// ZDA record: time and date with the local zone offset.
#[derive(Debug, Clone, PartialEq)]
pub struct ZDA {
    /// UTC time of day.
    pub time: Time,
    /// UTC date.
    pub date: Date,
    /// Local zone hours.
    pub local_zone_hours: usize,
    /// Local zone minutes.
    pub local_zone_minutes: usize,
}

impl ZDA {
    /// The all-zero placeholder record.
    pub open spec fn spec_default() -> ZDA {
        ZDA {
            time: Time::spec_zero(),
            date: Date::spec_zero(),
            local_zone_hours: 0,
            local_zone_minutes: 0,
        }
    }
}

impl Default for ZDA {
    /// The default record is all zeroes.
    fn default() -> (r: ZDA)
        ensures
            r == ZDA::spec_default(),
    {
        ZDA {
            time: Time::default(),
            date: Date::default(),
            local_zone_hours: 0,
            local_zone_minutes: 0,
        }
    }
}

/// Result of decoding ZDA fields: exactly six fields, in order the time of
/// day, day, month, year and the two local-zone numbers, all mandatory.
pub open spec fn spec_parse_zda(f: Seq<Seq<char>>) -> Result<ZDA, ErrorView> {
    if f.len() != 6 {
        Err(
            ErrorView::ParseError(
                "Invalid command length for ZDA, expected 6 fields, got "@
                    + primitives::dec_digits_of(f.len()),
            ),
        )
    } else {
        match primitives::spec_time(f[0]) {
            None => Err(ErrorView::ParseError("Invalid time field"@)),
            Some(time) => match (
                primitives::spec_parse_u8(f[1]),
                primitives::spec_parse_u8(f[2]),
                primitives::spec_parse_usize(f[3]),
                primitives::spec_parse_usize(f[4]),
                primitives::spec_parse_usize(f[5]),
            ) {
                (Some(day), Some(month), Some(year), Some(zh), Some(zm)) => Ok(
                    ZDA {
                        time,
                        date: Date { year, month, day },
                        local_zone_hours: zh,
                        local_zone_minutes: zm,
                    },
                ),
                _ => Err(ErrorView::ParseError("Invalid numeric field"@)),
            },
        }
    }
}

impl ZDA {
    /// Decodes the six ZDA fields.
    pub fn parse_command(&self, command: Vec<String>) -> (r: Result<ZDA, Error>)
        ensures
            (match r {
                Ok(v) => spec_parse_zda(command.deep_view()) == Ok::<ZDA, ErrorView>(v),
                Err(e) => spec_parse_zda(command.deep_view()) == Err::<ZDA, ErrorView>(e@),
            }),
    {
        if command.len() != 6 {
            let msg = String::from_str("Invalid command length for ZDA, expected 6 fields, got ")
                .concat(primitives::usize_to_string(command.len()).as_str());
            return Err(Error::ParseError(msg));
        }
        let time = match primitives::parse_time(command[0].as_str()) {
            Some(t) => t,
            None => {
                return Err(Error::ParseError(String::from_str("Invalid time field")));
            },
        };
        let day = match primitives::parse_u8(command[1].as_str()) {
            Some(v) => v,
            None => {
                return Err(Error::ParseError(String::from_str("Invalid numeric field")));
            },
        };
        let month = match primitives::parse_u8(command[2].as_str()) {
            Some(v) => v,
            None => {
                return Err(Error::ParseError(String::from_str("Invalid numeric field")));
            },
        };
        let year = match primitives::parse_usize(command[3].as_str()) {
            Some(v) => v,
            None => {
                return Err(Error::ParseError(String::from_str("Invalid numeric field")));
            },
        };
        let local_zone_hours = match primitives::parse_usize(command[4].as_str()) {
            Some(v) => v,
            None => {
                return Err(Error::ParseError(String::from_str("Invalid numeric field")));
            },
        };
        let local_zone_minutes = match primitives::parse_usize(command[5].as_str()) {
            Some(v) => v,
            None => {
                return Err(Error::ParseError(String::from_str("Invalid numeric field")));
            },
        };
        Ok(ZDA { time, date: Date { year, month, day }, local_zone_hours, local_zone_minutes })
    }
}

} // verus!
