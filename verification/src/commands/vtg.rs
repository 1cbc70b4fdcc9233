use vstd::prelude::*;

use crate::primitives;
use crate::types::{Decimal, Error, ErrorView, ModeIndicator, VTGUnit};

verus! {

/// VTG record: course over ground and ground speed, each with its unit.
#[derive(Debug, Clone, PartialEq)]
pub struct VTG {
    /// True course over ground, absent when the field is not numeric.
    pub course_over_ground_true: Option<Decimal>,
    /// Unit letter following the true course.
    pub course_over_ground_unit: char,
    /// Magnetic course over ground, absent when the field is not numeric.
    pub course_over_ground_magnetic: Option<Decimal>,
    /// Unit letter following the magnetic course.
    pub course_over_ground_magnetic_unit: char,
    /// First speed over ground, absent when the field is not numeric.
    pub speed_over_ground_first: Option<Decimal>,
    /// Unit of the first speed.
    pub speed_over_ground_first_unit: VTGUnit,
    /// Second speed over ground, absent when the field is not numeric.
    pub speed_over_ground_second: Option<Decimal>,
    /// Unit of the second speed.
    pub speed_over_ground_second_unit: VTGUnit,
    /// Positioning mode.
    pub mode_indicator: ModeIndicator,
}

impl VTG {
    /// The placeholder record: absent values, zero unit letters, knots then
    /// kilometres per hour, autonomous mode.
    pub open spec fn spec_default() -> VTG {
        VTG {
            course_over_ground_true: None,
            course_over_ground_unit: '\0',
            course_over_ground_magnetic: None,
            course_over_ground_magnetic_unit: '\0',
            speed_over_ground_first: None,
            speed_over_ground_first_unit: VTGUnit::Knots,
            speed_over_ground_second: None,
            speed_over_ground_second_unit: VTGUnit::Kmh,
            mode_indicator: ModeIndicator::Autonomous,
        }
    }
}

impl Default for VTG {
    /// The default record has absent values and autonomous mode.
    fn default() -> (r: VTG)
        ensures
            r == VTG::spec_default(),
    {
        VTG {
            course_over_ground_true: None,
            course_over_ground_unit: '\0',
            course_over_ground_magnetic: None,
            course_over_ground_magnetic_unit: '\0',
            speed_over_ground_first: None,
            speed_over_ground_first_unit: VTGUnit::Knots,
            speed_over_ground_second: None,
            speed_over_ground_second_unit: VTGUnit::Kmh,
            mode_indicator: ModeIndicator::Autonomous,
        }
    }
}

/// Result of decoding VTG fields: exactly nine fields, alternating values
/// and unit letters, ending with the mode letter.  The four value fields are
/// optional; the unit letters, unit codes and mode are mandatory.
pub open spec fn spec_parse_vtg(f: Seq<Seq<char>>) -> Result<VTG, ErrorView> {
    if f.len() != 9 {
        Err(
            ErrorView::ParseError(
                "Invalid command length for VTG, expected 9 fields, got "@
                    + primitives::dec_digits_of(f.len()),
            ),
        )
    } else {
        let course_over_ground_true = primitives::spec_parse_decimal(f[0]);
        let course_over_ground_magnetic = primitives::spec_parse_decimal(f[2]);
        let speed_over_ground_first = primitives::spec_parse_decimal(f[4]);
        let speed_over_ground_second = primitives::spec_parse_decimal(f[6]);
        if f[1].len() == 0 {
            Err(ErrorView::ParseError("Invalid course over ground unit"@))
        } else if f[3].len() == 0 {
            Err(ErrorView::ParseError("Invalid course over ground magnetic unit"@))
        } else {
            match VTGUnit::spec_from(f[5]) {
                None => Err(ErrorView::ParseError("Invalid speed over ground first unit"@)),
                Some(speed_over_ground_first_unit) => match VTGUnit::spec_from(f[7]) {
                    None => Err(ErrorView::ParseError("Invalid speed over ground second unit"@)),
                    Some(speed_over_ground_second_unit) => match ModeIndicator::spec_from(f[8]) {
                        None => Err(ErrorView::ParseError("Invalid mode indicator"@)),
                        Some(mode_indicator) => Ok(
                            VTG {
                                course_over_ground_true,
                                course_over_ground_unit: f[1][0],
                                course_over_ground_magnetic,
                                course_over_ground_magnetic_unit: f[3][0],
                                speed_over_ground_first,
                                speed_over_ground_first_unit,
                                speed_over_ground_second,
                                speed_over_ground_second_unit,
                                mode_indicator,
                            },
                        ),
                    },
                },
            }
        }
    }
}

impl VTG {
    /// Decodes the nine VTG fields.
    pub fn parse_command(&self, command: Vec<String>) -> (r: Result<VTG, Error>)
        ensures
            (match r {
                Ok(v) => spec_parse_vtg(command.deep_view()) == Ok::<VTG, ErrorView>(v),
                Err(e) => spec_parse_vtg(command.deep_view()) == Err::<VTG, ErrorView>(e@),
            }),
    {
        if command.len() != 9 {
            let msg = String::from_str("Invalid command length for VTG, expected 9 fields, got ")
                .concat(primitives::usize_to_string(command.len()).as_str());
            return Err(Error::ParseError(msg));
        }
        let course_over_ground_true = primitives::parse_decimal(command[0].as_str());
        let course_over_ground_unit = match primitives::first_char(command[1].as_str()) {
            Some(c) => c,
            None => {
                return Err(Error::ParseError(String::from_str("Invalid course over ground unit")));
            },
        };
        let course_over_ground_magnetic = primitives::parse_decimal(command[2].as_str());
        let course_over_ground_magnetic_unit = match primitives::first_char(command[3].as_str()) {
            Some(c) => c,
            None => {
                return Err(
                    Error::ParseError(String::from_str("Invalid course over ground magnetic unit")),
                );
            },
        };
        let speed_over_ground_first = primitives::parse_decimal(command[4].as_str());
        let speed_over_ground_first_unit = match VTGUnit::from_str(command[5].as_str()) {
            Ok(v) => v,
            Err(_) => {
                return Err(
                    Error::ParseError(String::from_str("Invalid speed over ground first unit")),
                );
            },
        };
        let speed_over_ground_second = primitives::parse_decimal(command[6].as_str());
        let speed_over_ground_second_unit = match VTGUnit::from_str(command[7].as_str()) {
            Ok(v) => v,
            Err(_) => {
                return Err(
                    Error::ParseError(String::from_str("Invalid speed over ground second unit")),
                );
            },
        };
        let mode_indicator = match ModeIndicator::from_str(command[8].as_str()) {
            Ok(v) => v,
            Err(_) => {
                return Err(Error::ParseError(String::from_str("Invalid mode indicator")));
            },
        };
        Ok(
            VTG {
                course_over_ground_true,
                course_over_ground_unit,
                course_over_ground_magnetic,
                course_over_ground_magnetic_unit,
                speed_over_ground_first,
                speed_over_ground_first_unit,
                speed_over_ground_second,
                speed_over_ground_second_unit,
                mode_indicator,
            },
        )
    }
}

} // verus!
