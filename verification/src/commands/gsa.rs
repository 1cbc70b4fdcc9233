use vstd::prelude::*;

use crate::primitives;
use crate::types::{Decimal, Error, ErrorView, GSAOperationMode, NavigationMode};

verus! {

/// GSA record: dilution of precision and the satellites used in the
/// solution.
#[derive(Debug, Clone, PartialEq)]
pub struct GSA {
    /// Selection mode.
    pub operation_mode: GSAOperationMode,
    /// Kind of fix.
    pub navigation_mode: NavigationMode,
    /// The twelve satellite slots; a slot that is empty or not numeric is
    /// absent.
    pub satellites: Vec<Option<u8>>,
    /// Number of slots that hold a satellite.
    pub number_of_satellites: usize,
    /// Position dilution of precision.
    pub pdop: Decimal,
    /// Horizontal dilution of precision.
    pub hdop: Decimal,
    /// Vertical dilution of precision.
    pub vdop: Decimal,
}

/// Spec-level image of a [`GSA`] record, with the slots as a sequence.
#[verifier::ext_equal]
pub struct GSAView {
    /// Selection mode.
    pub operation_mode: GSAOperationMode,
    /// Kind of fix.
    pub navigation_mode: NavigationMode,
    /// The twelve satellite slots.
    pub satellites: Seq<Option<u8>>,
    /// Number of slots that hold a satellite.
    pub number_of_satellites: usize,
    /// Position dilution of precision.
    pub pdop: Decimal,
    /// Horizontal dilution of precision.
    pub hdop: Decimal,
    /// Vertical dilution of precision.
    pub vdop: Decimal,
}

impl View for GSA {
    type V = GSAView;

    open spec fn view(&self) -> GSAView {
        GSAView {
            operation_mode: self.operation_mode,
            navigation_mode: self.navigation_mode,
            satellites: self.satellites@,
            number_of_satellites: self.number_of_satellites,
            pdop: self.pdop,
            hdop: self.hdop,
            vdop: self.vdop,
        }
    }
}

impl GSA {
    /// The placeholder record: automatic, no fix, no slots, zero dilution.
    pub open spec fn spec_default() -> GSAView {
        GSAView {
            operation_mode: GSAOperationMode::Automatic,
            navigation_mode: NavigationMode::NoFix,
            satellites: Seq::empty(),
            number_of_satellites: 0,
            pdop: Decimal::spec_zero(),
            hdop: Decimal::spec_zero(),
            vdop: Decimal::spec_zero(),
        }
    }
}

impl Default for GSA {
    /// The default record is automatic with no fix and no slots.
    fn default() -> (r: GSA)
        ensures
            r@ == GSA::spec_default(),
    {
        let r = GSA {
            operation_mode: GSAOperationMode::Automatic,
            navigation_mode: NavigationMode::NoFix,
            satellites: Vec::new(),
            number_of_satellites: 0,
            pdop: Decimal::zero(),
            hdop: Decimal::zero(),
            vdop: Decimal::zero(),
        };
        proof {
            assert(r@ =~= GSA::spec_default());
        }
        r
    }
}

/// Number of present values among a sequence of slots.
pub open spec fn count_somes(s: Seq<Option<u8>>) -> nat
    decreases s.len(),
{
    if s.len() == 0 {
        0
    } else {
        count_somes(s.drop_last()) + if s.last() is Some {
            1nat
        } else {
            0nat
        }
    }
}

/// A sequence never holds more present slots than its length.
pub proof fn lemma_count_somes_le_len(s: Seq<Option<u8>>)
    ensures
        count_somes(s) <= s.len(),
    decreases s.len(),
{
    if s.len() > 0 {
        lemma_count_somes_le_len(s.drop_last());
    }
}

/// Result of decoding GSA fields: exactly seventeen fields, in order the
/// operation and navigation modes, twelve optional satellite slots, and the
/// three mandatory dilution values.
pub open spec fn spec_parse_gsa(f: Seq<Seq<char>>) -> Result<GSAView, ErrorView> {
    if f.len() != 17 {
        Err(
            ErrorView::ParseError(
                "Invalid command length for GSA, expected 17 fields, got "@
                    + primitives::dec_digits_of(f.len()),
            ),
        )
    } else {
        match GSAOperationMode::spec_from(f[0]) {
            None => Err(ErrorView::ParseError("Invalid operation mode: "@ + f[0])),
            Some(operation_mode) => match NavigationMode::spec_from(f[1]) {
                None => Err(ErrorView::ParseError("Invalid navigation mode: "@ + f[1])),
                Some(navigation_mode) => {
                    let sats = Seq::new(12, |i: int| primitives::spec_parse_u8(f[2 + i]));
                    match (
                        primitives::spec_parse_decimal(f[14]),
                        primitives::spec_parse_decimal(f[15]),
                        primitives::spec_parse_decimal(f[16]),
                    ) {
                        (Some(pdop), Some(hdop), Some(vdop)) => Ok(
                            GSAView {
                                operation_mode,
                                navigation_mode,
                                satellites: sats,
                                number_of_satellites: count_somes(sats) as usize,
                                pdop,
                                hdop,
                                vdop,
                            },
                        ),
                        _ => Err(ErrorView::ParseError("Invalid numeric field"@)),
                    }
                },
            },
        }
    }
}

impl GSA {
    /// Decodes the GSA fields.
    pub fn parse_command(&self, command: Vec<String>) -> (r: Result<GSA, Error>)
        ensures
            (match r {
                Ok(v) => spec_parse_gsa(command.deep_view()) == Ok::<GSAView, ErrorView>(v@),
                Err(e) => spec_parse_gsa(command.deep_view()) == Err::<GSAView, ErrorView>(e@),
            }),
    {
        let ghost f = command.deep_view();
        if command.len() != 17 {
            let msg = String::from_str("Invalid command length for GSA, expected 17 fields, got ")
                .concat(primitives::usize_to_string(command.len()).as_str());
            return Err(Error::ParseError(msg));
        }
        let operation_mode = match GSAOperationMode::from_str(command[0].as_str()) {
            Ok(v) => v,
            Err(_) => {
                let msg = String::from_str("Invalid operation mode: ").concat(
                    command[0].as_str(),
                );
                return Err(Error::ParseError(msg));
            },
        };
        let navigation_mode = match NavigationMode::from_str(command[1].as_str()) {
            Ok(v) => v,
            Err(_) => {
                let msg = String::from_str("Invalid navigation mode: ").concat(
                    command[1].as_str(),
                );
                return Err(Error::ParseError(msg));
            },
        };
        let mut satellites: Vec<Option<u8>> = Vec::new();
        let mut number_of_satellites: usize = 0;
        let mut i: usize = 0;
        while i < 12
            invariant
                command.deep_view() == f,
                command@.len() >= 17,
                0 <= i <= 12,
                satellites@.len() == i,
                forall|j: int| 0 <= j < i ==> satellites@[j] == primitives::spec_parse_u8(
                    #[trigger] f[2 + j],
                ),
                number_of_satellites == count_somes(satellites@),
                number_of_satellites <= i,
            decreases 12 - i,
        {
            let v = primitives::parse_u8(command[2 + i].as_str());
            proof {
                assert(satellites@.push(v).drop_last() =~= satellites@);
            }
            if v.is_some() {
                number_of_satellites = number_of_satellites + 1;
            }
            satellites.push(v);
            i = i + 1;
        }
        proof {
            assert(satellites@ =~= Seq::new(12, |j: int| primitives::spec_parse_u8(f[2 + j])));
        }
        let pdop = match primitives::parse_decimal(command[14].as_str()) {
            Some(v) => v,
            None => {
                return Err(Error::ParseError(String::from_str("Invalid numeric field")));
            },
        };
        let hdop = match primitives::parse_decimal(command[15].as_str()) {
            Some(v) => v,
            None => {
                return Err(Error::ParseError(String::from_str("Invalid numeric field")));
            },
        };
        let vdop = match primitives::parse_decimal(command[16].as_str()) {
            Some(v) => v,
            None => {
                return Err(Error::ParseError(String::from_str("Invalid numeric field")));
            },
        };
        let r = GSA {
            operation_mode,
            navigation_mode,
            satellites,
            number_of_satellites,
            pdop,
            hdop,
            vdop,
        };
        proof {
            lemma_count_somes_le_len(r.satellites@);
            assert(spec_parse_gsa(f) matches Ok(v) && v =~= r@);
        }
        Ok(r)
    }
}

} // verus!
