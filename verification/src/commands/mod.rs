use vstd::prelude::*;

use crate::types::CardinalDirection;

/// DTM (datum reference).
pub mod dtm;
/// GBS (satellite fault detection).
pub mod gbs;
/// GGA (positioning-system fix data).
pub mod gga;
/// GLL (geographic position, latitude and longitude).
pub mod gll;
/// GNS (GNSS fix data).
pub mod gns;
/// GSA (dilution of precision and active satellites).
pub mod gsa;
/// GSV (satellites in view).
pub mod gsv;
/// RMC (recommended minimum positioning data).
pub mod rmc;
/// VTG (course over ground and ground speed).
pub mod vtg;
/// ZDA (time and date).
pub mod zda;

verus! {

/// The cardinal direction named by the first character of a field: `None`
/// when the field is empty or its first character is not a direction letter.
pub open spec fn spec_first_cardinal(s: Seq<char>) -> Option<CardinalDirection> {
    if s.len() == 0 {
        None
    } else {
        CardinalDirection::spec_from_char(s[0])
    }
}

/// Decodes the cardinal direction named by the first character of a field.
pub fn first_cardinal(s: &str) -> (r: Option<CardinalDirection>)
    ensures
        r == spec_first_cardinal(s@),
{
    if s.unicode_len() == 0 {
        None
    } else {
        CardinalDirection::from_char(s.get_char(0))
    }
}

} // verus!
