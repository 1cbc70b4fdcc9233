use vstd::prelude::*;

use crate::commands::dtm::{spec_parse_dtm, DTM, DTMView};
use crate::commands::gbs::{spec_parse_gbs, GBS};
use crate::commands::gga::{spec_parse_gga, GGA, GGAView};
use crate::commands::gll::{spec_parse_gll, GLL};
use crate::commands::gns::{spec_parse_gns, GNS, GNSView};
use crate::commands::gsa::{spec_parse_gsa, GSA, GSAView};
use crate::commands::gsv::{spec_parse_gsv, GSVPage, GSVPageView};
use crate::commands::rmc::{spec_parse_rmc, RMC};
use crate::commands::vtg::{spec_parse_vtg, VTG};
use crate::commands::zda::{spec_parse_zda, ZDA};

verus! {

/// Spec-level image of an [`Error`]: strings are seen as their character
/// sequences, so that contracts can pin error values exactly.
#[verifier::ext_equal]
pub enum ErrorView {
    /// Malformed framing or a malformed mandatory field, with its message.
    ParseError(Seq<char>),
    /// A three-letter sentence type outside the registry, with the code.
    UnknownCommand(Seq<char>),
    /// Checksum mismatch: expected (from the line), computed (from the body).
    ChecksumError(u8, u8),
}

/// The closed set of failures a parse can produce.
#[derive(Debug, Clone, PartialEq)]
pub enum Error {
    /// Malformed framing, wrong field count, or a malformed mandatory field.
    ParseError(String),
    /// The three-letter sentence type code is not in the registry.
    UnknownCommand(String),
    /// Checksum mismatch: expected value from the line, then computed value.
    ChecksumError(u8, u8),
}

impl View for Error {
    type V = ErrorView;

    open spec fn view(&self) -> ErrorView {
        match self {
            Error::ParseError(m) => ErrorView::ParseError(m@),
            Error::UnknownCommand(c) => ErrorView::UnknownCommand(c@),
            Error::ChecksumError(e, c) => ErrorView::ChecksumError(*e, *c),
        }
    }
}

/// A decimal numeral kept exactly as written: a sign, the value of the digits
/// before the point, and the digits after the point as an integer together
/// with their count.  The numeral `-12.340` is held as
/// `negative: true, units: 12, fraction: 340, scale: 3`.
///
/// Only plain numerals — an optional sign, digits and at most one point —
/// have this form; exponent and non-finite spellings are not representable,
/// and the decoders reject them.
#[derive(Debug, Clone, Copy, PartialEq)]
pub struct Decimal {
    /// True when the numeral carries a leading minus sign.
    pub negative: bool,
    /// Value of the digits before the decimal point.
    pub units: u64,
    /// Value of the digits after the decimal point, read as an integer.
    pub fraction: u64,
    /// Number of digits after the decimal point.
    pub scale: usize,
}

impl Decimal {
    /// The numeral `0` with no fractional digits.
    pub open spec fn spec_zero() -> Decimal {
        Decimal { negative: false, units: 0, fraction: 0, scale: 0 }
    }

    /// Returns the zero numeral.
    pub fn zero() -> (r: Decimal)
        ensures
            r == Decimal::spec_zero(),
    {
        Decimal { negative: false, units: 0, fraction: 0, scale: 0 }
    }
}

impl Default for Decimal {
    /// The default numeral is zero.
    fn default() -> (r: Decimal)
        ensures
            r == Decimal::spec_zero(),
    {
        Decimal::zero()
    }
}

/// Time of day as carried by a sentence: no calendar semantics, and no
/// validation that the hour or minute is in range.
#[derive(Debug, Clone, PartialEq)]
pub struct Time {
    /// UTC hour.
    pub hour: u8,
    /// UTC minute.
    pub minute: u8,
    /// UTC second.
    pub second: u8,
    /// Fractional seconds, read as an integer.
    pub decimal_seconds: u8,
}

impl Time {
    /// The all-zero time used as a placeholder.
    pub open spec fn spec_zero() -> Time {
        Time { hour: 0, minute: 0, second: 0, decimal_seconds: 0 }
    }
}

impl Default for Time {
    /// The default time is all zeroes.
    fn default() -> (r: Time)
        ensures
            r == Time::spec_zero(),
    {
        Time { hour: 0, minute: 0, second: 0, decimal_seconds: 0 }
    }
}

/// Calendar date as carried by a sentence: two-digit year, no century
/// inference.
#[derive(Debug, Clone, PartialEq)]
pub struct Date {
    /// UTC year, as written in the sentence.
    pub year: usize,
    /// UTC month.
    pub month: u8,
    /// UTC day.
    pub day: u8,
}

impl Date {
    /// The all-zero date used as a placeholder.
    pub open spec fn spec_zero() -> Date {
        Date { year: 0, month: 0, day: 0 }
    }
}

impl Default for Date {
    /// The default date is all zeroes.
    fn default() -> (r: Date)
        ensures
            r == Date::spec_zero(),
    {
        Date { year: 0, month: 0, day: 0 }
    }
}

/// Sexagesimal coordinate: whole degrees and a decimal minute.  The sign is
/// carried separately by a cardinal-direction field.
#[derive(Debug, Clone, PartialEq)]
pub struct Cordinate {
    /// Whole degrees.
    pub degree: usize,
    /// Decimal minutes.
    pub minute: Decimal,
}

impl Cordinate {
    /// The zero coordinate used as a placeholder.
    pub open spec fn spec_zero() -> Cordinate {
        Cordinate { degree: 0, minute: Decimal::spec_zero() }
    }
}

impl Default for Cordinate {
    /// The default coordinate is zero degrees, zero minutes.
    fn default() -> (r: Cordinate)
        ensures
            r == Cordinate::spec_zero(),
    {
        Cordinate { degree: 0, minute: Decimal::zero() }
    }
}

/// Spec-level image of a [`CommandTypes`] value: each variant carries the
/// image of its record.
#[verifier::ext_equal]
pub enum CommandTypesView {
    /// Positioning-system fix data.
    GGA(GGAView),
    /// Satellites in view, one page.
    GSV(GSVPageView),
    /// Geographic position, latitude and longitude.
    GLL(GLL),
    /// Dilution of precision and active satellites.
    GSA(GSAView),
    /// Recommended minimum positioning data.
    RMC(RMC),
    /// Course over ground and ground speed.
    VTG(VTG),
    /// Datum reference.
    DTM(DTMView),
    /// Satellite fault detection.
    GBS(GBS),
    /// Combined GNSS fix data.
    GNS(GNSView),
    /// Time and date.
    ZDA(ZDA),
}

/// The closed union of the supported sentence types, each variant wrapping
/// that type's record.
#[derive(Debug, Clone, PartialEq)]
pub enum CommandTypes {
    /// GGA (positioning-system fix data).
    GGA(GGA),
    /// GSV (satellites in view, one page).
    GSV(GSVPage),
    /// GLL (geographic position, latitude and longitude).
    GLL(GLL),
    /// GSA (dilution of precision and active satellites).
    GSA(GSA),
    /// RMC (recommended minimum positioning data).
    RMC(RMC),
    /// VTG (course over ground and ground speed).
    VTG(VTG),
    /// DTM (datum reference).
    DTM(DTM),
    /// GBS (satellite fault detection).
    GBS(GBS),
    /// GNS (combined GNSS fix data).
    GNS(GNS),
    /// ZDA (time and date).
    ZDA(ZDA),
}

impl View for CommandTypes {
    type V = CommandTypesView;

    open spec fn view(&self) -> CommandTypesView {
        match self {
            CommandTypes::GGA(r) => CommandTypesView::GGA(r@),
            CommandTypes::GSV(r) => CommandTypesView::GSV(r@),
            CommandTypes::GLL(r) => CommandTypesView::GLL(*r),
            CommandTypes::GSA(r) => CommandTypesView::GSA(r@),
            CommandTypes::RMC(r) => CommandTypesView::RMC(*r),
            CommandTypes::VTG(r) => CommandTypesView::VTG(*r),
            CommandTypes::DTM(r) => CommandTypesView::DTM(r@),
            CommandTypes::GBS(r) => CommandTypesView::GBS(*r),
            CommandTypes::GNS(r) => CommandTypesView::GNS(r@),
            CommandTypes::ZDA(r) => CommandTypesView::ZDA(*r),
        }
    }
}

/// Holds when `code` is one of the ten registered three-letter type codes.
pub open spec fn spec_known_code(code: Seq<char>) -> bool {
    ||| code == "GGA"@
    ||| code == "GSV"@
    ||| code == "GLL"@
    ||| code == "GSA"@
    ||| code == "VTG"@
    ||| code == "RMC"@
    ||| code == "DTM"@
    ||| code == "GBS"@
    ||| code == "GNS"@
    ||| code == "ZDA"@
}

/// The tagged placeholder record that a registered type code selects.
pub open spec fn spec_default_command(code: Seq<char>) -> CommandTypesView {
    if code == "GGA"@ {
        CommandTypesView::GGA(GGA::spec_default())
    } else if code == "GSV"@ {
        CommandTypesView::GSV(GSVPage::spec_default())
    } else if code == "GLL"@ {
        CommandTypesView::GLL(GLL::spec_default())
    } else if code == "GSA"@ {
        CommandTypesView::GSA(GSA::spec_default())
    } else if code == "VTG"@ {
        CommandTypesView::VTG(VTG::spec_default())
    } else if code == "RMC"@ {
        CommandTypesView::RMC(RMC::spec_default())
    } else if code == "DTM"@ {
        CommandTypesView::DTM(DTM::spec_default())
    } else if code == "GBS"@ {
        CommandTypesView::GBS(GBS::spec_default())
    } else if code == "GNS"@ {
        CommandTypesView::GNS(GNS::spec_default())
    } else {
        CommandTypesView::ZDA(ZDA::spec_default())
    }
}

/// Result of handing the fields of a sentence to the decoder its tag
/// selects, re-wrapped in the same tag.
pub open spec fn spec_dispatch(
    t: CommandTypesView,
    f: Seq<Seq<char>>,
) -> Result<CommandTypesView, ErrorView> {
    match t {
        CommandTypesView::GGA(_) => match spec_parse_gga(f) {
            Ok(v) => Ok(CommandTypesView::GGA(v)),
            Err(e) => Err(e),
        },
        CommandTypesView::GSV(_) => match spec_parse_gsv(f) {
            Ok(v) => Ok(CommandTypesView::GSV(v)),
            Err(e) => Err(e),
        },
        CommandTypesView::GLL(_) => match spec_parse_gll(f) {
            Ok(v) => Ok(CommandTypesView::GLL(v)),
            Err(e) => Err(e),
        },
        CommandTypesView::GSA(_) => match spec_parse_gsa(f) {
            Ok(v) => Ok(CommandTypesView::GSA(v)),
            Err(e) => Err(e),
        },
        CommandTypesView::RMC(_) => match spec_parse_rmc(f) {
            Ok(v) => Ok(CommandTypesView::RMC(v)),
            Err(e) => Err(e),
        },
        CommandTypesView::VTG(_) => match spec_parse_vtg(f) {
            Ok(v) => Ok(CommandTypesView::VTG(v)),
            Err(e) => Err(e),
        },
        CommandTypesView::DTM(_) => match spec_parse_dtm(f) {
            Ok(v) => Ok(CommandTypesView::DTM(v)),
            Err(e) => Err(e),
        },
        CommandTypesView::GBS(_) => match spec_parse_gbs(f) {
            Ok(v) => Ok(CommandTypesView::GBS(v)),
            Err(e) => Err(e),
        },
        CommandTypesView::GNS(_) => match spec_parse_gns(f) {
            Ok(v) => Ok(CommandTypesView::GNS(v)),
            Err(e) => Err(e),
        },
        CommandTypesView::ZDA(_) => match spec_parse_zda(f) {
            Ok(v) => Ok(CommandTypesView::ZDA(v)),
            Err(e) => Err(e),
        },
    }
}

impl CommandTypes {
    /// Looks a three-letter type code up in the registry, yielding the
    /// tagged placeholder record that its decoder will fill.
    pub fn from_str(s: &str) -> (r: Result<CommandTypes, &'static str>)
        ensures
            spec_known_code(s@) ==> (r matches Ok(t) && t@ == spec_default_command(s@)),
            !spec_known_code(s@) ==> (r matches Err(m) && m@ == "Invalid command type"@),
    {
        if crate::primitives::str_eq(s, "GGA") {
            Ok(CommandTypes::GGA(GGA::default()))
        } else if crate::primitives::str_eq(s, "GSV") {
            Ok(CommandTypes::GSV(GSVPage::default()))
        } else if crate::primitives::str_eq(s, "GLL") {
            Ok(CommandTypes::GLL(GLL::default()))
        } else if crate::primitives::str_eq(s, "GSA") {
            Ok(CommandTypes::GSA(GSA::default()))
        } else if crate::primitives::str_eq(s, "VTG") {
            Ok(CommandTypes::VTG(VTG::default()))
        } else if crate::primitives::str_eq(s, "RMC") {
            Ok(CommandTypes::RMC(RMC::default()))
        } else if crate::primitives::str_eq(s, "DTM") {
            Ok(CommandTypes::DTM(DTM::default()))
        } else if crate::primitives::str_eq(s, "GBS") {
            Ok(CommandTypes::GBS(GBS::default()))
        } else if crate::primitives::str_eq(s, "GNS") {
            Ok(CommandTypes::GNS(GNS::default()))
        } else if crate::primitives::str_eq(s, "ZDA") {
            Ok(CommandTypes::ZDA(ZDA::default()))
        } else {
            Err("Invalid command type")
        }
    }

    /// Hands the field strings to the decoder this tag selects and re-wraps
    /// the decoded record in the same tag.
    pub fn parse_commands(&self, command: Vec<String>) -> (r: Result<CommandTypes, Error>)
        ensures
            (match r {
                Ok(t) => spec_dispatch(self@, command.deep_view()) == Ok::<
                    CommandTypesView,
                    ErrorView,
                >(t@),
                Err(e) => spec_dispatch(self@, command.deep_view()) == Err::<
                    CommandTypesView,
                    ErrorView,
                >(e@),
            }),
    {
        match self {
            CommandTypes::GGA(rec) => match rec.parse_command(command) {
                Ok(v) => Ok(CommandTypes::GGA(v)),
                Err(e) => Err(e),
            },
            CommandTypes::GSV(rec) => match rec.parse_command(command) {
                Ok(v) => Ok(CommandTypes::GSV(v)),
                Err(e) => Err(e),
            },
            CommandTypes::GLL(rec) => match rec.parse_command(command) {
                Ok(v) => Ok(CommandTypes::GLL(v)),
                Err(e) => Err(e),
            },
            CommandTypes::GSA(rec) => match rec.parse_command(command) {
                Ok(v) => Ok(CommandTypes::GSA(v)),
                Err(e) => Err(e),
            },
            CommandTypes::RMC(rec) => match rec.parse_command(command) {
                Ok(v) => Ok(CommandTypes::RMC(v)),
                Err(e) => Err(e),
            },
            CommandTypes::VTG(rec) => match rec.parse_command(command) {
                Ok(v) => Ok(CommandTypes::VTG(v)),
                Err(e) => Err(e),
            },
            CommandTypes::DTM(rec) => match rec.parse_command(command) {
                Ok(v) => Ok(CommandTypes::DTM(v)),
                Err(e) => Err(e),
            },
            CommandTypes::GBS(rec) => match rec.parse_command(command) {
                Ok(v) => Ok(CommandTypes::GBS(v)),
                Err(e) => Err(e),
            },
            CommandTypes::GNS(rec) => match rec.parse_command(command) {
                Ok(v) => Ok(CommandTypes::GNS(v)),
                Err(e) => Err(e),
            },
            CommandTypes::ZDA(rec) => match rec.parse_command(command) {
                Ok(v) => Ok(CommandTypes::ZDA(v)),
                Err(e) => Err(e),
            },
        }
    }
}

/// Data validity flag: `A` is valid, `V` is invalid.
#[derive(Debug, Clone, PartialEq)]
pub enum Status {
    /// Valid data (`A`).
    Valid,
    /// Invalid data (`V`).
    Invalid,
}

impl Status {
    /// The status a code letter stands for, or `None` for any other string.
    pub open spec fn spec_from(s: Seq<char>) -> Option<Status> {
        if s == "A"@ {
            Some(Status::Valid)
        } else if s == "V"@ {
            Some(Status::Invalid)
        } else {
            None
        }
    }

    /// Decodes a status letter; any other string is rejected.
    pub fn from_str(s: &str) -> (r: Result<Status, &'static str>)
        ensures
            (match Status::spec_from(s@) {
                Some(v) => r == Ok::<Status, &'static str>(v),
                None => r matches Err(m) && m@ == "Invalid status"@,
            }),
    {
        if crate::primitives::str_eq(s, "A") {
            Ok(Status::Valid)
        } else if crate::primitives::str_eq(s, "V") {
            Ok(Status::Invalid)
        } else {
            Err("Invalid status")
        }
    }
}

/// Quality indicator of a GGA fix.
#[derive(Debug, Clone, PartialEq)]
pub enum GGAStatus {
    /// No fix available.
    Invalid,
    /// Ordinary 2D/3D fix.
    S2d3D,
    /// Differential GNSS fix.
    Dgnss,
    /// Fixed real-time-kinematic fix.
    FixedRtk,
    /// Floating real-time-kinematic fix.
    FloatRtk,
    /// Dead-reckoning estimate.
    DeadReckoning,
}

impl GGAStatus {
    /// The quality a digit stands for, or `None` for digits outside `0..=5`.
    pub open spec fn spec_from(d: u8) -> Option<GGAStatus> {
        if d == 0 {
            Some(GGAStatus::Invalid)
        } else if d == 1 {
            Some(GGAStatus::S2d3D)
        } else if d == 2 {
            Some(GGAStatus::Dgnss)
        } else if d == 3 {
            Some(GGAStatus::FixedRtk)
        } else if d == 4 {
            Some(GGAStatus::FloatRtk)
        } else if d == 5 {
            Some(GGAStatus::DeadReckoning)
        } else {
            None
        }
    }

    /// Decodes a quality digit; digits above five are rejected.
    pub fn from_digit(d: u8) -> (r: Option<GGAStatus>)
        ensures
            r == GGAStatus::spec_from(d),
    {
        if d == 0 {
            Some(GGAStatus::Invalid)
        } else if d == 1 {
            Some(GGAStatus::S2d3D)
        } else if d == 2 {
            Some(GGAStatus::Dgnss)
        } else if d == 3 {
            Some(GGAStatus::FixedRtk)
        } else if d == 4 {
            Some(GGAStatus::FloatRtk)
        } else if d == 5 {
            Some(GGAStatus::DeadReckoning)
        } else {
            None
        }
    }
}

/// Positioning mode of a receiver, one letter per mode.
#[derive(Debug, Clone, PartialEq)]
pub enum ModeIndicator {
    /// No fix (`N`).
    NoFix,
    /// Autonomous mode (`A`).
    Autonomous,
    /// Differential mode (`D`).
    Differential,
    /// Precise mode (`P`).
    Precise,
    /// Real-time-kinematic mode (`R`).
    RealTime,
    /// Floating real-time-kinematic mode (`F`).
    FloatRtk,
    /// Estimated, dead-reckoning mode (`E`).
    Estimate,
    /// Manual-input mode (`M`).
    Manual,
    /// Simulation mode (`S`).
    Simulation,
}

impl ModeIndicator {
    /// The mode a letter stands for, or `None` for any other character.
    pub open spec fn spec_from_char(c: char) -> Option<ModeIndicator> {
        if c == 'N' {
            Some(ModeIndicator::NoFix)
        } else if c == 'A' {
            Some(ModeIndicator::Autonomous)
        } else if c == 'D' {
            Some(ModeIndicator::Differential)
        } else if c == 'P' {
            Some(ModeIndicator::Precise)
        } else if c == 'R' {
            Some(ModeIndicator::RealTime)
        } else if c == 'F' {
            Some(ModeIndicator::FloatRtk)
        } else if c == 'E' {
            Some(ModeIndicator::Estimate)
        } else if c == 'M' {
            Some(ModeIndicator::Manual)
        } else if c == 'S' {
            Some(ModeIndicator::Simulation)
        } else {
            None
        }
    }

    /// The mode a one-letter string stands for, or `None` otherwise.
    pub open spec fn spec_from(s: Seq<char>) -> Option<ModeIndicator> {
        if s.len() == 1 {
            ModeIndicator::spec_from_char(s[0])
        } else {
            None
        }
    }

    /// Decodes a one-letter mode string; any other string is rejected.
    pub fn from_str(s: &str) -> (r: Result<ModeIndicator, &'static str>)
        ensures
            (match ModeIndicator::spec_from(s@) {
                Some(v) => r == Ok::<ModeIndicator, &'static str>(v),
                None => r matches Err(m) && m@ == "Invalid mode indicator"@,
            }),
    {
        if s.unicode_len() == 1 {
            match ModeIndicator::from_char(s.get_char(0)) {
                Some(v) => Ok(v),
                None => Err("Invalid mode indicator"),
            }
        } else {
            Err("Invalid mode indicator")
        }
    }

    /// Decodes a mode letter; any other character yields `None`.
    pub fn from_char(c: char) -> (r: Option<ModeIndicator>)
        ensures
            r == ModeIndicator::spec_from_char(c),
    {
        match c {
            'N' => Some(ModeIndicator::NoFix),
            'A' => Some(ModeIndicator::Autonomous),
            'D' => Some(ModeIndicator::Differential),
            'P' => Some(ModeIndicator::Precise),
            'R' => Some(ModeIndicator::RealTime),
            'F' => Some(ModeIndicator::FloatRtk),
            'E' => Some(ModeIndicator::Estimate),
            'M' => Some(ModeIndicator::Manual),
            'S' => Some(ModeIndicator::Simulation),
            _ => None,
        }
    }
}

/// Selection mode of a GSA solution.
#[derive(Debug, Clone, PartialEq)]
pub enum GSAOperationMode {
    /// Manual selection (`M`).
    Manual,
    /// Automatic 2D/3D selection (`A`).
    Automatic,
}

impl GSAOperationMode {
    /// The operation mode a string stands for, or `None` otherwise.
    pub open spec fn spec_from(s: Seq<char>) -> Option<GSAOperationMode> {
        if s == "M"@ {
            Some(GSAOperationMode::Manual)
        } else if s == "A"@ {
            Some(GSAOperationMode::Automatic)
        } else {
            None
        }
    }

    /// Decodes an operation-mode letter; any other string is rejected.
    pub fn from_str(s: &str) -> (r: Result<GSAOperationMode, &'static str>)
        ensures
            (match GSAOperationMode::spec_from(s@) {
                Some(v) => r == Ok::<GSAOperationMode, &'static str>(v),
                None => r matches Err(m) && m@ == "Invalid operation mode"@,
            }),
    {
        if crate::primitives::str_eq(s, "M") {
            Ok(GSAOperationMode::Manual)
        } else if crate::primitives::str_eq(s, "A") {
            Ok(GSAOperationMode::Automatic)
        } else {
            Err("Invalid operation mode")
        }
    }
}

/// Kind of fix a GSA solution reports.
#[derive(Debug, Clone, PartialEq)]
pub enum NavigationMode {
    /// No fix (`1`).
    NoFix,
    /// Two-dimensional fix (`2`).
    Fix2D,
    /// Three-dimensional fix (`3`).
    Fix3D,
}

impl NavigationMode {
    /// The navigation mode a string stands for, or `None` otherwise.
    pub open spec fn spec_from(s: Seq<char>) -> Option<NavigationMode> {
        if s == "1"@ {
            Some(NavigationMode::NoFix)
        } else if s == "2"@ {
            Some(NavigationMode::Fix2D)
        } else if s == "3"@ {
            Some(NavigationMode::Fix3D)
        } else {
            None
        }
    }

    /// Decodes a navigation-mode digit; any other string is rejected.
    pub fn from_str(s: &str) -> (r: Result<NavigationMode, &'static str>)
        ensures
            (match NavigationMode::spec_from(s@) {
                Some(v) => r == Ok::<NavigationMode, &'static str>(v),
                None => r matches Err(m) && m@ == "Invalid navigation mode"@,
            }),
    {
        if crate::primitives::str_eq(s, "1") {
            Ok(NavigationMode::NoFix)
        } else if crate::primitives::str_eq(s, "2") {
            Ok(NavigationMode::Fix2D)
        } else if crate::primitives::str_eq(s, "3") {
            Ok(NavigationMode::Fix3D)
        } else {
            Err("Invalid navigation mode")
        }
    }
}

/// Unit attached to a VTG speed or course value.
#[derive(Debug, Clone, PartialEq)]
pub enum VTGUnit {
    /// Knots (`N`).
    Knots,
    /// Kilometres per hour (`K`).
    Kmh,
    /// Miles per hour (`M`).
    Mph,
}

impl VTGUnit {
    /// The unit a string stands for, or `None` otherwise.
    pub open spec fn spec_from(s: Seq<char>) -> Option<VTGUnit> {
        if s == "N"@ {
            Some(VTGUnit::Knots)
        } else if s == "K"@ {
            Some(VTGUnit::Kmh)
        } else if s == "M"@ {
            Some(VTGUnit::Mph)
        } else {
            None
        }
    }

    /// Decodes a unit letter; any other string is rejected.
    pub fn from_str(s: &str) -> (r: Result<VTGUnit, &'static str>)
        ensures
            (match VTGUnit::spec_from(s@) {
                Some(v) => r == Ok::<VTGUnit, &'static str>(v),
                None => r matches Err(m) && m@ == "Invalid VTG unit"@,
            }),
    {
        if crate::primitives::str_eq(s, "N") {
            Ok(VTGUnit::Knots)
        } else if crate::primitives::str_eq(s, "K") {
            Ok(VTGUnit::Kmh)
        } else if crate::primitives::str_eq(s, "M") {
            Ok(VTGUnit::Mph)
        } else {
            Err("Invalid VTG unit")
        }
    }
}

/// Safety classification of the planned route.
#[derive(Debug, Clone, PartialEq)]
pub enum NavigationalStatus {
    /// Safe route.
    Safe,
    /// Route acceptable, with a warning.
    Caution,
    /// Unsafe route.
    Unsafe,
    /// Classification not valid.
    NotValid,
}

/// One of the four cardinal directions.
#[derive(Debug, Clone, PartialEq)]
pub enum CardinalDirection {
    /// North (`N`).
    North,
    /// South (`S`).
    South,
    /// East (`E`).
    East,
    /// West (`W`).
    West,
}

impl CardinalDirection {
    /// The direction a letter stands for, or `None` for any other character.
    pub open spec fn spec_from_char(c: char) -> Option<CardinalDirection> {
        if c == 'N' {
            Some(CardinalDirection::North)
        } else if c == 'S' {
            Some(CardinalDirection::South)
        } else if c == 'E' {
            Some(CardinalDirection::East)
        } else if c == 'W' {
            Some(CardinalDirection::West)
        } else {
            None
        }
    }

    /// Decodes a direction letter; any other character yields `None`.
    pub fn from_char(c: char) -> (r: Option<CardinalDirection>)
        ensures
            r == CardinalDirection::spec_from_char(c),
    {
        match c {
            'N' => Some(CardinalDirection::North),
            'S' => Some(CardinalDirection::South),
            'E' => Some(CardinalDirection::East),
            'W' => Some(CardinalDirection::West),
            _ => None,
        }
    }
}

/// Two-letter code of the subsystem that produced a sentence.
#[derive(Debug, Clone, PartialEq)]
pub enum TalkerIds {
    /// Galileo.
    GA,
    /// BeiDou.
    GB,
    /// GPS.
    GP,
    /// GLONASS.
    GL,
    /// Combined GNSS position.
    GN,
    /// QZSS.
    GQ,
}

impl TalkerIds {
    /// Holds when `s` is a `$`-prefixed recognized talker code.
    pub open spec fn spec_is_correct(s: Seq<char>) -> bool {
        ||| s == "$GA"@
        ||| s == "$GB"@
        ||| s == "$GP"@
        ||| s == "$GL"@
        ||| s == "$GN"@
        ||| s == "$GQ"@
    }

    /// The talker a `$`-prefixed code stands for; codes outside the
    /// recognized set all map to `GQ`, but [`TalkerIds::parse`] never
    /// receives one.
    pub open spec fn spec_parse(s: Seq<char>) -> TalkerIds {
        if s == "$GA"@ {
            TalkerIds::GA
        } else if s == "$GB"@ {
            TalkerIds::GB
        } else if s == "$GP"@ {
            TalkerIds::GP
        } else if s == "$GL"@ {
            TalkerIds::GL
        } else if s == "$GN"@ {
            TalkerIds::GN
        } else {
            TalkerIds::GQ
        }
    }

    /// Tests whether a `$`-prefixed talker code is recognized.
    pub fn is_correct(code: &str) -> (r: bool)
        ensures
            r == TalkerIds::spec_is_correct(code@),
    {
        crate::primitives::str_eq(code, "$GA") || crate::primitives::str_eq(code, "$GB")
            || crate::primitives::str_eq(code, "$GP") || crate::primitives::str_eq(code, "$GL")
            || crate::primitives::str_eq(code, "$GN") || crate::primitives::str_eq(code, "$GQ")
    }

    /// Decodes a recognized `$`-prefixed talker code.
    pub fn parse(code: &str) -> (r: TalkerIds)
        requires
            TalkerIds::spec_is_correct(code@),
        ensures
            r == TalkerIds::spec_parse(code@),
    {
        if crate::primitives::str_eq(code, "$GA") {
            TalkerIds::GA
        } else if crate::primitives::str_eq(code, "$GB") {
            TalkerIds::GB
        } else if crate::primitives::str_eq(code, "$GP") {
            TalkerIds::GP
        } else if crate::primitives::str_eq(code, "$GL") {
            TalkerIds::GL
        } else if crate::primitives::str_eq(code, "$GN") {
            TalkerIds::GN
        } else {
            TalkerIds::GQ
        }
    }
}

} // verus!
