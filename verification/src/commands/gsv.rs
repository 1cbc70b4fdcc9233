use vstd::prelude::*;

use crate::primitives;
use crate::types::{Error, ErrorView};

verus! {

/// One satellite descriptor of a GSV page; every attribute is absent when
/// its field is missing, empty or not numeric.
#[derive(Debug, Clone, PartialEq)]
pub struct Satellite {
    /// Satellite identifier.
    pub id: Option<usize>,
    /// Elevation, in degrees.
    pub elevation: Option<usize>,
    /// Azimuth, in degrees.
    pub azimuth: Option<usize>,
    /// Signal-to-noise ratio, in decibels.
    pub snr: Option<usize>,
}

/// A whole satellites-in-view report: the pages collected by the caller.
#[derive(Debug, Clone, PartialEq)]
pub struct GSV {
    /// Total number of pages in the report.
    pub total_pages: usize,
    /// The pages gathered so far.
    pub pages: Vec<GSVPage>,
}

/// One physical GSV sentence: a page of up to four satellite descriptors.
#[derive(Debug, Clone, PartialEq)]
pub struct GSVPage {
    /// Total number of pages in the report.
    pub total_pages: usize,
    /// Index of this page.
    pub page_id: usize,
    /// Number of satellites known to be in view.
    pub number_of_known_satellites_in_view: usize,
    /// The four satellite slots of this page.
    pub satellites: Vec<Satellite>,
    /// Signal identifier from the final field, when numeric.
    pub signal_id: Option<usize>,
}

/// Spec-level image of a [`GSVPage`], with the slots as a sequence.
#[verifier::ext_equal]
pub struct GSVPageView {
    /// Total number of pages in the report.
    pub total_pages: usize,
    /// Index of this page.
    pub page_id: usize,
    /// Number of satellites known to be in view.
    pub number_of_known_satellites_in_view: usize,
    /// The four satellite slots of this page.
    pub satellites: Seq<Satellite>,
    /// Signal identifier from the final field, when numeric.
    pub signal_id: Option<usize>,
}

impl View for GSVPage {
    type V = GSVPageView;

    open spec fn view(&self) -> GSVPageView {
        GSVPageView {
            total_pages: self.total_pages,
            page_id: self.page_id,
            number_of_known_satellites_in_view: self.number_of_known_satellites_in_view,
            satellites: self.satellites@,
            signal_id: self.signal_id,
        }
    }
}

impl GSVPage {
    /// The placeholder page: zero counters and no satellites.
    pub open spec fn spec_default() -> GSVPageView {
        GSVPageView {
            total_pages: 0,
            page_id: 0,
            number_of_known_satellites_in_view: 0,
            satellites: Seq::empty(),
            signal_id: None,
        }
    }
}

impl Default for GSVPage {
    /// The default page has zero counters and no satellites.
    fn default() -> (r: GSVPage)
        ensures
            r@ == GSVPage::spec_default(),
    {
        let r = GSVPage {
            total_pages: 0,
            page_id: 0,
            number_of_known_satellites_in_view: 0,
            satellites: Vec::new(),
            signal_id: None,
        };
        proof {
            assert(r@ =~= GSVPage::spec_default());
        }
        r
    }
}

/// The value of the field at `idx`, when it exists and is numeric.
pub open spec fn spec_gsv_slot(f: Seq<Seq<char>>, idx: int) -> Option<usize> {
    if 0 <= idx < f.len() {
        primitives::spec_parse_usize(f[idx])
    } else {
        None
    }
}

/// The satellite decoded from slot `i` of a page: four consecutive fields
/// starting after the three header fields.
pub open spec fn spec_gsv_satellite(f: Seq<Seq<char>>, i: int) -> Satellite {
    Satellite {
        id: spec_gsv_slot(f, 3 + 4 * i),
        elevation: spec_gsv_slot(f, 4 + 4 * i),
        azimuth: spec_gsv_slot(f, 5 + 4 * i),
        snr: spec_gsv_slot(f, 6 + 4 * i),
    }
}

/// Result of decoding GSV fields: at least four fields, the first three
/// being the mandatory page counters, then up to four satellite descriptors
/// whose missing fields are absent, and the last field read as the optional
/// signal identifier.
pub open spec fn spec_parse_gsv(f: Seq<Seq<char>>) -> Result<GSVPageView, ErrorView> {
    if f.len() < 4 {
        Err(
            ErrorView::ParseError(
                "Invalid command length for GSV, expected at least 4 fields, got "@
                    + primitives::dec_digits_of(f.len()),
            ),
        )
    } else {
        match (
            primitives::spec_parse_usize(f[0]),
            primitives::spec_parse_usize(f[1]),
            primitives::spec_parse_usize(f[2]),
        ) {
            (Some(total_pages), Some(page_id), Some(known)) => Ok(
                GSVPageView {
                    total_pages,
                    page_id,
                    number_of_known_satellites_in_view: known,
                    satellites: Seq::new(4, |i: int| spec_gsv_satellite(f, i)),
                    signal_id: primitives::spec_parse_usize(f[f.len() - 1]),
                },
            ),
            _ => Err(ErrorView::ParseError("Invalid numeric field"@)),
        }
    }
}

/// Reads the field at `idx` as an optional number; a missing field is
/// absent.
fn gsv_slot(command: &Vec<String>, idx: usize) -> (r: Option<usize>)
    ensures
        r == spec_gsv_slot(command.deep_view(), idx as int),
{
    if idx < command.len() {
        primitives::parse_usize(command[idx].as_str())
    } else {
        None
    }
}

impl GSVPage {
    /// Decodes the GSV fields of one page.
    pub fn parse_command(&self, command: Vec<String>) -> (r: Result<GSVPage, Error>)
        ensures
            (match r {
                Ok(v) => spec_parse_gsv(command.deep_view()) == Ok::<GSVPageView, ErrorView>(v@),
                Err(e) => spec_parse_gsv(command.deep_view()) == Err::<GSVPageView, ErrorView>(e@),
            }),
    {
        let ghost f = command.deep_view();
        if command.len() < 4 {
            let msg = String::from_str(
                "Invalid command length for GSV, expected at least 4 fields, got ",
            ).concat(primitives::usize_to_string(command.len()).as_str());
            return Err(Error::ParseError(msg));
        }
        let total_pages = match primitives::parse_usize(command[0].as_str()) {
            Some(v) => v,
            None => {
                return Err(Error::ParseError(String::from_str("Invalid numeric field")));
            },
        };
        let page_id = match primitives::parse_usize(command[1].as_str()) {
            Some(v) => v,
            None => {
                return Err(Error::ParseError(String::from_str("Invalid numeric field")));
            },
        };
        let number_of_known_satellites_in_view = match primitives::parse_usize(
            command[2].as_str(),
        ) {
            Some(v) => v,
            None => {
                return Err(Error::ParseError(String::from_str("Invalid numeric field")));
            },
        };
        let mut satellites: Vec<Satellite> = Vec::new();
        let mut i: usize = 0;
        while i < 4
            invariant
                command.deep_view() == f,
                command@.len() >= 4,
                0 <= i <= 4,
                satellites@.len() == i,
                forall|j: int| 0 <= j < i ==> satellites@[j] == spec_gsv_satellite(f, j),
            decreases 4 - i,
        {
            let base = 4 * i;
            let sat = Satellite {
                id: gsv_slot(&command, 3 + base),
                elevation: gsv_slot(&command, 4 + base),
                azimuth: gsv_slot(&command, 5 + base),
                snr: gsv_slot(&command, 6 + base),
            };
            satellites.push(sat);
            i = i + 1;
        }
        proof {
            assert(satellites@ =~= Seq::new(4, |j: int| spec_gsv_satellite(f, j)));
        }
        let signal_id = primitives::parse_usize(command[command.len() - 1].as_str());
        let r = GSVPage {
            total_pages,
            page_id,
            number_of_known_satellites_in_view,
            satellites,
            signal_id,
        };
        proof {
            assert(spec_parse_gsv(f) matches Ok(v) && v =~= r@);
        }
        Ok(r)
    }
}

} // verus!
