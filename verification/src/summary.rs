//! The decoded summary: the fixed, ordered set of metadata fields a decoded
//! sample is reduced to, and its canonical textual rendering. Two summaries
//! agree exactly when their renderings are equal, so the rendering is the
//! identity the whole verification phase compares by.

use vstd::prelude::*;
use vstd::string::*;
use crate::text::{spec_area_list, spec_digits, spec_u64_list, render_area_list, render_u64_list,
    u64_to_string};

verus! {

/// A decoded image's orientation.
#[derive(Debug, Clone, Copy)]
pub enum Orientation {
    Normal,
    HorizontalFlip,
    Rotate180,
    VerticalFlip,
    Transpose,
    Rotate90,
    Transverse,
    Rotate270,
    Unknown,
}

/// The canonical name of an orientation.
pub open spec fn orientation_text(o: Orientation) -> Seq<char> {
    match o {
        Orientation::Normal => "Normal"@,
        Orientation::HorizontalFlip => "HorizontalFlip"@,
        Orientation::Rotate180 => "Rotate180"@,
        Orientation::VerticalFlip => "VerticalFlip"@,
        Orientation::Transpose => "Transpose"@,
        Orientation::Rotate90 => "Rotate90"@,
        Orientation::Transverse => "Transverse"@,
        Orientation::Rotate270 => "Rotate270"@,
        Orientation::Unknown => "Unknown"@,
    }
}

/// Renders an orientation, exactly as `orientation_text` states.
pub fn render_orientation(o: &Orientation) -> (r: String)
    ensures
        r@ == orientation_text(*o),
{
    match o {
        Orientation::Normal => "Normal".to_owned(),
        Orientation::HorizontalFlip => "HorizontalFlip".to_owned(),
        Orientation::Rotate180 => "Rotate180".to_owned(),
        Orientation::VerticalFlip => "VerticalFlip".to_owned(),
        Orientation::Transpose => "Transpose".to_owned(),
        Orientation::Rotate90 => "Rotate90".to_owned(),
        Orientation::Transverse => "Transverse".to_owned(),
        Orientation::Rotate270 => "Rotate270".to_owned(),
        Orientation::Unknown => "Unknown".to_owned(),
    }
}

/// The metadata summary of one decoded sample. Integer fields are held as
/// plain values and rendered here; `wb_coeffs` and `xyz_to_cam` are held as
/// the decoder's own rendering of its coefficient arrays, and `cfa` as the
/// decoder's name for the color-filter-array pattern.
pub struct DecodedSummary {
    pub make: String,
    pub model: String,
    pub width: u64,
    pub height: u64,
    pub cpp: u64,
    pub wb_coeffs: String,
    pub whitelevels: Vec<u64>,
    pub blacklevels: Vec<u64>,
    pub xyz_to_cam: String,
    pub cfa: String,
    pub crops: Vec<u64>,
    pub blackareas: Vec<(u64, u64, u64, u64)>,
    pub orientation: Orientation,
}

/// The canonical rendering: the fields in fixed order, one `field = value`
/// line each, joined by single newlines, with no trailing newline.
pub open spec fn spec_render_summary(s: DecodedSummary) -> Seq<char> {
    "make = "@ + s.make@ + "\n"@ + "model = "@ + s.model@ + "\n"@ + "width = "@ + spec_digits(
        s.width as int,
    ) + "\n"@ + "height = "@ + spec_digits(s.height as int) + "\n"@ + "cpp = "@ + spec_digits(
        s.cpp as int,
    ) + "\n"@ + "wb_coeffs = "@ + s.wb_coeffs@ + "\n"@ + "whitelevels = "@ + spec_u64_list(
        s.whitelevels@,
    ) + "\n"@ + "blacklevels = "@ + spec_u64_list(s.blacklevels@) + "\n"@ + "xyz_to_cam = "@
        + s.xyz_to_cam@ + "\n"@ + "cfa = "@ + s.cfa@ + "\n"@ + "crops = "@ + spec_u64_list(s.crops@)
        + "\n"@ + "blackareas = "@ + spec_area_list(s.blackareas@) + "\n"@ + "orientation = "@
        + orientation_text(s.orientation)
}

/// What the verification phase compares against a golden record: a decode
/// failure renders as the empty text.
pub open spec fn rendering_of(d: Option<DecodedSummary>) -> Seq<char> {
    match d {
        Option::None => Seq::empty(),
        Option::Some(s) => spec_render_summary(s),
    }
}

impl DecodedSummary {
    /// Renders the summary, exactly as `spec_render_summary` states.
    pub fn render(&self) -> (r: String)
        ensures
            r@ == spec_render_summary(*self),
    {
        let mut out = "make = ".to_owned();
        out.append(self.make.as_str());
        out.append("\n");
        out.append("model = ");
        out.append(self.model.as_str());
        out.append("\n");
        out.append("width = ");
        let width = u64_to_string(self.width);
        out.append(width.as_str());
        out.append("\n");
        out.append("height = ");
        let height = u64_to_string(self.height);
        out.append(height.as_str());
        out.append("\n");
        out.append("cpp = ");
        let cpp = u64_to_string(self.cpp);
        out.append(cpp.as_str());
        out.append("\n");
        out.append("wb_coeffs = ");
        out.append(self.wb_coeffs.as_str());
        out.append("\n");
        out.append("whitelevels = ");
        let whitelevels = render_u64_list(&self.whitelevels);
        out.append(whitelevels.as_str());
        out.append("\n");
        out.append("blacklevels = ");
        let blacklevels = render_u64_list(&self.blacklevels);
        out.append(blacklevels.as_str());
        out.append("\n");
        out.append("xyz_to_cam = ");
        out.append(self.xyz_to_cam.as_str());
        out.append("\n");
        out.append("cfa = ");
        out.append(self.cfa.as_str());
        out.append("\n");
        out.append("crops = ");
        let crops = render_u64_list(&self.crops);
        out.append(crops.as_str());
        out.append("\n");
        out.append("blackareas = ");
        let blackareas = render_area_list(&self.blackareas);
        out.append(blackareas.as_str());
        out.append("\n");
        out.append("orientation = ");
        let orientation = render_orientation(&self.orientation);
        out.append(orientation.as_str());
        proof {
            assert(out@ =~= spec_render_summary(*self));
        }
        out
    }
}

/// Renders what is compared or written for a decode result: the summary's
/// rendering on success, the empty text on failure.
pub fn render_decode_result(d: &Option<DecodedSummary>) -> (r: String)
    ensures
        r@ == rendering_of(*d),
{
    match d {
        Option::None => String::new(),
        Option::Some(s) => s.render(),
    }
}

} // verus!
