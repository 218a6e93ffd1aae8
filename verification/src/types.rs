//! Core data model: brands, chemical parameters, pad regions, and the
//! terminal analysis record.

use vstd::prelude::*;

verus! {

/// Closed enumeration of supported test-strip products.  A brand selects a
/// pad layout; extending support means adding a variant together with its
/// layout data.
#[derive(Clone, Copy, Debug, PartialEq, Eq, Structural)]
pub enum Brand {
    Hth6Way,
    Clorox6Way,
    AquaChek7Way,
}

/// Closed enumeration of measurable chemical properties.  A parameter is
/// the join key between a pad region and its calibration palette.
#[derive(Clone, Copy, Debug, PartialEq, Eq, Structural)]
pub enum Parameter {
    FreeChlorine,
    TotalChlorine,
    Ph,
    TotalAlkalinity,
    CyanuricAcid,
    Hardness,
    Bromine,
}

/// One rectangular sampling window on the strip photograph, in one of two
/// shapes: an absolute pixel rectangle, or resolution-independent
/// fractional bounds in per-mille of the image dimensions.  Both shapes
/// are resolved to a [`PixelRect`] before sampling.
#[derive(Clone, Copy, Debug, PartialEq, Eq, Structural)]
pub enum PadRegion {
    AbsolutePixels { x: u32, y: u32, width: u32, height: u32 },
    FractionalBounds { x_start_pm: u32, x_end_pm: u32, y_start_pm: u32, y_end_pm: u32 },
}

/// The canonical pixel rectangle every region resolves to: the window
/// `[x, x+width) x [y, y+height)`, prior to clipping against the image.
#[derive(Clone, Copy, Debug, PartialEq, Eq, Structural)]
pub struct PixelRect {
    pub x: u32,
    pub y: u32,
    pub width: u32,
    pub height: u32,
}

/// The terminal, immutable output of one analysis.  The four chemical
/// fields are fixed-point values in tenths of their reporting unit: a
/// `ph` of `72` means pH 7.2, a `free_chlorine_ppm` of `30` means 3.0 ppm.
#[derive(Debug)]
pub struct AnalysisResult {
    pub free_chlorine_ppm: u32,
    pub ph: u32,
    pub total_alkalinity_ppm: u32,
    pub cyanuric_acid_ppm: u32,
    pub notes: Vec<String>,
}

/// Malformed image bytes: the decode service rejected the request body.
#[derive(Debug)]
pub struct DecodeError {
    pub message: String,
}

/// The upper-case form of an ASCII lower-case letter; any other character
/// maps to itself.
pub open spec fn upper_of(c: char) -> char {
    if c == 'a' { 'A' } else if c == 'b' { 'B' } else if c == 'c' { 'C' }
    else if c == 'd' { 'D' } else if c == 'e' { 'E' } else if c == 'f' { 'F' }
    else if c == 'g' { 'G' } else if c == 'h' { 'H' } else if c == 'i' { 'I' }
    else if c == 'j' { 'J' } else if c == 'k' { 'K' } else if c == 'l' { 'L' }
    else if c == 'm' { 'M' } else if c == 'n' { 'N' } else if c == 'o' { 'O' }
    else if c == 'p' { 'P' } else if c == 'q' { 'Q' } else if c == 'r' { 'R' }
    else if c == 's' { 'S' } else if c == 't' { 'T' } else if c == 'u' { 'U' }
    else if c == 'v' { 'V' } else if c == 'w' { 'W' } else if c == 'x' { 'X' }
    else if c == 'y' { 'Y' } else if c == 'z' { 'Z' } else { c }
}

pub fn upper_char(c: char) -> (r: char)
    ensures
        r == upper_of(c),
{
    if c == 'a' { 'A' } else if c == 'b' { 'B' } else if c == 'c' { 'C' }
    else if c == 'd' { 'D' } else if c == 'e' { 'E' } else if c == 'f' { 'F' }
    else if c == 'g' { 'G' } else if c == 'h' { 'H' } else if c == 'i' { 'I' }
    else if c == 'j' { 'J' } else if c == 'k' { 'K' } else if c == 'l' { 'L' }
    else if c == 'm' { 'M' } else if c == 'n' { 'N' } else if c == 'o' { 'O' }
    else if c == 'p' { 'P' } else if c == 'q' { 'Q' } else if c == 'r' { 'R' }
    else if c == 's' { 'S' } else if c == 't' { 'T' } else if c == 'u' { 'U' }
    else if c == 'v' { 'V' } else if c == 'w' { 'W' } else if c == 'x' { 'X' }
    else if c == 'y' { 'Y' } else if c == 'z' { 'Z' } else { c }
}

/// `c` equals the expected lower-case character `lowc`, up to ASCII case.
pub open spec fn eq_ci(c: char, lowc: char) -> bool {
    c == lowc || c == upper_of(lowc)
}

/// `s` spells the lower-case identifier `id`, up to ASCII case.
pub open spec fn matches_ci(s: Seq<char>, id: Seq<char>) -> bool {
    s.len() == id.len() && forall|i: int| 0 <= i < s.len() ==> eq_ci(s[i], id[i])
}

/// Case-insensitive comparison of `s` against a lower-case identifier.
pub fn str_eq_ci(s: &str, id: &str) -> (r: bool)
    ensures
        r == matches_ci(s@, id@),
{
    let n: usize = s.unicode_len();
    let m: usize = id.unicode_len();
    if n != m {
        return false;
    }
    for i in 0..n
        invariant
            n == s@.len(),
            n == id@.len(),
            forall|j: int| 0 <= j < i ==> eq_ci(s@[j], id@[j]),
    {
        let c = s.get_char(i);
        let t = id.get_char(i);
        if !(c == t || c == upper_char(t)) {
            assert(!eq_ci(s@[i as int], id@[i as int]));
            return false;
        }
    }
    true
}

/// The brand an identifier string selects.  Identifiers are matched
/// case-insensitively; an absent or unrecognized identifier selects the
/// documented default, [`Brand::Hth6Way`].
pub open spec fn brand_from_identifier_spec(s: Option<Seq<char>>) -> Brand {
    match s {
        Option::None => Brand::Hth6Way,
        Option::Some(cs) => {
            if matches_ci(cs, "hth6way"@) {
                Brand::Hth6Way
            } else if matches_ci(cs, "clorox6way"@) {
                Brand::Clorox6Way
            } else if matches_ci(cs, "aquachek7way"@) {
                Brand::AquaChek7Way
            } else {
                Brand::Hth6Way
            }
        },
    }
}

/// Select the brand named by an optional identifier, with
/// [`Brand::Hth6Way`] as the default for an absent or unrecognized one.
pub fn brand_from_identifier(s: Option<&str>) -> (b: Brand)
    ensures
        s is None ==> b == Brand::Hth6Way,
        forall|t: &str| s == Option::Some(t) ==> b == brand_from_identifier_spec(
            Option::Some(t@),
        ),
{
    match s {
        Option::None => Brand::Hth6Way,
        Option::Some(t) => {
            if str_eq_ci(t, "hth6way") {
                Brand::Hth6Way
            } else if str_eq_ci(t, "clorox6way") {
                Brand::Clorox6Way
            } else if str_eq_ci(t, "aquachek7way") {
                Brand::AquaChek7Way
            } else {
                Brand::Hth6Way
            }
        },
    }
}

} // verus!
