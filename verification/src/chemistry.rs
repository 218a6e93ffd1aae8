//! Calibration palettes and the nearest-reference color matcher.
//!
//! A palette is a non-empty ordered list of reference points pairing a
//! known chemical value (in tenths of its reporting unit) with the Lab
//! color a pad exhibits at that value.  A sample is mapped to the value of
//! the reference point at minimal CIE76 distance; ties keep the first
//! minimal point in palette order.  No interpolation between the two
//! nearest points is performed, so estimates are quantized to the discrete
//! calibration points — a deliberate, documented bound on accuracy.

use vstd::prelude::*;

use crate::color::LabColor;
use crate::color::rgb_to_lab;
use crate::types::Parameter;
use crate::color::rgb_to_lab_spec;
use crate::types::Brand;

verus! {

/// One calibration point: the color a pad shows at a known value,
/// `value` in tenths of the parameter's reporting unit.
#[derive(Clone, Copy, Debug, PartialEq, Eq, Structural)]
pub struct RefColor {
    pub lab: LabColor,
    pub value: u32,
}

/// The squared CIE76 color difference `dL^2 + da^2 + db^2`.  The square
/// root of the usual metric is omitted: it is monotone, so the nearest
/// reference point under the squared distance is the nearest under CIE76.
pub open spec fn cie76_sq_spec(c1: LabColor, c2: LabColor) -> int {
    let dl = c1.l - c2.l;
    let da = c1.a - c2.a;
    let db = c1.b - c2.b;
    dl * dl + da * da + db * db
}

pub fn cie76_sq(c1: &LabColor, c2: &LabColor) -> (d: i128)
    ensures
        d as int == cie76_sq_spec(*c1, *c2),
{
    let dl: i128 = (c1.l as i128) - (c2.l as i128);
    let da: i128 = (c1.a as i128) - (c2.a as i128);
    let db: i128 = (c1.b as i128) - (c2.b as i128);
    assert(dl * dl <= 0x10000000000000000 && da * da <= 0x10000000000000000
        && db * db <= 0x10000000000000000 && dl * dl >= 0 && da * da >= 0 && db * db >= 0)
        by (nonlinear_arith)
        requires
            -0x100000000 <= dl <= 0x100000000,
            -0x100000000 <= da <= 0x100000000,
            -0x100000000 <= db <= 0x100000000,
    ;
    dl * dl + da * da + db * db
}

/// A squared color difference is never negative.
pub proof fn lemma_cie76_sq_nonneg(c1: LabColor, c2: LabColor)
    ensures
        cie76_sq_spec(c1, c2) >= 0,
{
    let dl = c1.l - c2.l;
    let da = c1.a - c2.a;
    let db = c1.b - c2.b;
    assert(dl * dl >= 0 && da * da >= 0 && db * db >= 0) by (nonlinear_arith);
}

/// A squared color difference is zero exactly when the two colors are
/// identical.
pub proof fn lemma_cie76_sq_zero(c1: LabColor, c2: LabColor)
    ensures
        cie76_sq_spec(c1, c2) == 0 <==> c1 == c2,
{
    let dl = c1.l - c2.l;
    let da = c1.a - c2.a;
    let db = c1.b - c2.b;
    assert(dl * dl >= 0 && da * da >= 0 && db * db >= 0) by (nonlinear_arith);
    if cie76_sq_spec(c1, c2) == 0 {
        assert(dl * dl == 0 && da * da == 0 && db * db == 0);
        assert(dl == 0 && da == 0 && db == 0) by (nonlinear_arith)
            requires
                dl * dl == 0 && da * da == 0 && db * db == 0,
        ;
    }
    if c1 == c2 {
        assert(dl == 0 && da == 0 && db == 0);
        assert(dl * dl == 0 && da * da == 0 && db * db == 0) by (nonlinear_arith)
            requires
                dl == 0 && da == 0 && db == 0,
        ;
    }
}

/// The index of the reference point nearest to `sample` among the first
/// `n` palette entries, keeping the earliest index on ties: exactly the
/// running best of a scan in palette order with a strict improvement test.
pub open spec fn best_index(palette: Seq<RefColor>, sample: LabColor, n: int) -> int
    decreases n,
{
    if n <= 1 {
        0
    } else {
        let prev = best_index(palette, sample, n - 1);
        if cie76_sq_spec(palette[n - 1].lab, sample) < cie76_sq_spec(palette[prev].lab, sample) {
            n - 1
        } else {
            prev
        }
    }
}

/// The value the matcher returns for `sample` against `palette`.
pub open spec fn closest_value_spec(palette: Seq<RefColor>, sample: LabColor) -> u32 {
    palette[best_index(palette, sample, palette.len() as int)].value
}

/// `i` is the first index of minimal distance to `sample`: no entry is
/// strictly nearer, and every earlier entry is strictly farther.
pub open spec fn is_first_nearest(palette: Seq<RefColor>, sample: LabColor, i: int) -> bool {
    &&& 0 <= i < palette.len()
    &&& forall|j: int| 0 <= j < palette.len() ==> cie76_sq_spec(palette[i].lab, sample)
        <= cie76_sq_spec(#[trigger] palette[j].lab, sample)
    &&& forall|j: int| 0 <= j < i ==> cie76_sq_spec(palette[i].lab, sample)
        < cie76_sq_spec(#[trigger] palette[j].lab, sample)
}

/// The running best of the palette scan is the first nearest reference
/// point: the matcher's tie-break is deterministic and stable.
pub proof fn lemma_best_index_is_first_nearest(palette: Seq<RefColor>, sample: LabColor, n: int)
    requires
        1 <= n <= palette.len(),
    ensures
        0 <= best_index(palette, sample, n) < n,
        forall|j: int| 0 <= j < n ==> cie76_sq_spec(
            palette[best_index(palette, sample, n)].lab, sample)
            <= cie76_sq_spec(#[trigger] palette[j].lab, sample),
        forall|j: int| 0 <= j < best_index(palette, sample, n) ==> cie76_sq_spec(
            palette[best_index(palette, sample, n)].lab, sample)
            < cie76_sq_spec(#[trigger] palette[j].lab, sample),
    decreases n,
{
    if n > 1 {
        lemma_best_index_is_first_nearest(palette, sample, n - 1);
    }
}

/// The Nearest-Reference Matcher: the value of the reference point that
/// minimizes the CIE76 distance to `sample`, the first such point on
/// ties.  A palette must be non-empty; an empty one is a configuration
/// error, never a per-request condition.
pub fn closest_value(sample: &LabColor, palette: &Vec<RefColor>) -> (v: u32)
    requires
        palette@.len() >= 1,
    ensures
        v == closest_value_spec(palette@, *sample),
        is_first_nearest(palette@, *sample, best_index(palette@, *sample, palette@.len() as int)),
{
    let mut best: u32 = palette[0].value;
    let mut best_dist: i128 = cie76_sq(&palette[0].lab, sample);
    let mut best_at: usize = 0;
    let n: usize = palette.len();
    for i in 1..n
        invariant
            1 <= i <= n,
            n == palette@.len(),
            best_at < i,
            best_at as int == best_index(palette@, *sample, i as int),
            best == palette@[best_at as int].value,
            best_dist as int == cie76_sq_spec(palette@[best_at as int].lab, *sample),
    {
        let d: i128 = cie76_sq(&palette[i].lab, sample);
        if d < best_dist {
            best_dist = d;
            best = palette[i].value;
            best_at = i;
        }
    }
    proof {
        lemma_best_index_is_first_nearest(palette@, *sample, palette@.len() as int);
    }
    best
}

/// Shorthand for the Lab coordinate of an sRGB triple, as a [`LabColor`].
pub open spec fn lab_from(r: u8, g: u8, b: u8) -> LabColor {
    let (l, a, bb) = rgb_to_lab_spec(r, g, b);
    LabColor { l: l as i32, a: a as i32, b: bb as i32 }
}

/// The free-chlorine palette, values in tenths of a ppm.
pub open spec fn hth_fc_palette_spec() -> Seq<RefColor> {
    seq![
        RefColor { lab: lab_from(240, 240, 210), value: 0 },
        RefColor { lab: lab_from(230, 230, 140), value: 10 },
        RefColor { lab: lab_from(220, 220, 90), value: 30 },
        RefColor { lab: lab_from(210, 210, 60), value: 50 },
        RefColor { lab: lab_from(200, 200, 30), value: 100 },
    ]
}

/// The pH palette, values in tenths of a pH unit: `72` is pH 7.2.
pub open spec fn hth_ph_palette_spec() -> Seq<RefColor> {
    seq![
        RefColor { lab: lab_from(255, 220, 170), value: 68 },
        RefColor { lab: lab_from(255, 180, 160), value: 72 },
        RefColor { lab: lab_from(255, 140, 150), value: 75 },
        RefColor { lab: lab_from(255, 100, 140), value: 78 },
        RefColor { lab: lab_from(255, 60, 130), value: 84 },
    ]
}

/// The total-alkalinity palette, values in tenths of a ppm.
pub open spec fn hth_ta_palette_spec() -> Seq<RefColor> {
    seq![
        RefColor { lab: lab_from(220, 240, 170), value: 0 },
        RefColor { lab: lab_from(200, 230, 140), value: 400 },
        RefColor { lab: lab_from(180, 220, 110), value: 800 },
        RefColor { lab: lab_from(160, 210, 80), value: 1200 },
        RefColor { lab: lab_from(140, 200, 60), value: 1800 },
    ]
}

/// The cyanuric-acid palette, values in tenths of a ppm.
pub open spec fn hth_cya_palette_spec() -> Seq<RefColor> {
    seq![
        RefColor { lab: lab_from(255, 230, 190), value: 0 },
        RefColor { lab: lab_from(255, 200, 150), value: 300 },
        RefColor { lab: lab_from(255, 170, 120), value: 500 },
        RefColor { lab: lab_from(255, 140, 90), value: 1000 },
    ]
}

pub fn hth_fc_palette() -> (p: Vec<RefColor>)
    ensures
        p@ == hth_fc_palette_spec(),
{
    let p = vec![
        RefColor { lab: rgb_to_lab(240, 240, 210), value: 0 },
        RefColor { lab: rgb_to_lab(230, 230, 140), value: 10 },
        RefColor { lab: rgb_to_lab(220, 220, 90), value: 30 },
        RefColor { lab: rgb_to_lab(210, 210, 60), value: 50 },
        RefColor { lab: rgb_to_lab(200, 200, 30), value: 100 },
    ];
    assert(p@ =~= hth_fc_palette_spec());
    p
}

pub fn hth_ph_palette() -> (p: Vec<RefColor>)
    ensures
        p@ == hth_ph_palette_spec(),
{
    let p = vec![
        RefColor { lab: rgb_to_lab(255, 220, 170), value: 68 },
        RefColor { lab: rgb_to_lab(255, 180, 160), value: 72 },
        RefColor { lab: rgb_to_lab(255, 140, 150), value: 75 },
        RefColor { lab: rgb_to_lab(255, 100, 140), value: 78 },
        RefColor { lab: rgb_to_lab(255, 60, 130), value: 84 },
    ];
    assert(p@ =~= hth_ph_palette_spec());
    p
}

pub fn hth_ta_palette() -> (p: Vec<RefColor>)
    ensures
        p@ == hth_ta_palette_spec(),
{
    let p = vec![
        RefColor { lab: rgb_to_lab(220, 240, 170), value: 0 },
        RefColor { lab: rgb_to_lab(200, 230, 140), value: 400 },
        RefColor { lab: rgb_to_lab(180, 220, 110), value: 800 },
        RefColor { lab: rgb_to_lab(160, 210, 80), value: 1200 },
        RefColor { lab: rgb_to_lab(140, 200, 60), value: 1800 },
    ];
    assert(p@ =~= hth_ta_palette_spec());
    p
}

pub fn hth_cya_palette() -> (p: Vec<RefColor>)
    ensures
        p@ == hth_cya_palette_spec(),
{
    let p = vec![
        RefColor { lab: rgb_to_lab(255, 230, 190), value: 0 },
        RefColor { lab: rgb_to_lab(255, 200, 150), value: 300 },
        RefColor { lab: rgb_to_lab(255, 170, 120), value: 500 },
        RefColor { lab: rgb_to_lab(255, 140, 90), value: 1000 },
    ];
    assert(p@ =~= hth_cya_palette_spec());
    p
}

/// The free-chlorine palette a brand's pads are matched against.  Every
/// brand currently shares the same hand-authored set — a documented gap:
/// a hardened design would calibrate palettes per brand.
pub open spec fn fc_palette_for(brand: Brand) -> Seq<RefColor> {
    hth_fc_palette_spec()
}

pub open spec fn ph_palette_for(brand: Brand) -> Seq<RefColor> {
    hth_ph_palette_spec()
}

pub open spec fn ta_palette_for(brand: Brand) -> Seq<RefColor> {
    hth_ta_palette_spec()
}

pub open spec fn cya_palette_for(brand: Brand) -> Seq<RefColor> {
    hth_cya_palette_spec()
}

/// The parameters the analysis reports as fields of the result record.
pub open spec fn is_reported(p: Parameter) -> bool {
    ||| p == Parameter::FreeChlorine
    ||| p == Parameter::Ph
    ||| p == Parameter::TotalAlkalinity
    ||| p == Parameter::CyanuricAcid
}

/// The palette a parameter's pads are matched against, for parameters the
/// analysis reports.  Parameters without calibration data map to the
/// empty sequence: their pads are never matched.
pub open spec fn palette_for_param(brand: Brand, p: Parameter) -> Seq<RefColor> {
    match p {
        Parameter::FreeChlorine => fc_palette_for(brand),
        Parameter::Ph => ph_palette_for(brand),
        Parameter::TotalAlkalinity => ta_palette_for(brand),
        Parameter::CyanuricAcid => cya_palette_for(brand),
        _ => Seq::empty(),
    }
}

/// Estimate free chlorine (tenths of a ppm) from one averaged pad color.
pub fn estimate_free_chlorine(brand: Brand, rgb: (u8, u8, u8)) -> (v: u32)
    ensures
        v == closest_value_spec(fc_palette_for(brand), lab_from(rgb.0, rgb.1, rgb.2)),
{
    let palette = match brand {
        Brand::Hth6Way | Brand::Clorox6Way | Brand::AquaChek7Way => hth_fc_palette(),
    };
    let sample = rgb_to_lab(rgb.0, rgb.1, rgb.2);
    closest_value(&sample, &palette)
}

/// Estimate pH (tenths of a pH unit) from one averaged pad color.
pub fn estimate_ph(brand: Brand, rgb: (u8, u8, u8)) -> (v: u32)
    ensures
        v == closest_value_spec(ph_palette_for(brand), lab_from(rgb.0, rgb.1, rgb.2)),
{
    let palette = match brand {
        Brand::Hth6Way | Brand::Clorox6Way | Brand::AquaChek7Way => hth_ph_palette(),
    };
    let sample = rgb_to_lab(rgb.0, rgb.1, rgb.2);
    closest_value(&sample, &palette)
}

/// Estimate total alkalinity (tenths of a ppm) from one averaged pad color.
pub fn estimate_total_alkalinity(brand: Brand, rgb: (u8, u8, u8)) -> (v: u32)
    ensures
        v == closest_value_spec(ta_palette_for(brand), lab_from(rgb.0, rgb.1, rgb.2)),
{
    let palette = match brand {
        Brand::Hth6Way | Brand::Clorox6Way | Brand::AquaChek7Way => hth_ta_palette(),
    };
    let sample = rgb_to_lab(rgb.0, rgb.1, rgb.2);
    closest_value(&sample, &palette)
}

/// Estimate cyanuric acid (tenths of a ppm) from one averaged pad color.
pub fn estimate_cya(brand: Brand, rgb: (u8, u8, u8)) -> (v: u32)
    ensures
        v == closest_value_spec(cya_palette_for(brand), lab_from(rgb.0, rgb.1, rgb.2)),
{
    let palette = match brand {
        Brand::Hth6Way | Brand::Clorox6Way | Brand::AquaChek7Way => hth_cya_palette(),
    };
    let sample = rgb_to_lab(rgb.0, rgb.1, rgb.2);
    closest_value(&sample, &palette)
}

} // verus!
