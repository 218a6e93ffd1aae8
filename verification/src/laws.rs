//! The library's stated laws, proved over the same specifications its
//! public contracts use.

use vstd::prelude::*;

use crate::chemistry::best_index;
use crate::chemistry::cie76_sq_spec;
use crate::chemistry::closest_value_spec;
use crate::chemistry::is_reported;
use crate::chemistry::lemma_best_index_is_first_nearest;
use crate::chemistry::lemma_cie76_sq_nonneg;
use crate::chemistry::lemma_cie76_sq_zero;
use crate::chemistry::palette_for_param;
use crate::chemistry::RefColor;
use crate::image_pipeline::analysis_matches;
use crate::image_pipeline::clipped_x_end;
use crate::image_pipeline::clipped_y_end;
use crate::image_pipeline::layout_spec;
use crate::image_pipeline::region_count;
use crate::image_pipeline::sample_avg_spec;
use crate::image_pipeline::GridView;
use crate::types::AnalysisResult;
use crate::types::Brand;
use crate::types::PadRegion;
use crate::types::Parameter;
use crate::types::PixelRect;

verus! {

/// Determinism: an analysis result is a function of the image, the brand
/// and the layout alone, so any two results of the same analysis agree in
/// every field, bit for bit.
pub proof fn lemma_analysis_deterministic(
    r1: AnalysisResult,
    r2: AnalysisResult,
    g: GridView,
    brand: Brand,
    layout: Seq<(Parameter, PadRegion)>,
)
    requires
        analysis_matches(r1, g, brand, layout),
        analysis_matches(r2, g, brand, layout),
    ensures
        r1.free_chlorine_ppm == r2.free_chlorine_ppm,
        r1.ph == r2.ph,
        r1.total_alkalinity_ppm == r2.total_alkalinity_ppm,
        r1.cyanuric_acid_ppm == r2.cyanuric_acid_ppm,
        r1.notes.deep_view() == r2.notes.deep_view(),
{
}

proof fn lemma_best_index_stays(palette: Seq<RefColor>, i: int, n: int)
    requires
        0 <= i < palette.len(),
        i + 1 <= n <= palette.len(),
        forall|j: int| 0 <= j < i ==> (#[trigger] palette[j]).lab != palette[i].lab,
    ensures
        best_index(palette, palette[i].lab, n) == i,
    decreases n,
{
    let s = palette[i].lab;
    lemma_cie76_sq_zero(s, s);
    if n == i + 1 {
        if i > 0 {
            let prev = best_index(palette, s, i);
            lemma_best_index_is_first_nearest(palette, s, i);
            lemma_cie76_sq_zero(palette[prev].lab, s);
            lemma_cie76_sq_nonneg(palette[prev].lab, s);
        }
    } else {
        lemma_best_index_stays(palette, i, n - 1);
        lemma_cie76_sq_nonneg(palette[n - 1].lab, s);
    }
}

/// Round trip through the matcher: matching a reference point's own color
/// against its palette returns exactly that reference's value, at
/// distance zero, whenever no earlier entry carries the identical color.
/// (With a duplicated color, the matcher's stable tie-break keeps the
/// first entry instead.)
pub proof fn lemma_reference_self_match(palette: Seq<RefColor>, i: int)
    requires
        0 <= i < palette.len(),
        forall|j: int| 0 <= j < i ==> (#[trigger] palette[j]).lab != palette[i].lab,
    ensures
        closest_value_spec(palette, palette[i].lab) == palette[i].value,
        cie76_sq_spec(
            palette[best_index(palette, palette[i].lab, palette.len() as int)].lab,
            palette[i].lab,
        ) == 0,
{
    lemma_best_index_stays(palette, i, palette.len() as int);
    lemma_cie76_sq_zero(palette[i].lab, palette[i].lab);
}

/// Sampler boundary: a region that lies fully outside `[0, W) x [0, H)`,
/// or is degenerate, covers no in-bounds pixel and samples the zero
/// color.  (That the sampler never reads outside the pixel buffer holds
/// of every region: it is part of its verification.)
pub proof fn lemma_sampler_fully_outside(g: GridView, r: PixelRect)
    requires
        r.x >= g.width || r.y >= g.height || r.width == 0 || r.height == 0,
    ensures
        region_count(g, r) == 0,
        sample_avg_spec(g, r) == (0u8, 0u8, 0u8),
{
    let xlen = vstd::math::max(0, clipped_x_end(g, r) - r.x);
    let ylen = vstd::math::max(0, clipped_y_end(g, r) - r.y);
    assert(xlen == 0 || ylen == 0);
    assert(xlen * ylen == 0) by (nonlinear_arith)
        requires
            xlen == 0 || ylen == 0,
    ;
}

/// The largest sub-window of `r` that lies inside the bounds of `g`.
pub open spec fn clipped_rect(g: GridView, r: PixelRect) -> PixelRect {
    PixelRect {
        x: r.x,
        y: r.y,
        width: vstd::math::max(0, clipped_x_end(g, r) - r.x) as u32,
        height: vstd::math::max(0, clipped_y_end(g, r) - r.y) as u32,
    }
}

/// Sampler clipping: a region partially outside the image bounds is
/// averaged only over its in-bounds pixels — sampling it is sampling its
/// clipped sub-window.
pub proof fn lemma_sampler_clips(g: GridView, r: PixelRect)
    ensures
        region_count(g, clipped_rect(g, r)) == region_count(g, r),
        sample_avg_spec(g, clipped_rect(g, r)) == sample_avg_spec(g, r),
{
    let c = clipped_rect(g, r);
    if r.x < clipped_x_end(g, r) && r.y < clipped_y_end(g, r) {
        assert(c.x + c.width == clipped_x_end(g, r));
        assert(c.y + c.height == clipped_y_end(g, r));
        assert(clipped_x_end(g, c) == clipped_x_end(g, r));
        assert(clipped_y_end(g, c) == clipped_y_end(g, r));
    } else {
        lemma_sampler_zero_width(g, r, c);
    }
}

proof fn lemma_sampler_zero_width(g: GridView, r: PixelRect, c: PixelRect)
    requires
        c == clipped_rect(g, r),
        r.x >= clipped_x_end(g, r) || r.y >= clipped_y_end(g, r),
    ensures
        region_count(g, r) == 0,
        region_count(g, c) == 0,
        sample_avg_spec(g, c) == sample_avg_spec(g, r),
{
    if r.x >= clipped_x_end(g, r) {
        assert(c.width == 0);
    } else {
        assert(c.height == 0);
    }
    lemma_sampler_fully_outside(g, c);
    let xlen = vstd::math::max(0, clipped_x_end(g, r) - r.x);
    let ylen = vstd::math::max(0, clipped_y_end(g, r) - r.y);
    assert(xlen == 0 || ylen == 0);
    assert(xlen * ylen == 0) by (nonlinear_arith)
        requires
            xlen == 0 || ylen == 0,
    ;
}

/// Layout completeness: every pad of every brand's layout whose parameter
/// the analysis reports is matched against a non-empty palette.  (The
/// layout may also name parameters the analysis does not report, such as
/// total chlorine; their pads are skipped and need no palette.)
pub proof fn lemma_layout_parameters_have_palettes(brand: Brand)
    ensures
        forall|i: int| 0 <= i < layout_spec(brand).len() ==> (is_reported(
            (#[trigger] layout_spec(brand)[i]).0,
        ) ==> palette_for_param(brand, layout_spec(brand)[i].0).len() > 0),
{
    assert(palette_for_param(brand, Parameter::FreeChlorine).len() == 5);
    assert(palette_for_param(brand, Parameter::Ph).len() == 5);
    assert(palette_for_param(brand, Parameter::TotalAlkalinity).len() == 5);
    assert(palette_for_param(brand, Parameter::CyanuricAcid).len() == 4);
}

} // verus!
