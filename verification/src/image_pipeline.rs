//! The image-side pipeline: the decoded image abstraction, pad-region
//! resolution and sampling, the per-brand layout registry, and the
//! estimation orchestrator.

use vstd::prelude::*;

use crate::chemistry::closest_value_spec;
use crate::chemistry::estimate_cya;
use crate::chemistry::estimate_free_chlorine;
use crate::chemistry::estimate_ph;
use crate::chemistry::estimate_total_alkalinity;
use crate::chemistry::hth_cya_palette;
use crate::chemistry::hth_fc_palette;
use crate::chemistry::hth_ph_palette;
use crate::chemistry::hth_ta_palette;
use crate::chemistry::lab_from;
use crate::chemistry::palette_for_param;
use crate::types::AnalysisResult;
use crate::types::Brand;
use crate::types::DecodeError;
use crate::types::PadRegion;
use crate::types::Parameter;
use crate::types::PixelRect;

verus! {

/// A decoded image: `width * height` pixels in row-major order, three
/// interleaved RGB samples per pixel.
pub struct ImageGrid {
    pub width: u32,
    pub height: u32,
    pub pixels: Vec<u8>,
}

/// The mathematical view of a decoded image.
pub ghost struct GridView {
    pub width: u32,
    pub height: u32,
    pub pixels: Seq<u8>,
}

impl View for ImageGrid {
    type V = GridView;

    open spec fn view(&self) -> GridView {
        GridView { width: self.width, height: self.height, pixels: self.pixels@ }
    }
}

/// A well-formed image holds exactly three samples per pixel.
pub open spec fn grid_wf(g: GridView) -> bool {
    g.pixels.len() == 3 * (g.width as int) * (g.height as int)
}

impl ImageGrid {
    /// Construct an image grid from raw interleaved RGB samples.
    pub fn new(width: u32, height: u32, pixels: Vec<u8>) -> (g: Self)
        requires
            pixels@.len() == 3 * (width as int) * (height as int),
        ensures
            g@ == (GridView { width, height, pixels: pixels@ }),
            grid_wf(g@),
    {
        ImageGrid { width, height, pixels }
    }
}

/// The channel `c` (0 red, 1 green, 2 blue) of the pixel at `(x, y)`.
pub open spec fn channel_at(g: GridView, x: int, y: int, c: int) -> u8 {
    g.pixels[3 * (y * (g.width as int) + x) + c]
}

/// Sum of channel `c` over one pixel row `y`, columns `x0 <= x < x1`.
pub open spec fn row_sum(g: GridView, y: int, x0: int, x1: int, c: int) -> int
    decreases x1 - x0,
{
    if x1 <= x0 {
        0
    } else {
        row_sum(g, y, x0, x1 - 1, c) + channel_at(g, x1 - 1, y, c)
    }
}

/// Sum of channel `c` over the window `[x0, x1) x [y0, y1)`.
pub open spec fn rect_sum(g: GridView, x0: int, x1: int, y0: int, y1: int, c: int) -> int
    decreases y1 - y0,
{
    if y1 <= y0 {
        0
    } else {
        rect_sum(g, x0, x1, y0, y1 - 1, c) + row_sum(g, y1 - 1, x0, x1, c)
    }
}

proof fn lemma_row_sum_bounds(g: GridView, y: int, x0: int, x1: int, c: int)
    ensures
        0 <= row_sum(g, y, x0, x1, c) <= 255 * (if x1 >= x0 { x1 - x0 } else { 0 }),
    decreases x1 - x0,
{
    if x1 > x0 {
        lemma_row_sum_bounds(g, y, x0, x1 - 1, c);
    }
}

proof fn lemma_rect_sum_bounds(g: GridView, x0: int, x1: int, y0: int, y1: int, c: int)
    ensures
        0 <= rect_sum(g, x0, x1, y0, y1, c) <= 255 * (if x1 >= x0 { x1 - x0 } else { 0 }) * (if y1
            >= y0 { y1 - y0 } else { 0 }),
    decreases y1 - y0,
{
    let xlen = if x1 >= x0 { x1 - x0 } else { 0 };
    if y1 > y0 {
        lemma_rect_sum_bounds(g, x0, x1, y0, y1 - 1, c);
        lemma_row_sum_bounds(g, y1 - 1, x0, x1, c);
        assert(255 * xlen * (y1 - 1 - y0) + 255 * xlen == 255 * xlen * (y1 - y0))
            by (nonlinear_arith);
    } else {
        assert(255 * xlen * 0 == 0) by (nonlinear_arith);
    }
}

/// The first column past the clipped window of `r` in `g`.
pub open spec fn clipped_x_end(g: GridView, r: PixelRect) -> int {
    vstd::math::min(r.x + r.width, g.width as int)
}

/// The first row past the clipped window of `r` in `g`.
pub open spec fn clipped_y_end(g: GridView, r: PixelRect) -> int {
    vstd::math::min(r.y + r.height, g.height as int)
}

/// How many pixels of `r` lie inside the bounds of `g`.
pub open spec fn region_count(g: GridView, r: PixelRect) -> int {
    let xlen = vstd::math::max(0, clipped_x_end(g, r) - r.x);
    let ylen = vstd::math::max(0, clipped_y_end(g, r) - r.y);
    xlen * ylen
}

/// The Pad Region Sampler's result: the arithmetic mean (integer floor) of
/// each channel over the in-bounds pixels of `r`, or `(0, 0, 0)` when no
/// pixel of `r` is in bounds — the deliberate safe default for degenerate
/// or fully out-of-bounds regions.
pub open spec fn sample_avg_spec(g: GridView, r: PixelRect) -> (u8, u8, u8) {
    let n = region_count(g, r);
    if n == 0 {
        (0u8, 0u8, 0u8)
    } else {
        (
            (rect_sum(g, r.x as int, clipped_x_end(g, r), r.y as int, clipped_y_end(g, r), 0)
                / n) as u8,
            (rect_sum(g, r.x as int, clipped_x_end(g, r), r.y as int, clipped_y_end(g, r), 1)
                / n) as u8,
            (rect_sum(g, r.x as int, clipped_x_end(g, r), r.y as int, clipped_y_end(g, r), 2)
                / n) as u8,
        )
    }
}

proof fn lemma_u32_mul_fits_u64(a: int, b: int)
    by (nonlinear_arith)
    requires
        0 <= a < 0x1_0000_0000,
        0 <= b < 0x1_0000_0000,
    ensures
        0 <= a * b < 0x1_0000_0000_0000_0000,
{
}

proof fn lemma_pixel_index_in_bounds(x: int, y: int, w: int, h: int)
    by (nonlinear_arith)
    requires
        0 <= x < w,
        0 <= y < h,
    ensures
        0 <= 3 * (y * w + x),
        3 * (y * w + x) + 2 < 3 * w * h,
{
}

/// Average the color channels of `img` over the window of `rect` clipped
/// to the image bounds, never reading outside them; `(0, 0, 0)` when the
/// clipped window is empty.
pub fn sample_region_avg_rgb(img: &ImageGrid, rect: &PixelRect) -> (rgb: (u8, u8, u8))
    requires
        grid_wf(img@),
    ensures
        rgb == sample_avg_spec(img@, *rect),
        region_count(img@, *rect) == 0 ==> rgb == (0u8, 0u8, 0u8),
{
    let w: u32 = img.width;
    let h: u32 = img.height;
    let xs: u32 = rect.x;
    let ys: u32 = rect.y;
    let xe64: u64 = rect.x as u64 + rect.width as u64;
    let xe: u32 = if xe64 > w as u64 {
        w
    } else {
        xe64 as u32
    };
    let ye64: u64 = rect.y as u64 + rect.height as u64;
    let ye: u32 = if ye64 > h as u64 {
        h
    } else {
        ye64 as u32
    };
    assert(xe as int == clipped_x_end(img@, *rect));
    assert(ye as int == clipped_y_end(img@, *rect));
    if xs >= xe || ys >= ye {
        assert(region_count(img@, *rect) == 0) by {
            let xlen = vstd::math::max(0, clipped_x_end(img@, *rect) - rect.x);
            let ylen = vstd::math::max(0, clipped_y_end(img@, *rect) - rect.y);
            assert(xlen == 0 || ylen == 0);
            assert(xlen * ylen == 0) by (nonlinear_arith)
                requires
                    xlen == 0 || ylen == 0,
            ;
        }
        return (0u8, 0u8, 0u8);
    }
    let mut sr: u128 = 0;
    let mut sg: u128 = 0;
    let mut sb: u128 = 0;
    for y in ys..ye
        invariant
            grid_wf(img@),
            w == img@.width,
            h == img@.height,
            xs == rect.x,
            ys == rect.y,
            xs < xe,
            ys < ye,
            xe as int == clipped_x_end(img@, *rect),
            ye as int == clipped_y_end(img@, *rect),
            xe <= w,
            ye <= h,
            sr as int == rect_sum(img@, xs as int, xe as int, ys as int, y as int, 0),
            sg as int == rect_sum(img@, xs as int, xe as int, ys as int, y as int, 1),
            sb as int == rect_sum(img@, xs as int, xe as int, ys as int, y as int, 2),
    {
        let mut rr: u128 = sr;
        let mut rg: u128 = sg;
        let mut rb: u128 = sb;
        for x in xs..xe
            invariant
                grid_wf(img@),
                w == img@.width,
                h == img@.height,
                xs < xe <= w,
                ys <= y < ye <= h,
                rr as int == rect_sum(img@, xs as int, xe as int, ys as int, y as int, 0)
                    + row_sum(img@, y as int, xs as int, x as int, 0),
                rg as int == rect_sum(img@, xs as int, xe as int, ys as int, y as int, 1)
                    + row_sum(img@, y as int, xs as int, x as int, 1),
                rb as int == rect_sum(img@, xs as int, xe as int, ys as int, y as int, 2)
                    + row_sum(img@, y as int, xs as int, x as int, 2),
        {
            proof {
                lemma_u32_mul_fits_u64(y as int, w as int);
                lemma_pixel_index_in_bounds(x as int, y as int, w as int, h as int);
                lemma_rect_sum_bounds(img@, xs as int, xe as int, ys as int, y as int, 0);
                lemma_rect_sum_bounds(img@, xs as int, xe as int, ys as int, y as int, 1);
                lemma_rect_sum_bounds(img@, xs as int, xe as int, ys as int, y as int, 2);
                lemma_row_sum_bounds(img@, y as int, xs as int, x as int, 0);
                lemma_row_sum_bounds(img@, y as int, xs as int, x as int, 1);
                lemma_row_sum_bounds(img@, y as int, xs as int, x as int, 2);
                assert(255 * ((xe - xs) as int) * ((y - ys) as int)
                    <= 0x10_0000_0000_0000_0000_0000) by (nonlinear_arith)
                    requires
                        0 <= ((xe - xs) as int) < 0x1_0000_0000,
                        0 <= ((y - ys) as int) < 0x1_0000_0000,
                ;
            }
            let base: u128 = 3 * ((y as u128) * (w as u128) + (x as u128));
            let plen: usize = img.pixels.len();
            proof {
                assert(base as int == 3 * ((y as int) * (w as int) + (x as int)));
                assert(base as int + 2 < plen as int);
                assert(((base + 2) as usize) as int == base as int + 2);
            }
            let pr: u8 = img.pixels[base as usize];
            let pg: u8 = img.pixels[(base + 1) as usize];
            let pb: u8 = img.pixels[(base + 2) as usize];
            proof {
                assert(pr == channel_at(img@, x as int, y as int, 0));
                assert(pg == channel_at(img@, x as int, y as int, 1));
                assert(pb == channel_at(img@, x as int, y as int, 2));
            }
            rr = rr + pr as u128;
            rg = rg + pg as u128;
            rb = rb + pb as u128;
        }
        sr = rr;
        sg = rg;
        sb = rb;
    }
    proof {
        lemma_u32_mul_fits_u64((xe - xs) as int, (ye - ys) as int);
    }
    let count: u128 = ((xe - xs) as u128) * ((ye - ys) as u128);
    proof {
        let g = img@;
        let x0 = xs as int;
        let x1 = xe as int;
        let y0 = ys as int;
        let y1 = ye as int;
        assert(region_count(g, *rect) == (x1 - x0) * (y1 - y0));
        assert((x1 - x0) * (y1 - y0) > 0) by (nonlinear_arith)
            requires
                x0 < x1,
                y0 < y1,
        ;
        lemma_rect_sum_bounds(g, x0, x1, y0, y1, 0);
        lemma_rect_sum_bounds(g, x0, x1, y0, y1, 1);
        lemma_rect_sum_bounds(g, x0, x1, y0, y1, 2);
        assert(255 * (x1 - x0) * (y1 - y0) == 255 * ((x1 - x0) * (y1 - y0)))
            by (nonlinear_arith);
        let n = (x1 - x0) * (y1 - y0);
        assert(0 <= (sr as int) / n <= 255 && 0 <= (sg as int) / n <= 255 && 0 <= (sb as int) / n
            <= 255) by (nonlinear_arith)
            requires
                n > 0,
                0 <= sr as int <= 255 * n,
                0 <= sg as int <= 255 * n,
                0 <= sb as int <= 255 * n,
        ;
    }
    let mr: u8 = (sr / count) as u8;
    let mg: u8 = (sg / count) as u8;
    let mb: u8 = (sb / count) as u8;
    (mr, mg, mb)
}

/// Resolve a region descriptor against the image dimensions: an absolute
/// rectangle stands as it is, and fractional bounds become
/// `floor(ratio * dimension)` pixel bounds, capped at the dimension.
pub open spec fn resolve_region_spec(reg: PadRegion, w: u32, h: u32) -> PixelRect {
    match reg {
        PadRegion::AbsolutePixels { x, y, width, height } => PixelRect { x, y, width, height },
        PadRegion::FractionalBounds { x_start_pm, x_end_pm, y_start_pm, y_end_pm } => {
            let xs = vstd::math::min((w as int) * (x_start_pm as int) / 1000, w as int);
            let xe = vstd::math::min((w as int) * (x_end_pm as int) / 1000, w as int);
            let ys = vstd::math::min((h as int) * (y_start_pm as int) / 1000, h as int);
            let ye = vstd::math::min((h as int) * (y_end_pm as int) / 1000, h as int);
            PixelRect {
                x: xs as u32,
                y: ys as u32,
                width: (if xe > xs { xe - xs } else { 0 }) as u32,
                height: (if ye > ys { ye - ys } else { 0 }) as u32,
            }
        },
    }
}

pub fn resolve_region(reg: &PadRegion, w: u32, h: u32) -> (r: PixelRect)
    ensures
        r == resolve_region_spec(*reg, w, h),
{
    match *reg {
        PadRegion::AbsolutePixels { x, y, width, height } => PixelRect { x, y, width, height },
        PadRegion::FractionalBounds { x_start_pm, x_end_pm, y_start_pm, y_end_pm } => {
            proof {
                lemma_u32_mul_fits_u64(w as int, x_start_pm as int);
                lemma_u32_mul_fits_u64(w as int, x_end_pm as int);
                lemma_u32_mul_fits_u64(h as int, y_start_pm as int);
                lemma_u32_mul_fits_u64(h as int, y_end_pm as int);
            }
            let xs64: u64 = (w as u64) * (x_start_pm as u64) / 1000;
            let xs: u32 = if xs64 > w as u64 { w } else { xs64 as u32 };
            let xe64: u64 = (w as u64) * (x_end_pm as u64) / 1000;
            let xe: u32 = if xe64 > w as u64 { w } else { xe64 as u32 };
            let ys64: u64 = (h as u64) * (y_start_pm as u64) / 1000;
            let ys: u32 = if ys64 > h as u64 { h } else { ys64 as u32 };
            let ye64: u64 = (h as u64) * (y_end_pm as u64) / 1000;
            let ye: u32 = if ye64 > h as u64 { h } else { ye64 as u32 };
            PixelRect {
                x: xs,
                y: ys,
                width: if xe > xs { xe - xs } else { 0 },
                height: if ye > ys { ye - ys } else { 0 },
            }
        },
    }
}

/// What the external decode service yields for a byte string: the
/// dimensions and raw interleaved RGB samples of the decoded picture, or
/// nothing when the bytes are not a decodable image.  Decoding is a
/// function of the bytes alone.
pub uninterp spec fn decoded_rgb8(bytes: Seq<u8>) -> Option<(u32, u32, Seq<u8>)>;

/// Relies on the image crate: `ImageReader::new` over an in-memory cursor
/// with `with_guessed_format` and `decode`, which turn a byte string into a
/// picture deterministically, and on `DynamicImage::to_rgb8` /
/// `ImageBuffer::dimensions` / `ImageBuffer::into_raw`, whose raw buffer
/// holds exactly `3 * width * height` interleaved RGB samples.
#[verifier::external_body]
fn decode_rgb8(bytes: &[u8]) -> (r: Result<(u32, u32, Vec<u8>), DecodeError>)
    ensures
        r is Ok <==> decoded_rgb8(bytes@) is Some,
        r matches Ok(t) ==> decoded_rgb8(bytes@) == Some((t.0, t.1, t.2@)) && t.2@.len() == 3 * (
        t.0 as int) * (t.1 as int),
{
    let reader = match image::ImageReader::new(std::io::Cursor::new(bytes)).with_guessed_format() {
        Ok(rd) => rd,
        Err(e) => return Err(DecodeError { message: e.to_string() }),
    };
    match reader.decode() {
        Ok(img) => {
            let buf = img.to_rgb8();
            let (w, h) = buf.dimensions();
            Ok((w, h, buf.into_raw()))
        },
        Err(e) => Err(DecodeError { message: e.to_string() }),
    }
}

/// The image the decode service yields, as a grid view; the empty grid
/// for undecodable bytes.
pub open spec fn grid_of_decode(d: Option<(u32, u32, Seq<u8>)>) -> GridView {
    match d {
        Some(t) => GridView { width: t.0, height: t.1, pixels: t.2 },
        None => GridView { width: 0, height: 0, pixels: Seq::empty() },
    }
}

/// Decode raw request bytes into an image grid, or report malformed bytes
/// as a [`DecodeError`].
pub fn load_image_from_bytes(bytes: &[u8]) -> (r: Result<ImageGrid, DecodeError>)
    ensures
        r is Ok <==> decoded_rgb8(bytes@) is Some,
        r matches Ok(g) ==> g@ == grid_of_decode(decoded_rgb8(bytes@)) && grid_wf(g@),
{
    match decode_rgb8(bytes) {
        Ok((w, h, raw)) => Ok(ImageGrid::new(w, h, raw)),
        Err(e) => Err(e),
    }
}

/// The Strip Localizer interface: a decoded photograph in, a
/// perspective-corrected strip image out, consumed upstream of the
/// sampler.  The current localizer is an identity passthrough; a future
/// component satisfying this contract-shape may crop and warp.
pub fn find_strip_and_warp(img: ImageGrid) -> (r: ImageGrid)
    ensures
        r@ == img@,
{
    img
}

/// The Brand Layout Registry: each brand's ordered list of
/// (parameter, pad region) pairs, pads stacked vertically at
/// brand-specific fractional offsets down the photographed strip.
pub open spec fn layout_spec(brand: Brand) -> Seq<(Parameter, PadRegion)> {
    match brand {
        Brand::Hth6Way => seq![
            (Parameter::FreeChlorine, PadRegion::FractionalBounds {
                x_start_pm: 450, x_end_pm: 550, y_start_pm: 200, y_end_pm: 300 }),
            (Parameter::Ph, PadRegion::FractionalBounds {
                x_start_pm: 450, x_end_pm: 550, y_start_pm: 320, y_end_pm: 420 }),
            (Parameter::TotalAlkalinity, PadRegion::FractionalBounds {
                x_start_pm: 450, x_end_pm: 550, y_start_pm: 440, y_end_pm: 540 }),
            (Parameter::CyanuricAcid, PadRegion::FractionalBounds {
                x_start_pm: 450, x_end_pm: 550, y_start_pm: 560, y_end_pm: 660 }),
        ],
        Brand::Clorox6Way => seq![
            (Parameter::FreeChlorine, PadRegion::FractionalBounds {
                x_start_pm: 450, x_end_pm: 550, y_start_pm: 180, y_end_pm: 280 }),
            (Parameter::Ph, PadRegion::FractionalBounds {
                x_start_pm: 450, x_end_pm: 550, y_start_pm: 300, y_end_pm: 400 }),
            (Parameter::TotalAlkalinity, PadRegion::FractionalBounds {
                x_start_pm: 450, x_end_pm: 550, y_start_pm: 420, y_end_pm: 520 }),
            (Parameter::CyanuricAcid, PadRegion::FractionalBounds {
                x_start_pm: 450, x_end_pm: 550, y_start_pm: 540, y_end_pm: 640 }),
        ],
        Brand::AquaChek7Way => seq![
            (Parameter::FreeChlorine, PadRegion::FractionalBounds {
                x_start_pm: 450, x_end_pm: 550, y_start_pm: 160, y_end_pm: 260 }),
            (Parameter::TotalChlorine, PadRegion::FractionalBounds {
                x_start_pm: 450, x_end_pm: 550, y_start_pm: 260, y_end_pm: 360 }),
            (Parameter::Ph, PadRegion::FractionalBounds {
                x_start_pm: 450, x_end_pm: 550, y_start_pm: 360, y_end_pm: 460 }),
            (Parameter::TotalAlkalinity, PadRegion::FractionalBounds {
                x_start_pm: 450, x_end_pm: 550, y_start_pm: 460, y_end_pm: 560 }),
            (Parameter::CyanuricAcid, PadRegion::FractionalBounds {
                x_start_pm: 450, x_end_pm: 550, y_start_pm: 560, y_end_pm: 660 }),
        ],
    }
}

/// Return a brand's ordered pad layout.
pub fn pad_regions_for_brand(brand: Brand) -> (v: Vec<(Parameter, PadRegion)>)
    ensures
        v@ == layout_spec(brand),
{
    let v = match brand {
        Brand::Hth6Way => vec![
            (Parameter::FreeChlorine, PadRegion::FractionalBounds {
                x_start_pm: 450, x_end_pm: 550, y_start_pm: 200, y_end_pm: 300 }),
            (Parameter::Ph, PadRegion::FractionalBounds {
                x_start_pm: 450, x_end_pm: 550, y_start_pm: 320, y_end_pm: 420 }),
            (Parameter::TotalAlkalinity, PadRegion::FractionalBounds {
                x_start_pm: 450, x_end_pm: 550, y_start_pm: 440, y_end_pm: 540 }),
            (Parameter::CyanuricAcid, PadRegion::FractionalBounds {
                x_start_pm: 450, x_end_pm: 550, y_start_pm: 560, y_end_pm: 660 }),
        ],
        Brand::Clorox6Way => vec![
            (Parameter::FreeChlorine, PadRegion::FractionalBounds {
                x_start_pm: 450, x_end_pm: 550, y_start_pm: 180, y_end_pm: 280 }),
            (Parameter::Ph, PadRegion::FractionalBounds {
                x_start_pm: 450, x_end_pm: 550, y_start_pm: 300, y_end_pm: 400 }),
            (Parameter::TotalAlkalinity, PadRegion::FractionalBounds {
                x_start_pm: 450, x_end_pm: 550, y_start_pm: 420, y_end_pm: 520 }),
            (Parameter::CyanuricAcid, PadRegion::FractionalBounds {
                x_start_pm: 450, x_end_pm: 550, y_start_pm: 540, y_end_pm: 640 }),
        ],
        Brand::AquaChek7Way => vec![
            (Parameter::FreeChlorine, PadRegion::FractionalBounds {
                x_start_pm: 450, x_end_pm: 550, y_start_pm: 160, y_end_pm: 260 }),
            (Parameter::TotalChlorine, PadRegion::FractionalBounds {
                x_start_pm: 450, x_end_pm: 550, y_start_pm: 260, y_end_pm: 360 }),
            (Parameter::Ph, PadRegion::FractionalBounds {
                x_start_pm: 450, x_end_pm: 550, y_start_pm: 360, y_end_pm: 460 }),
            (Parameter::TotalAlkalinity, PadRegion::FractionalBounds {
                x_start_pm: 450, x_end_pm: 550, y_start_pm: 460, y_end_pm: 560 }),
            (Parameter::CyanuricAcid, PadRegion::FractionalBounds {
                x_start_pm: 450, x_end_pm: 550, y_start_pm: 560, y_end_pm: 660 }),
        ],
    };
    proof {
        assert(v@ =~= layout_spec(brand));
    }
    v
}

/// The value one pad yields: its region sampled, converted to Lab, and
/// matched against the parameter's palette.
pub open spec fn pad_value(g: GridView, brand: Brand, p: Parameter, reg: PadRegion) -> u32 {
    let rgb = sample_avg_spec(g, resolve_region_spec(reg, g.width, g.height));
    closest_value_spec(palette_for_param(brand, p), lab_from(rgb.0, rgb.1, rgb.2))
}

/// The estimate for parameter `p` after the first `n` layout pads have
/// been processed: the value of the last pad tagged `p`, if any.
pub open spec fn param_estimate(
    g: GridView,
    brand: Brand,
    layout: Seq<(Parameter, PadRegion)>,
    p: Parameter,
    n: int,
) -> Option<u32>
    decreases n,
{
    if n <= 0 {
        None
    } else if layout[n - 1].0 == p {
        Some(pad_value(g, brand, p, layout[n - 1].1))
    } else {
        param_estimate(g, brand, layout, p, n - 1)
    }
}

pub open spec fn value_or(o: Option<u32>, d: u32) -> u32 {
    match o {
        Some(v) => v,
        None => d,
    }
}

/// The notes of one analysis: one note for each reported parameter the
/// layout left unmatched, then the advisory on an out-of-band pH.
pub open spec fn notes_spec(
    g: GridView,
    brand: Brand,
    layout: Seq<(Parameter, PadRegion)>,
) -> Seq<Seq<char>> {
    let n = layout.len() as int;
    let fc = param_estimate(g, brand, layout, Parameter::FreeChlorine, n);
    let ph = param_estimate(g, brand, layout, Parameter::Ph, n);
    let ta = param_estimate(g, brand, layout, Parameter::TotalAlkalinity, n);
    let cya = param_estimate(g, brand, layout, Parameter::CyanuricAcid, n);
    let phv = value_or(ph, 72);
    let s0 = Seq::<Seq<char>>::empty();
    let s1 = if fc is None { s0.push("Could not determine value for free_chlorine"@) } else { s0 };
    let s2 = if ph is None { s1.push("Could not determine value for ph"@) } else { s1 };
    let s3 = if ta is None { s2.push("Could not determine value for total_alkalinity"@) } else {
        s2
    };
    let s4 = if cya is None { s3.push("Could not determine value for cyanuric_acid"@) } else {
        s3
    };
    if phv > 76 {
        s4.push("pH is high. Consider adding acid."@)
    } else if phv < 72 {
        s4.push("pH is low. Consider adding base."@)
    } else {
        s4
    }
}

/// `r` is exactly the analysis of image `g` under `brand` and `layout`:
/// each reported field is the estimate of the last pad tagged with its
/// parameter, or the documented fallback (free chlorine 0.0 ppm, pH 7.2,
/// total alkalinity 80.0 ppm, cyanuric acid 0.0 ppm) when the layout has
/// no such pad, and the notes are exactly [`notes_spec`].
pub open spec fn analysis_matches(
    r: AnalysisResult,
    g: GridView,
    brand: Brand,
    layout: Seq<(Parameter, PadRegion)>,
) -> bool {
    let n = layout.len() as int;
    &&& r.free_chlorine_ppm == value_or(
        param_estimate(g, brand, layout, Parameter::FreeChlorine, n),
        0,
    )
    &&& r.ph == value_or(param_estimate(g, brand, layout, Parameter::Ph, n), 72)
    &&& r.total_alkalinity_ppm == value_or(
        param_estimate(g, brand, layout, Parameter::TotalAlkalinity, n),
        800,
    )
    &&& r.cyanuric_acid_ppm == value_or(
        param_estimate(g, brand, layout, Parameter::CyanuricAcid, n),
        0,
    )
    &&& r.notes.deep_view() == notes_spec(g, brand, layout)
}

fn push_note(notes: &mut Vec<String>, s: &str)
    ensures
        final(notes).deep_view() == old(notes).deep_view().push(s@),
{
    let t = String::from_str(s);
    notes.push(t);
    proof {
        assert(notes.deep_view() =~= old(notes).deep_view().push(s@));
    }
}

/// The Estimation Orchestrator over an explicit layout: sample every pad,
/// convert, match, and aggregate, with the documented fallbacks and notes
/// for parameters the layout does not cover.
pub fn analyze_with_layout(
    img: &ImageGrid,
    brand: Brand,
    layout: &Vec<(Parameter, PadRegion)>,
) -> (r: AnalysisResult)
    requires
        grid_wf(img@),
    ensures
        analysis_matches(r, img@, brand, layout@),
{
    let n: usize = layout.len();
    let mut fc: Option<u32> = None;
    let mut ph: Option<u32> = None;
    let mut ta: Option<u32> = None;
    let mut cya: Option<u32> = None;
    for i in 0..n
        invariant
            grid_wf(img@),
            n == layout@.len(),
            fc == param_estimate(img@, brand, layout@, Parameter::FreeChlorine, i as int),
            ph == param_estimate(img@, brand, layout@, Parameter::Ph, i as int),
            ta == param_estimate(img@, brand, layout@, Parameter::TotalAlkalinity, i as int),
            cya == param_estimate(img@, brand, layout@, Parameter::CyanuricAcid, i as int),
    {
        let (p, reg) = layout[i];
        let rect = resolve_region(&reg, img.width, img.height);
        let rgb = sample_region_avg_rgb(img, &rect);
        match p {
            Parameter::FreeChlorine => {
                fc = Some(estimate_free_chlorine(brand, rgb));
            },
            Parameter::Ph => {
                ph = Some(estimate_ph(brand, rgb));
            },
            Parameter::TotalAlkalinity => {
                ta = Some(estimate_total_alkalinity(brand, rgb));
            },
            Parameter::CyanuricAcid => {
                cya = Some(estimate_cya(brand, rgb));
            },
            _ => {},
        }
    }
    let fcv: u32 = match fc {
        Some(v) => v,
        None => 0,
    };
    let phv: u32 = match ph {
        Some(v) => v,
        None => 72,
    };
    let tav: u32 = match ta {
        Some(v) => v,
        None => 800,
    };
    let cyav: u32 = match cya {
        Some(v) => v,
        None => 0,
    };
    let mut notes: Vec<String> = Vec::new();
    if fc.is_none() {
        push_note(&mut notes, "Could not determine value for free_chlorine");
    }
    if ph.is_none() {
        push_note(&mut notes, "Could not determine value for ph");
    }
    if ta.is_none() {
        push_note(&mut notes, "Could not determine value for total_alkalinity");
    }
    if cya.is_none() {
        push_note(&mut notes, "Could not determine value for cyanuric_acid");
    }
    if phv > 76 {
        push_note(&mut notes, "pH is high. Consider adding acid.");
    } else if phv < 72 {
        push_note(&mut notes, "pH is low. Consider adding base.");
    }
    proof {
        assert(notes.deep_view() =~= notes_spec(img@, brand, layout@));
    }
    AnalysisResult {
        free_chlorine_ppm: fcv,
        ph: phv,
        total_alkalinity_ppm: tav,
        cyanuric_acid_ppm: cyav,
        notes,
    }
}

/// The Estimation Orchestrator: analyze a decoded image under a brand's
/// registered layout.
pub fn analyze_image(img: &ImageGrid, brand: Brand) -> (r: AnalysisResult)
    requires
        grid_wf(img@),
    ensures
        analysis_matches(r, img@, brand, layout_spec(brand)),
{
    let layout = pad_regions_for_brand(brand);
    analyze_with_layout(img, brand, &layout)
}

/// Decode raw image bytes and analyze them under a brand's layout.  The
/// result is `Ok` exactly when the bytes decode, and then holds the
/// analysis of the decoded picture.
pub fn process_image_for_brand(bytes: &[u8], brand: Brand) -> (r: Result<
    AnalysisResult,
    DecodeError,
>)
    ensures
        r is Ok <==> decoded_rgb8(bytes@) is Some,
        r matches Ok(ar) ==> analysis_matches(
            ar,
            grid_of_decode(decoded_rgb8(bytes@)),
            brand,
            layout_spec(brand),
        ),
{
    match load_image_from_bytes(bytes) {
        Ok(img) => {
            let strip = find_strip_and_warp(img);
            Ok(analyze_image(&strip, brand))
        },
        Err(e) => Err(e),
    }
}

/// The startup configuration check: every pad of every brand's layout
/// whose parameter the analysis reports has a non-empty calibration
/// palette.  Verification proves the check can only return `true`; a
/// caller still runs it once at startup, before serving requests.
#[verifier::rlimit(60)]
pub fn validate_configuration() -> (ok: bool)
    ensures
        ok,
{
    let brands = vec![Brand::Hth6Way, Brand::Clorox6Way, Brand::AquaChek7Way];
    let fc_ok: bool = hth_fc_palette().len() > 0;
    let ph_ok: bool = hth_ph_palette().len() > 0;
    let ta_ok: bool = hth_ta_palette().len() > 0;
    let cya_ok: bool = hth_cya_palette().len() > 0;
    let mut ok = true;
    let nb: usize = brands.len();
    for bi in 0..nb
        invariant
            ok,
            fc_ok && ph_ok && ta_ok && cya_ok,
            nb == brands@.len(),
    {
        let layout = pad_regions_for_brand(brands[bi]);
        let np: usize = layout.len();
        for i in 0..np
            invariant
                ok,
                fc_ok && ph_ok && ta_ok && cya_ok,
                np == layout@.len(),
        {
            let (p, _reg) = layout[i];
            let good = match p {
                Parameter::FreeChlorine => fc_ok,
                Parameter::Ph => ph_ok,
                Parameter::TotalAlkalinity => ta_ok,
                Parameter::CyanuricAcid => cya_ok,
                // parameters the analysis does not report need no palette
                _ => true,
            };
            ok = ok && good;
        }
    }
    ok
}

} // verus!
