//! Color space conversion: sRGB channel intensities to CIE Lab (D65).
//!
//! The conversion follows the standard chain sRGB -> linear RGB ->
//! CIE XYZ (D65 illuminant) -> CIE Lab, carried out in fixed-point integer
//! arithmetic.  A channel intensity in `0..=255` maps to a linear intensity
//! in millionths (`0..=1_000_000`), and the resulting Lab coordinates are
//! expressed in millionths of a Lab unit, so `l == 100_000_000` means
//! `L* == 100.0`.  The fractional powers of the transform (the 2.4 gamma
//! exponent and the cube root) are computed through exact integer roots.

use vstd::prelude::*;

verus! {

/// A point in CIE Lab space, each coordinate in millionths of a Lab unit.
#[derive(Clone, Copy, Debug, PartialEq, Eq, Structural)]
pub struct LabColor {
    /// Lightness L*, scaled by 1_000_000.
    pub l: i32,
    /// Green-red axis a*, scaled by 1_000_000.
    pub a: i32,
    /// Blue-yellow axis b*, scaled by 1_000_000.
    pub b: i32,
}

pub open spec fn pow3(r: int) -> int {
    r * r * r
}

pub open spec fn pow5(r: int) -> int {
    r * r * r * r * r
}

/// `r` is the integer cube root of `x`: the greatest `r` with `r^3 <= x`.
pub open spec fn is_root3(r: int, x: int) -> bool {
    0 <= r && pow3(r) <= x && x < pow3(r + 1)
}

/// `r` is the integer fifth root of `x`: the greatest `r` with `r^5 <= x`.
pub open spec fn is_root5(r: int, x: int) -> bool {
    0 <= r && pow5(r) <= x && x < pow5(r + 1)
}

pub open spec fn iroot3_spec(x: int) -> int {
    choose|r: int| is_root3(r, x)
}

pub open spec fn iroot5_spec(x: int) -> int {
    choose|r: int| is_root5(r, x)
}

pub proof fn lemma_pow3_monotonic(a: int, b: int)
    by (nonlinear_arith)
    requires
        0 <= a <= b,
    ensures
        pow3(a) <= pow3(b),
{
}

pub proof fn lemma_pow5_monotonic(a: int, b: int)
    by (nonlinear_arith)
    requires
        0 <= a <= b,
    ensures
        pow5(a) <= pow5(b),
{
}

/// At most one integer is the cube root of a given `x`.
pub proof fn lemma_root3_unique(a: int, b: int, x: int)
    requires
        is_root3(a, x),
        is_root3(b, x),
    ensures
        a == b,
{
    if a < b {
        lemma_pow3_monotonic(a + 1, b);
    }
    if b < a {
        lemma_pow3_monotonic(b + 1, a);
    }
}

/// At most one integer is the fifth root of a given `x`.
pub proof fn lemma_root5_unique(a: int, b: int, x: int)
    requires
        is_root5(a, x),
        is_root5(b, x),
    ensures
        a == b,
{
    if a < b {
        lemma_pow5_monotonic(a + 1, b);
    }
    if b < a {
        lemma_pow5_monotonic(b + 1, a);
    }
}

/// Integer cube root by binary search, for inputs up to 10^18.
pub fn iroot3(x: u128) -> (r: u64)
    requires
        x <= 1_000_000_000_000_000_000,
    ensures
        is_root3(r as int, x as int),
        r as int == iroot3_spec(x as int),
        r <= 1_000_000,
{
    let mut lo: u64 = 0;
    let mut hi: u64 = 1_000_001;
    assert(pow3(1_000_001) > 1_000_000_000_000_000_000);
    while lo + 1 < hi
        invariant
            lo < hi <= 1_000_001,
            x <= 1_000_000_000_000_000_000,
            pow3(lo as int) <= x as int,
            (x as int) < pow3(hi as int),
        decreases hi - lo,
    {
        let mid: u64 = lo + (hi - lo) / 2;
        let m: u128 = mid as u128;
        assert(m * m <= 1_100_000_000_000 && m * m * m <= 1_100_000_000_000_000_000_000)
            by (nonlinear_arith)
            requires
                m <= 1_000_001,
        ;
        let m3: u128 = m * m * m;
        if m3 <= x {
            lo = mid;
        } else {
            hi = mid;
        }
    }
    proof {
        assert(is_root3(lo as int, x as int));
        lemma_root3_unique(lo as int, iroot3_spec(x as int), x as int);
    }
    lo
}

/// Integer fifth root by binary search, for inputs up to 10^30.
pub fn iroot5(x: u128) -> (r: u64)
    requires
        x <= 1_000_000_000_000_000_000_000_000_000_000,
    ensures
        is_root5(r as int, x as int),
        r as int == iroot5_spec(x as int),
        r <= 1_000_000,
{
    let mut lo: u64 = 0;
    let mut hi: u64 = 1_000_001;
    assert(pow5(1_000_001) > 1_000_000_000_000_000_000_000_000_000_000);
    while lo + 1 < hi
        invariant
            lo < hi <= 1_000_001,
            x <= 1_000_000_000_000_000_000_000_000_000_000,
            pow5(lo as int) <= x as int,
            (x as int) < pow5(hi as int),
        decreases hi - lo,
    {
        let mid: u64 = lo + (hi - lo) / 2;
        let m: u128 = mid as u128;
        assert(m * m <= 1_100_000_000_000 && m * m * m <= 1_100_000_000_000_000_000_000
            && m * m * m * m <= 1_100_000_000_000_000_000_000_000_000
            && m * m * m * m * m <= 1_100_000_000_000_000_000_000_000_000_000_000)
            by (nonlinear_arith)
            requires
                m <= 1_000_001,
        ;
        let m5: u128 = m * m * m * m * m;
        if m5 <= x {
            lo = mid;
        } else {
            hi = mid;
        }
    }
    proof {
        assert(is_root5(lo as int, x as int));
        lemma_root5_unique(lo as int, iroot5_spec(x as int), x as int);
    }
    lo
}

/// Linear intensity, in millionths, of one sRGB channel intensity `c` in
/// `0..=255`: `c/255` is decoded through the piecewise sRGB transfer curve
/// (`x/12.92` below the low-light knee, `((x+0.055)/1.055)^2.4` above it).
/// The 2.4 power is computed as `s^2 * (s^2)^(1/5)` with an exact integer
/// fifth root.
pub open spec fn srgb_linear_spec(c: u8) -> int {
    let cs = (c as int) * 1_000_000 / 255;
    if c <= 10 {
        cs * 100 / 1292
    } else {
        let ss = (cs + 55_000) * 1000 / 1055;
        let u = ss * ss;
        u * iroot5_spec(u * 1_000_000_000_000_000_000) / 1_000_000_000_000
    }
}

pub fn srgb_linear(c: u8) -> (r: u64)
    ensures
        r as int == srgb_linear_spec(c),
        r <= 1_000_000,
{
    let cs: u64 = (c as u64) * 1_000_000 / 255;
    if c <= 10 {
        cs * 100 / 1292
    } else {
        let ss: u64 = (cs + 55_000) * 1000 / 1055;
        assert(ss * ss <= 1_000_000_000_000) by (nonlinear_arith)
            requires
                ss <= 1_000_000,
        ;
        let u: u64 = ss * ss;
        let r5: u64 = iroot5((u as u128) * 1_000_000_000_000_000_000);
        assert((u as int) * (r5 as int) <= 1_000_000_000_000_000_000) by (nonlinear_arith)
            requires
                u <= 1_000_000_000_000,
                r5 <= 1_000_000,
        ;
        let lin: u64 = (((u as u128) * (r5 as u128)) / 1_000_000_000_000) as u64;
        lin
    }
}

/// The Lab transfer function `f(t)` of the XYZ -> Lab step, over a
/// white-point-relative coordinate `t` in millionths: the cube root of `t`
/// above the 216/24389 knee, and the linear segment
/// `(t * 24389/27 + 16) / 116` below it, result again in millionths.
pub open spec fn lab_f_spec(t: int) -> int {
    if t > 8856 {
        iroot3_spec(t * 1_000_000_000_000)
    } else {
        (t * 24_389 / 27 + 16_000_000) / 116
    }
}

pub fn lab_f(t: u64) -> (f: u64)
    requires
        t <= 1_000_000,
    ensures
        f as int == lab_f_spec(t as int),
        f <= 1_000_000,
{
    if t > 8856 {
        let f: u64 = iroot3((t as u128) * 1_000_000_000_000);
        proof {
            if f > 1_000_000 {
                lemma_pow3_monotonic(1_000_001, f as int);
            }
        }
        f
    } else {
        (t * 24_389 / 27 + 16_000_000) / 116
    }
}

/// The full sRGB -> linear RGB -> CIE XYZ (D65) -> CIE Lab transform, as a
/// triple `(l, a, b)` in millionths of a Lab unit.  Total over all channel
/// triples; out-of-range colors are simply computed with.
#[verifier::opaque]
pub open spec fn rgb_to_lab_spec(r: u8, g: u8, b: u8) -> (int, int, int) {
    let rl = srgb_linear_spec(r);
    let gl = srgb_linear_spec(g);
    let bl = srgb_linear_spec(b);
    let xs = (4_124_564 * rl + 3_575_761 * gl + 1_804_375 * bl) / 10_000_000;
    let ys = (2_126_729 * rl + 7_151_522 * gl + 721_750 * bl) / 10_000_000;
    let zs = (193_339 * rl + 1_191_920 * gl + 9_503_041 * bl) / 10_000_000;
    let fx = lab_f_spec(xs * 1_000_000 / 950_470);
    let fy = lab_f_spec(ys);
    let fz = lab_f_spec(zs * 1_000_000 / 1_088_830);
    (116 * fy - 16_000_000, 500 * (fx - fy), 200 * (fy - fz))
}

/// The Color Space Converter: a pure, total function from one sRGB sample
/// to its Lab coordinate.
pub fn rgb_to_lab(r: u8, g: u8, b: u8) -> (lab: LabColor)
    ensures
        (lab.l as int, lab.a as int, lab.b as int) == rgb_to_lab_spec(r, g, b),
{
    proof {
        reveal(rgb_to_lab_spec);
    }
    let rl: u64 = srgb_linear(r);
    let gl: u64 = srgb_linear(g);
    let bl: u64 = srgb_linear(b);
    let xs: u64 = (4_124_564 * rl + 3_575_761 * gl + 1_804_375 * bl) / 10_000_000;
    let ys: u64 = (2_126_729 * rl + 7_151_522 * gl + 721_750 * bl) / 10_000_000;
    let zs: u64 = (193_339 * rl + 1_191_920 * gl + 9_503_041 * bl) / 10_000_000;
    let fx: u64 = lab_f(xs * 1_000_000 / 950_470);
    let fy: u64 = lab_f(ys);
    let fz: u64 = lab_f(zs * 1_000_000 / 1_088_830);
    let l: i64 = 116 * (fy as i64) - 16_000_000;
    let a: i64 = 500 * ((fx as i64) - (fy as i64));
    let bb: i64 = 200 * ((fy as i64) - (fz as i64));
    LabColor { l: l as i32, a: a as i32, b: bb as i32 }
}

} // verus!
