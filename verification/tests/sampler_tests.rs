use poolstrip::image_pipeline::{resolve_region, sample_region_avg_rgb, ImageGrid};
use poolstrip::types::{PadRegion, PixelRect};

fn uniform_grid(w: u32, h: u32, rgb: (u8, u8, u8)) -> ImageGrid {
    let mut pixels: Vec<u8> = Vec::with_capacity((3 * w * h) as usize);
    for _ in 0..(w * h) {
        pixels.push(rgb.0);
        pixels.push(rgb.1);
        pixels.push(rgb.2);
    }
    ImageGrid::new(w, h, pixels)
}

#[test]
fn sampler_fully_outside_region_yields_zero() {
    let img = uniform_grid(4, 4, (200, 100, 50));
    let right_of = PixelRect { x: 10, y: 0, width: 2, height: 2 };
    assert_eq!(sample_region_avg_rgb(&img, &right_of), (0, 0, 0));
    let below = PixelRect { x: 0, y: 4, width: 2, height: 2 };
    assert_eq!(sample_region_avg_rgb(&img, &below), (0, 0, 0));
    let degenerate = PixelRect { x: 1, y: 1, width: 0, height: 3 };
    assert_eq!(sample_region_avg_rgb(&img, &degenerate), (0, 0, 0));
}

#[test]
fn sampler_on_empty_image_yields_zero() {
    let img = ImageGrid::new(0, 0, Vec::new());
    let r = PixelRect { x: 0, y: 0, width: 5, height: 5 };
    assert_eq!(sample_region_avg_rgb(&img, &r), (0, 0, 0));
}

#[test]
fn sampler_clips_partially_outside_region() {
    // A 4x4 uniform image: a region extending two pixels past the right
    // edge averages the same as the clipped 2x4 sub-window.
    let img = uniform_grid(4, 4, (90, 180, 15));
    let overshoot = PixelRect { x: 2, y: 0, width: 4, height: 4 };
    let clipped = PixelRect { x: 2, y: 0, width: 2, height: 4 };
    assert_eq!(sample_region_avg_rgb(&img, &overshoot), (90, 180, 15));
    assert_eq!(
        sample_region_avg_rgb(&img, &overshoot),
        sample_region_avg_rgb(&img, &clipped)
    );
}

#[test]
fn sampler_averages_only_in_bounds_pixels() {
    // 2x2 image with red channels 0, 10, 20, 30: a region overshooting
    // both edges still averages exactly the four in-bounds pixels.
    let pixels = vec![
        0, 0, 0, //
        10, 0, 0, //
        20, 0, 0, //
        30, 0, 0,
    ];
    let img = ImageGrid::new(2, 2, pixels);
    let r = PixelRect { x: 0, y: 0, width: 5, height: 7 };
    assert_eq!(sample_region_avg_rgb(&img, &r), (15, 0, 0));
}

#[test]
fn sampler_mean_rounds_down() {
    // Red channels 1, 2, 2: mean 5/3 floors to 1.
    let pixels = vec![1, 0, 0, 2, 0, 0, 2, 0, 0];
    let img = ImageGrid::new(3, 1, pixels);
    let r = PixelRect { x: 0, y: 0, width: 3, height: 1 };
    assert_eq!(sample_region_avg_rgb(&img, &r), (1, 0, 0));
}

#[test]
fn resolve_fractional_bounds_floors_ratios() {
    let reg = PadRegion::FractionalBounds {
        x_start_pm: 450,
        x_end_pm: 550,
        y_start_pm: 200,
        y_end_pm: 300,
    };
    let rect = resolve_region(&reg, 100, 100);
    assert_eq!(rect, PixelRect { x: 45, y: 20, width: 10, height: 10 });
    // Floors, not rounds: 333 per mille of 10 pixels is 3.
    let thirds = PadRegion::FractionalBounds {
        x_start_pm: 333,
        x_end_pm: 667,
        y_start_pm: 0,
        y_end_pm: 1000,
    };
    let rect2 = resolve_region(&thirds, 10, 10);
    assert_eq!(rect2, PixelRect { x: 3, y: 0, width: 3, height: 10 });
}

#[test]
fn resolve_caps_ratios_at_the_dimension() {
    let reg = PadRegion::FractionalBounds {
        x_start_pm: 900,
        x_end_pm: 1500,
        y_start_pm: 0,
        y_end_pm: 2000,
    };
    let rect = resolve_region(&reg, 10, 10);
    assert_eq!(rect, PixelRect { x: 9, y: 0, width: 1, height: 10 });
}

#[test]
fn resolve_absolute_pixels_passes_through() {
    let reg = PadRegion::AbsolutePixels { x: 7, y: 8, width: 9, height: 10 };
    let rect = resolve_region(&reg, 100, 100);
    assert_eq!(rect, PixelRect { x: 7, y: 8, width: 9, height: 10 });
}

#[test]
fn absolute_region_samples_like_any_other() {
    let img = uniform_grid(8, 8, (42, 43, 44));
    let rect = resolve_region(&PadRegion::AbsolutePixels { x: 2, y: 2, width: 3, height: 3 }, 8, 8);
    assert_eq!(sample_region_avg_rgb(&img, &rect), (42, 43, 44));
}

#[test]
fn strip_localizer_is_an_identity_passthrough() {
    let img = uniform_grid(5, 4, (9, 8, 7));
    let warped = poolstrip::image_pipeline::find_strip_and_warp(img);
    assert_eq!(warped.width, 5);
    assert_eq!(warped.height, 4);
    assert_eq!(warped.pixels.len(), 60);
    assert!(warped.pixels.iter().enumerate().all(|(i, &v)| v == [9u8, 8, 7][i % 3]));
}
