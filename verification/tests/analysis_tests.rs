use poolstrip::chemistry::{estimate_cya, estimate_total_alkalinity};
use poolstrip::image_pipeline::{
    analyze_image, analyze_with_layout, load_image_from_bytes, pad_regions_for_brand,
    process_image_for_brand, validate_configuration, ImageGrid,
};
use poolstrip::types::{brand_from_identifier, Brand, PadRegion, Parameter};

fn uniform_grid(w: u32, h: u32, rgb: (u8, u8, u8)) -> ImageGrid {
    let mut pixels: Vec<u8> = Vec::with_capacity((3 * w * h) as usize);
    for _ in 0..(w * h) {
        pixels.push(rgb.0);
        pixels.push(rgb.1);
        pixels.push(rgb.2);
    }
    ImageGrid::new(w, h, pixels)
}

fn paint_patch(img: &mut ImageGrid, x0: u32, y0: u32, w: u32, h: u32, rgb: (u8, u8, u8)) {
    for y in y0..(y0 + h) {
        for x in x0..(x0 + w) {
            let base = (3 * (y * img.width + x)) as usize;
            img.pixels[base] = rgb.0;
            img.pixels[base + 1] = rgb.1;
            img.pixels[base + 2] = rgb.2;
        }
    }
}

#[test]
fn end_to_end_yellow_patch_reads_free_chlorine() {
    // A 100x100 photograph whose background shows the pH 7.2 reference
    // color, with a uniform 10x10 yellow patch exactly over the default
    // brand's free-chlorine pad (x 45..55, y 20..30).
    let mut img = uniform_grid(100, 100, (255, 180, 160));
    paint_patch(&mut img, 45, 20, 10, 10, (220, 220, 90));
    let brand = brand_from_identifier(None);
    assert_eq!(brand, Brand::Hth6Way);
    let r = analyze_image(&img, brand);
    // The patch matches the 3.0 ppm yellow reference exactly.
    assert_eq!(r.free_chlorine_ppm, 30);
    // The pH pad reads the 7.2 reference background.
    assert_eq!(r.ph, 72);
    // Remaining pads read the background color; their values agree with
    // the estimators on that color.
    assert_eq!(r.total_alkalinity_ppm, estimate_total_alkalinity(brand, (255, 180, 160)));
    assert_eq!(r.cyanuric_acid_ppm, estimate_cya(brand, (255, 180, 160)));
    // Every parameter matched and pH sits inside the advisory band.
    assert!(r.notes.is_empty());
}

#[test]
fn analysis_is_deterministic() {
    let mut img = uniform_grid(100, 100, (255, 180, 160));
    paint_patch(&mut img, 45, 20, 10, 10, (220, 220, 90));
    let a = analyze_image(&img, Brand::Hth6Way);
    let b = analyze_image(&img, Brand::Hth6Way);
    assert_eq!(a.free_chlorine_ppm, b.free_chlorine_ppm);
    assert_eq!(a.ph, b.ph);
    assert_eq!(a.total_alkalinity_ppm, b.total_alkalinity_ppm);
    assert_eq!(a.cyanuric_acid_ppm, b.cyanuric_acid_ppm);
    assert_eq!(a.notes, b.notes);
}

#[test]
fn empty_layout_defaults_every_field_with_notes() {
    let img = uniform_grid(10, 10, (0, 0, 0));
    let layout: Vec<(Parameter, PadRegion)> = Vec::new();
    let r = analyze_with_layout(&img, Brand::Hth6Way, &layout);
    assert_eq!(r.free_chlorine_ppm, 0);
    assert_eq!(r.ph, 72);
    assert_eq!(r.total_alkalinity_ppm, 800);
    assert_eq!(r.cyanuric_acid_ppm, 0);
    assert_eq!(
        r.notes,
        vec![
            "Could not determine value for free_chlorine".to_string(),
            "Could not determine value for ph".to_string(),
            "Could not determine value for total_alkalinity".to_string(),
            "Could not determine value for cyanuric_acid".to_string(),
        ]
    );
}

#[test]
fn high_ph_appends_acid_advisory() {
    // The whole strip shows the pH 8.4 reference color.
    let img = uniform_grid(100, 100, (255, 60, 130));
    let r = analyze_image(&img, Brand::Hth6Way);
    assert_eq!(r.ph, 84);
    assert_eq!(r.notes, vec!["pH is high. Consider adding acid.".to_string()]);
}

#[test]
fn low_ph_appends_base_advisory() {
    // The whole strip shows the pH 6.8 reference color.
    let img = uniform_grid(100, 100, (255, 220, 170));
    let r = analyze_image(&img, Brand::Hth6Way);
    assert_eq!(r.ph, 68);
    assert_eq!(r.notes, vec!["pH is low. Consider adding base.".to_string()]);
}

#[test]
fn last_pad_wins_when_a_parameter_repeats() {
    let mut img = uniform_grid(10, 10, (255, 220, 170));
    // Rows 0..5 show the pH 6.8 reference, rows 5..10 the pH 8.4 one.
    paint_patch(&mut img, 0, 5, 10, 5, (255, 60, 130));
    let layout = vec![
        (Parameter::Ph, PadRegion::AbsolutePixels { x: 0, y: 0, width: 10, height: 5 }),
        (Parameter::Ph, PadRegion::AbsolutePixels { x: 0, y: 5, width: 10, height: 5 }),
    ];
    let r = analyze_with_layout(&img, Brand::Hth6Way, &layout);
    assert_eq!(r.ph, 84);
}

#[test]
fn layout_registry_orders_pads_per_brand() {
    let hth = pad_regions_for_brand(Brand::Hth6Way);
    assert_eq!(hth.len(), 4);
    assert_eq!(hth[0].0, Parameter::FreeChlorine);
    assert_eq!(hth[1].0, Parameter::Ph);
    assert_eq!(hth[2].0, Parameter::TotalAlkalinity);
    assert_eq!(hth[3].0, Parameter::CyanuricAcid);
    let aqua = pad_regions_for_brand(Brand::AquaChek7Way);
    assert_eq!(aqua.len(), 5);
    assert_eq!(aqua[1].0, Parameter::TotalChlorine);
}

#[test]
fn configuration_is_valid_at_startup() {
    assert!(validate_configuration());
}

#[test]
fn brand_identifiers_are_case_insensitive_with_default() {
    assert_eq!(brand_from_identifier(Some("hth6way")), Brand::Hth6Way);
    assert_eq!(brand_from_identifier(Some("HTH6WAY")), Brand::Hth6Way);
    assert_eq!(brand_from_identifier(Some("ClOrOx6WaY")), Brand::Clorox6Way);
    assert_eq!(brand_from_identifier(Some("aquachek7way")), Brand::AquaChek7Way);
    assert_eq!(brand_from_identifier(Some("AquaChek7Way")), Brand::AquaChek7Way);
    assert_eq!(brand_from_identifier(None), Brand::Hth6Way);
    assert_eq!(brand_from_identifier(Some("unknown-brand")), Brand::Hth6Way);
    assert_eq!(brand_from_identifier(Some("")), Brand::Hth6Way);
}

fn png_bytes(img: &ImageGrid) -> Vec<u8> {
    let buf = image::RgbImage::from_raw(img.width, img.height, img.pixels.clone()).unwrap();
    let mut bytes: Vec<u8> = Vec::new();
    buf.write_to(&mut std::io::Cursor::new(&mut bytes), image::ImageFormat::Png).unwrap();
    bytes
}

#[test]
fn decoding_round_trips_pixel_data() {
    let pixels = vec![1, 2, 3, 4, 5, 6];
    let img = ImageGrid::new(2, 1, pixels.clone());
    let bytes = png_bytes(&img);
    let decoded = load_image_from_bytes(&bytes).unwrap();
    assert_eq!(decoded.width, 2);
    assert_eq!(decoded.height, 1);
    assert_eq!(decoded.pixels, pixels);
}

#[test]
fn malformed_bytes_report_a_decode_error() {
    assert!(load_image_from_bytes(&[1, 2, 3, 4]).is_err());
    let r = process_image_for_brand(&[0u8; 16], Brand::Hth6Way);
    assert!(r.is_err());
}

#[test]
fn processing_bytes_matches_analyzing_the_decoded_image() {
    let mut img = uniform_grid(100, 100, (255, 180, 160));
    paint_patch(&mut img, 45, 20, 10, 10, (220, 220, 90));
    let bytes = png_bytes(&img);
    let from_bytes = process_image_for_brand(&bytes, Brand::Hth6Way).unwrap();
    let direct = analyze_image(&img, Brand::Hth6Way);
    assert_eq!(from_bytes.free_chlorine_ppm, direct.free_chlorine_ppm);
    assert_eq!(from_bytes.ph, direct.ph);
    assert_eq!(from_bytes.total_alkalinity_ppm, direct.total_alkalinity_ppm);
    assert_eq!(from_bytes.cyanuric_acid_ppm, direct.cyanuric_acid_ppm);
    assert_eq!(from_bytes.notes, direct.notes);
    assert_eq!(from_bytes.free_chlorine_ppm, 30);
}
