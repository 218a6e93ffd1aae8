use poolstrip::chemistry::{
    closest_value, estimate_cya, estimate_free_chlorine, estimate_ph, estimate_total_alkalinity,
    RefColor,
};
use poolstrip::color::LabColor;
use poolstrip::types::Brand;

fn lab(l: i32, a: i32, b: i32) -> LabColor {
    LabColor { l, a, b }
}

#[test]
fn matcher_monotonic_synthetic_palette() {
    // Three points at L* = 0, 10, 20 (micro-units), values 1.0, 2.0, 3.0
    // in tenths; a sample at L* = 12 is nearest the middle point.
    let palette = vec![
        RefColor { lab: lab(0, 0, 0), value: 10 },
        RefColor { lab: lab(10_000_000, 0, 0), value: 20 },
        RefColor { lab: lab(20_000_000, 0, 0), value: 30 },
    ];
    let v = closest_value(&lab(12_000_000, 0, 0), &palette);
    assert_eq!(v, 20);
}

#[test]
fn matcher_exact_hit_returns_its_value() {
    let palette = vec![
        RefColor { lab: lab(5_000_000, -1_000_000, 2_000_000), value: 7 },
        RefColor { lab: lab(90_000_000, 3_000_000, -4_000_000), value: 9 },
    ];
    assert_eq!(closest_value(&lab(90_000_000, 3_000_000, -4_000_000), &palette), 9);
    assert_eq!(closest_value(&lab(5_000_000, -1_000_000, 2_000_000), &palette), 7);
}

#[test]
fn matcher_tie_break_keeps_first_entry() {
    let shared = lab(40_000_000, 0, 0);
    let palette = vec![
        RefColor { lab: shared, value: 10 },
        RefColor { lab: shared, value: 20 },
    ];
    assert_eq!(closest_value(&shared, &palette), 10);
    // Equidistant neighbors also keep the earlier entry.
    let palette2 = vec![
        RefColor { lab: lab(0, 0, 0), value: 1 },
        RefColor { lab: lab(20_000_000, 0, 0), value: 2 },
    ];
    assert_eq!(closest_value(&lab(10_000_000, 0, 0), &palette2), 1);
}

#[test]
fn reference_colors_round_trip_free_chlorine() {
    // Converting each reference color's RGB and matching it against its
    // own palette returns exactly that reference's value.
    let refs: [((u8, u8, u8), u32); 5] = [
        ((240, 240, 210), 0),
        ((230, 230, 140), 10),
        ((220, 220, 90), 30),
        ((210, 210, 60), 50),
        ((200, 200, 30), 100),
    ];
    for (rgb, value) in refs {
        assert_eq!(estimate_free_chlorine(Brand::Hth6Way, rgb), value);
    }
}

#[test]
fn reference_colors_round_trip_ph() {
    let refs: [((u8, u8, u8), u32); 5] = [
        ((255, 220, 170), 68),
        ((255, 180, 160), 72),
        ((255, 140, 150), 75),
        ((255, 100, 140), 78),
        ((255, 60, 130), 84),
    ];
    for (rgb, value) in refs {
        assert_eq!(estimate_ph(Brand::Hth6Way, rgb), value);
        // Palettes are shared across brands in the current calibration.
        assert_eq!(estimate_ph(Brand::Clorox6Way, rgb), value);
        assert_eq!(estimate_ph(Brand::AquaChek7Way, rgb), value);
    }
}

#[test]
fn reference_colors_round_trip_total_alkalinity() {
    let refs: [((u8, u8, u8), u32); 5] = [
        ((220, 240, 170), 0),
        ((200, 230, 140), 400),
        ((180, 220, 110), 800),
        ((160, 210, 80), 1200),
        ((140, 200, 60), 1800),
    ];
    for (rgb, value) in refs {
        assert_eq!(estimate_total_alkalinity(Brand::Hth6Way, rgb), value);
    }
}

#[test]
fn reference_colors_round_trip_cyanuric_acid() {
    let refs: [((u8, u8, u8), u32); 4] = [
        ((255, 230, 190), 0),
        ((255, 200, 150), 300),
        ((255, 170, 120), 500),
        ((255, 140, 90), 1000),
    ];
    for (rgb, value) in refs {
        assert_eq!(estimate_cya(Brand::Hth6Way, rgb), value);
    }
}
