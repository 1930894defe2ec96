use imgdiff::color::ciede2000_diff;
use palette::color_difference::Ciede2000;
use palette::FromColor;

fn palette_floor(c1: (u8, u8, u8), c2: (u8, u8, u8)) -> u32 {
    let s1: palette::Srgb = palette::Srgb::new(c1.0, c1.1, c1.2).into_format();
    let s2: palette::Srgb = palette::Srgb::new(c2.0, c2.1, c2.2).into_format();
    let l1: palette::Lab = palette::Lab::from_color(s1);
    let l2: palette::Lab = palette::Lab::from_color(s2);
    l1.difference(l2) as u32
}

#[test]
fn distance_identity_is_zero() {
    assert_eq!(ciede2000_diff((0, 0, 0), (0, 0, 0)), 0);
    assert_eq!(ciede2000_diff((255, 255, 255), (255, 255, 255)), 0);
    assert_eq!(ciede2000_diff((12, 200, 77), (12, 200, 77)), 0);
}

#[test]
fn distance_is_symmetric() {
    let pairs = [
        ((0u8, 0u8, 0u8), (255u8, 255u8, 255u8)),
        ((200, 1, 1), (0, 128, 255)),
        ((10, 20, 30), (30, 20, 10)),
        ((1, 1, 1), (2, 2, 2)),
    ];
    for (c1, c2) in pairs {
        assert_eq!(ciede2000_diff(c1, c2), ciede2000_diff(c2, c1));
    }
}

#[test]
fn distance_agrees_with_lab_pipeline() {
    let pairs = [
        ((0u8, 0u8, 0u8), (255u8, 255u8, 255u8)),
        ((255, 0, 0), (0, 0, 255)),
        ((100, 150, 200), (101, 150, 200)),
        ((17, 99, 3), (240, 12, 190)),
    ];
    for (c1, c2) in pairs {
        assert_eq!(ciede2000_diff(c1, c2), palette_floor(c1, c2));
    }
}

#[test]
fn distance_black_to_white_is_large() {
    let d = ciede2000_diff((0, 0, 0), (255, 255, 255));
    assert!(d >= 99);
    assert!(d <= 100);
}

#[test]
fn lab_reference_vectors_floor() {
    // Published CIEDE2000 reference pairs, stated in L*a*b* coordinates,
    // with their expected distances; the floored value is checked.
    let cases: [((f32, f32, f32), (f32, f32, f32), f32); 5] = [
        ((50.0, 2.6772, -79.7751), (50.0, 0.0, -82.7485), 2.0425),
        ((50.0, 2.5, 0.0), (73.0, 25.0, -18.0), 27.1492),
        ((50.0, 2.5, 0.0), (61.0, -5.0, 29.0), 22.8977),
        ((50.0, 2.5, 0.0), (56.0, -27.0, -3.0), 31.9030),
        ((50.0, 2.5, 0.0), (58.0, 24.0, 15.0), 19.4535),
    ];
    for (a, b, expected) in cases {
        let l1: palette::Lab = palette::Lab::new(a.0, a.1, a.2);
        let l2: palette::Lab = palette::Lab::new(b.0, b.1, b.2);
        let d = l1.difference(l2);
        assert!((d - expected).abs() < 2e-3, "got {d}, expected {expected}");
        assert_eq!(d as u32, expected as u32);
        assert_eq!(l2.difference(l1) as u32, expected as u32);
    }
}
