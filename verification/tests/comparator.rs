use imgdiff::diff::{
    are_colors_same, ciede2000_compare, exact_comparator, perceptual_comparator, DiffError,
    PixelComparator,
};

#[test]
fn same_colors_ignore_alpha() {
    assert!(are_colors_same((1, 2, 3, 0), (1, 2, 3, 255)));
    assert!(are_colors_same((0, 0, 0, 7), (0, 0, 0, 7)));
    assert!(!are_colors_same((1, 2, 3, 0), (1, 2, 4, 0)));
    assert!(!are_colors_same((9, 2, 3, 5), (1, 2, 3, 5)));
}

#[test]
fn exact_match_fast_path_beats_any_tolerance() {
    // Channel-identical pixels compare equal whatever the tolerance is,
    // zero and negative included.
    assert!(ciede2000_compare((5, 5, 5, 0), (5, 5, 5, 200), 0));
    assert!(ciede2000_compare((5, 5, 5, 0), (5, 5, 5, 200), -10));
    assert!(ciede2000_compare((255, 0, 9, 1), (255, 0, 9, 1), 0));
}

#[test]
fn zero_tolerance_rejects_any_channel_difference() {
    assert!(!ciede2000_compare((0, 0, 0, 255), (1, 1, 1, 255), 0));
    assert!(!ciede2000_compare((0, 0, 0, 255), (255, 255, 255, 255), 0));
}

#[test]
fn huge_tolerance_accepts_everything() {
    assert!(ciede2000_compare((0, 0, 0, 255), (255, 255, 255, 255), 1000));
    assert!(ciede2000_compare((200, 1, 1, 255), (0, 128, 255, 255), 1000));
}

#[test]
fn negative_tolerance_is_rejected() {
    assert_eq!(perceptual_comparator(-1), Err(DiffError::NegativeTolerance));
    assert_eq!(perceptual_comparator(-1000), Err(DiffError::NegativeTolerance));
}

#[test]
fn nonnegative_tolerance_is_accepted() {
    assert_eq!(
        perceptual_comparator(0),
        Ok(PixelComparator::Perceptual { tolerance: 0 })
    );
    assert_eq!(
        perceptual_comparator(3),
        Ok(PixelComparator::Perceptual { tolerance: 3 })
    );
}

#[test]
fn comparator_strategies_classify_pixels() {
    let exact = exact_comparator();
    assert_eq!(exact, PixelComparator::Exact);
    assert!(exact.compare((1, 2, 3, 0), (1, 2, 3, 9)));
    assert!(!exact.compare((1, 2, 3, 0), (1, 2, 4, 0)));

    let lenient = perceptual_comparator(1000).unwrap();
    assert!(lenient.compare((0, 0, 0, 255), (255, 255, 255, 255)));

    let strict = perceptual_comparator(0).unwrap();
    assert!(strict.compare((8, 8, 8, 0), (8, 8, 8, 1)));
    assert!(!strict.compare((8, 8, 8, 0), (9, 8, 8, 0)));
}
