//! Color-space conversion and perceptual color distance.
//!
//! A gamma-encoded RGB triple (each channel 0..=255) is mapped into the
//! CIE L*a*b* color space (D65 reference white) and two such coordinates
//! are compared with the CIEDE2000 color-difference formula. The scalar
//! distance is floored to the nearest lower integer before it is returned;
//! the flooring is part of the observable contract.

use palette::color_difference::Ciede2000;
use palette::FromColor;
use vstd::prelude::*;

verus! {

/// The floored CIEDE2000 distance between two gamma-encoded RGB triples:
/// each triple is normalized to [0, 1], linearized, mapped through XYZ to
/// CIE L*a*b* with the D65 reference white, the two coordinates are
/// compared with the 2000 revision of the CIE color-difference formula
/// (unit weights), and the non-negative result is floored. The value
/// depends on the two triples alone.
pub uninterp spec fn de2000_floor(c1: (u8, u8, u8), c2: (u8, u8, u8)) -> u32;

/// Relies on palette's sRGB-to-L*a*b* conversion (`Rgb::into_format` and
/// `Lab::from_color`, D65 white point) and on
/// `palette::color_difference::Ciede2000::difference`. Both are pure
/// functions of the channel values; the difference formula is symmetric in
/// its two arguments (every intermediate either is unchanged or exactly
/// negates when they are swapped, and only squares and an even cross term
/// of the negating intermediates enter the result), and for two identical
/// triples every delta term is exactly zero, so the distance is zero. The
/// `as` cast floors the non-negative scalar.
#[verifier::external_body]
fn lab_distance_floor(c1: (u8, u8, u8), c2: (u8, u8, u8)) -> (d: u32)
    ensures
        d == de2000_floor(c1, c2),
        d == de2000_floor(c2, c1),
        c1 == c2 ==> d == 0,
{
    let s1: palette::Srgb = palette::Srgb::new(c1.0, c1.1, c1.2).into_format();
    let s2: palette::Srgb = palette::Srgb::new(c2.0, c2.1, c2.2).into_format();
    let l1: palette::Lab = palette::Lab::from_color(s1);
    let l2: palette::Lab = palette::Lab::from_color(s2);
    l1.difference(l2) as u32
}

/// Perceptual distance between two gamma-encoded RGB triples: the CIEDE2000
/// color difference of their L*a*b* coordinates, floored to the nearest
/// lower integer. The distance from a color to itself is zero, and the
/// distance is symmetric in its two arguments.
pub fn ciede2000_diff(c1: (u8, u8, u8), c2: (u8, u8, u8)) -> (d: u32)
    ensures
        d == de2000_floor(c1, c2),
        d == de2000_floor(c2, c1),
        c1 == c2 ==> d == 0,
{
    lab_distance_floor(c1, c2)
}

} // verus!
