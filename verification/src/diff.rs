//! Pixel comparison strategies and the image diff engine.

use crate::color::{ciede2000_diff, de2000_floor};
use vstd::prelude::*;

verus! {

/// One pixel sample: red, green, blue, alpha. The alpha channel is carried
/// through untouched and never takes part in any comparison.
pub type RgbaTuple = (u8, u8, u8, u8);

/// True when the three color channels agree; the alpha channel is ignored.
pub open spec fn spec_same_rgb(p1: RgbaTuple, p2: RgbaTuple) -> bool {
    p1.0 == p2.0 && p1.1 == p2.1 && p1.2 == p2.2
}

/// Channel-exact pixel equality: the three color channels must be
/// bit-identical; alpha is ignored.
pub fn are_colors_same(p1: RgbaTuple, p2: RgbaTuple) -> (r: bool)
    ensures
        r == spec_same_rgb(p1, p2),
{
    let (k1, k2, k3, _) = p1;
    let (l1, l2, l3, _) = p2;
    (k1 == l1) && (k2 == l2) && (k3 == l3)
}

/// The color channels of a pixel sample, with the alpha channel dropped.
pub open spec fn spec_rgb(p: RgbaTuple) -> (u8, u8, u8) {
    (p.0, p.1, p.2)
}

/// True when two pixel samples count as equal under tolerance `t`: either
/// the color channels are bit-identical, or the floored perceptual distance
/// of the two colors is strictly below `t`.
pub open spec fn spec_pixels_match(p1: RgbaTuple, p2: RgbaTuple, t: int) -> bool {
    spec_same_rgb(p1, p2) || (de2000_floor(spec_rgb(p1), spec_rgb(p2)) as int) < t
}

/// Perceptual pixel comparison: channel-identical pixels always count as
/// equal, whatever `t` is; any other pair counts as equal exactly when its
/// floored perceptual distance is strictly below `t`.
pub fn ciede2000_compare(p1: RgbaTuple, p2: RgbaTuple, t: i64) -> (r: bool)
    ensures
        r == spec_pixels_match(p1, p2, t as int),
        spec_same_rgb(p1, p2) ==> r,
{
    if are_colors_same(p1, p2) {
        return true;
    }
    let d = ciede2000_diff((p1.0, p1.1, p1.2), (p2.0, p2.1, p2.2));
    (d as i64) < t
}

/// An invalid configuration, reported to the caller; the comparison itself
/// has no failure modes.
#[derive(Clone, Copy, Debug, PartialEq, Eq, Structural)]
pub enum DiffError {
    /// A perceptual comparison was requested with a negative tolerance.
    NegativeTolerance,
    /// A pixel buffer does not hold exactly width * height samples.
    BufferSizeMismatch,
}

/// The pixel comparison strategy shared by one comparison/render run:
/// either channel-exact matching, or perceptual matching under a
/// non-negative tolerance on the floored CIEDE2000 distance.
#[derive(Clone, Copy, Debug, PartialEq, Eq, Structural)]
pub enum PixelComparator {
    /// Pixels are equal only when their color channels are bit-identical.
    Exact,
    /// Pixels are equal when their color channels are bit-identical or
    /// their floored perceptual distance is strictly below the tolerance.
    Perceptual { tolerance: i64 },
}

impl PixelComparator {
    /// What this strategy says of a pixel pair.
    pub open spec fn spec_matches(self, p1: RgbaTuple, p2: RgbaTuple) -> bool {
        match self {
            PixelComparator::Exact => spec_same_rgb(p1, p2),
            PixelComparator::Perceptual { tolerance } => spec_pixels_match(p1, p2, tolerance as int),
        }
    }

    /// Classify one pixel pair. Channel-identical pixels compare equal
    /// under every strategy and every tolerance.
    pub fn compare(&self, p1: RgbaTuple, p2: RgbaTuple) -> (r: bool)
        ensures
            r == self.spec_matches(p1, p2),
            spec_same_rgb(p1, p2) ==> r,
    {
        match self {
            PixelComparator::Exact => are_colors_same(p1, p2),
            PixelComparator::Perceptual { tolerance } => ciede2000_compare(p1, p2, *tolerance),
        }
    }
}

/// The strategy that only accepts bit-identical color channels.
pub fn exact_comparator() -> (c: PixelComparator)
    ensures
        c == PixelComparator::Exact,
{
    PixelComparator::Exact
}

/// The perceptual strategy under the given tolerance. A negative tolerance
/// is rejected; tolerance zero is accepted and then only channel-identical
/// pixels compare equal, since the floored distance is never below zero.
pub fn perceptual_comparator(tolerance: i64) -> (r: Result<PixelComparator, DiffError>)
    ensures
        tolerance >= 0 ==> r == Ok::<PixelComparator, DiffError>(
            PixelComparator::Perceptual { tolerance },
        ),
        tolerance < 0 ==> r == Err::<PixelComparator, DiffError>(DiffError::NegativeTolerance),
{
    if tolerance < 0 {
        Err(DiffError::NegativeTolerance)
    } else {
        Ok(PixelComparator::Perceptual { tolerance })
    }
}

/// A decoded raster: a row-major sequence of pixel samples, `width *
/// height` of them, row `y` holding the pixels `(0, y)` up to
/// `(width - 1, y)`.
pub struct Image {
    pub width: u32,
    pub height: u32,
    pub pixels: Vec<RgbaTuple>,
}

impl Image {
    /// The buffer holds exactly one sample per coordinate.
    pub open spec fn wf(self) -> bool {
        self.pixels@.len() == (self.width as int) * (self.height as int)
    }

    /// The sample stored for coordinate `(x, y)`.
    pub open spec fn spec_pixel(self, x: int, y: int) -> RgbaTuple {
        self.pixels@[y * (self.width as int) + x]
    }

    /// Wrap a decoded pixel buffer. The buffer must hold exactly
    /// `width * height` samples; any other length is rejected.
    pub fn new(width: u32, height: u32, pixels: Vec<RgbaTuple>) -> (r: Result<Image, DiffError>)
        ensures
            pixels@.len() == (width as int) * (height as int) ==> (r matches Ok(img)
                && img.width == width
                && img.height == height
                && img.pixels@ == pixels@
                && img.wf()),
            pixels@.len() != (width as int) * (height as int) ==> (r matches Err(e)
                && e == DiffError::BufferSizeMismatch),
    {
        let n = pixels.len();
        proof {
            assert((width as int) * (height as int) <= (u32::MAX as int) * (u32::MAX as int))
                by (nonlinear_arith)
                requires
                    width <= u32::MAX,
                    height <= u32::MAX,
            ;
        }
        if (n as u64) == (width as u64) * (height as u64) {
            Ok(Image { width, height, pixels })
        } else {
            Err(DiffError::BufferSizeMismatch)
        }
    }

    /// Read the sample at `(x, y)`.
    pub fn pixel(&self, x: u32, y: u32) -> (p: RgbaTuple)
        requires
            self.wf(),
            x < self.width,
            y < self.height,
        ensures
            p == self.spec_pixel(x as int, y as int),
    {
        let n = self.pixels.len();
        proof {
            lemma_row_major_index_bound(x as int, y as int, self.width as int, self.height as int);
        }
        let idx: usize = (y as usize) * (self.width as usize) + (x as usize);
        self.pixels[idx]
    }
}

/// A coordinate inside a `width * height` raster has a row-major index
/// below `width * height`.
proof fn lemma_row_major_index_bound(x: int, y: int, w: int, h: int)
    requires
        0 <= x < w,
        0 <= y < h,
    ensures
        0 <= y * w + x < w * h,
{
    assert(0 <= y * w + x < w * h) by (nonlinear_arith)
        requires
            0 <= x < w,
            0 <= y < h,
    ;
}

/// The bounding rectangle of a non-empty set of differing coordinates:
/// the least and greatest x and y over the set, all bounds inclusive.
#[derive(Clone, Copy, Debug, PartialEq, Eq, Structural)]
pub struct DiffArea {
    pub xmin: u32,
    pub ymin: u32,
    pub xmax: u32,
    pub ymax: u32,
}

/// `area` is exactly the bounding rectangle of the coordinates in `s`:
/// every coordinate lies inside it, and each of its four bounds is
/// attained by some coordinate of `s`.
pub open spec fn spec_seq_bounds(s: Seq<(u32, u32)>, area: DiffArea) -> bool {
    &&& forall|i: int|
        0 <= i < s.len() ==> {
            &&& area.xmin <= (#[trigger] s[i]).0 <= area.xmax
            &&& area.ymin <= s[i].1 <= area.ymax
        }
    &&& exists|i: int| 0 <= i < s.len() && (#[trigger] s[i]).0 == area.xmin
    &&& exists|i: int| 0 <= i < s.len() && (#[trigger] s[i]).0 == area.xmax
    &&& exists|i: int| 0 <= i < s.len() && (#[trigger] s[i]).1 == area.ymin
    &&& exists|i: int| 0 <= i < s.len() && (#[trigger] s[i]).1 == area.ymax
}

/// The bounding rectangle of a list of differing coordinates: `None` when
/// the list is empty, never a sentinel rectangle; otherwise the exact
/// min/max rectangle over the list.
pub fn get_diff_area(pixels: Vec<(u32, u32)>) -> (r: Option<DiffArea>)
    ensures
        (r is None) <==> pixels@.len() == 0,
        r matches Some(area) ==> spec_seq_bounds(pixels@, area),
{
    if pixels.len() == 0 {
        return None;
    }
    let first = pixels[0];
    let mut area = DiffArea { xmin: first.0, ymin: first.1, xmax: first.0, ymax: first.1 };
    let mut i: usize = 1;
    while i < pixels.len()
        invariant
            1 <= i <= pixels@.len(),
            forall|j: int|
                0 <= j < i ==> {
                    &&& area.xmin <= (#[trigger] pixels@[j]).0 <= area.xmax
                    &&& area.ymin <= pixels@[j].1 <= area.ymax
                },
            exists|j: int| 0 <= j < i && (#[trigger] pixels@[j]).0 == area.xmin,
            exists|j: int| 0 <= j < i && (#[trigger] pixels@[j]).0 == area.xmax,
            exists|j: int| 0 <= j < i && (#[trigger] pixels@[j]).1 == area.ymin,
            exists|j: int| 0 <= j < i && (#[trigger] pixels@[j]).1 == area.ymax,
        decreases pixels@.len() - i,
    {
        let (x, y) = pixels[i];
        if x < area.xmin {
            area.xmin = x;
        }
        if x > area.xmax {
            area.xmax = x;
        }
        if y < area.ymin {
            area.ymin = y;
        }
        if y > area.ymax {
            area.ymax = y;
        }
        i = i + 1;
    }
    Some(area)
}

/// Width of the region both images cover.
pub open spec fn spec_overlap_w(img1: Image, img2: Image) -> int {
    if img1.width < img2.width {
        img1.width as int
    } else {
        img2.width as int
    }
}

/// Height of the region both images cover.
pub open spec fn spec_overlap_h(img1: Image, img2: Image) -> int {
    if img1.height < img2.height {
        img1.height as int
    } else {
        img2.height as int
    }
}

/// `(x, y)` is a differing coordinate: it lies in the overlap of the two
/// images and the strategy rejects its pixel pair.
pub open spec fn spec_is_diff(
    img1: Image,
    img2: Image,
    cmp: PixelComparator,
    x: int,
    y: int,
) -> bool {
    &&& 0 <= x < spec_overlap_w(img1, img2)
    &&& 0 <= y < spec_overlap_h(img1, img2)
    &&& !cmp.spec_matches(img1.spec_pixel(x, y), img2.spec_pixel(x, y))
}

/// No coordinate of the overlap differs.
pub open spec fn spec_no_diffs(img1: Image, img2: Image, cmp: PixelComparator) -> bool {
    forall|x: int, y: int| !(#[trigger] spec_is_diff(img1, img2, cmp, x, y))
}

/// `area` is exactly the bounding rectangle of the differing coordinates:
/// it contains them all, and each of its four bounds is attained by one.
pub open spec fn spec_diff_bounds(
    img1: Image,
    img2: Image,
    cmp: PixelComparator,
    area: DiffArea,
) -> bool {
    &&& forall|x: int, y: int|
        #[trigger] spec_is_diff(img1, img2, cmp, x, y)
            ==> area.xmin <= x <= area.xmax && area.ymin <= y <= area.ymax
    &&& exists|x: int, y: int| #[trigger] spec_is_diff(img1, img2, cmp, x, y) && x == area.xmin
    &&& exists|x: int, y: int| #[trigger] spec_is_diff(img1, img2, cmp, x, y) && x == area.xmax
    &&& exists|x: int, y: int| #[trigger] spec_is_diff(img1, img2, cmp, x, y) && y == area.ymin
    &&& exists|x: int, y: int| #[trigger] spec_is_diff(img1, img2, cmp, x, y) && y == area.ymax
}

/// The verdict of one comparison run: `equal` holds exactly when the two
/// extents agree and no overlap coordinate differs; `diff_area` is the
/// exact bounding rectangle of the differing coordinates, or `None` when
/// there are none.
#[derive(Debug)]
pub struct DiffResult {
    pub diff_area: Option<DiffArea>,
    pub equal: bool,
}

/// Scan the overlap of the two images, classify every coordinate with the
/// strategy, and report the verdict together with the bounding rectangle
/// of the differing coordinates. An extent mismatch alone makes `equal`
/// false; out-of-overlap coordinates never enter the differing set.
pub fn compare_imgs(img1: &Image, img2: &Image, comparator: &PixelComparator) -> (r: DiffResult)
    requires
        img1.wf(),
        img2.wf(),
    ensures
        r.equal <==> (img1.width == img2.width && img1.height == img2.height && spec_no_diffs(
            *img1,
            *img2,
            *comparator,
        )),
        (r.diff_area is None) <==> spec_no_diffs(*img1, *img2, *comparator),
        r.diff_area matches Some(area) ==> spec_diff_bounds(*img1, *img2, *comparator, area),
{
    let min_w = if img1.width < img2.width {
        img1.width
    } else {
        img2.width
    };
    let min_h = if img1.height < img2.height {
        img1.height
    } else {
        img2.height
    };
    let mut diff_pixels: Vec<(u32, u32)> = Vec::new();
    let mut y: u32 = 0;
    while y < min_h
        invariant
            img1.wf(),
            img2.wf(),
            min_w as int == spec_overlap_w(*img1, *img2),
            min_h as int == spec_overlap_h(*img1, *img2),
            y <= min_h,
            forall|j: int|
                0 <= j < diff_pixels@.len() ==> spec_is_diff(
                    *img1,
                    *img2,
                    *comparator,
                    (#[trigger] diff_pixels@[j]).0 as int,
                    diff_pixels@[j].1 as int,
                ),
            forall|a: int, b: int|
                b < y as int && #[trigger] spec_is_diff(*img1, *img2, *comparator, a, b)
                    ==> diff_pixels@.contains(((a as u32), (b as u32))),
        decreases min_h - y,
    {
        let mut x: u32 = 0;
        while x < min_w
            invariant
                img1.wf(),
                img2.wf(),
                min_w as int == spec_overlap_w(*img1, *img2),
                min_h as int == spec_overlap_h(*img1, *img2),
                y < min_h,
                x <= min_w,
                forall|j: int|
                    0 <= j < diff_pixels@.len() ==> spec_is_diff(
                        *img1,
                        *img2,
                        *comparator,
                        (#[trigger] diff_pixels@[j]).0 as int,
                        diff_pixels@[j].1 as int,
                    ),
                forall|a: int, b: int|
                    b < y as int && #[trigger] spec_is_diff(*img1, *img2, *comparator, a, b)
                        ==> diff_pixels@.contains(((a as u32), (b as u32))),
                forall|a: int|
                    a < x as int && #[trigger] spec_is_diff(*img1, *img2, *comparator, a, y as int)
                        ==> diff_pixels@.contains(((a as u32), y)),
            decreases min_w - x,
        {
            let p1 = img1.pixel(x, y);
            let p2 = img2.pixel(x, y);
            if !comparator.compare(p1, p2) {
                let ghost old_s = diff_pixels@;
                diff_pixels.push((x, y));
                proof {
                    assert forall|e: (u32, u32)| old_s.contains(e) implies diff_pixels@.contains(
                        e,
                    ) by {
                        let i = choose|i: int| 0 <= i < old_s.len() && old_s[i] == e;
                        assert(diff_pixels@[i] == e);
                    }
                    assert(diff_pixels@[old_s.len() as int] == (x, y));
                    assert(diff_pixels@.contains((x, y)));
                }
            }
            x = x + 1;
        }
        y = y + 1;
    }
    let equal = img1.width == img2.width && img1.height == img2.height && diff_pixels.len() == 0;
    let ghost s = diff_pixels@;
    proof {
        if s.len() == 0 {
            assert forall|a: int, b: int| !(#[trigger] spec_is_diff(
                *img1,
                *img2,
                *comparator,
                a,
                b,
            )) by {
                if spec_is_diff(*img1, *img2, *comparator, a, b) {
                    assert(s.contains(((a as u32), (b as u32))));
                }
            }
        } else {
            assert(spec_is_diff(*img1, *img2, *comparator, s[0].0 as int, s[0].1 as int));
            assert(!spec_no_diffs(*img1, *img2, *comparator));
        }
    }
    let diff_area = get_diff_area(diff_pixels);
    proof {
        if s.len() > 0 {
            let area = diff_area->Some_0;
            assert forall|a: int, b: int| #[trigger] spec_is_diff(
                *img1,
                *img2,
                *comparator,
                a,
                b,
            ) implies area.xmin <= a <= area.xmax && area.ymin <= b <= area.ymax by {
                assert(s.contains(((a as u32), (b as u32))));
                let i = choose|i: int| 0 <= i < s.len() && s[i] == ((a as u32), (b as u32));
                assert(area.xmin <= s[i].0 <= area.xmax && area.ymin <= s[i].1 <= area.ymax);
            }
            let i_xmin = choose|i: int| 0 <= i < s.len() && (#[trigger] s[i]).0 == area.xmin;
            assert(spec_is_diff(
                *img1,
                *img2,
                *comparator,
                s[i_xmin].0 as int,
                s[i_xmin].1 as int,
            ));
            let i_xmax = choose|i: int| 0 <= i < s.len() && (#[trigger] s[i]).0 == area.xmax;
            assert(spec_is_diff(
                *img1,
                *img2,
                *comparator,
                s[i_xmax].0 as int,
                s[i_xmax].1 as int,
            ));
            let i_ymin = choose|i: int| 0 <= i < s.len() && (#[trigger] s[i]).1 == area.ymin;
            assert(spec_is_diff(
                *img1,
                *img2,
                *comparator,
                s[i_ymin].0 as int,
                s[i_ymin].1 as int,
            ));
            let i_ymax = choose|i: int| 0 <= i < s.len() && (#[trigger] s[i]).1 == area.ymax;
            assert(spec_is_diff(
                *img1,
                *img2,
                *comparator,
                s[i_ymax].0 as int,
                s[i_ymax].1 as int,
            ));
        }
    }
    DiffResult { diff_area, equal }
}

/// The fixed highlight color painted over differing and out-of-overlap
/// coordinates of the rendered diff raster, as an opaque sample.
pub open spec fn spec_highlight() -> RgbaTuple {
    (200u8, 1u8, 1u8, 255u8)
}

/// A pixel sample with its color channels kept and its alpha forced to
/// fully opaque.
pub open spec fn spec_opaque(p: RgbaTuple) -> RgbaTuple {
    (p.0, p.1, p.2, 255u8)
}

/// Width of the union extent of the two images.
pub open spec fn spec_union_w(img1: Image, img2: Image) -> int {
    if img1.width < img2.width {
        img2.width as int
    } else {
        img1.width as int
    }
}

/// Height of the union extent of the two images.
pub open spec fn spec_union_h(img1: Image, img2: Image) -> int {
    if img1.height < img2.height {
        img2.height as int
    } else {
        img1.height as int
    }
}

/// What the rendered diff raster holds at `(x, y)`: the highlight color
/// outside the overlap of the two images, the first image's pixel made
/// opaque where the strategy accepts the pair, and the highlight color
/// where it rejects it.
pub open spec fn spec_diff_pixel(
    img1: Image,
    img2: Image,
    cmp: PixelComparator,
    x: int,
    y: int,
) -> RgbaTuple {
    if x >= spec_overlap_w(img1, img2) || y >= spec_overlap_h(img1, img2) {
        spec_highlight()
    } else if cmp.spec_matches(img1.spec_pixel(x, y), img2.spec_pixel(x, y)) {
        spec_opaque(img1.spec_pixel(x, y))
    } else {
        spec_highlight()
    }
}

/// Render the diff raster: a buffer sized to the union of both extents
/// where every coordinate outside the overlap, and every differing
/// coordinate of the overlap, is painted with the fixed highlight color,
/// and every matching coordinate shows the first image's pixel as opaque.
/// The same strategy instance that produced the verdict being visualized
/// should be passed here, so the classification agrees with it.
pub fn build_diff_image(img1: &Image, img2: &Image, comparator: &PixelComparator) -> (r: Image)
    requires
        img1.wf(),
        img2.wf(),
    ensures
        r.wf(),
        r.width as int == spec_union_w(*img1, *img2),
        r.height as int == spec_union_h(*img1, *img2),
        forall|x: int, y: int|
            0 <= x < r.width as int && 0 <= y < r.height as int ==> r.spec_pixel(x, y)
                == #[trigger] spec_diff_pixel(*img1, *img2, *comparator, x, y),
{
    let width = if img1.width < img2.width {
        img2.width
    } else {
        img1.width
    };
    let height = if img1.height < img2.height {
        img2.height
    } else {
        img1.height
    };
    let min_w = if img1.width < img2.width {
        img1.width
    } else {
        img2.width
    };
    let min_h = if img1.height < img2.height {
        img1.height
    } else {
        img2.height
    };
    let mut out: Vec<RgbaTuple> = Vec::new();
    let mut y: u32 = 0;
    while y < height
        invariant
            img1.wf(),
            img2.wf(),
            width as int == spec_union_w(*img1, *img2),
            height as int == spec_union_h(*img1, *img2),
            min_w as int == spec_overlap_w(*img1, *img2),
            min_h as int == spec_overlap_h(*img1, *img2),
            y <= height,
            out@.len() == (y as int) * (width as int),
            forall|a: int, b: int|
                0 <= a < width as int && 0 <= b < y as int ==> out@[b * (width as int) + a]
                    == #[trigger] spec_diff_pixel(*img1, *img2, *comparator, a, b),
        decreases height - y,
    {
        let mut x: u32 = 0;
        while x < width
            invariant
                img1.wf(),
                img2.wf(),
                width as int == spec_union_w(*img1, *img2),
                height as int == spec_union_h(*img1, *img2),
                min_w as int == spec_overlap_w(*img1, *img2),
                min_h as int == spec_overlap_h(*img1, *img2),
                y < height,
                x <= width,
                out@.len() == (y as int) * (width as int) + (x as int),
                forall|a: int, b: int|
                    0 <= a < width as int && 0 <= b < y as int ==> out@[b * (width as int) + a]
                        == #[trigger] spec_diff_pixel(*img1, *img2, *comparator, a, b),
                forall|a: int|
                    0 <= a < x as int ==> out@[(y as int) * (width as int) + a]
                        == #[trigger] spec_diff_pixel(*img1, *img2, *comparator, a, y as int),
            decreases width - x,
        {
            let px: RgbaTuple = if x >= min_w || y >= min_h {
                (200u8, 1u8, 1u8, 255u8)
            } else {
                let p1 = img1.pixel(x, y);
                let p2 = img2.pixel(x, y);
                if comparator.compare(p1, p2) {
                    (p1.0, p1.1, p1.2, 255u8)
                } else {
                    (200u8, 1u8, 1u8, 255u8)
                }
            };
            let ghost old_out = out@;
            out.push(px);
            proof {
                assert(px == spec_diff_pixel(*img1, *img2, *comparator, x as int, y as int));
                assert forall|a: int, b: int|
                    0 <= a < width as int && 0 <= b < y as int implies out@[b * (width as int) + a]
                    == #[trigger] spec_diff_pixel(*img1, *img2, *comparator, a, b) by {
                    assert(b * (width as int) + a < (y as int) * (width as int)) by (nonlinear_arith)
                        requires
                            0 <= a < width as int,
                            0 <= b < y as int,
                    ;
                    assert(out@[b * (width as int) + a] == old_out[b * (width as int) + a]);
                }
            }
            x = x + 1;
        }
        proof {
            assert(((y as int) + 1) * (width as int) == (y as int) * (width as int) + (
            width as int)) by (nonlinear_arith);
        }
        y = y + 1;
    }
    let r = Image { width, height, pixels: out };
    proof {
        assert((height as int) * (width as int) == (width as int) * (height as int))
            by (nonlinear_arith);
        assert forall|x: int, y_: int|
            0 <= x < r.width as int && 0 <= y_ < r.height as int implies r.spec_pixel(x, y_)
            == #[trigger] spec_diff_pixel(*img1, *img2, *comparator, x, y_) by {
            assert(r.spec_pixel(x, y_) == out@[y_ * (width as int) + x]);
        }
    }
    r
}

} // verus!
