//! The menu-bar icon's geometry: where a glyph's ink is, and the size it is drawn at.
//!
//! A glyph arrives as a black shape on a transparent background with wide margins. Trimming it to
//! its ink and scaling that to the bar's height makes it fill the bar rather than sit tiny inside
//! its margins.

use vstd::prelude::*;

verus! {

/// The alpha a pixel needs to count as ink rather than margin.
pub open spec fn ink_threshold() -> u8 {
    16
}

/// Whether the pixel at `(x, y)` of an RGBA image `width` pixels wide is ink.
pub open spec fn inked(rgba: Seq<u8>, width: int, x: int, y: int) -> bool {
    rgba[4 * (y * width + x) + 3] > ink_threshold()
}

/// Whether `(x0, y0, x1, y1)` is the bounding box of the ink in a `width` by `height` image: every
/// inked pixel lies inside it, and ink touches each of its four edges.
pub open spec fn is_ink_bounds(rgba: Seq<u8>, width: int, height: int, b: (u32, u32, u32, u32)) -> bool {
    let (x0, y0, x1, y1) = b;
    &&& x0 <= x1 < width
    &&& y0 <= y1 < height
    &&& forall|x: int, y: int|
        0 <= x < width && 0 <= y < height && #[trigger] inked(rgba, width, x, y) ==> x0 <= x <= x1 && y0
            <= y <= y1
    &&& exists|y: int| 0 <= y < height && #[trigger] inked(rgba, width, x0 as int, y)
    &&& exists|y: int| 0 <= y < height && #[trigger] inked(rgba, width, x1 as int, y)
    &&& exists|x: int| 0 <= x < width && #[trigger] inked(rgba, width, x, y0 as int)
    &&& exists|x: int| 0 <= x < width && #[trigger] inked(rgba, width, x, y1 as int)
}

/// Whether any pixel before `(x, y)` in row order is ink.
pub open spec fn ink_before(rgba: Seq<u8>, width: int, x: int, y: int) -> bool {
    exists|px: int, py: int|
        0 <= px < width && 0 <= py && (py < y || (py == y && px < x)) && #[trigger] inked(
            rgba,
            width,
            px,
            py,
        )
}

/// The bounding box of the ink in an RGBA image `width` by `height` pixels, as the first and last
/// column and row that hold any; `None` when the image is fully transparent.
pub fn alpha_bounds(rgba: &[u8], width: u32, height: u32) -> (r: Option<(u32, u32, u32, u32)>)
    requires
        rgba@.len() == 4 * width * height,
    ensures
        match r {
            Some(b) => is_ink_bounds(rgba@, width as int, height as int, b),
            None => forall|x: int, y: int|
                0 <= x < width && 0 <= y < height ==> !#[trigger] inked(rgba@, width as int, x, y),
        },
{
    let ghost w = width as int;
    let ghost h = height as int;
    let mut bounds: Option<(u32, u32, u32, u32)> = None;
    let n: usize = rgba.len();
    let mut row_start: usize = 0;
    let mut y: u32 = 0;
    while y < height
        invariant
            y <= height,
            n == rgba@.len(),
            row_start == 4 * (y * w),
            rgba@.len() == 4 * w * h,
            w == width,
            h == height,
            match bounds {
                Some((x0, y0, x1, y1)) => {
                    &&& x0 <= x1 < w
                    &&& y0 <= y1 < y
                    &&& exists|py: int| 0 <= py < y && #[trigger] inked(rgba@, w, x0 as int, py)
                    &&& exists|py: int| 0 <= py < y && #[trigger] inked(rgba@, w, x1 as int, py)
                    &&& exists|px: int| 0 <= px < w && #[trigger] inked(rgba@, w, px, y0 as int)
                    &&& exists|px: int| 0 <= px < w && #[trigger] inked(rgba@, w, px, y1 as int)
                    &&& forall|px: int, py: int|
                        0 <= px < w && 0 <= py < y && #[trigger] inked(rgba@, w, px, py) ==> x0 <= px
                            <= x1 && y0 <= py <= y1
                },
                None => forall|px: int, py: int|
                    0 <= px < w && 0 <= py < y ==> !#[trigger] inked(rgba@, w, px, py),
            },
        decreases height - y,
    {
        proof {
            assert(y * w + w <= h * w) by (nonlinear_arith)
                requires
                    y < h,
                    0 <= w,
            ;
            assert(4 * w * h == 4 * (h * w)) by (nonlinear_arith);
            assert((y + 1) * w == y * w + w) by (nonlinear_arith);
        }
        let ghost row = y * w;
        let mut x: u32 = 0;
        while x < width
            invariant
                x <= width,
                y < height,
                n == rgba@.len(),
                (y + 1) * w == y * w + w,
                rgba@.len() == 4 * w * h,
                4 * w * h == 4 * (h * w),
                row + w <= h * w,
                row == y * w,
                row_start == 4 * row,
                w == width,
                h == height,
                match bounds {
                    Some((x0, y0, x1, y1)) => {
                        &&& x0 <= x1 < w
                        &&& y0 <= y1 <= y
                        &&& exists|py: int| 0 <= py <= y && #[trigger] inked(rgba@, w, x0 as int, py)
                        &&& exists|py: int| 0 <= py <= y && #[trigger] inked(rgba@, w, x1 as int, py)
                        &&& exists|px: int| 0 <= px < w && #[trigger] inked(rgba@, w, px, y0 as int)
                        &&& exists|px: int| 0 <= px < w && #[trigger] inked(rgba@, w, px, y1 as int)
                        &&& forall|px: int, py: int|
                            0 <= px < w && 0 <= py && (py < y || (py == y && px < x)) && #[trigger] inked(
                                rgba@,
                                w,
                                px,
                                py,
                            ) ==> x0 <= px <= x1 && y0 <= py <= y1
                    },
                    None => forall|px: int, py: int|
                        0 <= px < w && 0 <= py && (py < y || (py == y && px < x)) ==> !#[trigger] inked(
                            rgba@,
                            w,
                            px,
                            py,
                        ),
                },
            decreases width - x,
        {
            let at: usize = row_start + 4 * (x as usize) + 3;
            assert(at == 4 * (y * w + x) + 3);
            let ink = rgba[at] > 16;
            assert(ink == inked(rgba@, w, x as int, y as int));
            if ink {
                let ghost cx = x as int;
                let ghost cy = y as int;
                assert(inked(rgba@, w, cx, cy));
                match bounds {
                    None => {
                        bounds = Some((x, y, x, y));
                    },
                    Some((x0, y0, x1, y1)) => {
                        let nx0 = if x < x0 { x } else { x0 };
                        let nx1 = if x > x1 { x } else { x1 };
                        bounds = Some((nx0, y0, nx1, y));
                    },
                }
            }
            x = x + 1;
            if let Some((x0, y0, x1, y1)) = bounds {
                assert(exists|py: int| 0 <= py <= y && #[trigger] inked(rgba@, w, x0 as int, py));
                assert(exists|py: int| 0 <= py <= y && #[trigger] inked(rgba@, w, x1 as int, py));
                assert(exists|px: int| 0 <= px < w && #[trigger] inked(rgba@, w, px, y0 as int));
                assert(exists|px: int| 0 <= px < w && #[trigger] inked(rgba@, w, px, y1 as int));
            }
        }
        row_start = row_start + 4 * (width as usize);
        y = y + 1;
    }
    bounds
}

/// The pixel height the glyph is drawn at: about twice the bar's height in points, so it stays
/// crisp on a high-density bar.
pub open spec fn glyph_height() -> u32 {
    30
}

/// The padding kept around the glyph, off the bar's top and bottom.
pub open spec fn icon_padding() -> u32 {
    4
}

/// The glyph's drawn width for a glyph `width` by `height` pixels drawn `glyph_height()` tall:
/// its aspect kept, rounded up, and at least one pixel.
pub open spec fn glyph_width(width: u32, height: u32) -> int {
    let h: int = if height == 0 { 1 } else { height as int };
    let scaled: int = (width * 30 + h - 1) / h;
    if scaled < 1 {
        1
    } else {
        scaled
    }
}

/// The canvas an icon is drawn on, for a trimmed glyph `width` by `height` pixels: the glyph
/// scaled to the drawn height, and padding all round.
pub fn icon_size(width: u32, height: u32) -> (r: (u32, u32))
    requires
        width * 30 <= u32::MAX,
        glyph_width(width, height) + 2 * icon_padding() <= u32::MAX,
    ensures
        r.0 == glyph_width(width, height) + 2 * icon_padding(),
        r.1 == glyph_height() + 2 * icon_padding(),
{
    let h: u32 = if height == 0 { 1 } else { height };
    let a: u32 = width * 30;
    let q: u32 = a / h;
    proof {
        let ai: int = a as int;
        let hi: int = h as int;
        assert(ai % hi != 0 ==> q < ai) by (nonlinear_arith)
            requires
                hi >= 1,
                q == ai / hi,
                ai >= 0,
        ;
    }
    let scaled: u32 = if a % h == 0 { q } else { q + 1 };
    proof {
        let ai: int = a as int;
        let hi: int = h as int;
        assert(q <= ai) by (nonlinear_arith)
            requires
                hi >= 1,
                q == ai / hi,
                ai >= 0,
        ;
        assert(scaled == (ai + hi - 1) / hi) by (nonlinear_arith)
            requires
                hi >= 1,
                ai >= 0,
                q == ai / hi,
                scaled == if ai % hi == 0 { q as int } else { q + 1 },
        ;
    }
    let glyph_w: u32 = if scaled < 1 { 1 } else { scaled };
    (glyph_w + 8, 38)
}

} // verus!
