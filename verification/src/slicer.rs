//! Cutting the four corners out of an image and stitching them together.

use vstd::prelude::*;
use crate::raster::{
    Bitmap, Pixel, RasterView, clear_pixel, crop_view, filled_view, lemma_crop_at, lemma_tabulate_at,
    tabulate,
};
use crate::item::ImageItem;

verus! {

/// The larger of `a` and `b`.
pub open spec fn max_nat(a: nat, b: nat) -> nat {
    if a < b {
        b
    } else {
        a
    }
}

/// `a - b`, or 0 when `b` is larger.
pub open spec fn saturating_sub(a: nat, b: nat) -> nat {
    if b < a {
        (a - b) as nat
    } else {
        0
    }
}

/// One corner cut out of `img`: an empty raster when the requested size is
/// 0 in either direction, else the part of `img` at `(x, y)` of that size,
/// cut down to what lies inside `img`.
pub open spec fn corner_view(img: RasterView, x: nat, y: nat, w: nat, h: nat) -> RasterView {
    if w == 0 || h == 0 {
        filled_view(0, 0, clear_pixel())
    } else {
        crop_view(img, x as int, y as int, w as int, h as int)
    }
}

/// The pixel of corner `c` at `(i, j)`, or a clear pixel where `c` does not
/// reach.
pub open spec fn corner_pixel(c: RasterView, i: int, j: int) -> Pixel {
    if 0 <= i < c.width && 0 <= j < c.height {
        c.at(i, j)
    } else {
        clear_pixel()
    }
}

/// Width of the left column of a stitched image.
pub open spec fn left_width(tl: RasterView, bl: RasterView) -> nat {
    max_nat(tl.width, bl.width)
}

/// Height of the upper row of a stitched image.
pub open spec fn top_height(tl: RasterView, tr: RasterView) -> nat {
    max_nat(tl.height, tr.height)
}

/// The size of the canvas that four corners are stitched onto: the widest
/// left corner beside the widest right corner, and the tallest upper corner
/// above the tallest lower corner.
pub open spec fn stitch_size(tl: RasterView, tr: RasterView, bl: RasterView, br: RasterView) -> (
    nat,
    nat,
) {
    (
        left_width(tl, bl) + max_nat(tr.width, br.width),
        top_height(tl, tr) + max_nat(bl.height, br.height),
    )
}

/// The four corners placed in the four quadrants of one canvas: the upper
/// left corner at the origin, the upper right one after the left column, the
/// lower left one below the upper row and the lower right one after both;
/// pixels that no corner covers stay clear. A canvas with no area becomes a
/// single clear pixel.
pub open spec fn stitch_view(tl: RasterView, tr: RasterView, bl: RasterView, br: RasterView) -> RasterView {
    let (w, h) = stitch_size(tl, tr, bl, br);
    let lw = left_width(tl, bl) as int;
    let th = top_height(tl, tr) as int;
    if w == 0 || h == 0 {
        filled_view(1, 1, clear_pixel())
    } else {
        tabulate(w, h, |x: int, y: int| stitched_pixel(tl, tr, bl, br, lw, th, x, y))
    }
}

/// The cut parameters that are used: a direction whose two parameters are
/// both 0 keeps its whole extent in the first corner and nothing in the
/// second. Returned as (left, right, top, bottom).
pub open spec fn used_cuts(img: RasterView, top: nat, bottom: nat, left: nat, right: nat) -> (
    nat,
    nat,
    nat,
    nat,
) {
    let (ul, ur) = if left == 0 && right == 0 {
        (img.width, 0nat)
    } else {
        (left, right)
    };
    let (ut, ub) = if top == 0 && bottom == 0 {
        (img.height, 0nat)
    } else {
        (top, bottom)
    };
    (ul, ur, ut, ub)
}

/// The four corners of `img` for the given cut parameters, in the order
/// upper left, upper right, lower left, lower right.
pub open spec fn corners(img: RasterView, top: nat, bottom: nat, left: nat, right: nat) -> (
    RasterView,
    RasterView,
    RasterView,
    RasterView,
) {
    let (ul, ur, ut, ub) = used_cuts(img, top, bottom, left, right);
    let xr = saturating_sub(img.width, ur);
    let yb = saturating_sub(img.height, ub);
    (
        corner_view(img, 0, 0, ul, ut),
        corner_view(img, xr, 0, ur, ut),
        corner_view(img, 0, yb, ul, ub),
        corner_view(img, xr, yb, ur, ub),
    )
}

/// All four cut parameters are 0: the image is kept whole.
pub open spec fn uncut(top: nat, bottom: nat, left: nat, right: nat) -> bool {
    top == 0 && bottom == 0 && left == 0 && right == 0
}

/// The image that slicing produces before any rescaling: `img` itself when
/// nothing is cut, else its four corners stitched together.
pub open spec fn sliced_view(img: RasterView, top: nat, bottom: nat, left: nat, right: nat) -> RasterView {
    if uncut(top, bottom, left, right) {
        img
    } else {
        let (tl, tr, bl, br) = corners(img, top, bottom, left, right);
        stitch_view(tl, tr, bl, br)
    }
}

/// The stitched canvas of the corners fits `u32` dimensions and memory.
pub open spec fn stitch_fits(tl: RasterView, tr: RasterView, bl: RasterView, br: RasterView) -> bool {
    let (w, h) = stitch_size(tl, tr, bl, br);
    &&& w <= u32::MAX
    &&& h <= u32::MAX
    &&& w * h * 4 <= usize::MAX
}

/// Slicing `img` with these cut parameters stays within `u32` dimensions
/// and memory.
pub open spec fn slice_fits(img: RasterView, top: nat, bottom: nat, left: nat, right: nat) -> bool {
    uncut(top, bottom, left, right) || {
        let (tl, tr, bl, br) = corners(img, top, bottom, left, right);
        stitch_fits(tl, tr, bl, br)
    }
}

/// Where each corner lands on the canvas `out`, stated pixel by pixel: the
/// canvas is the widest left corner beside the widest right corner and the
/// tallest upper corner above the tallest lower one (one clear pixel when
/// that has no area); the upper left corner sits at the origin, the upper
/// right one after the left column, the lower left one below the upper row,
/// the lower right one after both; every other pixel is clear.
pub open spec fn stitch_layout(tl: RasterView, tr: RasterView, bl: RasterView, br: RasterView, out: RasterView) -> bool {
    let lw = if tl.width < bl.width { bl.width } else { tl.width };
    let rw = if tr.width < br.width { br.width } else { tr.width };
    let th = if tl.height < tr.height { tr.height } else { tl.height };
    let bh = if bl.height < br.height { br.height } else { bl.height };
    let w = lw + rw;
    let h = th + bh;
    &&& (w == 0 || h == 0) ==> out.width == 1 && out.height == 1 && out.at(0, 0) == [0u8, 0u8, 0u8, 0u8]
    &&& (w > 0 && h > 0) ==> {
        &&& out.width == w
        &&& out.height == h
        &&& forall|x: int, y: int|
            0 <= x < tl.width && 0 <= y < tl.height ==> #[trigger] out.at(x, y) == tl.at(x, y)
        &&& forall|x: int, y: int|
            0 <= x < tr.width && 0 <= y < tr.height ==> #[trigger] out.at(lw + x, y) == tr.at(x, y)
        &&& forall|x: int, y: int|
            0 <= x < bl.width && 0 <= y < bl.height ==> #[trigger] out.at(x, th + y) == bl.at(x, y)
        &&& forall|x: int, y: int|
            0 <= x < br.width && 0 <= y < br.height ==> #[trigger] out.at(lw + x, th + y) == br.at(x, y)
        &&& forall|x: int, y: int|
            0 <= x < w && 0 <= y < h && !(x < tl.width && y < tl.height) && !(lw <= x < lw
                + tr.width && y < tr.height) && !(x < bl.width && th <= y < th + bl.height) && !(lw
                <= x < lw + br.width && th <= y < th + br.height) ==> #[trigger] out.at(x, y)
                == [0u8, 0u8, 0u8, 0u8]
    }
}

/// The stitched canvas of `stitch_view` has the layout `stitch_layout`
/// describes.
pub proof fn lemma_stitch_layout(tl: RasterView, tr: RasterView, bl: RasterView, br: RasterView)
    ensures
        stitch_layout(tl, tr, bl, br, stitch_view(tl, tr, bl, br)),
{
    let (w, h) = stitch_size(tl, tr, bl, br);
    let lw = left_width(tl, bl) as int;
    let th = top_height(tl, tr) as int;
    let out = stitch_view(tl, tr, bl, br);
    let f = |x: int, y: int| stitched_pixel(tl, tr, bl, br, lw, th, x, y);
    if w == 0 || h == 0 {
        lemma_tabulate_at(1, 1, |x: int, y: int| clear_pixel(), 0, 0);
    } else {
        assert(out == tabulate(w, h, f));
        assert forall|x: int, y: int| 0 <= x < tl.width && 0 <= y < tl.height implies #[trigger] out.at(x, y) == tl.at(x, y) by {
            lemma_tabulate_at(w, h, f, x, y);
        }
        assert forall|x: int, y: int| 0 <= x < tr.width && 0 <= y < tr.height implies #[trigger] out.at(lw + x, y) == tr.at(x, y) by {
            lemma_tabulate_at(w, h, f, lw + x, y);
        }
        assert forall|x: int, y: int| 0 <= x < bl.width && 0 <= y < bl.height implies #[trigger] out.at(x, th + y) == bl.at(x, y) by {
            lemma_tabulate_at(w, h, f, x, th + y);
        }
        assert forall|x: int, y: int| 0 <= x < br.width && 0 <= y < br.height implies #[trigger] out.at(lw + x, th + y) == br.at(x, y) by {
            lemma_tabulate_at(w, h, f, lw + x, th + y);
        }
        assert forall|x: int, y: int|
            0 <= x < w && 0 <= y < h && !(x < tl.width && y < tl.height) && !(lw <= x < lw
                + tr.width && y < tr.height) && !(x < bl.width && th <= y < th + bl.height) && !(lw
                <= x < lw + br.width && th <= y < th + br.height) implies #[trigger] out.at(x, y)
                == [0u8, 0u8, 0u8, 0u8] by {
            lemma_tabulate_at(w, h, f, x, y);
        }
    }
}

/// Cuts the `width` by `height` part at `(x, y)` out of `img`. A size of 0
/// in either direction gives an empty image; otherwise the start is moved
/// onto the image and the size cut down to what lies inside it.
pub fn extract_corner(img: &Bitmap, x: u32, y: u32, width: u32, height: u32) -> (out: Bitmap)
    ensures
        out@ == corner_view(img@, x as nat, y as nat, width as nat, height as nat),
        out@.valid(),
        width == 0 || height == 0 ==> out@.width == 0 && out@.height == 0,
        ({
            let cx = if x < img@.width { x as nat } else { img@.width };
            let cy = if y < img@.height { y as nat } else { img@.height };
            width > 0 && height > 0 ==> {
                &&& out@.width == (if width < img@.width - cx { width as int } else { img@.width - cx })
                &&& out@.height == (if height < img@.height - cy { height as int } else {
                    img@.height - cy
                })
                &&& forall|i: int, j: int|
                    0 <= i < out@.width && 0 <= j < out@.height ==> #[trigger] out@.at(i, j)
                        == img@.at(cx + i, cy + j)
            }
        }),
{
    if width == 0 || height == 0 {
        return Bitmap::new(0, 0);
    }
    let iw = img.width();
    let ih = img.height();
    let x = if x < iw { x } else { iw };
    let y = if y < ih { y } else { ih };
    let width = if width < iw - x { width } else { iw - x };
    let height = if height < ih - y { height } else { ih - y };
    img.crop(x, y, width, height)
}

/// Places the four corners on one canvas as `stitch_view` describes.
pub fn stitch_corners(top_left: &Bitmap, top_right: &Bitmap, bottom_left: &Bitmap, bottom_right: &Bitmap) -> (out: Bitmap)
    requires
        stitch_fits(top_left@, top_right@, bottom_left@, bottom_right@),
    ensures
        out@ == stitch_view(top_left@, top_right@, bottom_left@, bottom_right@),
        out@.valid(),
        stitch_layout(top_left@, top_right@, bottom_left@, bottom_right@, out@),
{
    proof {
        lemma_stitch_layout(top_left@, top_right@, bottom_left@, bottom_right@);
    }
    let tlw = top_left.width();
    let tlh = top_left.height();
    let trw = top_right.width();
    let trh = top_right.height();
    let blw = bottom_left.width();
    let blh = bottom_left.height();
    let brw = bottom_right.width();
    let brh = bottom_right.height();
    let left_w = if tlw < blw { blw } else { tlw };
    let right_w = if trw < brw { brw } else { trw };
    let top_h = if tlh < trh { trh } else { tlh };
    let bottom_h = if blh < brh { brh } else { blh };
    let width = left_w + right_w;
    let height = top_h + bottom_h;
    let ghost target = stitch_view(top_left@, top_right@, bottom_left@, bottom_right@);
    if width == 0 || height == 0 {
        return Bitmap::from_pixel(1, 1, [0u8, 0u8, 0u8, 0u8]);
    }
    let ghost tl = top_left@;
    let ghost tr = top_right@;
    let ghost bl = bottom_left@;
    let ghost br = bottom_right@;
    let mut pixels: Vec<Pixel> = Vec::new();
    let mut y: u32 = 0;
    while y < height
        invariant
            tl == top_left@,
            tr == top_right@,
            bl == bottom_left@,
            br == bottom_right@,
            tl.valid(),
            tr.valid(),
            bl.valid(),
            br.valid(),
            tlw == tl.width,
            tlh == tl.height,
            trw == tr.width,
            trh == tr.height,
            blw == bl.width,
            blh == bl.height,
            brw == br.width,
            brh == br.height,
            y <= height,
            pixels@.len() == y * width,
            forall|k: int|
                0 <= k < pixels@.len() ==> pixels@[k] == stitched_pixel(
                    tl,
                    tr,
                    bl,
                    br,
                    left_w as int,
                    top_h as int,
                    k % (width as int),
                    k / (width as int),
                ),
        decreases height - y,
    {
        let mut x: u32 = 0;
        while x < width
            invariant
                tl == top_left@,
                tr == top_right@,
                bl == bottom_left@,
                br == bottom_right@,
                tlw == tl.width,
                tlh == tl.height,
                trw == tr.width,
                trh == tr.height,
                blw == bl.width,
                blh == bl.height,
                brw == br.width,
                brh == br.height,
                y < height,
                x <= width,
                pixels@.len() == y * width + x,
                forall|k: int|
                    0 <= k < pixels@.len() ==> pixels@[k] == stitched_pixel(
                        tl,
                        tr,
                        bl,
                        br,
                        left_w as int,
                        top_h as int,
                        k % (width as int),
                        k / (width as int),
                    ),
            decreases width - x,
        {
            let p: Pixel = if x < left_w {
                if y < top_h {
                    corner_at(top_left, x, y)
                } else {
                    corner_at(bottom_left, x, y - top_h)
                }
            } else {
                if y < top_h {
                    corner_at(top_right, x - left_w, y)
                } else {
                    corner_at(bottom_right, x - left_w, y - top_h)
                }
            };
            let ghost k0 = y * width + x;
            proof {
                vstd::arithmetic::div_mod::lemma_fundamental_div_mod_converse(
                    k0,
                    width as int,
                    y as int,
                    x as int,
                );
            }
            pixels.push(p);
            proof {
                assert forall|k: int| 0 <= k < pixels@.len() implies pixels@[k] == stitched_pixel(
                    tl,
                    tr,
                    bl,
                    br,
                    left_w as int,
                    top_h as int,
                    k % (width as int),
                    k / (width as int),
                ) by {
                    if k == k0 {
                    }
                }
            }
            x = x + 1;
        }
        proof {
            assert((y + 1) * width == y * width + width) by (nonlinear_arith);
        }
        y = y + 1;
    }
    proof {
        assert(pixels@.len() == width * height) by (nonlinear_arith)
            requires
                pixels@.len() == y * width,
                y == height,
        ;
    }
    let out = Bitmap::from_vec(width, height, pixels);
    proof {
        assert(out@.pixels =~= target.pixels);
    }
    out
}

/// The pixel at `(x, y)` of the canvas that the four corners are stitched
/// onto, given the width `lw` of the left column and the height `th` of the
/// upper row.
pub open spec fn stitched_pixel(
    tl: RasterView,
    tr: RasterView,
    bl: RasterView,
    br: RasterView,
    lw: int,
    th: int,
    x: int,
    y: int,
) -> Pixel {
    if x < lw {
        if y < th {
            corner_pixel(tl, x, y)
        } else {
            corner_pixel(bl, x, y - th)
        }
    } else {
        if y < th {
            corner_pixel(tr, x - lw, y)
        } else {
            corner_pixel(br, x - lw, y - th)
        }
    }
}

/// The pixel of `c` at `(i, j)`, or a clear pixel outside `c`.
fn corner_at(c: &Bitmap, i: u32, j: u32) -> (p: Pixel)
    ensures
        p == corner_pixel(c@, i as int, j as int),
{
    if i < c.width() && j < c.height() {
        c.get_pixel(i, j)
    } else {
        [0u8, 0u8, 0u8, 0u8]
    }
}

/// `v`, or 1 when `v` is 0.
pub open spec fn at_least_one(v: u32) -> nat {
    if v == 0 {
        1
    } else {
        v as nat
    }
}

/// Resampling `src` to `w` by `h` stays within memory: the result's buffer
/// fits, and so does the intermediate buffer (the source's width by the
/// target height) that is only made when a non-empty source changes size.
pub open spec fn resize_fits(src: RasterView, w: nat, h: nat) -> bool {
    &&& w * h * 4 <= usize::MAX
    &&& (src.width == 0 || src.height == 0 || (w == src.width && h == src.height)
        || src.width * h * 4 <= usize::MAX)
}

/// Channel `c` of every pixel of `img` is `v`.
pub open spec fn channel_constant(img: RasterView, c: int, v: u8) -> bool {
    forall|k: int| 0 <= k < img.pixels.len() ==> (#[trigger] img.pixels[k])[c] == v
}

/// A non-empty source shrinks by at most a factor of 100 in each direction
/// when it is resampled to `w` by `h`.
pub open spec fn bounded_shrink(src: RasterView, w: nat, h: nat) -> bool {
    &&& src.width > 0
    &&& src.height > 0
    &&& src.width <= 100 * w
    &&& src.height <= 100 * h
}

/// What is known of a resampling of `src` to `w` by `h`: the result has that
/// size; an empty source gives a clear canvas; resampling to the source's
/// own size copies it; and, when the source shrinks by at most a factor of
/// 100 in each direction, a channel that has one value throughout the source
/// has that value throughout the result (so, for instance, an opaque image
/// stays opaque and a one-colour image keeps its colour).
pub open spec fn resize_outcome(src: RasterView, w: nat, h: nat, out: RasterView) -> bool {
    &&& out.width == w
    &&& out.height == h
    &&& out.valid()
    &&& (src.width == 0 || src.height == 0) ==> out == filled_view(w, h, clear_pixel())
    &&& (w == src.width && h == src.height) ==> out == src
    &&& bounded_shrink(src, w, h) ==> forall|c: int, v: u8|
        0 <= c < 4 && #[trigger] channel_constant(src, c, v) ==> channel_constant(out, c, v)
}

/// Rescaling `src` for a requested target stays within memory.
pub open spec fn scale_fits(src: RasterView, target: Option<(u32, u32)>) -> bool {
    match target {
        None => true,
        Some((w, h)) => resize_fits(src, at_least_one(w), at_least_one(h)),
    }
}

/// What rescaling `src` for `target` gives: `src` itself when there is no
/// target, else a resampling to the target size with each side at least 1.
pub open spec fn scaled_outcome(src: RasterView, target: Option<(u32, u32)>, out: RasterView) -> bool {
    match target {
        None => out == src,
        Some((w, h)) => resize_outcome(src, at_least_one(w), at_least_one(h), out),
    }
}

/// `image::imageops::resize` with the `Lanczos3` filter.
///
/// Claimed of it, as its source shows: the result is `new_width` by
/// `new_height`; an empty source gives an all-zero buffer of that size; a
/// request for the source's own size returns a copy; and a channel that is
/// constant in the source stays constant when the source shrinks by at most
/// a factor of 100 per direction. The last holds because each channel is
/// filtered on its own with weights divided by their sum, the intermediate
/// stays in `f32`, and the final value is clamped and rounded to the
/// nearest integer: with at most about 600 filter taps per output value the
/// accumulated `f32` error stays far below the half unit that rounding
/// removes. The resampled pixels themselves are otherwise left unsaid: they
/// come from `f32` arithmetic with `f32::sin`, whose last bits may differ
/// between platform math libraries.
#[verifier::external_body]
fn resize_lanczos3(img: &Bitmap, new_width: u32, new_height: u32) -> (out: Bitmap)
    requires
        resize_fits(img@, new_width as nat, new_height as nat),
    ensures
        resize_outcome(img@, new_width as nat, new_height as nat, out@),
{
    let src = image::RgbaImage::from_fn(img.width(), img.height(), |x, y| image::Rgba(img.get_pixel(x, y)));
    let out = image::imageops::resize(&src, new_width, new_height, image::imageops::FilterType::Lanczos3);
    Bitmap::from_vec(out.width(), out.height(), out.pixels().map(|p| p.0).collect())
}

/// Rescales `img` to `target`, raising a requested side of 0 to 1; without
/// a target the image is returned unchanged.
pub fn resize_to(img: &Bitmap, target: Option<(u32, u32)>) -> (out: Bitmap)
    requires
        scale_fits(img@, target),
    ensures
        scaled_outcome(img@, target, out@),
        out@.valid(),
        target is None ==> out@ == img@,
        target matches Some((w, h)) ==> out@.width == (if w == 0 { 1 } else { w as int })
            && out@.height == (if h == 0 { 1 } else { h as int }),
{
    match target {
        None => img.duplicate(),
        Some((w, h)) => {
            let w = if w == 0 { 1 } else { w };
            let h = if h == 0 { 1 } else { h };
            resize_lanczos3(img, w, h)
        },
    }
}

/// Rescales `img`. `target_size(width, height)` gives, for the image's size,
/// the size to resample to, or `None` to keep the image as it is; the
/// percentage arithmetic behind it is the caller's, in floating point.
pub fn scale_image<F: Fn(u32, u32) -> Option<(u32, u32)>>(img: &Bitmap, target_size: F) -> (out: Bitmap)
    requires
        forall|w: u32, h: u32| call_requires(target_size, (w, h)),
        forall|w: u32, h: u32, t: Option<(u32, u32)>|
            w == img@.width && h == img@.height && #[trigger] call_ensures(target_size, (w, h), t)
                ==> scale_fits(img@, t),
    ensures
        exists|t: Option<(u32, u32)>|
            #[trigger] call_ensures(target_size, (img@.width as u32, img@.height as u32), t)
                && scaled_outcome(img@, t, out@),
        out@.valid(),
{
    let w = img.width();
    let h = img.height();
    let target = target_size(w, h);
    let out = resize_to(img, target);
    assert(call_ensures(target_size, (img@.width as u32, img@.height as u32), target));
    out
}

/// Rescales a whole image, as `scale_image` does.
pub fn scale_full_image<F: Fn(u32, u32) -> Option<(u32, u32)>>(img: &Bitmap, target_size: F) -> (out: Bitmap)
    requires
        forall|w: u32, h: u32| call_requires(target_size, (w, h)),
        forall|w: u32, h: u32, t: Option<(u32, u32)>|
            w == img@.width && h == img@.height && #[trigger] call_ensures(target_size, (w, h), t)
                ==> scale_fits(img@, t),
    ensures
        exists|t: Option<(u32, u32)>|
            #[trigger] call_ensures(target_size, (img@.width as u32, img@.height as u32), t)
                && scaled_outcome(img@, t, out@),
        out@.valid(),
{
    scale_image(img, target_size)
}

/// The image that slicing `item` produces before rescaling.
pub open spec fn item_sliced_view(item: ImageItem) -> RasterView {
    sliced_view(item.original_image@, item.top as nat, item.bottom as nat, item.left as nat, item.right as nat)
}

/// Slicing `item` stays within `u32` dimensions and memory.
pub open spec fn item_slice_fits(item: ImageItem) -> bool {
    slice_fits(item.original_image@, item.top as nat, item.bottom as nat, item.left as nat, item.right as nat)
}

/// Cuts the four corners out of the item's image along its cut lines,
/// stitches them together and rescales the result as `target_size` asks.
///
/// When all four cut parameters are 0 the whole image is rescaled. When the
/// two parameters of one direction are both 0, that direction is not cut:
/// the upper (or left) corners keep the full extent and the others none.
pub fn slice_and_stitch<F: Fn(u32, u32) -> Option<(u32, u32)>>(item: &ImageItem, target_size: F) -> (out: Bitmap)
    requires
        item_slice_fits(*item),
        forall|w: u32, h: u32| call_requires(target_size, (w, h)),
        forall|w: u32, h: u32, t: Option<(u32, u32)>|
            w == item_sliced_view(*item).width && h == item_sliced_view(*item).height
                && #[trigger] call_ensures(target_size, (w, h), t) ==> scale_fits(item_sliced_view(*item), t),
    ensures
        exists|t: Option<(u32, u32)>|
            #[trigger] call_ensures(
                target_size,
                (item_sliced_view(*item).width as u32, item_sliced_view(*item).height as u32),
                t,
            ) && scaled_outcome(item_sliced_view(*item), t, out@),
        out@.valid(),
{
    let img = &item.original_image;
    if item.top == 0 && item.bottom == 0 && item.left == 0 && item.right == 0 {
        return scale_full_image(img, target_size);
    }
    let iw = img.width();
    let ih = img.height();
    let (use_left, use_right) = if item.left == 0 && item.right == 0 {
        (iw, 0u32)
    } else {
        (item.left, item.right)
    };
    let (use_top, use_bottom) = if item.top == 0 && item.bottom == 0 {
        (ih, 0u32)
    } else {
        (item.top, item.bottom)
    };
    let right_x = if use_right < iw { iw - use_right } else { 0 };
    let bottom_y = if use_bottom < ih { ih - use_bottom } else { 0 };
    let top_left = extract_corner(img, 0, 0, use_left, use_top);
    let top_right = extract_corner(img, right_x, 0, use_right, use_top);
    let bottom_left = extract_corner(img, 0, bottom_y, use_left, use_bottom);
    let bottom_right = extract_corner(img, right_x, bottom_y, use_right, use_bottom);
    let stitched = stitch_corners(&top_left, &top_right, &bottom_left, &bottom_right);
    scale_image(&stitched, target_size)
}

/// The smaller of `a` and `b`.
pub open spec fn min_nat(a: nat, b: nat) -> nat {
    if a < b {
        a
    } else {
        b
    }
}

/// Slicing with all four cut parameters 0 keeps the whole image.
pub proof fn law_uncut_keeps_image(img: RasterView)
    ensures
        sliced_view(img, 0, 0, 0, 0) == img,
{
}

/// The size of a sliced image: in each direction the two used cut
/// parameters, each limited to the image's extent, added up. In particular
/// a direction whose two parameters are 0 keeps the image's full extent.
pub proof fn law_sliced_size(img: RasterView, top: nat, bottom: nat, left: nat, right: nat)
    requires
        img.valid(),
        img.width > 0,
        img.height > 0,
    ensures
        ({
            let (ul, ur, ut, ub) = used_cuts(img, top, bottom, left, right);
            &&& sliced_view(img, top, bottom, left, right).width == min_nat(ul, img.width) + min_nat(
                ur,
                img.width,
            )
            &&& sliced_view(img, top, bottom, left, right).height == min_nat(ut, img.height)
                + min_nat(ub, img.height)
        }),
        left == 0 && right == 0 ==> sliced_view(img, top, bottom, left, right).width == img.width,
        top == 0 && bottom == 0 ==> sliced_view(img, top, bottom, left, right).height == img.height,
{
    if !uncut(top, bottom, left, right) {
        lemma_corner_sizes(img, top, bottom, left, right);
    }
}

/// The sizes of the four corners of a non-empty image.
proof fn lemma_corner_sizes(img: RasterView, top: nat, bottom: nat, left: nat, right: nat)
    requires
        img.valid(),
        img.width > 0,
        img.height > 0,
    ensures
        ({
            let (ul, ur, ut, ub) = used_cuts(img, top, bottom, left, right);
            let (tl, tr, bl, br) = corners(img, top, bottom, left, right);
            let lw = min_nat(ul, img.width);
            let rw = min_nat(ur, img.width);
            let th = min_nat(ut, img.height);
            let bh = min_nat(ub, img.height);
            &&& left_width(tl, bl) == lw
            &&& max_nat(tr.width, br.width) == rw
            &&& top_height(tl, tr) == th
            &&& max_nat(bl.height, br.height) == bh
            &&& lw + rw > 0
            &&& th + bh > 0
            &&& (lw > 0 && th > 0 ==> tl == crop_view(img, 0, 0, ul as int, ut as int))
            &&& (rw > 0 && th > 0 ==> tr == crop_view(
                img,
                img.width - rw,
                0,
                ur as int,
                ut as int,
            ))
            &&& (lw > 0 && bh > 0 ==> bl == crop_view(
                img,
                0,
                img.height - bh,
                ul as int,
                ub as int,
            ))
            &&& (rw > 0 && bh > 0 ==> br == crop_view(
                img,
                img.width - rw,
                img.height - bh,
                ur as int,
                ub as int,
            ))
        }),
{
}

/// Every pixel of a sliced image comes from the matching corner of the
/// original: with `lw`, `rw`, `th`, `bh` the used cut parameters limited to
/// the image, the upper left `lw` by `th` block is the image's upper left
/// block, the upper right `rw` by `th` block is the image's upper right
/// block, and likewise below. Together with `law_sliced_size` this fixes
/// the sliced image completely.
pub proof fn law_corners_in_quadrants(
    img: RasterView,
    top: nat,
    bottom: nat,
    left: nat,
    right: nat,
    x: int,
    y: int,
)
    requires
        img.valid(),
        img.width > 0,
        img.height > 0,
        !uncut(top, bottom, left, right),
        0 <= x,
        0 <= y,
    ensures
        ({
            let (ul, ur, ut, ub) = used_cuts(img, top, bottom, left, right);
            let lw = min_nat(ul, img.width) as int;
            let rw = min_nat(ur, img.width) as int;
            let th = min_nat(ut, img.height) as int;
            let bh = min_nat(ub, img.height) as int;
            let out = sliced_view(img, top, bottom, left, right);
            &&& x < lw && y < th ==> out.at(x, y) == img.at(x, y)
            &&& x < rw && y < th ==> out.at(lw + x, y) == img.at(img.width - rw + x, y)
            &&& x < lw && y < bh ==> out.at(x, th + y) == img.at(x, img.height - bh + y)
            &&& x < rw && y < bh ==> out.at(lw + x, th + y) == img.at(
                img.width - rw + x,
                img.height - bh + y,
            )
        }),
{
    let (ul, ur, ut, ub) = used_cuts(img, top, bottom, left, right);
    let (tl, tr, bl, br) = corners(img, top, bottom, left, right);
    let lw = min_nat(ul, img.width) as int;
    let rw = min_nat(ur, img.width) as int;
    let th = min_nat(ut, img.height) as int;
    let bh = min_nat(ub, img.height) as int;
    lemma_corner_sizes(img, top, bottom, left, right);
    let w = (lw + rw) as nat;
    let h = (th + bh) as nat;
    let f = |a: int, b: int| stitched_pixel(tl, tr, bl, br, lw, th, a, b);
    assert(sliced_view(img, top, bottom, left, right) == tabulate(w, h, f));
    if x < lw && y < th {
        lemma_tabulate_at(w, h, f, x, y);
        lemma_crop_at(img, 0, 0, ul as int, ut as int, x, y);
    }
    if x < rw && y < th {
        lemma_tabulate_at(w, h, f, lw + x, y);
        lemma_crop_at(img, img.width - rw, 0, ur as int, ut as int, x, y);
    }
    if x < lw && y < bh {
        lemma_tabulate_at(w, h, f, x, th + y);
        lemma_crop_at(img, 0, img.height - bh, ul as int, ub as int, x, y);
    }
    if x < rw && y < bh {
        lemma_tabulate_at(w, h, f, lw + x, th + y);
        lemma_crop_at(img, img.width - rw, img.height - bh, ur as int, ub as int, x, y);
    }
}

/// When the item's recorded size is that of its image and every cut
/// parameter lies within the image, the size that the cut lines describe
/// (`ImageItem::cut_extent`) is the size of the image that slicing produces
/// before rescaling.
pub proof fn law_cut_size_is_sliced_size(item: ImageItem)
    requires
        item.original_image@.valid(),
        item.original_image@.width > 0,
        item.original_image@.height > 0,
        item.width == item.original_image@.width,
        item.height == item.original_image@.height,
        item.left <= item.width,
        item.right <= item.width,
        item.top <= item.height,
        item.bottom <= item.height,
    ensures
        item_sliced_view(item).width == item.cut_extent().0,
        item_sliced_view(item).height == item.cut_extent().1,
{
    law_sliced_size(
        item.original_image@,
        item.top as nat,
        item.bottom as nat,
        item.left as nat,
        item.right as nat,
    );
}

/// A corner never reaches beyond the image: it is at most as large as
/// requested, and it fits inside the image from its (moved) start.
pub proof fn law_corner_within_image(img: RasterView, x: nat, y: nat, w: nat, h: nat)
    ensures
        corner_view(img, x, y, w, h).width <= w,
        corner_view(img, x, y, w, h).height <= h,
        min_nat(x, img.width) + corner_view(img, x, y, w, h).width <= img.width,
        min_nat(y, img.height) + corner_view(img, x, y, w, h).height <= img.height,
{
}

/// The size of a stitched canvas.
proof fn lemma_stitch_view_size(tl: RasterView, tr: RasterView, bl: RasterView, br: RasterView)
    ensures
        ({
            let (w, h) = stitch_size(tl, tr, bl, br);
            &&& stitch_view(tl, tr, bl, br).width == (if w == 0 || h == 0 { 1 } else { w })
            &&& stitch_view(tl, tr, bl, br).height == (if w == 0 || h == 0 { 1 } else { h })
        }),
{
}

/// The size of one corner, as `corner_view` gives it, for an image of the
/// given size.
fn corner_size(img: &Bitmap, x: u32, y: u32, w: u32, h: u32) -> (r: (u32, u32))
    ensures
        r.0 == corner_view(img@, x as nat, y as nat, w as nat, h as nat).width,
        r.1 == corner_view(img@, x as nat, y as nat, w as nat, h as nat).height,
{
    if w == 0 || h == 0 {
        return (0, 0);
    }
    let iw = img.width();
    let ih = img.height();
    let cx = if x < iw { x } else { iw };
    let cy = if y < ih { y } else { ih };
    let cw = if w < iw - cx { w } else { iw - cx };
    let ch = if h < ih - cy { h } else { ih - cy };
    (cw, ch)
}

/// The size of the image that slicing `item` produces before rescaling, or
/// `None` when that image would not fit `u32` dimensions or memory (the
/// inputs that `slice_and_stitch` does not accept).
#[verifier::rlimit(40)]
pub fn sliced_size(item: &ImageItem) -> (r: Option<(u32, u32)>)
    ensures
        r is Some <==> item_slice_fits(*item),
        r matches Some((w, h)) ==> w == item_sliced_view(*item).width && h == item_sliced_view(
            *item,
        ).height,
{
    let img = &item.original_image;
    let iw = img.width();
    let ih = img.height();
    if item.top == 0 && item.bottom == 0 && item.left == 0 && item.right == 0 {
        return Some((iw, ih));
    }
    let (use_left, use_right) = if item.left == 0 && item.right == 0 {
        (iw, 0u32)
    } else {
        (item.left, item.right)
    };
    let (use_top, use_bottom) = if item.top == 0 && item.bottom == 0 {
        (ih, 0u32)
    } else {
        (item.top, item.bottom)
    };
    let right_x = if use_right < iw { iw - use_right } else { 0 };
    let bottom_y = if use_bottom < ih { ih - use_bottom } else { 0 };
    let tl = corner_size(img, 0, 0, use_left, use_top);
    let tr = corner_size(img, right_x, 0, use_right, use_top);
    let bl = corner_size(img, 0, bottom_y, use_left, use_bottom);
    let br = corner_size(img, right_x, bottom_y, use_right, use_bottom);
    let ghost v = img@;
    proof {
        let (a, b, c, d) = corners(v, item.top as nat, item.bottom as nat, item.left as nat, item.right as nat);
        lemma_stitch_view_size(a, b, c, d);
    }
    let ghost (ctl, ctr, cbl, cbr) = corners(v, item.top as nat, item.bottom as nat, item.left as nat, item.right as nat);
    assert(ctl == corner_view(v, 0u32 as nat, 0u32 as nat, use_left as nat, use_top as nat));
    assert(ctr == corner_view(v, right_x as nat, 0u32 as nat, use_right as nat, use_top as nat));
    assert(cbl == corner_view(v, 0u32 as nat, bottom_y as nat, use_left as nat, use_bottom as nat));
    assert(cbr == corner_view(v, right_x as nat, bottom_y as nat, use_right as nat, use_bottom as nat));
    canvas_size(tl, tr, bl, br)
}

/// The size of the canvas that corners of the given sizes are stitched onto
/// (a canvas with no area counts as one pixel), or `None` when it would not
/// fit `u32` dimensions or memory.
fn canvas_size(tl: (u32, u32), tr: (u32, u32), bl: (u32, u32), br: (u32, u32)) -> (r: Option<(u32, u32)>)
    ensures
        ({
            let w = max_nat(tl.0 as nat, bl.0 as nat) + max_nat(tr.0 as nat, br.0 as nat);
            let h = max_nat(tl.1 as nat, tr.1 as nat) + max_nat(bl.1 as nat, br.1 as nat);
            &&& r is Some <==> (w <= u32::MAX && h <= u32::MAX && w * h * 4 <= usize::MAX)
            &&& r matches Some((rw, rh)) ==> (if w == 0 || h == 0 {
                rw == 1 && rh == 1
            } else {
                rw == w && rh == h
            })
        }),
{
    let left_w: u64 = if tl.0 < bl.0 { bl.0 as u64 } else { tl.0 as u64 };
    let right_w: u64 = if tr.0 < br.0 { br.0 as u64 } else { tr.0 as u64 };
    let top_h: u64 = if tl.1 < tr.1 { tr.1 as u64 } else { tl.1 as u64 };
    let bottom_h: u64 = if bl.1 < br.1 { br.1 as u64 } else { bl.1 as u64 };
    let w: u64 = left_w + right_w;
    let h: u64 = top_h + bottom_h;
    if w > u32::MAX as u64 || h > u32::MAX as u64 {
        return None;
    }
    assert((w as u128) * (h as u128) * 4 <= 0x4_0000_0000_0000_0000u128) by (nonlinear_arith)
        requires
            w <= 0xffff_ffffu64,
            h <= 0xffff_ffffu64,
    ;
    let area: u128 = (w as u128) * (h as u128) * 4;
    if area > usize::MAX as u128 {
        return None;
    }
    if w == 0 || h == 0 {
        return Some((1, 1));
    }
    Some((w as u32, h as u32))
}

} // verus!
