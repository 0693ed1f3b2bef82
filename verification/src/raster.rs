//! An 8-bit RGBA raster held row by row, and the operations on it that do
//! not need resampling.

use vstd::prelude::*;
use vstd::arithmetic::div_mod::lemma_fundamental_div_mod_converse;

verus! {

/// One RGBA pixel, channels in the order red, green, blue, alpha.
pub type Pixel = [u8; 4];

/// The fully transparent black pixel that fresh canvases are filled with.
pub open spec fn clear_pixel() -> Pixel {
    [0u8, 0u8, 0u8, 0u8]
}

/// The mathematical content of a raster: its size and its pixels, row after row.
pub struct RasterView {
    pub width: nat,
    pub height: nat,
    pub pixels: Seq<Pixel>,
}

impl RasterView {
    /// The pixel in column `x` of row `y`.
    pub open spec fn at(self, x: int, y: int) -> Pixel {
        self.pixels[y * self.width + x]
    }

    /// The pixel sequence has exactly one entry per position.
    pub open spec fn wf(self) -> bool {
        self.pixels.len() == self.width * self.height
    }

    /// The size fits the `u32` dimensions and the byte buffer of an RGBA
    /// image of that size fits `usize`.
    pub open spec fn fits(self) -> bool {
        &&& self.width <= u32::MAX
        &&& self.height <= u32::MAX
        &&& self.width * self.height * 4 <= usize::MAX
    }

    pub open spec fn valid(self) -> bool {
        self.wf() && self.fits()
    }
}

/// The raster of the given size whose pixel at `(x, y)` is `f(x, y)`.
pub open spec fn tabulate(width: nat, height: nat, f: spec_fn(int, int) -> Pixel) -> RasterView {
    RasterView {
        width,
        height,
        pixels: Seq::new(width * height, |k: int| f(k % (width as int), k / (width as int))),
    }
}

/// A raster of one colour.
pub open spec fn filled_view(width: nat, height: nat, p: Pixel) -> RasterView {
    tabulate(width, height, |x: int, y: int| p)
}

/// The part of `src` that starts at column `x`, row `y` and spans `w` by `h`
/// pixels, with the start and the size first cut down to what lies inside
/// `src`.
pub open spec fn crop_view(src: RasterView, x: int, y: int, w: int, h: int) -> RasterView {
    let cx = if x < src.width { x } else { src.width as int };
    let cy = if y < src.height { y } else { src.height as int };
    let cw = if w < src.width - cx { w } else { src.width - cx };
    let ch = if h < src.height - cy { h } else { src.height - cy };
    tabulate(cw as nat, ch as nat, |i: int, j: int| src.at(cx + i, cy + j))
}

/// Inside its bounds a tabulated raster holds the tabulated value.
pub proof fn lemma_tabulate_at(width: nat, height: nat, f: spec_fn(int, int) -> Pixel, x: int, y: int)
    requires
        0 <= x < width,
        0 <= y < height,
    ensures
        tabulate(width, height, f).wf(),
        tabulate(width, height, f).at(x, y) == f(x, y),
{
    lemma_index_in_bounds(x, y, width as int, height as int);
    lemma_fundamental_div_mod_converse(y * width + x, width as int, y, x);
}

/// Inside its bounds a cropped raster holds the source pixel at the
/// corresponding position.
pub proof fn lemma_crop_at(src: RasterView, x: int, y: int, w: int, h: int, i: int, j: int)
    requires
        0 <= i < crop_view(src, x, y, w, h).width,
        0 <= j < crop_view(src, x, y, w, h).height,
    ensures
        crop_view(src, x, y, w, h).wf(),
        crop_view(src, x, y, w, h).at(i, j) == src.at(
            (if x < src.width { x } else { src.width as int }) + i,
            (if y < src.height { y } else { src.height as int }) + j,
        ),
{
    let cx = if x < src.width { x } else { src.width as int };
    let cy = if y < src.height { y } else { src.height as int };
    let cw = if w < src.width - cx { w } else { src.width - cx };
    let ch = if h < src.height - cy { h } else { src.height - cy };
    lemma_tabulate_at(cw as nat, ch as nat, |a: int, b: int| src.at(cx + a, cy + b), i, j);
}

/// Position `(x, y)` of a `w` by `h` raster lies inside its pixel sequence.
pub proof fn lemma_index_in_bounds(x: int, y: int, w: int, h: int)
    requires
        0 <= x < w,
        0 <= y < h,
    ensures
        0 <= y * w + x < w * h,
        y * w + x + 1 <= w * h,
{
    assert(0 <= y * w) by (nonlinear_arith)
        requires
            0 <= y,
            0 <= w,
    ;
    assert(y * w + x < w * h) by (nonlinear_arith)
        requires
            0 <= x < w,
            0 <= y < h,
    ;
}

/// An RGBA raster with 8 bits per channel, the in-memory form of the images
/// that are sliced and exported.
pub struct Bitmap {
    width: u32,
    height: u32,
    pixels: Vec<Pixel>,
}

impl Clone for Bitmap {
    fn clone(&self) -> (out: Self)
        ensures
            out@ == self@,
    {
        self.duplicate()
    }
}

impl View for Bitmap {
    type V = RasterView;

    closed spec fn view(&self) -> RasterView {
        RasterView { width: self.width as nat, height: self.height as nat, pixels: self.pixels@ }
    }
}

impl Bitmap {
    #[verifier::type_invariant]
    closed spec fn inv(self) -> bool {
        self@.valid()
    }

    /// A bitmap over the given pixels, row after row.
    pub fn from_vec(width: u32, height: u32, pixels: Vec<Pixel>) -> (out: Bitmap)
        requires
            pixels@.len() == width * height,
            width * height * 4 <= usize::MAX,
        ensures
            out@ == (RasterView { width: width as nat, height: height as nat, pixels: pixels@ }),
            out@.valid(),
    {
        Bitmap { width, height, pixels }
    }

    /// A bitmap over the given pixels, or `None` when their number is not
    /// `width * height` or the image would not fit in memory.
    pub fn try_from_vec(width: u32, height: u32, pixels: Vec<Pixel>) -> (out: Option<Bitmap>)
        ensures
            out is Some <==> (pixels@.len() == width * height && width * height * 4 <= usize::MAX),
            out matches Some(b) ==> b@ == (RasterView {
                width: width as nat,
                height: height as nat,
                pixels: pixels@,
            }),
    {
        let area = (width as u64).checked_mul(height as u64);
        match area {
            None => None,
            Some(a) => {
                if a > (usize::MAX as u64) / 4 {
                    None
                } else if pixels.len() as u64 != a {
                    None
                } else {
                    Some(Bitmap { width, height, pixels })
                }
            },
        }
    }

    /// A `width` by `height` bitmap with every pixel equal to `p`.
    pub fn from_pixel(width: u32, height: u32, p: Pixel) -> (out: Bitmap)
        requires
            width * height * 4 <= usize::MAX,
        ensures
            out@ == filled_view(width as nat, height as nat, p),
            out@.valid(),
    {
        let total: usize = (width as usize) * (height as usize);
        let mut pixels: Vec<Pixel> = Vec::new();
        let mut k: usize = 0;
        while k < total
            invariant
                total == width * height,
                k <= total,
                pixels@.len() == k,
                forall|i: int| 0 <= i < k ==> pixels@[i] == p,
            decreases total - k,
        {
            pixels.push(p);
            k = k + 1;
        }
        let out = Bitmap { width, height, pixels };
        assert(out@.pixels =~= filled_view(width as nat, height as nat, p).pixels);
        out
    }

    /// A `width` by `height` bitmap of transparent black pixels.
    pub fn new(width: u32, height: u32) -> (out: Bitmap)
        requires
            width * height * 4 <= usize::MAX,
        ensures
            out@ == filled_view(width as nat, height as nat, clear_pixel()),
            out@.valid(),
    {
        Bitmap::from_pixel(width, height, [0u8, 0u8, 0u8, 0u8])
    }

    pub fn width(&self) -> (w: u32)
        ensures
            w == self@.width,
            self@.valid(),
    {
        proof {
            use_type_invariant(self);
        }
        self.width
    }

    pub fn height(&self) -> (h: u32)
        ensures
            h == self@.height,
            self@.valid(),
    {
        proof {
            use_type_invariant(self);
        }
        self.height
    }

    /// The pixels, row after row.
    pub fn pixels(&self) -> (p: &Vec<Pixel>)
        ensures
            p@ == self@.pixels,
            self@.valid(),
    {
        proof {
            use_type_invariant(self);
        }
        &self.pixels
    }

    /// The pixel in column `x` of row `y`.
    pub fn get_pixel(&self, x: u32, y: u32) -> (p: Pixel)
        requires
            x < self@.width,
            y < self@.height,
        ensures
            p == self@.at(x as int, y as int),
    {
        proof {
            use_type_invariant(self);
            lemma_index_in_bounds(x as int, y as int, self.width as int, self.height as int);
        }
        let idx: usize = (y as usize) * (self.width as usize) + (x as usize);
        self.pixels[idx]
    }

    /// An independent copy with the same size and pixels.
    pub fn duplicate(&self) -> (out: Bitmap)
        ensures
            out@ == self@,
            out@.valid(),
    {
        proof {
            use_type_invariant(self);
        }
        let n = self.pixels.len();
        let mut pixels: Vec<Pixel> = Vec::new();
        let mut k: usize = 0;
        while k < n
            invariant
                n == self.pixels@.len(),
                k <= n,
                pixels@ =~= self.pixels@.subrange(0, k as int),
            decreases n - k,
        {
            pixels.push(self.pixels[k]);
            k = k + 1;
        }
        assert(pixels@ =~= self.pixels@);
        Bitmap { width: self.width, height: self.height, pixels }
    }

    /// The part of the bitmap that starts at column `x`, row `y` and spans
    /// `w` by `h` pixels; a start beyond the edge is moved onto it and the
    /// size is cut down to what lies inside the bitmap.
    pub fn crop(&self, x: u32, y: u32, w: u32, h: u32) -> (out: Bitmap)
        ensures
            out@ == crop_view(self@, x as int, y as int, w as int, h as int),
            out@.valid(),
            ({
                let cx = if x < self@.width { x as nat } else { self@.width };
                let cy = if y < self@.height { y as nat } else { self@.height };
                &&& out@.width == (if w < self@.width - cx { w as int } else { self@.width - cx })
                &&& out@.height == (if h < self@.height - cy { h as int } else { self@.height - cy })
                &&& forall|i: int, j: int|
                    0 <= i < out@.width && 0 <= j < out@.height ==> #[trigger] out@.at(i, j)
                        == self@.at(cx + i, cy + j)
            }),
    {
        proof {
            use_type_invariant(self);
        }
        let cx: u32 = if x < self.width { x } else { self.width };
        let cy: u32 = if y < self.height { y } else { self.height };
        let cw: u32 = if w < self.width - cx { w } else { self.width - cx };
        let ch: u32 = if h < self.height - cy { h } else { self.height - cy };
        let ghost src = self@;
        proof {
            assert(cw * ch <= self.width * self.height) by (nonlinear_arith)
                requires
                    cw <= self.width,
                    ch <= self.height,
            ;
        }
        let mut pixels: Vec<Pixel> = Vec::new();
        let mut j: u32 = 0;
        while j < ch
            invariant
                self@ == src,
                src.valid(),
                src.width == self.width,
                src.height == self.height,
                cx + cw <= self.width,
                cy + ch <= self.height,
                j <= ch,
                pixels@.len() == j * cw,
                forall|k: int| 0 <= k < pixels@.len() ==> pixels@[k] == src.at(cx + k % (cw as int), cy + k / (cw as int)),
            decreases ch - j,
        {
            let mut i: u32 = 0;
            while i < cw
                invariant
                    self@ == src,
                    src.valid(),
                    src.width == self.width,
                    src.height == self.height,
                    cx + cw <= self.width,
                    cy + ch <= self.height,
                    j < ch,
                    i <= cw,
                    pixels@.len() == j * cw + i,
                    forall|k: int| 0 <= k < pixels@.len() ==> pixels@[k] == src.at(cx + k % (cw as int), cy + k / (cw as int)),
                decreases cw - i,
            {
                let p = self.get_pixel(cx + i, cy + j);
                let ghost k0 = j * cw + i;
                proof {
                    lemma_fundamental_div_mod_converse(k0, cw as int, j as int, i as int);
                    assert(k0 % (cw as int) == i);
                    assert(k0 / (cw as int) == j);

                }
                pixels.push(p);
                proof {
                    assert forall|k: int| 0 <= k < pixels@.len() implies pixels@[k] == src.at(cx + k % (cw as int), cy + k / (cw as int)) by {
                        if k < k0 {
                        } else {
                            assert(k == k0);
                        }
                    }
                }
                i = i + 1;
            }
            proof {
                assert((j + 1) * cw == j * cw + cw) by (nonlinear_arith);
            }
            j = j + 1;
        }
        assert(cw * ch * 4 <= usize::MAX) by (nonlinear_arith)
            requires
                cw * ch <= self.width * self.height,
                self.width * self.height * 4 <= usize::MAX,
        ;
        assert(pixels@.len() == cw * ch) by (nonlinear_arith)
            requires
                pixels@.len() == j * cw,
                j == ch,
        ;
        let out = Bitmap { width: cw, height: ch, pixels };
        assert(out@.pixels =~= crop_view(src, x as int, y as int, w as int, h as int).pixels);
        proof {
            assert forall|i: int, j: int|
                0 <= i < out@.width && 0 <= j < out@.height implies #[trigger] out@.at(i, j)
                    == src.at(cx + i, cy + j) by {
                lemma_crop_at(src, x as int, y as int, w as int, h as int, i, j);
            }
        }
        out
    }
}

} // verus!
