//! One opened image together with the four cut lines that the user places on
//! it.

use vstd::prelude::*;
use crate::raster::{Bitmap, RasterView};
use crate::paths::{file_name_of, path_file_name};

verus! {

/// The smaller of `v` and `limit`.
pub open spec fn clamped(v: u32, limit: u32) -> u32 {
    if v < limit {
        v
    } else {
        limit
    }
}

/// The name that is shown for the file at `path`: its last component, or
/// nothing when the path has none.
pub open spec fn display_name(path: Seq<char>) -> Seq<char> {
    match path_file_name(path) {
        Some(n) => n,
        None => Seq::empty(),
    }
}

/// One image being worked on.
///
/// The four cut parameters are distances in pixels: `top` from the upper
/// edge, `bottom` from the lower edge, `left` from the left edge and `right`
/// from the right edge. A value of 0 on both sides of a direction means that
/// this direction is not cut.
pub struct ImageItem {
    /// Where the image was read from.
    pub file_path: String,
    /// The last component of `file_path`.
    pub file_name: String,
    /// The image as it was read.
    pub original_image: Bitmap,
    pub width: u32,
    pub height: u32,
    pub top: u32,
    pub bottom: u32,
    pub left: u32,
    pub right: u32,
    /// The last result of slicing, when one was made.
    pub preview_image: Option<Bitmap>,
}

impl Clone for ImageItem {
    fn clone(&self) -> (out: Self)
        ensures
            out.same_source(*self),
            out.top == self.top,
            out.bottom == self.bottom,
            out.left == self.left,
            out.right == self.right,
    {
        ImageItem {
            file_path: self.file_path.clone(),
            file_name: self.file_name.clone(),
            original_image: self.original_image.clone(),
            width: self.width,
            height: self.height,
            top: self.top,
            bottom: self.bottom,
            left: self.left,
            right: self.right,
            preview_image: match &self.preview_image {
                Some(p) => Some(p.clone()),
                None => None,
            },
        }
    }
}

impl ImageItem {
    /// Everything but the four cut parameters agrees.
    pub open spec fn same_source(self, other: ImageItem) -> bool {
        &&& self.file_path@ == other.file_path@
        &&& self.file_name@ == other.file_name@
        &&& self.original_image@ == other.original_image@
        &&& self.width == other.width
        &&& self.height == other.height
        &&& match (self.preview_image, other.preview_image) {
            (Some(a), Some(b)) => a@ == b@,
            (None, None) => true,
            _ => false,
        }
    }

    /// A new item for `image` read from `file_path`, with no cut.
    pub fn new(file_path: String, image: Bitmap) -> (item: ImageItem)
        ensures
            item.file_path@ == file_path@,
            item.file_name@ == display_name(file_path@),
            path_file_name(file_path@) matches Some(n) ==> item.file_name@ == n,
            path_file_name(file_path@) is None ==> item.file_name@.len() == 0,
            item.original_image@ == image@,
            item.width == image@.width,
            item.height == image@.height,
            item.top == 0,
            item.bottom == 0,
            item.left == 0,
            item.right == 0,
            item.preview_image is None,
    {
        let file_name = match file_name_of(file_path.as_str()) {
            Some(n) => n,
            None => String::new(),
        };
        let width = image.width();
        let height = image.height();
        ImageItem {
            file_path,
            file_name,
            original_image: image,
            width,
            height,
            top: 0,
            bottom: 0,
            left: 0,
            right: 0,
            preview_image: None,
        }
    }

    /// Takes over the cut parameters of `other`, each scaled from `other`'s
    /// size to this image's size by `rescale(value, new_extent, old_extent)`
    /// and then limited to half of this image's extent in that direction.
    ///
    /// The proportional scaling is done in floating point by the caller.
    pub fn copy_params_from<F: Fn(u32, u32, u32) -> u32>(&mut self, other: &ImageItem, rescale: F)
        requires
            forall|v: u32, n: u32, d: u32| call_requires(rescale, (v, n, d)),
        ensures
            final(self).same_source(*old(self)),
            exists|t: u32|
                call_ensures(rescale, (other.top, old(self).height, other.height), t)
                    && final(self).top == clamped(t, (old(self).height / 2) as u32),
            exists|b: u32|
                call_ensures(rescale, (other.bottom, old(self).height, other.height), b)
                    && final(self).bottom == clamped(b, (old(self).height / 2) as u32),
            exists|l: u32|
                call_ensures(rescale, (other.left, old(self).width, other.width), l)
                    && final(self).left == clamped(l, (old(self).width / 2) as u32),
            exists|r: u32|
                call_ensures(rescale, (other.right, old(self).width, other.width), r)
                    && final(self).right == clamped(r, (old(self).width / 2) as u32),
            final(self).top <= old(self).height / 2,
            final(self).bottom <= old(self).height / 2,
            final(self).left <= old(self).width / 2,
            final(self).right <= old(self).width / 2,
    {
        let half_h = self.height / 2;
        let half_w = self.width / 2;
        let t = rescale(other.top, self.height, other.height);
        let b = rescale(other.bottom, self.height, other.height);
        let l = rescale(other.left, self.width, other.width);
        let r = rescale(other.right, self.width, other.width);
        self.top = if t < half_h { t } else { half_h };
        self.bottom = if b < half_h { b } else { half_h };
        self.left = if l < half_w { l } else { half_w };
        self.right = if r < half_w { r } else { half_w };
    }

    /// Keeps the cut lines inside the image and keeps opposite lines from
    /// crossing.
    ///
    /// Each parameter is first limited to the image's extent in its
    /// direction. When the two parameters of a direction then add up to more
    /// than that extent, both are scaled by `rescale(value, extent, sum)`,
    /// which the caller computes in floating point.
    pub fn validate_params<F: Fn(u32, u32, u32) -> u32>(&mut self, rescale: F)
        requires
            forall|v: u32, n: u32, d: u32| call_requires(rescale, (v, n, d)),
            clamped(old(self).top, old(self).height) + clamped(old(self).bottom, old(self).height)
                <= u32::MAX,
            clamped(old(self).left, old(self).width) + clamped(old(self).right, old(self).width)
                <= u32::MAX,
        ensures
            final(self).same_source(*old(self)),
            ({
                let t = clamped(old(self).top, old(self).height);
                let b = clamped(old(self).bottom, old(self).height);
                let h = old(self).height;
                &&& t + b <= h ==> final(self).top == t && final(self).bottom == b
                &&& t + b > h ==> call_ensures(rescale, (t, h, (t + b) as u32), final(self).top)
                    && call_ensures(rescale, (b, h, (t + b) as u32), final(self).bottom)
            }),
            ({
                let l = clamped(old(self).left, old(self).width);
                let r = clamped(old(self).right, old(self).width);
                let w = old(self).width;
                &&& l + r <= w ==> final(self).left == l && final(self).right == r
                &&& l + r > w ==> call_ensures(rescale, (l, w, (l + r) as u32), final(self).left)
                    && call_ensures(rescale, (r, w, (l + r) as u32), final(self).right)
            }),
            old(self).top + old(self).bottom <= old(self).height ==> final(self).top == old(self).top
                && final(self).bottom == old(self).bottom,
            old(self).left + old(self).right <= old(self).width ==> final(self).left == old(self).left
                && final(self).right == old(self).right,
            ({
                let t = clamped(old(self).top, old(self).height);
                let b = clamped(old(self).bottom, old(self).height);
                let h = old(self).height;
                (forall|r1: u32, r2: u32|
                    #[trigger] call_ensures(rescale, (t, h, (t + b) as u32), r1) && #[trigger] call_ensures(
                        rescale,
                        (b, h, (t + b) as u32),
                        r2,
                    ) ==> r1 + r2 <= h) ==> final(self).top + final(self).bottom <= final(self).height
            }),
            ({
                let l = clamped(old(self).left, old(self).width);
                let r = clamped(old(self).right, old(self).width);
                let w = old(self).width;
                (forall|r1: u32, r2: u32|
                    #[trigger] call_ensures(rescale, (l, w, (l + r) as u32), r1) && #[trigger] call_ensures(
                        rescale,
                        (r, w, (l + r) as u32),
                        r2,
                    ) ==> r1 + r2 <= w) ==> final(self).left + final(self).right <= final(self).width
            }),
    {
        if self.top > self.height {
            self.top = self.height;
        }
        if self.bottom > self.height {
            self.bottom = self.height;
        }
        if self.left > self.width {
            self.left = self.width;
        }
        if self.right > self.width {
            self.right = self.width;
        }
        if self.top + self.bottom > self.height {
            let total = self.top + self.bottom;
            let t = rescale(self.top, self.height, total);
            let b = rescale(self.bottom, self.height, total);
            self.top = t;
            self.bottom = b;
        }
        if self.left + self.right > self.width {
            let total = self.left + self.right;
            let l = rescale(self.left, self.width, total);
            let r = rescale(self.right, self.width, total);
            self.left = l;
            self.right = r;
        }
    }

    /// The size that the cut lines describe: in each direction the sum of
    /// the two parameters, or the whole extent of the image when both are 0.
    pub open spec fn cut_extent(self) -> (int, int) {
        (
            if self.left == 0 && self.right == 0 {
                self.width as int
            } else {
                self.left + self.right
            },
            if self.top == 0 && self.bottom == 0 {
                self.height as int
            } else {
                self.top + self.bottom
            },
        )
    }

    /// The size that the cut lines describe, as `cut_extent` defines it.
    pub fn cut_size(&self) -> (size: (u32, u32))
        requires
            self.left + self.right <= u32::MAX,
            self.top + self.bottom <= u32::MAX,
        ensures
            size.0 == self.cut_extent().0,
            size.1 == self.cut_extent().1,
            self.left == 0 && self.right == 0 ==> size.0 == self.width,
            !(self.left == 0 && self.right == 0) ==> size.0 == self.left + self.right,
            self.top == 0 && self.bottom == 0 ==> size.1 == self.height,
            !(self.top == 0 && self.bottom == 0) ==> size.1 == self.top + self.bottom,
    {
        let w = if self.left == 0 && self.right == 0 {
            self.width
        } else {
            self.left + self.right
        };
        let h = if self.top == 0 && self.bottom == 0 {
            self.height
        } else {
            self.top + self.bottom
        };
        (w, h)
    }
}

/// `value` read as a 32-bit signed integer, as the `as i32` cast does:
/// values above `i32::MAX` wrap to negative numbers.
pub open spec fn as_i32(value: u32) -> int {
    if value <= i32::MAX {
        value as int
    } else {
        value - 0x1_0000_0000
    }
}

/// A cut parameter moved by a signed number of pixels, as dragging its guide
/// line does: the parameter is read as an `i32` (wrapping above `i32::MAX`),
/// the delta is added, and the sum is kept from going below 0.
pub fn shift_cut(value: u32, delta: i32) -> (out: u32)
    requires
        i32::MIN <= as_i32(value) + delta <= i32::MAX,
    ensures
        out == (if as_i32(value) + delta < 0 { 0 } else { as_i32(value) + delta }),
{
    let signed: i64 = if value <= 0x7fff_ffffu32 {
        value as i64
    } else {
        value as i64 - 0x1_0000_0000i64
    };
    let moved: i64 = signed + delta as i64;
    if moved < 0 {
        0
    } else {
        moved as u32
    }
}

/// Limiting a value keeps it when it is within the limit and gives the limit
/// otherwise; the result never exceeds the limit.
pub proof fn law_clamped(v: u32, limit: u32)
    ensures
        clamped(v, limit) <= limit,
        clamped(v, limit) <= v,
        v <= limit ==> clamped(v, limit) == v,
        v > limit ==> clamped(v, limit) == limit,
{
}

/// Two items with the same source agree on the file, the image, its
/// recorded size and the preview, field by field.
pub proof fn law_same_source(a: ImageItem, b: ImageItem)
    requires
        a.same_source(b),
    ensures
        a.file_path@ == b.file_path@,
        a.file_name@ == b.file_name@,
        a.original_image@ == b.original_image@,
        a.width == b.width,
        a.height == b.height,
        a.preview_image is Some <==> b.preview_image is Some,
        a.preview_image matches Some(p) ==> b.preview_image matches Some(q) && p@ == q@,
{
}

} // verus!
