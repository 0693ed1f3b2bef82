//! The checks that an image file passes before it is opened for slicing,
//! and the outcome of opening several files at once.

use vstd::prelude::*;
use crate::raster::Bitmap;
use crate::item::{ImageItem, display_name};
use crate::paths::{extension_of, lowercase, path_extension, to_lowercase};

verus! {

/// Why an image was refused.
#[derive(PartialEq, Eq, Structural, Clone, Copy, Debug)]
pub enum LoadError {
    /// The file name has no extension.
    NoExtension,
    /// The extension is not `png`, in any letter case.
    UnsupportedFormat,
    /// The decoded image has fewer than three colour channels.
    BadColorFormat,
    /// The decoded image has no area.
    InvalidSize,
}

impl LoadError {
    /// The text shown for this error.
    pub fn message(&self) -> (m: String)
        ensures
            m@ == self.text(),
    {
        match self {
            LoadError::NoExtension => String::from_str("文件没有扩展名"),
            LoadError::UnsupportedFormat => String::from_str("不支持的文件格式,请选择PNG图片"),
            LoadError::BadColorFormat => String::from_str("图片格式不正确"),
            LoadError::InvalidSize => String::from_str("图片尺寸无效"),
        }
    }

    pub open spec fn text(&self) -> Seq<char> {
        match self {
            LoadError::NoExtension => "文件没有扩展名"@,
            LoadError::UnsupportedFormat => "不支持的文件格式,请选择PNG图片"@,
            LoadError::BadColorFormat => "图片格式不正确"@,
            LoadError::InvalidSize => "图片尺寸无效"@,
        }
    }
}

/// Remarks on the size of an accepted image.
#[derive(PartialEq, Eq, Structural, Clone, Copy, Debug)]
pub struct SizeNotes {
    /// A side is longer than 8192 pixels, which may be slow.
    pub too_large: bool,
    /// A side is shorter than 32 pixels, which may slice poorly.
    pub too_small: bool,
}

/// What checking the extension of `path` gives.
pub open spec fn extension_verdict(path: Seq<char>) -> Result<(), LoadError> {
    match path_extension(path) {
        None => Err(LoadError::NoExtension),
        Some(e) => if lowercase(e) == "png"@ {
            Ok(())
        } else {
            Err(LoadError::UnsupportedFormat)
        },
    }
}

/// What checking a decoded image with `channels` colour channels and the
/// given size gives.
pub open spec fn decoded_verdict(channels: u8, width: u32, height: u32) -> Result<SizeNotes, LoadError> {
    if channels < 3 {
        Err(LoadError::BadColorFormat)
    } else if width == 0 || height == 0 {
        Err(LoadError::InvalidSize)
    } else {
        Ok(
            SizeNotes {
                too_large: width > 8192 || height > 8192,
                too_small: width < 32 || height < 32,
            },
        )
    }
}

/// Accepts only paths whose extension is `png` in any letter case.
pub fn check_extension(path: &String) -> (r: Result<(), LoadError>)
    ensures
        r == extension_verdict(path@),
        path_extension(path@) is None ==> r == Err::<(), LoadError>(LoadError::NoExtension),
        path_extension(path@) matches Some(e) ==> (r is Ok <==> lowercase(e) == "png"@),
        path_extension(path@) is Some && r is Err ==> r == Err::<(), LoadError>(
            LoadError::UnsupportedFormat,
        ),
{
    match extension_of(path.as_str()) {
        None => Err(LoadError::NoExtension),
        Some(ext) => {
            let lower = to_lowercase(ext.as_str());
            let png = String::from_str("png");
            if lower == png {
                Ok(())
            } else {
                Err(LoadError::UnsupportedFormat)
            }
        },
    }
}

/// Accepts a decoded image with at least three colour channels and a
/// non-empty size, and notes whether the size is unusually large or small.
pub fn check_decoded(channels: u8, width: u32, height: u32) -> (r: Result<SizeNotes, LoadError>)
    ensures
        r == decoded_verdict(channels, width, height),
        channels < 3 ==> r == Err::<SizeNotes, LoadError>(LoadError::BadColorFormat),
        channels >= 3 && (width == 0 || height == 0) ==> r == Err::<SizeNotes, LoadError>(
            LoadError::InvalidSize,
        ),
        channels >= 3 && width > 0 && height > 0 ==> r == Ok::<SizeNotes, LoadError>(
            SizeNotes {
                too_large: width > 8192 || height > 8192,
                too_small: width < 32 || height < 32,
            },
        ),
{
    if channels < 3 {
        return Err(LoadError::BadColorFormat);
    }
    if width == 0 || height == 0 {
        return Err(LoadError::InvalidSize);
    }
    Ok(
        SizeNotes {
            too_large: width > 8192 || height > 8192,
            too_small: width < 32 || height < 32,
        },
    )
}

/// Turns an image decoded from `path` with `channels` colour channels into
/// an item to work on, or refuses it as `check_decoded` does.
pub fn admit_image(path: String, image: Bitmap, channels: u8) -> (r: Result<(ImageItem, SizeNotes), LoadError>)
    ensures
        match decoded_verdict(channels, image@.width as u32, image@.height as u32) {
            Err(e) => r == Err::<(ImageItem, SizeNotes), LoadError>(e),
            Ok(notes) => r matches Ok((item, n)) && n == notes && item.file_path@ == path@
                && item.file_name@ == display_name(path@) && item.original_image@ == image@
                && item.width == image@.width && item.height == image@.height && item.top == 0
                && item.bottom == 0 && item.left == 0 && item.right == 0 && item.preview_image is None,
        },
        channels >= 3 && image@.width > 0 && image@.height > 0 ==> (r matches Ok((item, n))
            && item.original_image@ == image@ && item.file_path@ == path@ && n.too_large == (
        image@.width > 8192 || image@.height > 8192) && n.too_small == (image@.width < 32
            || image@.height < 32)),
        channels < 3 ==> r == Err::<(ImageItem, SizeNotes), LoadError>(LoadError::BadColorFormat),
        channels >= 3 && (image@.width == 0 || image@.height == 0) ==> r == Err::<
            (ImageItem, SizeNotes),
            LoadError,
        >(LoadError::InvalidSize),
{
    proof {
        law_decoded_acceptance(channels, image@.width as u32, image@.height as u32);
    }
    let notes = check_decoded(channels, image.width(), image.height())?;
    Ok((ImageItem::new(path, image), notes))
}

/// The strings of `parts` with `sep` between each two of them.
pub open spec fn joined(parts: Seq<Seq<char>>, sep: Seq<char>) -> Seq<char>
    decreases parts.len(),
{
    if parts.len() == 0 {
        Seq::empty()
    } else if parts.len() == 1 {
        parts[0]
    } else {
        joined(parts.drop_last(), sep) + sep + parts.last()
    }
}

/// The strings of `parts` joined by line breaks.
pub fn join_lines(parts: &Vec<String>) -> (out: String)
    ensures
        out@ == joined(parts@.map_values(|s: String| s@), "\n"@),
{
    let ghost views = parts@.map_values(|s: String| s@);
    let mut out = String::new();
    let n = parts.len();
    let mut i: usize = 0;
    while i < n
        invariant
            n == parts@.len(),
            i <= n,
            views == parts@.map_values(|s: String| s@),
            out@ == joined(views.take(i as int), "\n"@),
        decreases n - i,
    {
        assert(views.take(i + 1).drop_last() =~= views.take(i as int));
        if i > 0 {
            out.append("\n");
        } else {
            assert(out@ == Seq::<char>::empty());
        }
        out.append(parts[i].as_str());
        proof {
            if i == 0 {
                assert(out@ =~= views.take(1)[0]);
            }
        }
        i = i + 1;
    }
    assert(views.take(n as int) =~= views);
    out
}

/// What is left of opening several files: the images that opened and the
/// error texts of those that did not.
///
/// With no errors the images are kept and there is nothing to report. When
/// some files failed but others opened, the images are kept together with a
/// report of the failures. When every file failed, the outcome is an error
/// that lists the failures.
pub fn finish_batch<T>(images: Vec<T>, errors: Vec<String>) -> (r: Result<(Vec<T>, Option<String>), String>)
    ensures
        errors@.len() == 0 ==> (r matches Ok((v, None)) && v@ == images@),
        errors@.len() > 0 && images@.len() == 0 ==> (r matches Err(m) && m@ == "所有图片加载失败:\n"@
            + joined(errors@.map_values(|s: String| s@), "\n"@)),
        errors@.len() > 0 && images@.len() > 0 ==> (r matches Ok((v, Some(m))) && v@ == images@
            && m@ == "部分图片加载失败:\n"@ + joined(errors@.map_values(|s: String| s@), "\n"@)),
{
    if errors.len() == 0 {
        return Ok((images, None));
    }
    let listed = join_lines(&errors);
    if images.len() == 0 {
        let mut m = String::from_str("所有图片加载失败:\n");
        m.append(listed.as_str());
        Err(m)
    } else {
        let mut m = String::from_str("部分图片加载失败:\n");
        m.append(listed.as_str());
        Ok((images, Some(m)))
    }
}

/// A decoded image is refused only for having fewer than three colour
/// channels or a side of 0; every other image is accepted, with notes that
/// say whether a side exceeds 8192 or falls below 32 pixels.
pub proof fn law_decoded_acceptance(channels: u8, width: u32, height: u32)
    ensures
        channels < 3 ==> decoded_verdict(channels, width, height) == Err::<SizeNotes, LoadError>(
            LoadError::BadColorFormat,
        ),
        channels >= 3 && (width == 0 || height == 0) ==> decoded_verdict(channels, width, height)
            == Err::<SizeNotes, LoadError>(LoadError::InvalidSize),
        channels >= 3 && width > 0 && height > 0 ==> decoded_verdict(channels, width, height)
            == Ok::<SizeNotes, LoadError>(
            SizeNotes {
                too_large: width > 8192 || height > 8192,
                too_small: width < 32 || height < 32,
            },
        ),
{
}

/// A path is accepted exactly when it has an extension whose lower-case form
/// is `png`; no extension and any other extension are refused with their
/// own errors.
pub proof fn law_extension_acceptance(path: Seq<char>)
    ensures
        path_extension(path) is None ==> extension_verdict(path) == Err::<(), LoadError>(
            LoadError::NoExtension,
        ),
        path_extension(path) matches Some(e) ==> (lowercase(e) == "png"@ ==> extension_verdict(path)
            == Ok::<(), LoadError>(())) && (lowercase(e) != "png"@ ==> extension_verdict(path)
            == Err::<(), LoadError>(LoadError::UnsupportedFormat)),
{
}

/// Joining puts exactly one separator between neighbouring parts, in order:
/// no parts give nothing, one part gives itself, and one more part adds the
/// separator and that part at the end.
pub proof fn law_joined(parts: Seq<Seq<char>>, sep: Seq<char>, last: Seq<char>)
    ensures
        joined(Seq::empty(), sep) == Seq::<char>::empty(),
        joined(seq![last], sep) == last,
        parts.len() > 0 ==> joined(parts.push(last), sep) == joined(parts, sep) + sep + last,
{
    if parts.len() > 0 {
        assert(parts.push(last).drop_last() =~= parts);
    }
}

} // verus!
