//! Where an exported image is written.

use vstd::prelude::*;
use crate::paths::{
    extension_of, file_stem_of, join_path, parent_of, path_extension, path_file_stem, path_join,
    path_parent,
};

verus! {

/// How exported images are named.
pub enum ExportMode {
    /// Write over the original file.
    Overwrite,
    /// Write next to the original, with this text added to the file stem.
    WithSuffix(String),
}

/// The content of `o`, or nothing.
pub open spec fn or_empty(o: Option<Seq<char>>) -> Seq<char> {
    match o {
        Some(s) => s,
        None => Seq::empty(),
    }
}

/// A file name made of `stem`, then `suffix`, then a dot and `ext` when
/// `ext` is not empty.
pub open spec fn suffixed_name(stem: Seq<char>, suffix: Seq<char>, ext: Seq<char>) -> Seq<char> {
    if ext.len() == 0 {
        stem + suffix
    } else {
        stem + suffix + "."@ + ext
    }
}

/// The path that an image read from `path` is exported to.
pub open spec fn export_path(path: Seq<char>, mode: ExportMode) -> Seq<char> {
    match mode {
        ExportMode::Overwrite => path,
        ExportMode::WithSuffix(suffix) => path_join(
            or_empty(path_parent(path)),
            suffixed_name(or_empty(path_file_stem(path)), suffix@, or_empty(path_extension(path))),
        ),
    }
}

/// The path that an image read from `file_path` is exported to: the same
/// path when overwriting, else the file in the same directory whose name is
/// the stem, the suffix and the original extension.
pub fn output_path(file_path: &String, mode: &ExportMode) -> (out: String)
    ensures
        out@ == export_path(file_path@, *mode),
        *mode is Overwrite ==> out@ == file_path@,
        match *mode {
            ExportMode::Overwrite => true,
            ExportMode::WithSuffix(s) => {
                let dir = match path_parent(file_path@) {
                    Some(d) => d,
                    None => Seq::<char>::empty(),
                };
                let stem = match path_file_stem(file_path@) {
                    Some(t) => t,
                    None => Seq::<char>::empty(),
                };
                let ext = match path_extension(file_path@) {
                    Some(e) => e,
                    None => Seq::<char>::empty(),
                };
                &&& ext.len() == 0 ==> out@ == path_join(dir, stem + s@)
                &&& ext.len() > 0 ==> out@ == path_join(dir, stem + s@ + "."@ + ext)
            },
        },
{
    match mode {
        ExportMode::Overwrite => file_path.clone(),
        ExportMode::WithSuffix(suffix) => {
            let path = file_path.as_str();
            let parent = match parent_of(path) {
                Some(p) => p,
                None => String::new(),
            };
            let stem = match file_stem_of(path) {
                Some(s) => s,
                None => String::new(),
            };
            let ext = match extension_of(path) {
                Some(e) => e,
                None => String::new(),
            };
            let mut name = stem;
            name.append(suffix.as_str());
            if !ext.as_str().is_empty() {
                name.append(".");
                name.append(ext.as_str());
            }
            join_path(parent.as_str(), name.as_str())
        },
    }
}

/// Overwriting writes back to the very path the image was read from.
pub proof fn law_overwrite_keeps_path(path: Seq<char>)
    ensures
        export_path(path, ExportMode::Overwrite) == path,
{
}

/// With a suffix, the exported file is joined onto the source's own
/// directory (its parent, or nothing when it has none), and its name is the
/// source's stem, then the suffix, then a dot and the source's extension
/// when it has one.
pub proof fn law_suffix_export_in_same_directory(path: Seq<char>, suffix: String)
    ensures
        ({
            let dir = match path_parent(path) {
                Some(d) => d,
                None => Seq::<char>::empty(),
            };
            let stem = match path_file_stem(path) {
                Some(t) => t,
                None => Seq::<char>::empty(),
            };
            &&& path_extension(path) is None ==> export_path(path, ExportMode::WithSuffix(suffix))
                == path_join(dir, stem + suffix@)
            &&& path_extension(path) matches Some(e) ==> (e.len() == 0 ==> export_path(
                path,
                ExportMode::WithSuffix(suffix),
            ) == path_join(dir, stem + suffix@)) && (e.len() > 0 ==> export_path(
                path,
                ExportMode::WithSuffix(suffix),
            ) == path_join(dir, stem + suffix@ + "."@ + e))
        }),
{
}

} // verus!
