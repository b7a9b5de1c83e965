//! Classification of directory entries: directories are skipped, files are
//! images exactly when their extension is on a fixed allow-list, and
//! everything else is skipped with a notice.

use vstd::prelude::*;
use crate::text::str_eq;

verus! {

/// What the driver does with one directory entry.
#[derive(Clone, Copy, Debug, PartialEq, Eq, Structural)]
pub enum Classification {
    /// A subdirectory: skipped silently, never opened as an image.
    Directory,
    /// A file whose extension is on the image allow-list: resized.
    Image,
    /// Any other file: skipped with a notice.
    NonImage,
}

/// Whether `s` is one of the recognized image file extensions. The match is
/// case-sensitive and exact; extensionless files are looked up as "none",
/// which is never on the list.
pub open spec fn is_image_ext(s: Seq<char>) -> bool {
    ||| s == "bmp"@
    ||| s == "gif"@
    ||| s == "hdr"@
    ||| s == "ico"@
    ||| s == "jpeg"@
    ||| s == "jpg"@
    ||| s == "exr"@
    ||| s == "png"@
    ||| s == "pnm"@
    ||| s == "qoi"@
    ||| s == "tga"@
    ||| s == "tiff"@
    ||| s == "webp"@
}

/// Whether a file with extension `ext` is recognized as an image.
pub fn is_image(ext: &str) -> (r: bool)
    ensures
        r == is_image_ext(ext@),
{
    str_eq(ext, "bmp") || str_eq(ext, "gif") || str_eq(ext, "hdr") || str_eq(ext, "ico")
        || str_eq(ext, "jpeg") || str_eq(ext, "jpg") || str_eq(ext, "exr") || str_eq(ext, "png")
        || str_eq(ext, "pnm") || str_eq(ext, "qoi") || str_eq(ext, "tga") || str_eq(ext, "tiff")
        || str_eq(ext, "webp")
}

/// The classification of an entry with the given kind and extension.
pub open spec fn classification_of(is_dir: bool, ext: Seq<char>) -> Classification {
    if is_dir {
        Classification::Directory
    } else if is_image_ext(ext) {
        Classification::Image
    } else {
        Classification::NonImage
    }
}

/// Classify one directory entry. `ext` is the entry's extension, with
/// "none" standing in for a missing one.
pub fn classify(is_dir: bool, ext: &str) -> (c: Classification)
    ensures
        c == classification_of(is_dir, ext@),
{
    if is_dir {
        Classification::Directory
    } else if is_image(ext) {
        Classification::Image
    } else {
        Classification::NonImage
    }
}

/// A directory entry is always classified `Directory` — never `Image` —
/// whatever its name looks like, so the resize pipeline is never invoked
/// on a directory.
pub proof fn lemma_directory_never_image(ext: Seq<char>)
    ensures
        classification_of(true, ext) == Classification::Directory,
        classification_of(true, ext) != Classification::Image,
{
}

} // verus!
