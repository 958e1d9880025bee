//! Resolution of a declared MIME type to a supported container format.
use vstd::prelude::*;
use vstd::string::*;

verus! {

/// The container formats that a buffer may be declared as.
#[derive(Clone, Copy, Debug, PartialEq, Eq, Structural)]
pub enum ImageKind {
    Png,
    Jpeg,
    Gif,
    WebP,
    Tiff,
    Bmp,
    Ico,
    Avif,
}

/// The format that a MIME string names, if any. Matching is exact and
/// case-sensitive on the canonical strings.
pub open spec fn mime_kind(mime: Seq<char>) -> Option<ImageKind> {
    if mime == "image/png"@ {
        Some(ImageKind::Png)
    } else if mime == "image/jpeg"@ {
        Some(ImageKind::Jpeg)
    } else if mime == "image/gif"@ {
        Some(ImageKind::Gif)
    } else if mime == "image/webp"@ {
        Some(ImageKind::WebP)
    } else if mime == "image/tiff"@ {
        Some(ImageKind::Tiff)
    } else if mime == "image/bmp"@ {
        Some(ImageKind::Bmp)
    } else if mime == "image/x-icon"@ {
        Some(ImageKind::Ico)
    } else if mime == "image/avif"@ {
        Some(ImageKind::Avif)
    } else {
        None
    }
}

fn same_text(a: &String, b: &str) -> (r: bool)
    ensures
        r == (a@ == b@),
{
    *a == String::from_str(b)
}

/// Maps a MIME type to its container format; `None` for any other string.
pub fn image_format_from_mime(mime_type: &str) -> (r: Option<ImageKind>)
    ensures
        r == mime_kind(mime_type@),
{
    let m = mime_type.to_owned();
    if same_text(&m, "image/png") {
        Some(ImageKind::Png)
    } else if same_text(&m, "image/jpeg") {
        Some(ImageKind::Jpeg)
    } else if same_text(&m, "image/gif") {
        Some(ImageKind::Gif)
    } else if same_text(&m, "image/webp") {
        Some(ImageKind::WebP)
    } else if same_text(&m, "image/tiff") {
        Some(ImageKind::Tiff)
    } else if same_text(&m, "image/bmp") {
        Some(ImageKind::Bmp)
    } else if same_text(&m, "image/x-icon") {
        Some(ImageKind::Ico)
    } else if same_text(&m, "image/avif") {
        Some(ImageKind::Avif)
    } else {
        None
    }
}

} // verus!
