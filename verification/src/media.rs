//! Which files of a folder count as media: pictures and videos, told by the
//! extension of the file name.

use vstd::prelude::*;
use crate::text::str_eq;

verus! {

/// The lower-case form of a text, as `str::to_lowercase` gives it.
pub uninterp spec fn lowercase_of(text: Seq<char>) -> Seq<char>;

/// `str::to_lowercase`: the text with every character in lower case. What it
/// returns depends on the text alone.
#[verifier::external_body]
fn lowercase(text: &str) -> (lowered: String)
    ensures
        lowered@ == lowercase_of(text@),
{
    text.to_lowercase()
}

/// Whether a name, in lower case, is the extension of a picture.
pub open spec fn is_image_name(name: Seq<char>) -> bool {
    name == "jpg"@ || name == "jpeg"@ || name == "png"@ || name == "gif"@ || name == "webp"@
        || name == "bmp"@ || name == "tiff"@ || name == "tif"@ || name == "heic"@ || name
        == "heif"@
}

/// Whether a name, in lower case, is the extension of a video.
pub open spec fn is_video_name(name: Seq<char>) -> bool {
    name == "mp4"@ || name == "mov"@ || name == "webm"@ || name == "m4v"@ || name == "avi"@
        || name == "mkv"@
}

/// Whether a name, in lower case, is the extension of a picture or a video.
pub open spec fn is_media_name(name: Seq<char>) -> bool {
    is_image_name(name) || is_video_name(name)
}

/// Whether an extension that is already in lower case is that of a picture
/// or a video.
pub fn names_media(lowered: &str) -> (media: bool)
    ensures
        media == is_media_name(lowered@),
{
    let image = str_eq(lowered, "jpg") || str_eq(lowered, "jpeg") || str_eq(lowered, "png")
        || str_eq(lowered, "gif") || str_eq(lowered, "webp") || str_eq(lowered, "bmp") || str_eq(
        lowered,
        "tiff",
    ) || str_eq(lowered, "tif") || str_eq(lowered, "heic") || str_eq(lowered, "heif");
    let video = str_eq(lowered, "mp4") || str_eq(lowered, "mov") || str_eq(lowered, "webm")
        || str_eq(lowered, "m4v") || str_eq(lowered, "avi") || str_eq(lowered, "mkv");
    image || video
}

/// Whether the extension of a file name is that of a picture or a video,
/// whatever the case of its letters.
pub fn is_media_extension(extension: &str) -> (media: bool)
    ensures
        media == is_media_name(lowercase_of(extension@)),
{
    let lowered = lowercase(extension);
    names_media(lowered.as_str())
}

} // verus!
