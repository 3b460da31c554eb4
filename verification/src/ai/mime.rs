//! Recognising an image format from its leading bytes.

use vstd::prelude::*;

verus! {

/// The bytes start with the JPEG marker `FF D8 FF`.
pub open spec fn is_jpeg(bytes: Seq<u8>) -> bool {
    bytes.len() >= 3 && bytes[0] == 0xFF && bytes[1] == 0xD8 && bytes[2] == 0xFF
}

/// The bytes start with the PNG signature `89 50 4E 47`.
pub open spec fn is_png(bytes: Seq<u8>) -> bool {
    bytes.len() >= 4 && bytes[0] == 0x89 && bytes[1] == 0x50 && bytes[2] == 0x4E && bytes[3]
        == 0x47
}

/// The bytes start with a RIFF header whose form type is `WEBP`.
pub open spec fn is_webp(bytes: Seq<u8>) -> bool {
    bytes.len() >= 12 && bytes[0] == 0x52 && bytes[1] == 0x49 && bytes[2] == 0x46 && bytes[3]
        == 0x46 && bytes[8] == 0x57 && bytes[9] == 0x45 && bytes[10] == 0x42 && bytes[11] == 0x50
}

/// The MIME type that the leading bytes announce; PNG when they announce
/// none.
pub open spec fn mime_of(bytes: Seq<u8>) -> Seq<char> {
    if is_jpeg(bytes) {
        "image/jpeg"@
    } else if is_png(bytes) {
        "image/png"@
    } else if is_webp(bytes) {
        "image/webp"@
    } else {
        "image/png"@
    }
}

/// The MIME type of an image, read from its magic bytes. Unrecognised data
/// is taken for PNG.
pub fn detect_image_mime(bytes: &[u8]) -> (r: &'static str)
    ensures
        r@ == mime_of(bytes@),
{
    let n = bytes.len();
    if n >= 3 && bytes[0] == 0xFF && bytes[1] == 0xD8 && bytes[2] == 0xFF {
        "image/jpeg"
    } else if n >= 4 && bytes[0] == 0x89 && bytes[1] == 0x50 && bytes[2] == 0x4E && bytes[3]
        == 0x47 {
        "image/png"
    } else if n >= 12 && bytes[0] == 0x52 && bytes[1] == 0x49 && bytes[2] == 0x46 && bytes[3]
        == 0x46 && bytes[8] == 0x57 && bytes[9] == 0x45 && bytes[10] == 0x42 && bytes[11] == 0x50 {
        "image/webp"
    } else {
        "image/png"
    }
}

} // verus!
