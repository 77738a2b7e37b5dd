//! Telling the container of an image from its leading bytes.

use vstd::prelude::*;

verus! {

/// The container that a byte buffer was recognised as.
#[derive(Clone, Copy, Debug, PartialEq, Eq, Structural)]
pub enum DetectedFormat {
    Png,
    Jpeg,
    WebP,
    Gif,
    /// Anything else, recognisable or not.
    Unsupported,
}

/// The eight bytes that open every PNG file.
pub open spec fn png_signature() -> Seq<u8> {
    seq![0x89u8, 0x50u8, 0x4eu8, 0x47u8, 0x0du8, 0x0au8, 0x1au8, 0x0au8]
}

/// The three bytes that open every JPEG file.
pub open spec fn jpeg_signature() -> Seq<u8> {
    seq![0xffu8, 0xd8u8, 0xffu8]
}

/// `GIF89a`.
pub open spec fn gif89_signature() -> Seq<u8> {
    seq![0x47u8, 0x49u8, 0x46u8, 0x38u8, 0x39u8, 0x61u8]
}

/// `GIF87a`.
pub open spec fn gif87_signature() -> Seq<u8> {
    seq![0x47u8, 0x49u8, 0x46u8, 0x38u8, 0x37u8, 0x61u8]
}

/// `RIFF`, which opens every WebP file.
pub open spec fn riff_signature() -> Seq<u8> {
    seq![0x52u8, 0x49u8, 0x46u8, 0x46u8]
}

/// The format that the leading bytes of `data` announce.
pub open spec fn detected_format(data: Seq<u8>) -> DetectedFormat {
    if png_signature().is_prefix_of(data) {
        DetectedFormat::Png
    } else if jpeg_signature().is_prefix_of(data) {
        DetectedFormat::Jpeg
    } else if gif89_signature().is_prefix_of(data) || gif87_signature().is_prefix_of(data) {
        DetectedFormat::Gif
    } else if riff_signature().is_prefix_of(data) {
        DetectedFormat::WebP
    } else {
        DetectedFormat::Unsupported
    }
}

/// Whether `data` opens as an extended WebP file whose header announces an
/// animation: after the twelve bytes of the RIFF header comes a `VP8X` chunk,
/// and bit 1 is set in the first byte of its payload.
pub open spec fn announces_animation(data: Seq<u8>) -> bool {
    &&& data.len() > 20
    &&& data[12] == 0x56
    &&& data[13] == 0x50
    &&& data[14] == 0x38
    &&& data[15] == 0x58
    &&& data[20] & 0x02 != 0
}

/// Whether an input of format `fmt` may be processed when the caller accepts
/// the formats in `accepted`. An unrecognised input never may.
pub open spec fn is_accepted(accepted: Seq<DetectedFormat>, fmt: DetectedFormat) -> bool {
    fmt != DetectedFormat::Unsupported && accepted.contains(fmt)
}

/// The formats accepted when the caller names none.
pub open spec fn default_accepted() -> Seq<DetectedFormat> {
    seq![DetectedFormat::Png, DetectedFormat::Jpeg, DetectedFormat::WebP, DetectedFormat::Gif]
}

/// Calls `image::guess_format`, which walks a fixed table of signatures and
/// answers with the first one that `data` starts with. The table opens with
/// the PNG, JPEG, `GIF89a`, `GIF87a` and `RIFF` signatures, in that order, and
/// no two of them can open the same buffer. Every other answer of the table,
/// and its failure to find any signature, is reported as `Unsupported`.
#[verifier::external_body]
fn guess_format(data: &[u8]) -> (fmt: DetectedFormat)
    ensures
        fmt == detected_format(data@),
{
    match image::guess_format(data) {
        Ok(image::ImageFormat::Png) => DetectedFormat::Png,
        Ok(image::ImageFormat::Jpeg) => DetectedFormat::Jpeg,
        Ok(image::ImageFormat::WebP) => DetectedFormat::WebP,
        Ok(image::ImageFormat::Gif) => DetectedFormat::Gif,
        _ => DetectedFormat::Unsupported,
    }
}

/// Classifies `data` by its leading bytes. Never fails: a buffer that opens
/// with none of the known signatures is `Unsupported`.
pub fn detect_format(data: &[u8]) -> (fmt: DetectedFormat)
    ensures
        fmt == detected_format(data@),
{
    guess_format(data)
}

/// Tells whether the header of a WebP file announces an animation.
pub fn is_animated_webp(data: &[u8]) -> (yes: bool)
    ensures
        yes == announces_animation(data@),
{
    data.len() > 20 && data[12] == 0x56 && data[13] == 0x50 && data[14] == 0x38 && data[15] == 0x58
        && data[20] & 0x02 != 0
}

/// Whether `fmt` is a recognised format that `accepted` lists.
pub fn accepts(accepted: &[DetectedFormat], fmt: DetectedFormat) -> (yes: bool)
    ensures
        yes == is_accepted(accepted@, fmt),
{
    if fmt == DetectedFormat::Unsupported {
        return false;
    }
    let mut i: usize = 0;
    while i < accepted.len()
        invariant
            i <= accepted@.len(),
            fmt != DetectedFormat::Unsupported,
            forall|j: int| 0 <= j < i ==> accepted@[j] != fmt,
        decreases accepted@.len() - i,
    {
        if accepted[i] == fmt {
            return true;
        }
        i = i + 1;
    }
    false
}

} // verus!
