//! What the service around the editor decides: how much it reads, the
//! defaults of a request, and what it tells the client.

use crate::editor::EditError;
use crate::format::DetectedFormat;
use vstd::prelude::*;

verus! {

/// The most bytes that one upload may hold.
pub const MAX_SIZE: usize = 2_000_000;

/// The frame limit of a request that names none.
pub fn get_frames_default() -> (frames: usize)
    ensures
        frames == 250,
{
    250
}

/// Whether a request that does not say so keeps the proportions of the image.
pub fn get_aspect_default() -> (keep: bool)
    ensures
        !keep,
{
    false
}

/// Takes one chunk of an upload: counts its bytes into `size`, the bytes of
/// the upload so far, adds it to `buf`, and then tells whether the upload
/// now holds more than [`MAX_SIZE`] bytes. What `buf` held before the upload
/// began does not count.
pub fn load_chunk(buf: &mut Vec<u8>, size: &mut usize, chunk: &[u8]) -> (over: bool)
    requires
        *old(size) + chunk@.len() <= usize::MAX,
    ensures
        *final(size) == *old(size) + chunk@.len(),
        final(buf)@ == old(buf)@ + chunk@,
        over == (*final(size) > MAX_SIZE),
{
    *size = *size + chunk.len();
    buf.extend_from_slice(chunk);
    *size > MAX_SIZE
}

/// The content type of the answer to an input of format `fmt`: an animation
/// stays a GIF, everything else becomes a PNG.
pub fn content_type(fmt: DetectedFormat) -> (mime: &'static str)
    ensures
        mime@ == (if fmt == DetectedFormat::Gif {
            "image/gif"@
        } else {
            "image/png"@
        }),
{
    if fmt == DetectedFormat::Gif {
        "image/gif"
    } else {
        "image/png"
    }
}

/// What the client is told when editing fails. Nothing of the failure itself
/// is passed on.
pub fn failure_message(error: EditError) -> (message: &'static str)
    ensures
        message@ == (if error == EditError::UnsupportedFormat {
            "Only GIF, PNG, JPEG, and WEBP images are supported"@
        } else {
            "Something went wrong when trying to resize the image, sorry!"@
        }),
{
    if error == EditError::UnsupportedFormat {
        "Only GIF, PNG, JPEG, and WEBP images are supported"
    } else {
        "Something went wrong when trying to resize the image, sorry!"
    }
}

} // verus!
