//! The decoders, the encoders and the resampler of the `image` crate, and the
//! WebP decoder and encoder of the `webp-animation` crate, as far as the
//! editor calls them.
//! What they compute is taken on trust; what is said of it here is what the
//! rest of the library builds on.

use crate::format::{detected_format, DetectedFormat};
use crate::frames::{Delay, FrameView, PlacedFrame};
use crate::pixels::{PixelBuffer, PixelGrid};
use image::{AnimationDecoder, ImageDecoder};
use vstd::prelude::*;

verus! {

/// Largest side, in pixels, of the canvas of an animated WebP.
pub const MAX_WEBP_SIDE: u32 = 16383;

/// `image::ImageError`, the error of every decoder and encoder of the `image`
/// crate. Nothing is known of what it holds.
#[verifier::external_type_specification]
#[verifier::external_body]
pub struct ExImageError(image::ImageError);

/// `image::Frame`, the item that `image::Frames` yields; without this
/// declaration the stream itself cannot be declared. It stands in no
/// signature: a frame that is taken from a stream is copied into a
/// [`PlacedFrame`](crate::frames::PlacedFrame).
#[verifier::external_type_specification]
#[verifier::external_body]
pub struct ExFrame(image::Frame);

/// `image::Frames`, the stream of frames of an open animation. What it will
/// yield is [`frames_pending`]; whether the GIF decoder feeds it is
/// [`reads_gif`].
#[verifier::external_type_specification]
#[verifier::external_body]
pub struct ExFrames<'a>(image::Frames<'a>);

/// `webp_animation::DecoderIterator`, the stream of frames of an open WebP
/// file. What it will yield is [`webp_pending`].
#[verifier::external_type_specification]
#[verifier::external_body]
pub struct ExWebpFrames<'a>(webp_animation::DecoderIterator<'a>);

/// `webp_animation::Encoder`, an animated WebP in the making. What it was
/// made for is [`encoder_canvas`], what it has taken is [`encoder_frames`].
#[verifier::external_type_specification]
#[verifier::external_body]
pub struct ExWebpEncoder(webp_animation::Encoder);

/// `webp_animation::Error`, the error of the WebP decoder and encoder.
/// Nothing is known of what it holds.
#[verifier::external_type_specification]
#[verifier::external_body]
pub struct ExWebpError(webp_animation::Error);

/// The frames that the GIF decoder yields for `data` when it may use `scratch`
/// bytes more than its usual memory budget, up to the end of the animation or
/// to the first frame that it cannot decode; `None` where it refuses the
/// container itself.
pub uninterp spec fn gif_frames_of(data: Seq<u8>, scratch: u64) -> Option<Seq<FrameView>>;

/// The canvases that the WebP decoder yields for `data`, one for each frame
/// up to the end of the file or to the first frame that it cannot decode; a
/// file without animation has one. `None` where the decoder refuses the file.
pub uninterp spec fn webp_frames_of(data: Seq<u8>) -> Option<Seq<PixelGrid>>;

/// The canvases that an open stream of WebP frames will still yield.
pub uninterp spec fn webp_pending(frames: webp_animation::DecoderIterator) -> Seq<PixelGrid>;

/// Whether a stream of frames is fed by the GIF decoder.
pub uninterp spec fn reads_gif(frames: image::Frames) -> bool;

/// Whether the WebP encoder can be made for a canvas of `width * height`
/// pixels.
pub uninterp spec fn webp_canvas_taken(width: u32, height: u32) -> bool;

/// Whether a WebP encoder for `canvas` that has taken `before` takes `img`
/// next, to be shown from `timestamp` on.
pub uninterp spec fn webp_frame_taken(
    canvas: (u32, u32),
    before: Seq<(PixelGrid, i32)>,
    img: PixelGrid,
    timestamp: i32,
) -> bool;

/// Width and height of the canvas that a WebP encoder was made for.
pub uninterp spec fn encoder_canvas(encoder: webp_animation::Encoder) -> (u32, u32);

/// The frames that a WebP encoder has taken so far, each with its timestamp
/// in milliseconds.
pub uninterp spec fn encoder_frames(encoder: webp_animation::Encoder) -> Seq<(PixelGrid, i32)>;

/// The bytes of the animated WebP that the encoder assembles for a canvas,
/// the frames it has taken and the timestamp at which the animation ends;
/// `None` where it fails.
pub uninterp spec fn animated_webp_of(
    canvas: (u32, u32),
    frames: Seq<(PixelGrid, i32)>,
    end: i32,
) -> Option<Seq<u8>>;

/// The frames that an open stream of frames will still yield before it ends
/// or fails.
pub uninterp spec fn frames_pending(frames: image::Frames) -> Seq<FrameView>;

/// The bytes of the endlessly looping GIF that the encoder writes for
/// `frames`; `None` where it fails.
pub uninterp spec fn looping_gif_of(frames: Seq<FrameView>) -> Option<Seq<u8>>;

/// The single RGBA image that the still-image decoders read from `data`;
/// `None` where they fail.
pub uninterp spec fn still_image_of(data: Seq<u8>) -> Option<PixelGrid>;

/// The bytes of the PNG file that the encoder writes for `img`; `None` where
/// it fails.
pub uninterp spec fn png_of(img: PixelGrid) -> Option<Seq<u8>>;

/// The bytes of `img` after nearest-neighbour resampling to
/// `nwidth * nheight` pixels.
pub uninterp spec fn nearest_resized(img: PixelGrid, nwidth: u32, nheight: u32) -> Seq<u8>;

/// Whether the resampler can take `img` to `nwidth * nheight` pixels: the
/// result is no larger than an allocation may be, and neither is the
/// intermediate image of 16 bytes per pixel, as wide as `img` and as high as
/// the result, which is made unless `img` has these dimensions already.
pub open spec fn resizable(img: PixelGrid, nwidth: u32, nheight: u32) -> bool {
    &&& 4 * (nwidth * nheight) <= isize::MAX
    &&& (img.width == nwidth && img.height == nheight) || 16 * (img.width * nheight)
        <= isize::MAX
}

/// What the resampler makes of `img` when asked for `nwidth * nheight`
/// pixels: `img` itself where it already has these dimensions, and the
/// resampled pixels otherwise.
pub open spec fn resampled(img: PixelGrid, nwidth: u32, nheight: u32) -> PixelGrid {
    if img.width == nwidth && img.height == nheight {
        img
    } else {
        PixelGrid {
            width: nwidth as nat,
            height: nheight as nat,
            bytes: nearest_resized(img, nwidth, nheight),
        }
    }
}

/// Opens a GIF: `GifDecoder::new` on a cursor over `data`, then
/// `set_limits` with the default limits raised by `scratch` bytes
/// (`Limits::free`), then `into_frames`. Fails where the decoder refuses the
/// header or the limits. The stream that comes back is fed by the GIF
/// decoder and owes exactly the frames that the decoder finds in `data`.
#[verifier::external_body]
pub(crate) fn open_gif<'a>(data: &'a [u8], scratch: u64) -> (r: Result<
    image::Frames<'a>,
    image::ImageError,
>)
    ensures
        match r {
            Ok(frames) => reads_gif(frames) && gif_frames_of(data@, scratch) == Some(
                frames_pending(frames),
            ),
            Err(_) => gif_frames_of(data@, scratch) is None,
        },
{
    let mut decoder = image::codecs::gif::GifDecoder::new(std::io::Cursor::new(data))?;
    let mut limits = image::io::Limits::default();
    limits.free(scratch);
    decoder.set_limits(limits)?;
    Ok(decoder.into_frames())
}

/// Takes the next item from a stream of GIF frames (`Iterator::next` of
/// `Frames`). A decoded frame is the first of those that the stream owed, and the stream
/// owes the rest afterwards; its buffer holds four bytes per pixel and its
/// delay has a denominator. The end of the stream, and a frame that cannot be
/// decoded, come only when the stream owed nothing more.
#[verifier::external_body]
pub(crate) fn next_frame(frames: &mut image::Frames) -> (r: Option<
    Result<PlacedFrame, image::ImageError>,
>)
    requires
        reads_gif(*old(frames)),
    ensures
        reads_gif(*final(frames)),
        match r {
            Some(Ok(frame)) => {
                &&& frame.wf()
                &&& frames_pending(*old(frames)).len() > 0
                &&& frame@ == frames_pending(*old(frames))[0]
                &&& frames_pending(*final(frames)) == frames_pending(*old(frames)).skip(1)
            },
            _ => frames_pending(*old(frames)).len() == 0,
        },
{
    match frames.next() {
        Some(Ok(f)) => {
            let (numer, denom) = f.delay().numer_denom_ms();
            let (left, top) = (f.left(), f.top());
            let img = f.into_buffer();
            let (width, height) = img.dimensions();
            let buffer = PixelBuffer { width, height, data: img.into_raw() };
            Some(Ok(PlacedFrame { buffer, left, top, delay: Delay { numer, denom } }))
        },
        Some(Err(e)) => Some(Err(e)),
        None => None,
    }
}

/// Writes `frames` as one GIF that loops for ever: `GifEncoder::new` over a
/// cursor, `set_repeat(Repeat::Infinite)`, then `encode_frames`. The bytes
/// depend on the frames alone.
#[verifier::external_body]
pub(crate) fn encode_gif(frames: Vec<PlacedFrame>) -> (r: Result<Vec<u8>, image::ImageError>)
    requires
        forall|i: int| 0 <= i < frames@.len() ==> (#[trigger] frames@[i]).wf(),
    ensures
        match r {
            Ok(bytes) => looping_gif_of(frame_views(frames@)) == Some(bytes@),
            Err(_) => looping_gif_of(frame_views(frames@)) is None,
        },
{
    let mut converted = Vec::new();
    for f in frames {
        let img = image::RgbaImage::from_raw(f.buffer.width, f.buffer.height, f.buffer.data).unwrap();
        let delay = image::Delay::from_numer_denom_ms(f.delay.numer, f.delay.denom);
        converted.push(image::Frame::from_parts(img, f.left, f.top, delay));
    }
    let mut out = std::io::Cursor::new(Vec::new());
    let mut encoder = image::codecs::gif::GifEncoder::new(&mut out);
    encoder.set_repeat(image::codecs::gif::Repeat::Infinite)?;
    encoder.encode_frames(converted)?;
    drop(encoder);
    Ok(out.into_inner())
}

/// Opens a WebP file for decoding: `webp_animation::Decoder::new` on `data`,
/// then `into_iter`. Fails where the decoder refuses the file. The stream
/// that comes back owes exactly the canvases that the decoder finds in
/// `data`.
#[verifier::external_body]
pub(crate) fn open_webp<'a>(data: &'a [u8]) -> (r: Result<
    webp_animation::DecoderIterator<'a>,
    webp_animation::Error,
>)
    ensures
        match r {
            Ok(frames) => webp_frames_of(data@) == Some(webp_pending(frames)),
            Err(_) => webp_frames_of(data@) is None,
        },
{
    Ok(webp_animation::Decoder::new(data)?.into_iter())
}

/// Takes the next canvas from a stream of WebP frames (`Iterator::next` of
/// `DecoderIterator`). It is the first of those that the stream owed, holds
/// four bytes per pixel, and the stream owes the rest afterwards. The stream
/// ends only when it owed nothing more.
#[verifier::external_body]
pub(crate) fn next_webp_frame(frames: &mut webp_animation::DecoderIterator) -> (r: Option<
    PixelBuffer,
>)
    ensures
        match r {
            Some(img) => {
                &&& img.wf()
                &&& webp_pending(*old(frames)).len() > 0
                &&& img@ == webp_pending(*old(frames))[0]
                &&& webp_pending(*final(frames)) == webp_pending(*old(frames)).skip(1)
            },
            None => webp_pending(*old(frames)).len() == 0,
        },
{
    let f = frames.next()?;
    let (width, height) = f.dimensions();
    Some(PixelBuffer { width, height, data: f.data().to_vec() })
}

/// Makes an encoder of animated WebP for a canvas of `width * height` pixels
/// (`webp_animation::Encoder::new`). Whether it can be made depends on the
/// canvas alone; one that comes back has taken no frame yet.
#[verifier::external_body]
pub(crate) fn webp_encoder(width: u32, height: u32) -> (r: Result<
    webp_animation::Encoder,
    webp_animation::Error,
>)
    requires
        width <= MAX_WEBP_SIDE,
        height <= MAX_WEBP_SIDE,
    ensures
        match r {
            Ok(encoder) => {
                &&& webp_canvas_taken(width, height)
                &&& encoder_canvas(encoder) == (width, height)
                &&& encoder_frames(encoder) == Seq::<(PixelGrid, i32)>::empty()
            },
            Err(_) => !webp_canvas_taken(width, height),
        },
{
    webp_animation::Encoder::new((width, height))
}

/// Hands one frame to the encoder (`Encoder::add_frame`) to be shown from
/// `timestamp` on. Whether the encoder takes it depends on the canvas, the
/// frames taken before, the frame and the timestamp alone; a frame that it
/// does not take leaves it as it was.
#[verifier::external_body]
pub(crate) fn webp_add_frame(
    encoder: &mut webp_animation::Encoder,
    img: &PixelBuffer,
    timestamp: i32,
) -> (r: Result<(), webp_animation::Error>)
    requires
        img.wf(),
    ensures
        encoder_canvas(*final(encoder)) == encoder_canvas(*old(encoder)),
        match r {
            Ok(_) => {
                &&& webp_frame_taken(
                    encoder_canvas(*old(encoder)),
                    encoder_frames(*old(encoder)),
                    img@,
                    timestamp,
                )
                &&& encoder_frames(*final(encoder)) == encoder_frames(*old(encoder)).push(
                    (img@, timestamp),
                )
            },
            Err(_) => {
                &&& !webp_frame_taken(
                    encoder_canvas(*old(encoder)),
                    encoder_frames(*old(encoder)),
                    img@,
                    timestamp,
                )
                &&& encoder_frames(*final(encoder)) == encoder_frames(*old(encoder))
            },
        },
{
    encoder.add_frame(&img.data[..], timestamp)
}

/// Ends the animation at `end` and assembles the file
/// (`Encoder::finalize`). The outcome depends on the canvas, the frames taken
/// and `end` alone.
#[verifier::external_body]
pub(crate) fn webp_finish(encoder: webp_animation::Encoder, end: i32) -> (r: Result<
    Vec<u8>,
    webp_animation::Error,
>)
    ensures
        match r {
            Ok(bytes) => animated_webp_of(encoder_canvas(encoder), encoder_frames(encoder), end)
                == Some(bytes@),
            Err(_) => animated_webp_of(encoder_canvas(encoder), encoder_frames(encoder), end)
                is None,
        },
{
    Ok(encoder.finalize(end)?.to_vec())
}

/// Decodes a still image: `io::Reader::new` on a cursor over `data`,
/// `with_guessed_format`, `decode`, and `to_rgba8` on what comes back. The
/// image depends on `data` alone and holds four bytes per pixel. WebP files
/// are kept from this decoder.
#[verifier::external_body]
pub(crate) fn decode_still(data: &[u8]) -> (r: Result<PixelBuffer, image::ImageError>)
    requires
        detected_format(data@) != DetectedFormat::WebP,
    ensures
        match r {
            Ok(img) => img.wf() && still_image_of(data@) == Some(img@),
            Err(_) => still_image_of(data@) is None,
        },
{
    let reader = image::io::Reader::new(std::io::Cursor::new(data)).with_guessed_format()?;
    let img = reader.decode()?.to_rgba8();
    let (width, height) = img.dimensions();
    Ok(PixelBuffer { width, height, data: img.into_raw() })
}

/// Writes `img` as a PNG file (`ImageBuffer::write_to` with
/// `ImageFormat::Png`). The bytes depend on `img` alone.
#[verifier::external_body]
pub(crate) fn encode_png(img: &PixelBuffer) -> (r: Result<Vec<u8>, image::ImageError>)
    requires
        img.wf(),
    ensures
        match r {
            Ok(bytes) => png_of(img@) == Some(bytes@),
            Err(_) => png_of(img@) is None,
        },
{
    let view = image::ImageBuffer::<image::Rgba<u8>, &[u8]>::from_raw(
        img.width,
        img.height,
        &img.data[..],
    ).unwrap();
    let mut out = std::io::Cursor::new(Vec::new());
    view.write_to(&mut out, image::ImageFormat::Png)?;
    Ok(out.into_inner())
}

/// Resamples `img` to `nwidth * nheight` pixels with
/// `imageops::resize` and `FilterType::Nearest`. The result has the
/// dimensions asked for, four bytes per pixel, and depends on the arguments
/// alone; where they are the dimensions of `img`, the function copies `img`.
#[verifier::external_body]
pub(crate) fn resize_nearest(img: &PixelBuffer, nwidth: u32, nheight: u32) -> (out: PixelBuffer)
    requires
        img.wf(),
        resizable(img@, nwidth, nheight),
    ensures
        out.wf(),
        out@.width == nwidth,
        out@.height == nheight,
        img@.width == nwidth && img@.height == nheight ==> out@ == img@,
        !(img@.width == nwidth && img@.height == nheight) ==> out@.bytes == nearest_resized(
            img@,
            nwidth,
            nheight,
        ),
{
    let view = image::ImageBuffer::<image::Rgba<u8>, &[u8]>::from_raw(
        img.width,
        img.height,
        &img.data[..],
    ).unwrap();
    let resized = image::imageops::resize(&view, nwidth, nheight, image::imageops::FilterType::Nearest);
    PixelBuffer { width: nwidth, height: nheight, data: resized.into_raw() }
}

/// The contents of a run of frames.
pub open spec fn frame_views(frames: Seq<PlacedFrame>) -> Seq<FrameView> {
    frames.map_values(|f: PlacedFrame| f@)
}

} // verus!
