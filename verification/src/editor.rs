//! The editor: detect the format, decode the frames, run the transform over
//! each admitted frame, encode what comes out.

use crate::codec::{
    decode_still, encode_gif, encode_png, frame_views, frames_pending, gif_frames_of,
    looping_gif_of, next_frame, next_webp_frame, open_gif, open_webp, png_of, reads_gif,
    still_image_of, webp_frames_of, webp_pending,
};
use crate::format::{
    accepts, announces_animation, default_accepted, detect_format, detected_format, is_accepted,
    is_animated_webp, DetectedFormat,
};
use crate::frames::{FrameView, PlacedFrame};
use crate::pixels::{PixelBuffer, PixelGrid};
use crate::transform::{lemma_circle_takes_its_output, Circle, FrameTransform};
use crate::webp::{canvas_of, encode_webp, lemma_taken_or_skipped, skipped, taken, webp_encoded};
use vstd::prelude::*;

verus! {

/// Bytes that the GIF decoder may use on top of its usual memory budget.
pub const DECODE_SCRATCH: u64 = 512 * 1024;

/// Why an input could not be edited.
#[derive(Clone, Copy, Debug, PartialEq, Eq, Structural)]
pub enum EditError {
    /// The input is of no recognised format, or of one that the caller does
    /// not accept.
    UnsupportedFormat,
    /// The decoder refused the input, or no frame of it was admitted.
    Decode,
    /// The encoder refused the transformed frames.
    Encode,
    /// The result of the transform would be larger than can be allocated.
    TooLarge,
}

/// What editing returns: the encoded bytes, the format of the input, and the
/// width and height of the first transformed frame.
pub type Edited = (Vec<u8>, DetectedFormat, (u32, u32));

/// The mathematical content of an [`Edited`].
pub type EditedView = (Seq<u8>, DetectedFormat, (u32, u32));

/// What editing returns, and the indices of the transformed frames that the
/// encoder left out of it.
pub type Report = (Edited, Vec<usize>);

/// The mathematical content of a [`Report`].
pub type ReportView = (EditedView, Seq<usize>);

/// The first `limit` of `frames`, or all of them where they are fewer.
pub open spec fn admitted(frames: Seq<FrameView>, limit: usize) -> Seq<FrameView> {
    if frames.len() <= limit {
        frames
    } else {
        frames.take(limit as int)
    }
}

/// Whether the transform can work on every one of `frames`.
pub open spec fn admits_all<T: FrameTransform>(t: T, frames: Seq<FrameView>) -> bool {
    forall|i: int| 0 <= i < frames.len() ==> t.admits(#[trigger] frames[i].pixels)
}

/// Each of `frames` with its pixels transformed, and its place and delay as
/// they were.
pub open spec fn transformed<T: FrameTransform>(t: T, frames: Seq<FrameView>) -> Seq<FrameView> {
    frames.map_values(|f: FrameView| f.with_pixels(t.output(f.pixels)))
}

/// Canvases as frames at the origin, shown for no time.
pub open spec fn unplaced_all(canvases: Seq<PixelGrid>) -> Seq<FrameView> {
    canvases.map_values(|g: PixelGrid| FrameView::unplaced(g))
}

/// Width and height of the first of `frames`.
pub open spec fn first_dimensions(frames: Seq<FrameView>) -> (u32, u32) {
    (frames[0].pixels.width as u32, frames[0].pixels.height as u32)
}

/// The frames of an animation that go to the encoder: those up to the limit,
/// transformed. There must be one at least, and the transform must be able to
/// work on each.
pub open spec fn edited_frames<T: FrameTransform>(t: T, limit: usize, all: Seq<FrameView>) -> Result<
    Seq<FrameView>,
    EditError,
> {
    let kept = admitted(all, limit);
    if kept.len() == 0 {
        Err(EditError::Decode)
    } else if !admits_all(t, kept) {
        Err(EditError::TooLarge)
    } else {
        Ok(transformed(t, kept))
    }
}

/// What editing one decoded image gives: the PNG of the transformed image.
pub open spec fn edited_image<T: FrameTransform>(t: T, fmt: DetectedFormat, img: PixelGrid) -> Result<
    EditedView,
    EditError,
> {
    if !t.admits(img) {
        Err(EditError::TooLarge)
    } else {
        let out = t.output(img);
        match png_of(out) {
            None => Err(EditError::Encode),
            Some(bytes) => Ok((bytes, fmt, (out.width as u32, out.height as u32))),
        }
    }
}

/// What editing a still image gives.
pub open spec fn edited_still<T: FrameTransform>(t: T, fmt: DetectedFormat, data: Seq<u8>) -> Result<
    EditedView,
    EditError,
> {
    match still_image_of(data) {
        None => Err(EditError::Decode),
        Some(img) => edited_image(t, fmt, img),
    }
}

/// What editing a GIF under a frame limit gives.
pub open spec fn edited_gif<T: FrameTransform>(t: T, limit: usize, data: Seq<u8>) -> Result<
    EditedView,
    EditError,
> {
    match gif_frames_of(data, DECODE_SCRATCH) {
        None => Err(EditError::Decode),
        Some(all) => match edited_frames(t, limit, all) {
            Err(e) => Err(e),
            Ok(frames) => match looping_gif_of(frames) {
                None => Err(EditError::Encode),
                Some(bytes) => Ok((bytes, DetectedFormat::Gif, first_dimensions(frames))),
            },
        },
    }
}

/// A result without frames left out.
pub open spec fn unreported(r: Result<EditedView, EditError>) -> Result<ReportView, EditError> {
    match r {
        Ok(out) => Ok((out, Seq::<usize>::empty())),
        Err(e) => Err(e),
    }
}

/// What editing a WebP file under a frame limit gives. A file whose header
/// announces no animation is edited as a still image. Of an animation the frames are kept
/// and transformed as those of a GIF are, and written as animated WebP
/// without those that the encoder refuses.
pub open spec fn reported_webp<T: FrameTransform>(t: T, limit: usize, data: Seq<u8>) -> Result<
    ReportView,
    EditError,
> {
    match webp_frames_of(data) {
        None => Err(EditError::Decode),
        Some(all) => if !announces_animation(data) {
            if all.len() == 0 {
                Err(EditError::Decode)
            } else {
                unreported(edited_image(t, DetectedFormat::WebP, all[0]))
            }
        } else {
            match edited_frames(t, limit, unplaced_all(all)) {
                Err(e) => Err(e),
                Ok(frames) => match webp_encoded(frames) {
                    None => Err(EditError::Encode),
                    Some(written) => Ok(
                        ((written.0, DetectedFormat::WebP, first_dimensions(frames)), written.1),
                    ),
                },
            }
        },
    }
}

/// What editing `data` gives, for a transform, the accepted formats and a
/// frame limit, with the frames that the encoder left out.
pub open spec fn reported<T: FrameTransform>(
    t: T,
    accepted: Seq<DetectedFormat>,
    limit: usize,
    data: Seq<u8>,
) -> Result<ReportView, EditError> {
    let fmt = detected_format(data);
    if !is_accepted(accepted, fmt) {
        Err(EditError::UnsupportedFormat)
    } else if fmt == DetectedFormat::Gif {
        unreported(edited_gif(t, limit, data))
    } else if fmt == DetectedFormat::WebP {
        reported_webp(t, limit, data)
    } else {
        unreported(edited_still(t, fmt, data))
    }
}

/// What editing `data` gives, for a transform, the accepted formats and a
/// frame limit.
pub open spec fn edited<T: FrameTransform>(
    t: T,
    accepted: Seq<DetectedFormat>,
    limit: usize,
    data: Seq<u8>,
) -> Result<EditedView, EditError> {
    match reported(t, accepted, limit, data) {
        Ok(report) => Ok(report.0),
        Err(e) => Err(e),
    }
}

/// The mathematical content of what editing returned.
pub open spec fn view_of(r: Result<Edited, EditError>) -> Result<EditedView, EditError> {
    match r {
        Ok(out) => Ok((out.0@, out.1, out.2)),
        Err(e) => Err(e),
    }
}

/// The mathematical content of what editing reported.
pub open spec fn report_view(r: Result<Report, EditError>) -> Result<ReportView, EditError> {
    match r {
        Ok(report) => Ok(((report.0.0@, report.0.1, report.0.2), report.1@)),
        Err(e) => Err(e),
    }
}

/// Transforms one frame if the transform can work on it; place and delay
/// stay.
fn transform_one<T: FrameTransform>(frame: PlacedFrame, t: &T) -> (r: Option<PlacedFrame>)
    requires
        frame.wf(),
    ensures
        r is Some <==> t.admits(frame@.pixels),
        r is Some ==> r.unwrap().wf() && r.unwrap()@ == frame@.with_pixels(
            t.output(frame@.pixels),
        ),
{
    let delay = frame.delay();
    let left: u32 = frame.left();
    let top: u32 = frame.top();
    let buffer = frame.into_buffer();
    if !t.can_apply(&buffer) {
        return None;
    }
    let processed = t.apply(buffer);
    Some(PlacedFrame::from_parts(processed, left, top, delay))
}

/// Pulls at most `limit` frames from a stream of GIF frames, stopping early
/// at its end or at the first frame that does not decode, and transforms
/// each one.
fn transform_frames<T: FrameTransform>(frames: &mut image::Frames, limit: usize, t: &T) -> (r: Result<
    Vec<PlacedFrame>,
    EditError,
>)
    requires
        reads_gif(*old(frames)),
    ensures
        match r {
            Ok(out) => {
                &&& admits_all(*t, admitted(frames_pending(*old(frames)), limit))
                &&& frame_views(out@) == transformed(
                    *t,
                    admitted(frames_pending(*old(frames)), limit),
                )
                &&& forall|i: int| 0 <= i < out@.len() ==> (#[trigger] out@[i]).wf()
            },
            Err(e) => e == EditError::TooLarge && !admits_all(
                *t,
                admitted(frames_pending(*old(frames)), limit),
            ),
        },
{
    let ghost all = frames_pending(*frames);
    let mut out: Vec<PlacedFrame> = Vec::new();
    let mut more: bool = true;
    while more && out.len() < limit
        invariant
            all == frames_pending(*old(frames)),
            reads_gif(*frames),
            out@.len() <= limit,
            out@.len() <= all.len(),
            more ==> frames_pending(*frames) == all.skip(out@.len() as int),
            !more ==> out@.len() == all.len(),
            forall|i: int|
                0 <= i < out@.len() ==> {
                    &&& (#[trigger] out@[i]).wf()
                    &&& t.admits(all[i].pixels)
                    &&& out@[i]@ == all[i].with_pixels(t.output(all[i].pixels))
                },
        decreases (if more { 1int } else { 0int }) + limit - out@.len(),
    {
        match next_frame(frames) {
            Some(Ok(frame)) => {
                match transform_one(frame, t) {
                    Some(processed) => {
                        out.push(processed);
                    },
                    None => {
                        proof {
                            let kept = admitted(all, limit);
                            assert(!t.admits(kept[out@.len() as int].pixels));
                        }
                        return Err(EditError::TooLarge);
                    },
                }
            },
            _ => {
                more = false;
            },
        }
    }
    proof {
        let kept = admitted(all, limit);
        assert forall|i: int| 0 <= i < kept.len() implies t.admits(#[trigger] kept[i].pixels) by {
            assert(out@[i].wf());
        }
        assert(frame_views(out@) =~= transformed(*t, kept));
    }
    Ok(out)
}

/// Pulls at most `limit` canvases from a stream of WebP frames, stopping
/// early at its end, and transforms each one.
fn transform_webp_frames<T: FrameTransform>(
    frames: &mut webp_animation::DecoderIterator,
    limit: usize,
    t: &T,
) -> (r: Result<Vec<PlacedFrame>, EditError>)
    ensures
        match r {
            Ok(out) => {
                &&& admits_all(*t, admitted(unplaced_all(webp_pending(*old(frames))), limit))
                &&& frame_views(out@) == transformed(
                    *t,
                    admitted(unplaced_all(webp_pending(*old(frames))), limit),
                )
                &&& forall|i: int| 0 <= i < out@.len() ==> (#[trigger] out@[i]).wf()
            },
            Err(e) => e == EditError::TooLarge && !admits_all(
                *t,
                admitted(unplaced_all(webp_pending(*old(frames))), limit),
            ),
        },
{
    let ghost raw = webp_pending(*frames);
    let ghost all = unplaced_all(raw);
    let mut out: Vec<PlacedFrame> = Vec::new();
    let mut more: bool = true;
    while more && out.len() < limit
        invariant
            raw == webp_pending(*old(frames)),
            all == unplaced_all(raw),
            out@.len() <= limit,
            out@.len() <= all.len(),
            more ==> webp_pending(*frames) == raw.skip(out@.len() as int),
            !more ==> out@.len() == all.len(),
            forall|i: int|
                0 <= i < out@.len() ==> {
                    &&& (#[trigger] out@[i]).wf()
                    &&& t.admits(all[i].pixels)
                    &&& out@[i]@ == all[i].with_pixels(t.output(all[i].pixels))
                },
        decreases (if more { 1int } else { 0int }) + limit - out@.len(),
    {
        match next_webp_frame(frames) {
            Some(canvas) => {
                assert(all[out@.len() as int] == FrameView::unplaced(raw[out@.len() as int]));
                match transform_one(PlacedFrame::new(canvas), t) {
                    Some(processed) => {
                        out.push(processed);
                    },
                    None => {
                        proof {
                            let kept = admitted(all, limit);
                            assert(!t.admits(kept[out@.len() as int].pixels));
                        }
                        return Err(EditError::TooLarge);
                    },
                }
            },
            None => {
                more = false;
            },
        }
    }
    proof {
        let kept = admitted(all, limit);
        assert forall|i: int| 0 <= i < kept.len() implies t.admits(#[trigger] kept[i].pixels) by {
            assert(out@[i].wf());
        }
        assert(frame_views(out@) =~= transformed(*t, kept));
    }
    Ok(out)
}

/// Edits one decoded image: transform, encode as PNG.
fn edit_image<T: FrameTransform>(t: &T, fmt: DetectedFormat, img: PixelBuffer) -> (r: Result<
    Report,
    EditError,
>)
    requires
        img.wf(),
    ensures
        report_view(r) == unreported(edited_image(*t, fmt, img@)),
{
    if !t.can_apply(&img) {
        return Err(EditError::TooLarge);
    }
    let processed = t.apply(img);
    let new_dimensions = processed.dimensions();
    match encode_png(&processed) {
        Ok(bytes) => Ok(((bytes, fmt, new_dimensions), Vec::new())),
        Err(_) => Err(EditError::Encode),
    }
}

/// Edits a still image that is no WebP file: decode, transform, encode as
/// PNG.
fn edit_still<T: FrameTransform>(t: &T, fmt: DetectedFormat, data: &[u8]) -> (r: Result<
    Report,
    EditError,
>)
    requires
        detected_format(data@) != DetectedFormat::WebP,
    ensures
        report_view(r) == unreported(edited_still(*t, fmt, data@)),
{
    match decode_still(data) {
        Ok(img) => edit_image(t, fmt, img),
        Err(_) => Err(EditError::Decode),
    }
}

/// Edits a GIF: transform the frames up to the limit, encode them as a
/// looping GIF.
fn edit_gif<T: FrameTransform>(t: &T, limit: usize, data: &[u8]) -> (r: Result<Report, EditError>)
    ensures
        report_view(r) == unreported(edited_gif(*t, limit, data@)),
{
    let mut frames = match open_gif(data, DECODE_SCRATCH) {
        Ok(frames) => frames,
        Err(_) => {
            return Err(EditError::Decode);
        },
    };
    let ghost all = frames_pending(frames);
    let edited_frames = match transform_frames(&mut frames, limit, t) {
        Ok(edited_frames) => edited_frames,
        Err(e) => {
            assert(admitted(all, limit).len() > 0);
            return Err(e);
        },
    };
    proof {
        let kept = admitted(all, limit);
        assert(transformed(*t, kept).len() == kept.len());
    }
    if edited_frames.len() == 0 {
        return Err(EditError::Decode);
    }
    let new_dimensions = edited_frames[0].buffer().dimensions();
    match encode_gif(edited_frames) {
        Ok(bytes) => Ok(((bytes, DetectedFormat::Gif, new_dimensions), Vec::new())),
        Err(_) => Err(EditError::Encode),
    }
}

/// Edits a WebP file: as a still image where it holds no animation;
/// otherwise transform the frames up to the limit and encode them as an
/// animated WebP.
fn edit_webp<T: FrameTransform>(t: &T, limit: usize, data: &[u8]) -> (r: Result<Report, EditError>)
    ensures
        report_view(r) == reported_webp(*t, limit, data@),
{
    let mut frames = match open_webp(data) {
        Ok(frames) => frames,
        Err(_) => {
            return Err(EditError::Decode);
        },
    };
    let ghost raw = webp_pending(frames);
    if !is_animated_webp(data) {
        return match next_webp_frame(&mut frames) {
            Some(img) => edit_image(t, DetectedFormat::WebP, img),
            None => Err(EditError::Decode),
        };
    }
    let edited_frames = match transform_webp_frames(&mut frames, limit, t) {
        Ok(edited_frames) => edited_frames,
        Err(e) => {
            assert(admitted(unplaced_all(raw), limit).len() > 0);
            return Err(e);
        },
    };
    proof {
        let kept = admitted(unplaced_all(raw), limit);
        assert(transformed(*t, kept).len() == kept.len());
    }
    if edited_frames.len() == 0 {
        return Err(EditError::Decode);
    }
    let new_dimensions = edited_frames[0].buffer().dimensions();
    match encode_webp(&edited_frames) {
        Ok(written) => Ok(((written.0, DetectedFormat::WebP, new_dimensions), written.1)),
        Err(e) => Err(e),
    }
}

/// A single-use editor: the formats it accepts, the most frames of an
/// animation that it will process, and the transform that it runs on each.
pub struct Editor<'a, T: FrameTransform> {
    accepted_types: Option<&'a [DetectedFormat]>,
    buffer_processor: Option<T>,
    frame_limit: usize,
}

impl<'a, T: FrameTransform> Editor<'a, T> {
    /// The formats that the editor accepts.
    pub closed spec fn accepted(&self) -> Seq<DetectedFormat> {
        match self.accepted_types {
            Some(list) => list@,
            None => default_accepted(),
        }
    }

    /// The most frames of an animation that the editor processes.
    pub closed spec fn frame_limit(&self) -> usize {
        self.frame_limit
    }

    /// The transform that was registered, if any.
    pub closed spec fn processor(&self) -> Option<T> {
        self.buffer_processor
    }

    /// An editor without a transform, which accepts `accepted_types` (PNG,
    /// JPEG, WebP and GIF where none are given) and processes at most
    /// `frame_limit` frames of an animation.
    pub fn new(accepted_types: Option<&'a [DetectedFormat]>, frame_limit: usize) -> (editor: Self)
        ensures
            editor.accepted() == (match accepted_types {
                Some(list) => list@,
                None => default_accepted(),
            }),
            editor.frame_limit() == frame_limit,
            editor.processor() is None,
    {
        Editor { accepted_types, buffer_processor: None, frame_limit }
    }

    /// Registers the transform that runs on the image, or on each frame of an
    /// animation.
    pub fn set_buffer_processor(&mut self, processor: T)
        ensures
            final(self).processor() == Some(processor),
            final(self).accepted() == old(self).accepted(),
            final(self).frame_limit() == old(self).frame_limit(),
    {
        self.buffer_processor = Some(processor);
    }

    /// Edits `data` and gives up the editor. Beside the result stand the
    /// indices of the transformed frames that the encoder left out.
    pub fn process_reporting(self, data: &[u8]) -> (r: Result<Report, EditError>)
        requires
            self.processor() is Some,
        ensures
            report_view(r) == reported(
                self.processor().unwrap(),
                self.accepted(),
                self.frame_limit(),
                data@,
            ),
            !is_accepted(self.accepted(), detected_format(data@)) ==> r == Err::<Report, EditError>(
                EditError::UnsupportedFormat,
            ),
    {
        let processor = self.buffer_processor.unwrap();
        let fmt = detect_format(data);
        let listed = match self.accepted_types {
            Some(list) => accepts(list, fmt),
            None => fmt != DetectedFormat::Unsupported,
        };
        if !listed {
            return Err(EditError::UnsupportedFormat);
        }
        if fmt == DetectedFormat::Gif {
            edit_gif(&processor, self.frame_limit, data)
        } else if fmt == DetectedFormat::WebP {
            edit_webp(&processor, self.frame_limit, data)
        } else {
            edit_still(&processor, fmt, data)
        }
    }

    /// Edits `data` and gives up the editor.
    pub fn process(self, data: &[u8]) -> (r: Result<Edited, EditError>)
        requires
            self.processor() is Some,
        ensures
            view_of(r) == edited(
                self.processor().unwrap(),
                self.accepted(),
                self.frame_limit(),
                data@,
            ),
            !is_accepted(self.accepted(), detected_format(data@)) ==> r == Err::<Edited, EditError>(
                EditError::UnsupportedFormat,
            ),
    {
        match self.process_reporting(data) {
            Ok(report) => Ok(report.0),
            Err(e) => Err(e),
        }
    }
}

/// Of an animation the editor keeps the frames up to the limit, or all of
/// them where they are fewer, in their order. The transform replaces the
/// pixels of each; its place on the canvas and its delay stay as they were.
pub proof fn lemma_frames_kept<T: FrameTransform>(t: T, all: Seq<FrameView>, limit: usize)
    ensures
        transformed(t, admitted(all, limit)).len() == (if all.len() <= limit {
            all.len()
        } else {
            limit as nat
        }),
        transformed(t, admitted(all, limit)).len() <= limit,
        forall|i: int|
            0 <= i < transformed(t, admitted(all, limit)).len() ==> {
                let f = #[trigger] transformed(t, admitted(all, limit))[i];
                &&& f.left == all[i].left
                &&& f.top == all[i].top
                &&& f.delay == all[i].delay
                &&& f.pixels == t.output(all[i].pixels)
            },
{
}

/// An input whose format is not accepted is refused, whatever else it holds.
pub proof fn lemma_unaccepted_refused<T: FrameTransform>(
    t: T,
    accepted: Seq<DetectedFormat>,
    limit: usize,
    data: Seq<u8>,
)
    requires
        !is_accepted(accepted, detected_format(data)),
    ensures
        edited(t, accepted, limit, data) == Err::<EditedView, EditError>(
            EditError::UnsupportedFormat,
        ),
        reported(t, accepted, limit, data) == Err::<ReportView, EditError>(
            EditError::UnsupportedFormat,
        ),
{
}

/// Editing an accepted PNG or JPEG succeeds exactly where the image decodes,
/// the transform can work on it, and the result can be written as PNG. What
/// comes back is then the PNG of the transformed image, whatever the format
/// of the input, with the dimensions of the transformed image; no frame is
/// left out.
pub proof fn lemma_still_output<T: FrameTransform>(
    t: T,
    accepted: Seq<DetectedFormat>,
    limit: usize,
    data: Seq<u8>,
)
    requires
        is_accepted(accepted, detected_format(data)),
        detected_format(data) == DetectedFormat::Png || detected_format(data)
            == DetectedFormat::Jpeg,
    ensures
        edited(t, accepted, limit, data) is Ok <==> {
            &&& still_image_of(data) is Some
            &&& t.admits(still_image_of(data).unwrap())
            &&& png_of(t.output(still_image_of(data).unwrap())) is Some
        },
        edited(t, accepted, limit, data) is Ok ==> ({
            let shown = t.output(still_image_of(data).unwrap());
            let out = edited(t, accepted, limit, data).unwrap();
            &&& png_of(shown) == Some(out.0)
            &&& out.1 == detected_format(data)
            &&& out.2.0 == shown.width as u32
            &&& out.2.1 == shown.height as u32
            &&& reported(t, accepted, limit, data).unwrap().1.len() == 0
        }),
{
}

/// Editing an accepted WebP file that announces no animation succeeds
/// exactly where the decoder yields its image, the transform can work on it,
/// and the result can be written as PNG. What comes back is then the PNG of
/// the transformed image, with its dimensions.
pub proof fn lemma_still_webp_output<T: FrameTransform>(
    t: T,
    accepted: Seq<DetectedFormat>,
    limit: usize,
    data: Seq<u8>,
)
    requires
        is_accepted(accepted, detected_format(data)),
        detected_format(data) == DetectedFormat::WebP,
        !announces_animation(data),
    ensures
        edited(t, accepted, limit, data) is Ok <==> {
            &&& webp_frames_of(data) is Some
            &&& webp_frames_of(data).unwrap().len() > 0
            &&& t.admits(webp_frames_of(data).unwrap()[0])
            &&& png_of(t.output(webp_frames_of(data).unwrap()[0])) is Some
        },
        edited(t, accepted, limit, data) is Ok ==> ({
            let shown = t.output(webp_frames_of(data).unwrap()[0]);
            let out = edited(t, accepted, limit, data).unwrap();
            &&& png_of(shown) == Some(out.0)
            &&& out.1 == DetectedFormat::WebP
            &&& out.2.0 == shown.width as u32
            &&& out.2.1 == shown.height as u32
        }),
{
}

/// Editing an accepted GIF succeeds exactly where the decoder opens it, at
/// least one frame is admitted, the transform can work on every admitted
/// frame, and the encoder writes the result. With `N` frames that decode and
/// a limit of `F`, the encoder is then handed `min(N, F)` frames, in order,
/// each with the place and delay of its source; what comes back is their
/// looping GIF and the dimensions of the first of them.
pub proof fn lemma_gif_output<T: FrameTransform>(
    t: T,
    accepted: Seq<DetectedFormat>,
    limit: usize,
    data: Seq<u8>,
)
    requires
        is_accepted(accepted, detected_format(data)),
        detected_format(data) == DetectedFormat::Gif,
    ensures
        edited(t, accepted, limit, data) is Ok <==> {
            &&& gif_frames_of(data, DECODE_SCRATCH) is Some
            &&& admitted(gif_frames_of(data, DECODE_SCRATCH).unwrap(), limit).len() > 0
            &&& admits_all(t, admitted(gif_frames_of(data, DECODE_SCRATCH).unwrap(), limit))
            &&& looping_gif_of(
                transformed(t, admitted(gif_frames_of(data, DECODE_SCRATCH).unwrap(), limit)),
            ) is Some
        },
        edited(t, accepted, limit, data) is Ok ==> ({
            let all = gif_frames_of(data, DECODE_SCRATCH).unwrap();
            let frames = transformed(t, admitted(all, limit));
            let out = edited(t, accepted, limit, data).unwrap();
            &&& frames.len() == (if all.len() <= limit {
                all.len()
            } else {
                limit as nat
            })
            &&& 0 < frames.len() <= limit
            &&& forall|i: int|
                0 <= i < frames.len() ==> {
                    &&& (#[trigger] frames[i]).left == all[i].left
                    &&& frames[i].top == all[i].top
                    &&& frames[i].delay == all[i].delay
                    &&& frames[i].pixels == t.output(all[i].pixels)
                }
            &&& looping_gif_of(frames) == Some(out.0)
            &&& out.1 == DetectedFormat::Gif
            &&& out.2 == first_dimensions(frames)
            &&& reported(t, accepted, limit, data).unwrap().1.len() == 0
        }),
{
    if gif_frames_of(data, DECODE_SCRATCH) is Some {
        lemma_frames_kept(t, gif_frames_of(data, DECODE_SCRATCH).unwrap(), limit);
    }
}

/// Editing an accepted animated WebP succeeds exactly where the decoder
/// opens it, at least one frame is admitted, the transform can work on every
/// admitted frame, and the encoder writes the result. With `N` frames that
/// decode and a limit of `F`, `min(N, F)` frames are then handed to the
/// encoder, in order. The file holds those that the encoder took, which are
/// no more than the limit; every other one is reported by its index.
pub proof fn lemma_webp_output<T: FrameTransform>(
    t: T,
    accepted: Seq<DetectedFormat>,
    limit: usize,
    data: Seq<u8>,
)
    requires
        is_accepted(accepted, detected_format(data)),
        detected_format(data) == DetectedFormat::WebP,
        announces_animation(data),
    ensures
        reported(t, accepted, limit, data) is Ok <==> {
            &&& webp_frames_of(data) is Some
            &&& admitted(unplaced_all(webp_frames_of(data).unwrap()), limit).len() > 0
            &&& admits_all(t, admitted(unplaced_all(webp_frames_of(data).unwrap()), limit))
            &&& webp_encoded(
                transformed(t, admitted(unplaced_all(webp_frames_of(data).unwrap()), limit)),
            ) is Some
        },
        edited(t, accepted, limit, data) is Ok <==> reported(t, accepted, limit, data) is Ok,
        reported(t, accepted, limit, data) is Ok ==> ({
            let all = webp_frames_of(data).unwrap();
            let frames = transformed(t, admitted(unplaced_all(all), limit));
            let report = reported(t, accepted, limit, data).unwrap();
            let written = taken(canvas_of(frames), frames, frames.len() as int);
            &&& frames.len() == (if all.len() <= limit {
                all.len()
            } else {
                limit as nat
            })
            &&& forall|i: int|
                0 <= i < frames.len() ==> (#[trigger] frames[i]).pixels == t.output(all[i])
            &&& webp_encoded(frames) == Some((report.0.0, report.1))
            &&& report.1 == skipped(canvas_of(frames), frames, frames.len() as int)
            &&& written.len() + report.1.len() == frames.len()
            &&& written.len() <= limit
            &&& report.0.1 == DetectedFormat::WebP
            &&& report.0.2 == first_dimensions(frames)
            &&& edited(t, accepted, limit, data).unwrap() == report.0
        }),
{
    if webp_frames_of(data) is Some {
        let all = unplaced_all(webp_frames_of(data).unwrap());
        lemma_frames_kept(t, all, limit);
        let frames = transformed(t, admitted(all, limit));
        lemma_taken_or_skipped(canvas_of(frames), frames, frames.len() as int);
    }
}

/// Making a circle of a still image and then, with the same diameter, of
/// what came back gives the same bytes again: what was cleared stays cleared
/// and everything else stays as it was. This holds where the PNG that the
/// first run wrote is read back as the image it was written from.
pub proof fn lemma_circle_again(
    c: Circle,
    accepted: Seq<DetectedFormat>,
    limit: usize,
    again: usize,
    data: Seq<u8>,
)
    requires
        is_accepted(accepted, detected_format(data)),
        is_accepted(accepted, DetectedFormat::Png),
        detected_format(data) == DetectedFormat::Png || detected_format(data)
            == DetectedFormat::Jpeg,
        edited(c, accepted, limit, data) is Ok,
        detected_format(edited(c, accepted, limit, data).unwrap().0) == DetectedFormat::Png,
        still_image_of(edited(c, accepted, limit, data).unwrap().0) == Some(
            c.output(still_image_of(data).unwrap()),
        ),
    ensures
        edited(c, accepted, again, edited(c, accepted, limit, data).unwrap().0) == Ok::<
            EditedView,
            EditError,
        >((edited(c, accepted, limit, data).unwrap().0, DetectedFormat::Png, (c.dim, c.dim))),
{
    let img = still_image_of(data).unwrap();
    lemma_circle_takes_its_output(c, img);
}

} // verus!
