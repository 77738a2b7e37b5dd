//! Writing an animation as animated WebP. The encoder may refuse single
//! frames; such frames are left out and the rest is written.

use crate::codec::{
    animated_webp_of, encoder_canvas, encoder_frames, frame_views, webp_add_frame,
    webp_canvas_taken, webp_encoder, webp_finish, webp_frame_taken, MAX_WEBP_SIDE,
};
use crate::editor::EditError;
use crate::frames::{FrameView, PlacedFrame};
use crate::pixels::PixelGrid;
use vstd::prelude::*;

verus! {

/// What an encoder for `canvas` has taken once the first `n` of `frames` were
/// handed to it in order, each with its index as timestamp.
pub open spec fn taken(canvas: (u32, u32), frames: Seq<FrameView>, n: int) -> Seq<(PixelGrid, i32)>
    decreases n,
{
    if n <= 0 {
        Seq::empty()
    } else {
        let before = taken(canvas, frames, n - 1);
        if webp_frame_taken(canvas, before, frames[n - 1].pixels, (n - 1) as i32) {
            before.push((frames[n - 1].pixels, (n - 1) as i32))
        } else {
            before
        }
    }
}

/// The indices, in order, of those of the first `n` of `frames` that an
/// encoder for `canvas` does not take.
pub open spec fn skipped(canvas: (u32, u32), frames: Seq<FrameView>, n: int) -> Seq<usize>
    decreases n,
{
    if n <= 0 {
        Seq::empty()
    } else {
        let before = skipped(canvas, frames, n - 1);
        if webp_frame_taken(
            canvas,
            taken(canvas, frames, n - 1),
            frames[n - 1].pixels,
            (n - 1) as i32,
        ) {
            before
        } else {
            before.push((n - 1) as usize)
        }
    }
}

/// The canvas of the animated WebP of `frames`: that of the first frame.
pub open spec fn canvas_of(frames: Seq<FrameView>) -> (u32, u32) {
    (frames[0].pixels.width as u32, frames[0].pixels.height as u32)
}

/// The animated WebP of `frames` and the indices of the frames left out of
/// it. The canvas is that of the first frame, frame `i` is shown from
/// millisecond `i` on, and the animation ends at the number of frames.
/// `None` where there is no frame, where there are more than timestamps can
/// count, where a side of the canvas exceeds [`MAX_WEBP_SIDE`], or where the
/// encoder cannot be made or fails to assemble the file.
pub open spec fn webp_encoded(frames: Seq<FrameView>) -> Option<(Seq<u8>, Seq<usize>)> {
    if frames.len() == 0 || frames.len() > i32::MAX {
        None
    } else if frames[0].pixels.width > MAX_WEBP_SIDE || frames[0].pixels.height > MAX_WEBP_SIDE {
        None
    } else if !webp_canvas_taken(canvas_of(frames).0, canvas_of(frames).1) {
        None
    } else {
        match animated_webp_of(
            canvas_of(frames),
            taken(canvas_of(frames), frames, frames.len() as int),
            frames.len() as i32,
        ) {
            None => None,
            Some(bytes) => Some((bytes, skipped(canvas_of(frames), frames, frames.len() as int))),
        }
    }
}

/// Every one of the first `n` frames is either taken or listed as skipped,
/// and none is both.
pub proof fn lemma_taken_or_skipped(canvas: (u32, u32), frames: Seq<FrameView>, n: int)
    requires
        0 <= n,
    ensures
        taken(canvas, frames, n).len() + skipped(canvas, frames, n).len() == n,
        forall|k: int|
            0 <= k < skipped(canvas, frames, n).len() ==> #[trigger] skipped(canvas, frames, n)[k]
                < n,
    decreases n,
{
    if n > 0 {
        lemma_taken_or_skipped(canvas, frames, n - 1);
    }
}

/// Writes `frames` as one animated WebP whose canvas has the dimensions of
/// the first frame. Frame `i` is shown from millisecond `i` on, and the
/// animation ends at the number of frames. A frame that the encoder refuses
/// is left out; the indices of those frames come back beside the bytes.
pub fn encode_webp(frames: &Vec<PlacedFrame>) -> (r: Result<(Vec<u8>, Vec<usize>), EditError>)
    requires
        forall|i: int| 0 <= i < frames@.len() ==> (#[trigger] frames@[i]).wf(),
    ensures
        match r {
            Ok(out) => webp_encoded(frame_views(frames@)) == Some((out.0@, out.1@)),
            Err(e) => e == EditError::Encode && webp_encoded(frame_views(frames@)) is None,
        },
{
    let count: usize = frames.len();
    if count == 0 || count > 0x7fff_ffff {
        return Err(EditError::Encode);
    }
    let (width, height) = frames[0].buffer().dimensions();
    if width > MAX_WEBP_SIDE || height > MAX_WEBP_SIDE {
        return Err(EditError::Encode);
    }
    let mut encoder = match webp_encoder(width, height) {
        Ok(encoder) => encoder,
        Err(_) => {
            return Err(EditError::Encode);
        },
    };
    let ghost views = frame_views(frames@);
    let mut left_out: Vec<usize> = Vec::new();
    let mut i: usize = 0;
    while i < count
        invariant
            count == frames@.len(),
            views == frame_views(frames@),
            0 < count <= 0x7fff_ffff,
            i <= count,
            forall|j: int| 0 <= j < frames@.len() ==> (#[trigger] frames@[j]).wf(),
            encoder_canvas(encoder) == (width, height),
            encoder_frames(encoder) == taken((width, height), views, i as int),
            left_out@ == skipped((width, height), views, i as int),
        decreases count - i,
    {
        match webp_add_frame(&mut encoder, frames[i].buffer(), i as i32) {
            Ok(_) => {},
            Err(_) => {
                left_out.push(i);
            },
        }
        i = i + 1;
    }
    match webp_finish(encoder, count as i32) {
        Ok(bytes) => Ok((bytes, left_out)),
        Err(_) => Err(EditError::Encode),
    }
}

} // verus!
