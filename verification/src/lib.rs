//! Frame-by-frame editing of still and animated images: detect the container,
//! decode it into RGBA frames, run one transform over every admitted frame and
//! encode the result again.

use vstd::prelude::*;

pub mod codec;
pub mod editor;
pub mod format;
pub mod frames;
pub mod geometry;
pub mod mask;
pub mod pixels;
pub mod security;
pub mod service;
pub mod transform;
pub mod webp;

pub use crate::geometry::{scale_dims, to_cartesian};
pub use crate::mask::circlize_frame;

use crate::editor::{edited, view_of, EditError, Edited, Editor};
use crate::format::{default_accepted, detected_format, is_accepted};
use crate::transform::{Circle, Resize};

verus! {

/// Resizes an image, or up to `frames` frames of an animation, to
/// `width * height` pixels. With `keep_aspect` every frame keeps its
/// proportions inside a square whose side is the larger of the two.
pub fn resize_img(buf: &[u8], width: u32, height: u32, frames: usize, keep_aspect: bool) -> (r: Result<
    Edited,
    EditError,
>)
    ensures
        view_of(r) == edited((Resize { width, height, keep_aspect }), default_accepted(), frames, buf@),
        !is_accepted(default_accepted(), detected_format(buf@)) ==> r == Err::<Edited, EditError>(
            EditError::UnsupportedFormat,
        ),
{
    let mut editor = Editor::new(None, frames);
    editor.set_buffer_processor(Resize { width, height, keep_aspect });
    editor.process(buf)
}

/// Resizes an image, or up to `frames` frames of an animation, to a square of
/// `dim * dim` pixels and makes everything outside the inscribed circle
/// transparent.
pub fn circlize_img(buf: &[u8], dim: u32, frames: usize) -> (r: Result<Edited, EditError>)
    ensures
        view_of(r) == edited((Circle { dim }), default_accepted(), frames, buf@),
        !is_accepted(default_accepted(), detected_format(buf@)) ==> r == Err::<Edited, EditError>(
            EditError::UnsupportedFormat,
        ),
{
    let mut editor = Editor::new(None, frames);
    editor.set_buffer_processor(Circle { dim });
    editor.process(buf)
}

} // verus!
