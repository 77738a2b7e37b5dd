//! What the editor does to each frame, and the two transforms that come with
//! the library.

use crate::codec::{resampled, resizable, resize_nearest};
use crate::geometry::{larger, lemma_scaled_side_bounded, scale_dims, scaled_side};
use crate::mask::{
    circle_masked, circlize_frame, lemma_mask_idempotent, lemma_masked_channels, outside_circle,
};
use crate::pixels::{PixelBuffer, PixelGrid};
use vstd::prelude::*;

verus! {

/// A transform of single frames. It is a function of the frame alone: the
/// same pixels always give the same result.
pub trait FrameTransform {
    /// Whether the transform can work on `img`.
    spec fn admits(&self, img: PixelGrid) -> bool;

    /// What the transform makes of `img`.
    spec fn output(&self, img: PixelGrid) -> PixelGrid;

    /// Tells whether [`apply`](Self::apply) may be called on `img`.
    fn can_apply(&self, img: &PixelBuffer) -> (yes: bool)
        requires
            img.wf(),
        ensures
            yes == self.admits(img@),
    ;

    /// Consumes `img` and returns what replaces it.
    fn apply(&self, img: PixelBuffer) -> (out: PixelBuffer)
        requires
            img.wf(),
            self.admits(img@),
        ensures
            out.wf(),
            out@ == self.output(img@),
    ;
}

/// Whether a result of `nwidth * nheight` pixels, made from an image of
/// `src.0 * src.1` pixels, is within what the resampler can allocate.
fn fits_resampler(src: (u32, u32), nwidth: u32, nheight: u32) -> (yes: bool)
    ensures
        yes == (4 * (nwidth * nheight) <= isize::MAX && ((src.0 == nwidth && src.1 == nheight) || 16
            * (src.0 * nheight) <= isize::MAX)),
{
    assert(nwidth * nheight <= 0xffff_fffe_0000_0001 && src.0 * nheight <= 0xffff_fffe_0000_0001)
        by (nonlinear_arith)
        requires
            nwidth <= 0xffff_ffff,
            nheight <= 0xffff_ffff,
            src.0 <= 0xffff_ffff,
    ;
    let out_bytes: u128 = 4 * (nwidth as u128 * nheight as u128);
    let mid_bytes: u128 = 16 * (src.0 as u128 * nheight as u128);
    let most: u128 = isize::MAX as u128;
    out_bytes <= most && ((src.0 == nwidth && src.1 == nheight) || mid_bytes <= most)
}

/// Scale-to-fit resize with nearest-neighbour sampling.
#[derive(Clone, Copy, Debug)]
pub struct Resize {
    pub width: u32,
    pub height: u32,
    /// Whether the frame keeps its proportions: the larger of `width` and
    /// `height` then bounds both sides of the result.
    pub keep_aspect: bool,
}

impl Resize {
    /// The side of the square that bounds the result when proportions are
    /// kept.
    pub open spec fn bound(&self) -> int {
        larger(self.width as int, self.height as int)
    }

    /// Width of the result for a frame of `w * h` pixels.
    pub open spec fn out_width(&self, w: int, h: int) -> int {
        if self.keep_aspect {
            scaled_side(w, w, h, self.bound())
        } else {
            self.width as int
        }
    }

    /// Height of the result for a frame of `w * h` pixels.
    pub open spec fn out_height(&self, w: int, h: int) -> int {
        if self.keep_aspect {
            scaled_side(h, w, h, self.bound())
        } else {
            self.height as int
        }
    }

    /// Dimensions of the result for a frame of the dimensions `dims`.
    pub fn target(&self, dims: (u32, u32)) -> (t: (u32, u32))
        ensures
            t.0 == self.out_width(dims.0 as int, dims.1 as int),
            t.1 == self.out_height(dims.0 as int, dims.1 as int),
    {
        if self.keep_aspect {
            let bound: u32 = if self.width >= self.height {
                self.width
            } else {
                self.height
            };
            scale_dims(dims, bound)
        } else {
            (self.width, self.height)
        }
    }
}

impl FrameTransform for Resize {
    open spec fn admits(&self, img: PixelGrid) -> bool {
        resizable(
            img,
            self.out_width(img.width as int, img.height as int) as u32,
            self.out_height(img.width as int, img.height as int) as u32,
        )
    }

    open spec fn output(&self, img: PixelGrid) -> PixelGrid {
        resampled(
            img,
            self.out_width(img.width as int, img.height as int) as u32,
            self.out_height(img.width as int, img.height as int) as u32,
        )
    }

    fn can_apply(&self, img: &PixelBuffer) -> (yes: bool) {
        let (w, h) = self.target(img.dimensions());
        fits_resampler(img.dimensions(), w, h)
    }

    fn apply(&self, img: PixelBuffer) -> (out: PixelBuffer) {
        let (w, h) = self.target(img.dimensions());
        resize_nearest(&img, w, h)
    }
}

/// Resize to a square and mask everything outside the inscribed circle.
#[derive(Clone, Copy, Debug)]
pub struct Circle {
    /// Side of the square, which is the diameter of the circle.
    pub dim: u32,
}

impl FrameTransform for Circle {
    open spec fn admits(&self, img: PixelGrid) -> bool {
        resizable(img, self.dim, self.dim)
    }

    open spec fn output(&self, img: PixelGrid) -> PixelGrid {
        circle_masked(resampled(img, self.dim, self.dim), self.dim as int)
    }

    fn can_apply(&self, img: &PixelBuffer) -> (yes: bool) {
        fits_resampler(img.dimensions(), self.dim, self.dim)
    }

    fn apply(&self, img: PixelBuffer) -> (out: PixelBuffer) {
        let mut resized = resize_nearest(&img, self.dim, self.dim);
        circlize_frame(&mut resized, self.dim);
        resized
    }
}

/// With proportions kept, a frame of `W * H` pixels comes out
/// `floor(W * B / max(W, H))` wide and `floor(H * B / max(W, H))` high, where
/// `B` is the larger of the two sides asked for; neither side exceeds `B`.
pub proof fn lemma_resize_keeps_aspect(r: Resize, img: PixelGrid)
    requires
        r.keep_aspect,
    ensures
        r.output(img).width == scaled_side(
            img.width as int,
            img.width as int,
            img.height as int,
            larger(r.width as int, r.height as int),
        ),
        r.output(img).height == scaled_side(
            img.height as int,
            img.width as int,
            img.height as int,
            larger(r.width as int, r.height as int),
        ),
        larger(img.width as int, img.height as int) > 0 ==> {
            &&& r.output(img).width == (img.width * larger(r.width as int, r.height as int)) / larger(
                img.width as int,
                img.height as int,
            )
            &&& r.output(img).height == (img.height * larger(r.width as int, r.height as int))
                / larger(img.width as int, img.height as int)
        },
        r.output(img).width <= larger(r.width as int, r.height as int),
        r.output(img).height <= larger(r.width as int, r.height as int),
{
    let w = img.width as int;
    let h = img.height as int;
    lemma_scaled_side_bounded(w, w, h, r.bound());
    lemma_scaled_side_bounded(h, w, h, r.bound());
}

/// Without proportions kept, every frame comes out with the sides asked for.
pub proof fn lemma_resize_exact(r: Resize, img: PixelGrid)
    requires
        !r.keep_aspect,
    ensures
        r.output(img).width == r.width,
        r.output(img).height == r.height,
{
}

/// In what the circle transform returns, every pixel farther from the centre
/// than half the side is fully transparent, and every other pixel is as the
/// resampler left it. Other channels than alpha are never touched.
pub proof fn lemma_circle_clears_outside(c: Circle, img: PixelGrid)
    requires
        resampled(img, c.dim, c.dim).wf(),
    ensures
        c.output(img).wf(),
        c.output(img).width == c.dim,
        c.output(img).height == c.dim,
        forall|x: int, y: int|
            0 <= x < c.dim && 0 <= y < c.dim ==> #[trigger] c.output(img).channel(x, y, 3) == (if outside_circle(
                x,
                y,
                c.dim as int,
            ) {
                0u8
            } else {
                resampled(img, c.dim, c.dim).channel(x, y, 3)
            }),
        forall|x: int, y: int, k: int|
            0 <= x < c.dim && 0 <= y < c.dim && 0 <= k < 3 ==> #[trigger] c.output(img).channel(x, y, k)
                == resampled(img, c.dim, c.dim).channel(x, y, k),
{
    lemma_masked_channels(resampled(img, c.dim, c.dim), c.dim as int);
}

/// Making a circle of what already is one, with the same diameter, changes
/// nothing: what was cleared stays cleared and the rest stays as it was.
pub proof fn lemma_circle_idempotent(c: Circle, img: PixelGrid)
    ensures
        c.output(c.output(img)) == c.output(img),
{
    let once = resampled(img, c.dim, c.dim);
    lemma_mask_idempotent(once, c.dim as int);
}

/// What the circle transform returns it can take again, and returns
/// unchanged.
pub proof fn lemma_circle_takes_its_output(c: Circle, img: PixelGrid)
    requires
        c.admits(img),
    ensures
        c.admits(c.output(img)),
        c.output(c.output(img)) == c.output(img),
{
    lemma_circle_idempotent(c, img);
}

} // verus!
