//! Frames of an animation: a pixel buffer with its place on the canvas and
//! the time it stays on screen.

use crate::pixels::{PixelBuffer, PixelGrid};
use vstd::prelude::*;

verus! {

/// How long a frame is shown, as a fraction of milliseconds.
#[derive(Clone, Copy, Debug, PartialEq, Eq, Structural)]
pub struct Delay {
    pub(crate) numer: u32,
    pub(crate) denom: u32,
}

impl Delay {
    /// The numerator of the fraction.
    pub closed spec fn numer(self) -> u32 {
        self.numer
    }

    /// The denominator of the fraction.
    pub closed spec fn denom(self) -> u32 {
        self.denom
    }

    /// The denominator is not zero.
    pub open spec fn wf(self) -> bool {
        self.denom() != 0
    }

    /// No time at all: zero milliseconds.
    pub closed spec fn none() -> Delay {
        Delay { numer: 0, denom: 1 }
    }

    /// The delay of `numerator / denominator` milliseconds.
    pub fn from_numer_denom_ms(numerator: u32, denominator: u32) -> (d: Delay)
        requires
            denominator != 0,
        ensures
            d.wf(),
            d.numer() == numerator,
            d.denom() == denominator,
    {
        Delay { numer: numerator, denom: denominator }
    }

    /// Numerator and denominator, as they were given.
    pub fn numer_denom_ms(self) -> (nd: (u32, u32))
        ensures
            nd.0 == self.numer(),
            nd.1 == self.denom(),
    {
        (self.numer, self.denom)
    }
}

/// The mathematical content of a [`PlacedFrame`].
pub struct FrameView {
    pub pixels: PixelGrid,
    pub left: u32,
    pub top: u32,
    pub delay: Delay,
}

impl FrameView {
    /// The pixels fill their grid and the delay is a fraction.
    pub open spec fn wf(self) -> bool {
        self.pixels.wf() && self.delay.wf()
    }

    /// `pixels` at the origin of the canvas, shown for no time.
    pub open spec fn unplaced(pixels: PixelGrid) -> FrameView {
        FrameView { pixels, left: 0, top: 0, delay: Delay::none() }
    }

    /// The same frame with other pixels.
    pub open spec fn with_pixels(self, pixels: PixelGrid) -> FrameView {
        FrameView { pixels, left: self.left, top: self.top, delay: self.delay }
    }
}

/// One frame of an animation, or the only frame of a still image.
pub struct PlacedFrame {
    pub(crate) buffer: PixelBuffer,
    pub(crate) left: u32,
    pub(crate) top: u32,
    pub(crate) delay: Delay,
}

impl View for PlacedFrame {
    type V = FrameView;

    closed spec fn view(&self) -> FrameView {
        FrameView { pixels: self.buffer@, left: self.left, top: self.top, delay: self.delay }
    }
}

impl PlacedFrame {
    /// The buffer is well formed and the delay is a fraction.
    pub open spec fn wf(&self) -> bool {
        self@.wf()
    }

    /// A frame at the origin of the canvas, shown for no time.
    pub fn new(buffer: PixelBuffer) -> (f: PlacedFrame)
        ensures
            f@ == FrameView::unplaced(buffer@),
            f@.delay.numer() == 0,
            f@.delay.denom() == 1,
    {
        PlacedFrame { buffer, left: 0, top: 0, delay: Delay::from_numer_denom_ms(0, 1) }
    }

    /// A frame from its parts.
    pub fn from_parts(buffer: PixelBuffer, left: u32, top: u32, delay: Delay) -> (f: PlacedFrame)
        ensures
            f@ == (FrameView { pixels: buffer@, left, top, delay }),
    {
        PlacedFrame { buffer, left, top, delay }
    }

    /// How long the frame is shown.
    pub fn delay(&self) -> (d: Delay)
        ensures
            d == self@.delay,
    {
        self.delay
    }

    /// The pixels of the frame.
    pub fn buffer(&self) -> (b: &PixelBuffer)
        ensures
            b@ == self@.pixels,
    {
        &self.buffer
    }

    /// Gives up the frame for its pixels.
    pub fn into_buffer(self) -> (b: PixelBuffer)
        ensures
            b@ == self@.pixels,
    {
        self.buffer
    }

    /// Horizontal offset of the frame on the canvas.
    pub fn left(&self) -> (x: u32)
        ensures
            x == self@.left,
    {
        self.left
    }

    /// Vertical offset of the frame on the canvas.
    pub fn top(&self) -> (y: u32)
        ensures
            y == self@.top,
    {
        self.top
    }
}

} // verus!
