//! RGBA pixel grids.

use vstd::prelude::*;

verus! {

/// The mathematical content of a [`PixelBuffer`]: its dimensions and its bytes,
/// row by row, four bytes per pixel.
pub struct PixelGrid {
    pub width: nat,
    pub height: nat,
    pub bytes: Seq<u8>,
}

impl PixelGrid {
    /// The grid holds exactly four bytes for each of its pixels.
    pub open spec fn wf(self) -> bool {
        self.bytes.len() == 4 * self.width * self.height
    }

    /// Position in `bytes` of channel `c` of the pixel in column `x`, row `y`.
    pub open spec fn offset(self, x: int, y: int, c: int) -> int {
        4 * (y * self.width + x) + c
    }

    /// Channel `c` of the pixel in column `x`, row `y`.
    pub open spec fn channel(self, x: int, y: int, c: int) -> u8
        recommends
            self.wf(),
            0 <= x < self.width,
            0 <= y < self.height,
            0 <= c < 4,
    {
        self.bytes[self.offset(x, y, c)]
    }
}

/// Every channel of every pixel has a place inside a well-formed grid, and
/// distinct channels have distinct places.
pub proof fn lemma_offset_in_bounds(g: PixelGrid, x: int, y: int, c: int)
    requires
        g.wf(),
        0 <= x < g.width,
        0 <= y < g.height,
        0 <= c < 4,
    ensures
        0 <= y * g.width <= y * g.width + x < g.width * g.height,
        4 * (g.width * g.height) == g.bytes.len(),
        0 <= g.offset(x, y, c) < g.bytes.len(),
        g.offset(x, y, c) / 4 == y * g.width + x,
        g.offset(x, y, c) % 4 == c,
{
    let w = g.width as int;
    let h = g.height as int;
    assert(y * w + x < w * h) by (nonlinear_arith)
        requires
            0 <= x < w,
            0 <= y < h,
    ;
    assert(0 <= y * w) by (nonlinear_arith)
        requires
            0 <= w,
            0 <= y,
    ;
    assert(4 * g.width * g.height == 4 * (w * h)) by (nonlinear_arith)
        requires
            w == g.width,
            h == g.height,
    ;
}

/// A rectangular grid of RGBA pixels, eight bits per channel.
pub struct PixelBuffer {
    pub(crate) width: u32,
    pub(crate) height: u32,
    pub(crate) data: Vec<u8>,
}

impl View for PixelBuffer {
    type V = PixelGrid;

    closed spec fn view(&self) -> PixelGrid {
        PixelGrid { width: self.width as nat, height: self.height as nat, bytes: self.data@ }
    }
}

impl PixelBuffer {
    /// The buffer holds exactly four bytes per pixel.
    pub open spec fn wf(&self) -> bool {
        self@.wf()
    }

    /// Builds a buffer from its raw bytes; `None` unless `data` holds exactly
    /// four bytes for each of the `width * height` pixels.
    pub fn from_raw(width: u32, height: u32, data: Vec<u8>) -> (r: Option<PixelBuffer>)
        ensures
            r is Some <==> data@.len() == 4 * width * height,
            r is Some ==> r.unwrap()@ == (PixelGrid {
                width: width as nat,
                height: height as nat,
                bytes: data@,
            }),
    {
        assert(width * height <= u64::MAX) by (nonlinear_arith)
            requires
                width <= u32::MAX,
                height <= u32::MAX,
        ;
        assert(4 * width * height == 4 * (width * height)) by (nonlinear_arith);
        let pixels: u64 = width as u64 * height as u64;
        let len: u64 = data.len() as u64;
        if len % 4 == 0 && len / 4 == pixels {
            Some(PixelBuffer { width, height, data })
        } else {
            None
        }
    }

    pub fn width(&self) -> (w: u32)
        ensures
            w == self@.width,
    {
        self.width
    }

    pub fn height(&self) -> (h: u32)
        ensures
            h == self@.height,
    {
        self.height
    }

    /// Both dimensions at once, width first.
    pub fn dimensions(&self) -> (d: (u32, u32))
        ensures
            d.0 == self@.width,
            d.1 == self@.height,
    {
        (self.width, self.height)
    }

    /// The raw bytes, row by row.
    pub fn as_raw(&self) -> (bytes: &Vec<u8>)
        ensures
            bytes@ == self@.bytes,
    {
        &self.data
    }

    /// Gives up the buffer for its raw bytes.
    pub fn into_raw(self) -> (bytes: Vec<u8>)
        ensures
            bytes@ == self@.bytes,
    {
        self.data
    }

    /// Where the pixel in column `x`, row `y` starts in the raw bytes.
    fn pixel_start(&self, x: u32, y: u32) -> (at: usize)
        requires
            self.wf(),
            x < self@.width,
            y < self@.height,
        ensures
            at == self@.offset(x as int, y as int, 0),
            at + 3 < self@.bytes.len(),
    {
        proof {
            lemma_offset_in_bounds(self@, x as int, y as int, 0);
            lemma_offset_in_bounds(self@, x as int, y as int, 3);
            assert(self@.bytes.len() == self.data.len());
        }
        4 * (y as usize * self.width as usize + x as usize)
    }

    /// The four channels of the pixel in column `x`, row `y`.
    pub fn get_pixel(&self, x: u32, y: u32) -> (px: [u8; 4])
        requires
            self.wf(),
            x < self@.width,
            y < self@.height,
        ensures
            forall|c: int| 0 <= c < 4 ==> px[c] == self@.channel(x as int, y as int, c),
    {
        let base: usize = self.pixel_start(x, y);
        [self.data[base], self.data[base + 1], self.data[base + 2], self.data[base + 3]]
    }

    /// Sets the alpha channel of the pixel in column `x`, row `y`, and nothing else.
    pub fn set_alpha(&mut self, x: u32, y: u32, alpha: u8)
        requires
            old(self).wf(),
            x < old(self)@.width,
            y < old(self)@.height,
        ensures
            final(self).wf(),
            final(self)@.width == old(self)@.width,
            final(self)@.height == old(self)@.height,
            final(self)@.bytes == old(self)@.bytes.update(
                old(self)@.offset(x as int, y as int, 3),
                alpha,
            ),
    {
        let at: usize = self.pixel_start(x, y) + 3;
        self.data.set(at, alpha);
    }
}

} // verus!
