//! A captured frame: the pixels of the watched window at one instant.
//!
//! The sampler reads single pixels from a frame by coordinate. Every read is
//! bounds-checked; a read outside the frame yields nothing instead of a
//! colour, which lets the sampler report a monitored point that no longer
//! lies inside the window.

use vstd::prelude::*;
use crate::color::Rgb;

verus! {

/// Bytes stored per pixel: red, green, blue, alpha.
pub const CHANNELS: usize = 4;

/// What a frame is: its size in pixels and its bytes, row by row from the
/// top, each pixel as red, green, blue, alpha.
pub struct FrameView {
    pub width: nat,
    pub height: nat,
    pub data: Seq<u8>,
}

impl FrameView {
    /// Number of bytes that a frame of this size holds.
    pub open spec fn byte_len(self) -> nat {
        4 * (self.width * self.height)
    }

    /// Whether the pixel at column `x`, row `y` lies inside the frame.
    pub open spec fn contains(self, x: int, y: int) -> bool {
        0 <= x < self.width && 0 <= y < self.height
    }

    /// Index in `data` of the first byte of the pixel at column `x`, row `y`.
    pub open spec fn offset(self, x: int, y: int) -> int {
        4 * (y * self.width + x)
    }

    /// Colour of the pixel at column `x`, row `y`, its alpha channel left out.
    pub open spec fn color_at(self, x: int, y: int) -> Rgb
        recommends
            self.contains(x, y),
    {
        let i = self.offset(x, y);
        Rgb(self.data[i], self.data[i + 1], self.data[i + 2])
    }

    /// What a bounds-checked read at column `x`, row `y` yields.
    pub open spec fn read(self, x: int, y: int) -> Option<Rgb> {
        if self.contains(x, y) {
            Some(self.color_at(x, y))
        } else {
            None
        }
    }
}

/// A captured frame. It always holds exactly four bytes for each of its
/// `width * height` pixels.
pub struct Frame {
    width: u32,
    height: u32,
    data: Vec<u8>,
}

impl View for Frame {
    type V = FrameView;

    closed spec fn view(&self) -> FrameView {
        FrameView { width: self.width as nat, height: self.height as nat, data: self.data@ }
    }
}

impl Frame {
    #[verifier::type_invariant]
    spec fn well_formed(&self) -> bool {
        self@.data.len() == self@.byte_len()
    }

    /// Makes a frame of the given size from its bytes. The bytes are accepted
    /// exactly when there are four of them for every pixel.
    pub fn new(width: u32, height: u32, data: Vec<u8>) -> (r: Option<Frame>)
        ensures
            r is Some <==> data@.len() == 4 * (width * height),
            r matches Some(f) ==> f@.data.len() == f@.byte_len(),
            r matches Some(f) ==> f@ == (FrameView {
                width: width as nat,
                height: height as nat,
                data: data@,
            }),
    {
        assert(width * height <= 0xffff_ffff * 0xffff_ffff) by (nonlinear_arith)
            requires
                0 <= width <= 0xffff_ffff,
                0 <= height <= 0xffff_ffff,
        ;
        let expected: u128 = 4 * (width as u128 * height as u128);
        if data.len() as u128 == expected {
            Some(Frame { width, height, data })
        } else {
            None
        }
    }

    /// Width of the frame in pixels.
    pub fn width(&self) -> (w: u32)
        ensures
            w == self@.width,
    {
        self.width
    }

    /// Height of the frame in pixels.
    pub fn height(&self) -> (h: u32)
        ensures
            h == self@.height,
    {
        self.height
    }

    /// Reads the colour of the pixel at column `x`, row `y`, or nothing when
    /// that pixel lies outside the frame.
    pub fn color_at(&self, x: u32, y: u32) -> (r: Option<Rgb>)
        ensures
            r == self@.read(x as int, y as int),
    {
        if x >= self.width || y >= self.height {
            return None;
        }
        proof {
            use_type_invariant(self);
            lemma_pixel_inside(x as int, y as int, self.width as int, self.height as int);
            assert(self.data@.len() == self.data.len() <= usize::MAX);
        }
        let i: usize = CHANNELS * (y as usize * self.width as usize + x as usize);
        Some(Rgb(self.data[i], self.data[i + 1], self.data[i + 2]))
    }
}

/// A pixel inside a `width` by `height` frame has its four bytes inside the
/// frame's `4 * width * height` bytes.
proof fn lemma_pixel_inside(x: int, y: int, width: int, height: int)
    requires
        0 <= x < width,
        0 <= y < height,
    ensures
        0 <= y * width,
        y * width + x < width * height,
        4 * (y * width + x) + 4 <= 4 * (width * height),
{
    assert(0 <= y * width && (y + 1) * width <= height * width) by (nonlinear_arith)
        requires
            0 <= y,
            y + 1 <= height,
            0 <= width,
    ;
    assert((y + 1) * width == y * width + width) by (nonlinear_arith);
    assert(height * width == width * height) by (nonlinear_arith);
}

} // verus!
