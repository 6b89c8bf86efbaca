//! Owned RGBA bitmaps: the captured screen and its downscaled copy.

use crate::color::Rgb;
use vstd::prelude::*;

verus! {

/// Number of bytes that one pixel occupies: red, green, blue, alpha.
pub const BYTES_PER_PIXEL: usize = 4;

/// The mathematical content of a [`Frame`]: its dimensions and its bytes,
/// row after row, four bytes per pixel.
pub struct FrameView {
    pub width: nat,
    pub height: nat,
    pub pixels: Seq<u8>,
}

impl FrameView {
    /// The bytes cover the grid exactly.
    pub open spec fn wf(self) -> bool {
        self.pixels.len() == self.width * self.height * 4
    }

    /// Index of the first byte of the pixel at column `x`, row `y`.
    pub open spec fn offset(self, x: int, y: int) -> int {
        (y * self.width + x) * 4
    }

    /// Colour of the pixel at column `x`, row `y`; the alpha byte is left out.
    pub open spec fn rgb_at(self, x: int, y: int) -> Rgb {
        Rgb {
            r: self.pixels[self.offset(x, y)],
            g: self.pixels[self.offset(x, y) + 1],
            b: self.pixels[self.offset(x, y) + 2],
        }
    }

    /// Neither dimension is zero.
    pub open spec fn nonempty(self) -> bool {
        self.width > 0 && self.height > 0
    }
}

/// The pixel at `(x, y)` of a well-formed view lies inside its bytes.
pub proof fn lemma_offset_in_bounds(view: FrameView, x: int, y: int)
    requires
        view.wf(),
        0 <= x < view.width,
        0 <= y < view.height,
    ensures
        0 <= view.offset(x, y),
        view.offset(x, y) + 4 <= view.pixels.len(),
{
    let w = view.width as int;
    let h = view.height as int;
    assert(0 <= y * w + x && (y * w + x) + 1 <= w * h) by (nonlinear_arith)
        requires
            0 <= x < w,
            0 <= y < h,
    ;
    assert(view.width * view.height * 4 == (w * h) * 4) by (nonlinear_arith)
        requires
            w == view.width,
            h == view.height,
    ;
}

/// An RGBA bitmap with 8 bits per channel.
///
/// The buffer always holds exactly `width * height * 4` bytes.
#[derive(Debug)]
pub struct Frame {
    pub(crate) width: u32,
    pub(crate) height: u32,
    pub(crate) pixels: Vec<u8>,
}

impl View for Frame {
    type V = FrameView;

    closed spec fn view(&self) -> FrameView {
        FrameView { width: self.width as nat, height: self.height as nat, pixels: self.pixels@ }
    }
}

impl Frame {
    #[verifier::type_invariant]
    pub(crate) closed spec fn well_formed(self) -> bool {
        self.pixels@.len() == (self.width as nat) * (self.height as nat) * 4
    }

    /// Builds a frame from raw bytes; `None` unless the buffer holds exactly
    /// `width * height * 4` bytes.
    pub fn from_raw(width: u32, height: u32, pixels: Vec<u8>) -> (out: Option<Frame>)
        ensures
            out is Some <==> pixels@.len() == width * height * 4,
            out matches Some(frame) ==> frame@ == (FrameView {
                width: width as nat,
                height: height as nat,
                pixels: pixels@,
            }),
    {
        assert(width * height <= 0xFFFF_FFFF * 0xFFFF_FFFF) by (nonlinear_arith)
            requires
                width <= 0xFFFF_FFFF,
                height <= 0xFFFF_FFFF,
        ;
        let cells: u128 = (width as u128) * (height as u128);
        let needed: u128 = cells * 4;
        if pixels.len() as u128 == needed {
            Some(Frame { width, height, pixels })
        } else {
            None
        }
    }

    /// The one-pixel transparent black frame that a capture loop starts from.
    pub fn blank() -> (out: Frame)
        ensures
            out@ == (FrameView { width: 1, height: 1, pixels: seq![0u8, 0u8, 0u8, 0u8] }),
    {
        let mut pixels: Vec<u8> = Vec::new();
        pixels.push(0);
        pixels.push(0);
        pixels.push(0);
        pixels.push(0);
        assert(pixels@ =~= seq![0u8, 0u8, 0u8, 0u8]);
        assert((1 as nat) * (1 as nat) * 4 == 4) by (nonlinear_arith);
        Frame { width: 1, height: 1, pixels }
    }

    /// Width in pixels.
    pub fn width(&self) -> (out: u32)
        ensures
            out == self@.width,
    {
        self.width
    }

    /// Height in pixels.
    pub fn height(&self) -> (out: u32)
        ensures
            out == self@.height,
    {
        self.height
    }

    /// `(width, height)`; the bytes of a frame always cover its grid exactly.
    pub fn dimensions(&self) -> (out: (u32, u32))
        ensures
            out.0 == self@.width,
            out.1 == self@.height,
            self@.wf(),
    {
        proof {
            use_type_invariant(self);
        }
        (self.width, self.height)
    }

    /// The raw bytes, row after row.
    pub fn as_raw(&self) -> (out: &Vec<u8>)
        ensures
            out@ == self@.pixels,
    {
        &self.pixels
    }

    /// Gives the raw bytes back.
    pub fn into_raw(self) -> (out: Vec<u8>)
        ensures
            out@ == self@.pixels,
    {
        self.pixels
    }

    /// Colour of the pixel at column `x`, row `y` of the frame.
    pub fn pixel(&self, x: u32, y: u32) -> (out: Rgb)
        requires
            x < self@.width,
            y < self@.height,
        ensures
            out == self@.rgb_at(x as int, y as int),
    {
        let len: usize = self.pixels.len();
        proof {
            use_type_invariant(self);
            lemma_offset_in_bounds(self@, x as int, y as int);
            let w = self.width as int;
            assert(self@.offset(x as int, y as int) == (y * w + x) * 4);
            assert((y * w + x) * 4 + 4 <= len);
            assert(0 <= y * w) by (nonlinear_arith)
                requires
                    0 <= y,
                    0 <= w,
            ;
        }
        let row_start: usize = (y as usize) * (self.width as usize);
        let base: usize = (row_start + (x as usize)) * 4;
        Rgb { r: self.pixels[base], g: self.pixels[base + 1], b: self.pixels[base + 2] }
    }

    /// Colour of the pixel at column `x`, row `y`, or `None` outside the frame.
    pub fn get_pixel(&self, x: u32, y: u32) -> (out: Option<Rgb>)
        ensures
            out == if x < self@.width && y < self@.height {
                Some(self@.rgb_at(x as int, y as int))
            } else {
                None
            },
    {
        if x < self.width && y < self.height {
            Some(self.pixel(x, y))
        } else {
            None
        }
    }

    /// Bit-for-bit equality: same dimensions, same bytes.
    pub fn same_as(&self, other: &Frame) -> (out: bool)
        ensures
            out == (self@ == other@),
    {
        if self.width != other.width || self.height != other.height {
            return false;
        }
        proof {
            use_type_invariant(self);
            use_type_invariant(other);
        }
        let n: usize = self.pixels.len();
        let mut i: usize = 0;
        while i < n
            invariant
                i <= n,
                n == self.pixels@.len(),
                n == other.pixels@.len(),
                forall|k: int| 0 <= k < i ==> self.pixels@[k] == other.pixels@[k],
            decreases n - i,
        {
            if self.pixels[i] != other.pixels[i] {
                return false;
            }
            i += 1;
        }
        assert(self.pixels@ =~= other.pixels@);
        true
    }

    /// A copy with the same dimensions and bytes.
    pub fn duplicate(&self) -> (out: Frame)
        ensures
            out@ == self@,
    {
        proof {
            use_type_invariant(self);
        }
        let pixels: Vec<u8> = self.pixels.clone();
        assert(pixels@ =~= self.pixels@);
        Frame { width: self.width, height: self.height, pixels }
    }
}

} // verus!
