//! Shrinking a captured frame to the LED grid.

use crate::color::Rgb;
use crate::frame::Frame;
use vstd::prelude::*;

verus! {

/// The resampling filter used to shrink a capture.
#[derive(Clone, Copy, Debug, PartialEq, Eq, Structural)]
pub enum DownscaleMethod {
    Nearest,
    Triangle,
    CatmullRom,
    Gaussian,
    Lanczos3,
}

/// The method that a stored index stands for; an unknown index stands for `Nearest`.
pub open spec fn method_of_index(index: u8) -> DownscaleMethod {
    if index == 1 {
        DownscaleMethod::Triangle
    } else if index == 2 {
        DownscaleMethod::CatmullRom
    } else if index == 3 {
        DownscaleMethod::Gaussian
    } else if index == 4 {
        DownscaleMethod::Lanczos3
    } else {
        DownscaleMethod::Nearest
    }
}

/// The index under which a method is stored.
pub open spec fn index_of_method(method: DownscaleMethod) -> u8 {
    match method {
        DownscaleMethod::Nearest => 0,
        DownscaleMethod::Triangle => 1,
        DownscaleMethod::CatmullRom => 2,
        DownscaleMethod::Gaussian => 3,
        DownscaleMethod::Lanczos3 => 4,
    }
}

/// Reads a stored index back into a method, falling back to `Nearest`.
pub fn downscale_index_to_filter(index: u8) -> (out: DownscaleMethod)
    ensures
        out == method_of_index(index),
{
    match index {
        0 => DownscaleMethod::Nearest,
        1 => DownscaleMethod::Triangle,
        2 => DownscaleMethod::CatmullRom,
        3 => DownscaleMethod::Gaussian,
        4 => DownscaleMethod::Lanczos3,
        _ => DownscaleMethod::Nearest,
    }
}

/// The index to store for a method.
pub fn filter_to_downscale_index(filter: DownscaleMethod) -> (out: u8)
    ensures
        out == index_of_method(filter),
        out <= 4,
{
    match filter {
        DownscaleMethod::Nearest => 0,
        DownscaleMethod::Triangle => 1,
        DownscaleMethod::CatmullRom => 2,
        DownscaleMethod::Gaussian => 3,
        DownscaleMethod::Lanczos3 => 4,
    }
}

/// Storing a method and reading it back gives the same method.
pub proof fn lemma_index_round_trip(method: DownscaleMethod)
    ensures
        method_of_index(index_of_method(method)) == method,
{
}

/// Reading an index and storing it again gives the same index exactly for the
/// five known indices; every other index is stored back as 0.
pub proof fn lemma_method_round_trip(index: u8)
    ensures
        index_of_method(method_of_index(index)) == if index <= 4 {
            index
        } else {
            0
        },
{
}

/// Whether a resize to `width` by `height` stays within what one allocation
/// can hold: the intermediate image has the source's width and the target's
/// height with four 32-bit samples per pixel, the result four bytes per pixel.
pub open spec fn resize_fits(source_width: nat, width: nat, height: nat) -> bool {
    &&& 16 * source_width * height <= isize::MAX
    &&& 4 * width * height <= isize::MAX
}

/// Decides [`resize_fits`].
pub fn can_resize(source_width: u32, width: u32, height: u32) -> (out: bool)
    ensures
        out == resize_fits(source_width as nat, width as nat, height as nat),
{
    assert(source_width * height <= 0xFFFF_FFFF * 0xFFFF_FFFF && width * height <= 0xFFFF_FFFF
        * 0xFFFF_FFFF) by (nonlinear_arith)
        requires
            source_width <= 0xFFFF_FFFF,
            width <= 0xFFFF_FFFF,
            height <= 0xFFFF_FFFF,
    ;
    let limit: u128 = isize::MAX as u128;
    let intermediate: u128 = (source_width as u128) * (height as u128);
    let result: u128 = (width as u128) * (height as u128);
    assert(16 * (source_width as nat) * (height as nat) == 16 * intermediate) by (nonlinear_arith)
        requires
            intermediate == source_width * height,
    ;
    assert(4 * (width as nat) * (height as nat) == 4 * result) by (nonlinear_arith)
        requires
            result == width * height,
    ;
    16 * intermediate <= limit && 4 * result <= limit
}

/// Calls `image::imageops::resize` on the frame's bytes.
///
/// Trusted: the result has exactly the dimensions asked for, with four bytes
/// per pixel, and a resize to the frame's own dimensions is a copy. Which
/// colours a real resize produces is left open. The call allocates
/// `source width * height` pixels of four 32-bit samples and
/// `width * height` pixels of four bytes, and panics when either is more than
/// an allocation can hold.
#[verifier::external_body]
fn resize_exact(frame: &Frame, width: u32, height: u32, method: DownscaleMethod) -> (out: Frame)
    requires
        resize_fits(frame@.width, width as nat, height as nat),
    ensures
        out@.wf(),
        out@.width == width,
        out@.height == height,
        frame@.width == width && frame@.height == height ==> out@ == frame@,
{
    let filter = match method {
        DownscaleMethod::Nearest => image::imageops::FilterType::Nearest,
        DownscaleMethod::Triangle => image::imageops::FilterType::Triangle,
        DownscaleMethod::CatmullRom => image::imageops::FilterType::CatmullRom,
        DownscaleMethod::Gaussian => image::imageops::FilterType::Gaussian,
        DownscaleMethod::Lanczos3 => image::imageops::FilterType::Lanczos3,
    };
    let source: image::ImageBuffer<image::Rgba<u8>, &[u8]> =
        image::ImageBuffer::from_raw(frame.width, frame.height, frame.pixels.as_slice()).unwrap();
    let resized = image::imageops::resize(&source, width, height, filter);
    Frame { width, height, pixels: resized.into_raw() }
}

/// Resizes a frame to exactly `width` by `height` with the given filter.
///
/// Returns `None` when the resize would need more memory than one allocation
/// can hold, and the resized frame otherwise.
pub fn downscale(frame: &Frame, width: u32, height: u32, method: DownscaleMethod) -> (out: Option<
    Frame,
>)
    ensures
        out is Some <==> resize_fits(frame@.width, width as nat, height as nat),
        out matches Some(small) ==> {
            &&& small@.wf()
            &&& small@.width == width
            &&& small@.height == height
            &&& (frame@.width == width && frame@.height == height ==> small@ == frame@)
        },
{
    if can_resize(frame.width(), width, height) {
        Some(resize_exact(frame, width, height, method))
    } else {
        None
    }
}

/// The colour of the frame shrunk to a single pixel with the Gaussian filter.
///
/// Returns `None` for a frame without pixels, or one too wide to resize.
/// A frame of one pixel is its own average.
pub fn average_color(frame: &Frame) -> (out: Option<Rgb>)
    ensures
        out is Some <==> frame@.nonempty() && resize_fits(frame@.width, 1, 1),
        frame@.width == 1 && frame@.height == 1 ==> out == Some(frame@.rgb_at(0, 0)),
{
    let (width, height) = frame.dimensions();
    if width == 0 || height == 0 {
        return None;
    }
    match downscale(frame, 1, 1, DownscaleMethod::Gaussian) {
        Some(single) => single.get_pixel(0, 0),
        None => None,
    }
}

} // verus!
