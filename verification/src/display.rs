//! What the settings window shows about the device, as text and flags.

use crate::frame::{Frame, FrameView};
use crate::text::{decimal, push_decimal, same_text};
use vstd::prelude::*;
use vstd::string::*;

verus! {

/// The text for the lighting dimensions: `Unknown` while both sides are
/// zero, and width, `x`, height otherwise.
pub open spec fn lighting_dimensions(frame_rgb_size: (u32, u32)) -> Seq<char> {
    if frame_rgb_size.0 == 0 && frame_rgb_size.1 == 0 {
        "Unknown"@
    } else {
        decimal(frame_rgb_size.0 as nat) + "x"@ + decimal(frame_rgb_size.1 as nat)
    }
}

/// Builds the text for the lighting dimensions.
pub fn display_lighting_dimensions(frame_rgb_size: (u32, u32)) -> (out: String)
    ensures
        out@ == lighting_dimensions(frame_rgb_size),
{
    if frame_rgb_size.0 == 0 && frame_rgb_size.1 == 0 {
        String::from_str("Unknown")
    } else {
        let mut text = String::new();
        push_decimal(&mut text, frame_rgb_size.0);
        text.append("x");
        push_decimal(&mut text, frame_rgb_size.1);
        assert(text@ =~= lighting_dimensions(frame_rgb_size));
        text
    }
}

/// Whether a preview can be offered: the grid has cells.
pub fn preview_allowed(frame_rgb_size: (u32, u32)) -> (out: bool)
    ensures
        out == (frame_rgb_size.0 != 0 && frame_rgb_size.1 != 0),
{
    frame_rgb_size.0 != 0 && frame_rgb_size.1 != 0
}

/// Whether a published preview is drawn: its size is the size of the grid.
pub fn rgb_preview(frame_rgb_size: (u32, u32), resized_capture: &Frame) -> (out: bool)
    ensures
        out == (resized_capture@.width == frame_rgb_size.0 && resized_capture@.height
            == frame_rgb_size.1),
{
    let (width, height) = resized_capture.dimensions();
    frame_rgb_size.0 == width && frame_rgb_size.1 == height
}

/// Whether a device name stands for a device: every name but `N/A` does.
pub fn device_connected(device_name: &str) -> (out: bool)
    ensures
        out == (device_name@ != "N/A"@),
{
    !same_text(device_name, "N/A")
}

} // verus!
