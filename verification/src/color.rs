//! Per-channel arithmetic and the per-cell colour rule of the LED grid.

use vstd::prelude::*;

verus! {

/// Percentage applied to the red channel by the red-shift correction.
pub const RED_SHIFT_RED_PERCENT: u8 = 55;

/// Percentage applied to the blue channel by the red-shift correction.
pub const RED_SHIFT_BLUE_PERCENT: u8 = 120;

/// Percentage that leaves a channel as it is.
pub const NEUTRAL_PERCENT: u8 = 100;

/// One colour of the LED grid.
#[derive(Clone, Copy, Debug, PartialEq, Eq, Structural)]
pub struct Rgb {
    pub r: u8,
    pub g: u8,
    pub b: u8,
}

/// `n / d` rounded to the nearest integer, halves away from zero, for `n >= 0` and `d > 0`.
pub open spec fn round_div(n: int, d: int) -> int {
    (2 * n + d) / (2 * d)
}

/// A channel value after a percentage factor and the brightness percentage,
/// rounded once and capped at 255.
pub open spec fn lit_channel(value: int, factor: int, brightness: int) -> int {
    let exact = round_div(value * factor * brightness, 10000);
    if exact > 255 {
        255
    } else {
        exact
    }
}

/// `round_div(n, d)` is the integer nearest to `n / d`: it lies within half a
/// unit of the quotient, and a quotient exactly between two integers goes to
/// the larger one.
pub proof fn lemma_round_div_nearest(n: int, d: int)
    requires
        0 <= n,
        0 < d,
    ensures
        0 <= round_div(n, d),
        2 * d * round_div(n, d) - d <= 2 * n < 2 * d * round_div(n, d) + d,
{
    let q = round_div(n, d);
    vstd::arithmetic::div_mod::lemma_fundamental_div_mod(2 * n + d, 2 * d);
    vstd::arithmetic::div_mod::lemma_mod_bound(2 * n + d, 2 * d);
    vstd::arithmetic::div_mod::lemma_div_pos_is_pos(2 * n + d, 2 * d);
}

/// With a neutral factor only the brightness percentage is left: the value is
/// `round(value * brightness / 100)`, capped at 255.
pub proof fn lemma_neutral_factor(value: int, brightness: int)
    requires
        0 <= value,
        0 <= brightness,
    ensures
        lit_channel(value, 100, brightness) == if round_div(value * brightness, 100) > 255 {
            255
        } else {
            round_div(value * brightness, 100)
        },
{
    let n = value * brightness;
    assert(0 <= n) by (nonlinear_arith)
        requires
            0 <= value,
            0 <= brightness,
            n == value * brightness,
    ;
    assert(value * 100 * brightness == 100 * n) by (nonlinear_arith)
        requires
            n == value * brightness,
    ;
    lemma_round_div_nearest(100 * n, 10000);
    lemma_round_div_nearest(n, 100);
    let a = round_div(100 * n, 10000);
    let b = round_div(n, 100);
    assert(a == b) by (nonlinear_arith)
        requires
            20000 * a - 10000 <= 200 * n < 20000 * a + 10000,
            200 * b - 100 <= 2 * n < 200 * b + 100,
    ;
}

/// Applies a percentage factor and the brightness percentage to one channel.
pub fn scale_channel(value: u8, factor: u8, brightness: u8) -> (out: u8)
    ensures
        out as int == lit_channel(value as int, factor as int, brightness as int),
{
    assert(value * factor <= 255 * 255) by (nonlinear_arith)
        requires
            value <= 255,
            factor <= 255,
    ;
    let scaled: u32 = (value as u32) * (factor as u32);
    assert(scaled * brightness <= 255 * 255 * 255) by (nonlinear_arith)
        requires
            scaled <= 255 * 255,
            brightness <= 255,
    ;
    let product: u32 = scaled * (brightness as u32);
    let exact: u32 = (2 * product + 10000) / 20000;
    if exact > 255 {
        255
    } else {
        exact as u8
    }
}

/// Pure red, the colour of a highlighted key.
pub open spec fn highlight_color() -> Rgb {
    Rgb { r: 255, g: 0, b: 0 }
}

/// The cells of the W, A, S and D keys: column 2 of row 1, columns 1 to 3 of row 2.
pub open spec fn is_wasd_cell(x: int, y: int) -> bool {
    (x == 2 && y == 1) || (1 <= x <= 3 && y == 2)
}

/// The part of the bottom row of a split-zone model whose lights no key
/// switch covers: columns 4 to 9 of row 4.
pub open spec fn in_uncovered_zone(x: int, y: int) -> bool {
    y == 4 && 3 < x < 10
}

/// A colour with only the brightness percentage applied.
pub open spec fn dimmed(source: Rgb, brightness: u8) -> Rgb {
    Rgb {
        r: lit_channel(source.r as int, 100, brightness as int) as u8,
        g: lit_channel(source.g as int, 100, brightness as int) as u8,
        b: lit_channel(source.b as int, 100, brightness as int) as u8,
    }
}

/// A colour with the red-shift correction and the brightness percentage applied.
pub open spec fn red_shifted(source: Rgb, brightness: u8) -> Rgb {
    Rgb {
        r: lit_channel(source.r as int, 55, brightness as int) as u8,
        g: lit_channel(source.g as int, 100, brightness as int) as u8,
        b: lit_channel(source.b as int, 120, brightness as int) as u8,
    }
}

/// The colour that the cell at column `x`, row `y` is given.
///
/// A highlighted WASD cell is pure red whatever else is set. A cell in the
/// uncovered zone of a split-zone model is only dimmed. Every other cell is
/// red-shifted if the correction is on, and dimmed if it is off.
pub open spec fn cell_color_of(
    x: int,
    y: int,
    source: Rgb,
    brightness: u8,
    red_shift_fix: bool,
    highlight_wasd: bool,
    split_zone: bool,
) -> Rgb {
    if highlight_wasd && is_wasd_cell(x, y) {
        highlight_color()
    } else if split_zone && in_uncovered_zone(x, y) {
        dimmed(source, brightness)
    } else if red_shift_fix {
        red_shifted(source, brightness)
    } else {
        dimmed(source, brightness)
    }
}

/// Decides [`is_wasd_cell`].
pub fn is_wasd_key(x: u32, y: u32) -> (out: bool)
    ensures
        out == is_wasd_cell(x as int, y as int),
{
    (x == 2 && y == 1) || (1 <= x && x <= 3 && y == 2)
}

/// Decides [`in_uncovered_zone`].
pub fn is_uncovered(x: u32, y: u32) -> (out: bool)
    ensures
        out == in_uncovered_zone(x as int, y as int),
{
    y == 4 && x > 3 && x < 10
}

/// Applies only the brightness percentage to a colour.
pub fn dim(source: Rgb, brightness: u8) -> (out: Rgb)
    ensures
        out == dimmed(source, brightness),
{
    Rgb {
        r: scale_channel(source.r, NEUTRAL_PERCENT, brightness),
        g: scale_channel(source.g, NEUTRAL_PERCENT, brightness),
        b: scale_channel(source.b, NEUTRAL_PERCENT, brightness),
    }
}

/// Applies the red-shift correction and the brightness percentage to a colour.
pub fn red_shift(source: Rgb, brightness: u8) -> (out: Rgb)
    ensures
        out == red_shifted(source, brightness),
{
    Rgb {
        r: scale_channel(source.r, RED_SHIFT_RED_PERCENT, brightness),
        g: scale_channel(source.g, NEUTRAL_PERCENT, brightness),
        b: scale_channel(source.b, RED_SHIFT_BLUE_PERCENT, brightness),
    }
}

/// Computes the colour of one cell of the grid.
pub fn cell_color(
    x: u32,
    y: u32,
    source: Rgb,
    brightness: u8,
    red_shift_fix: bool,
    highlight_wasd: bool,
    split_zone: bool,
) -> (out: Rgb)
    ensures
        out == cell_color_of(
            x as int,
            y as int,
            source,
            brightness,
            red_shift_fix,
            highlight_wasd,
            split_zone,
        ),
        highlight_wasd && is_wasd_cell(x as int, y as int) ==> out == highlight_color(),
{
    if highlight_wasd && is_wasd_key(x, y) {
        Rgb { r: 255, g: 0, b: 0 }
    } else if split_zone && is_uncovered(x, y) {
        dim(source, brightness)
    } else if red_shift_fix {
        red_shift(source, brightness)
    } else {
        dim(source, brightness)
    }
}

/// A highlighted WASD cell is pure red for every source colour, brightness,
/// correction flag and model.
pub proof fn lemma_wasd_overrides(
    x: int,
    y: int,
    source: Rgb,
    brightness: u8,
    red_shift_fix: bool,
    split_zone: bool,
)
    requires
        is_wasd_cell(x, y),
    ensures
        cell_color_of(x, y, source, brightness, red_shift_fix, true, split_zone) == highlight_color(),
{
}

/// A neutral factor at full brightness leaves a channel as it is.
pub proof fn lemma_neutral_channel(value: int)
    requires
        0 <= value <= 255,
    ensures
        lit_channel(value, 100, 100) == value,
{
    assert(value * 100 * 100 == 10000 * value) by (nonlinear_arith);
    lemma_round_div_nearest(10000 * value, 10000);
}

/// At full brightness a dimmed colour is the source colour.
pub proof fn lemma_full_brightness_keeps(source: Rgb)
    ensures
        dimmed(source, 100) == source,
{
    lemma_neutral_channel(source.r as int);
    lemma_neutral_channel(source.g as int);
    lemma_neutral_channel(source.b as int);
}

/// Channel value above which an averaged scene counts as very bright.
pub const BRIGHT_THRESHOLD: u8 = 220;

/// Amount taken off the brightness for a very bright scene.
pub const BRIGHT_REDUCTION: u8 = 50;

/// Whether any channel of the averaged scene is above the threshold.
pub open spec fn is_very_bright(average: Rgb) -> bool {
    average.r > 220 || average.g > 220 || average.b > 220
}

/// The brightness to draw one frame with: 50 less for a very bright scene,
/// never below zero, and the configured brightness otherwise.
pub open spec fn guarded_brightness(average: Rgb, brightness: u8) -> u8 {
    if is_very_bright(average) {
        if brightness >= 50 {
            (brightness - 50) as u8
        } else {
            0
        }
    } else {
        brightness
    }
}

/// Computes the frame-local brightness from the averaged scene. The
/// configured brightness is passed by value and stays as it is.
pub fn guard_brightness(average: Rgb, brightness: u8) -> (out: u8)
    ensures
        out == guarded_brightness(average, brightness),
        is_very_bright(average) && brightness >= 50 ==> out == brightness - 50,
        !is_very_bright(average) ==> out == brightness,
{
    if average.r > BRIGHT_THRESHOLD || average.g > BRIGHT_THRESHOLD || average.b
        > BRIGHT_THRESHOLD {
        if brightness >= BRIGHT_REDUCTION {
            brightness - BRIGHT_REDUCTION
        } else {
            0
        }
    } else {
        brightness
    }
}

} // verus!
