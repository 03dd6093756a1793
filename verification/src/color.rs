//! Colours for an addressable LED: the colour wheel, brightness
//! reduction, and the colours that a button press cycles through.

use vstd::prelude::*;

verus! {

/// A colour as red, green and blue intensities.
#[derive(Clone, Copy, Debug, PartialEq, Eq, Structural)]
pub struct Rgb {
    pub r: u8,
    pub g: u8,
    pub b: u8,
}

/// The brightness at which the button-driven colours are shown.
pub const PRESS_BRIGHTNESS: u8 = 100;

/// The brightness at which the colour wheel is shown.
pub const WHEEL_BRIGHTNESS: u8 = 25;

/// One channel at brightness `level`: full intensity at 255, none at 0.
pub open spec fn dimmed_channel(channel: u8, level: u8) -> u8 {
    ((channel as int) * (level as int + 1) / 256) as u8
}

/// A colour with each channel at brightness `level`.
pub open spec fn dimmed(color: Rgb, level: u8) -> Rgb {
    Rgb {
        r: dimmed_channel(color.r, level),
        g: dimmed_channel(color.g, level),
        b: dimmed_channel(color.b, level),
    }
}

/// The colour at `position` on a wheel that runs from red over green and
/// blue back to red.
pub open spec fn wheel_color(position: u8) -> Rgb {
    let p = 255 - position;
    if p < 85 {
        Rgb { r: (255 - p * 3) as u8, g: 0, b: (p * 3) as u8 }
    } else if p < 170 {
        Rgb { r: 0, g: ((p - 85) * 3) as u8, b: (255 - (p - 85) * 3) as u8 }
    } else {
        Rgb { r: ((p - 170) * 3) as u8, g: (255 - (p - 170) * 3) as u8, b: 0 }
    }
}

/// The undimmed colour shown after `presses` button presses: red, green,
/// blue, and round again.
pub open spec fn press_color(presses: nat) -> Rgb {
    if presses % 3 == 0 {
        Rgb { r: 255, g: 0, b: 0 }
    } else if presses % 3 == 1 {
        Rgb { r: 0, g: 128, b: 0 }
    } else {
        Rgb { r: 0, g: 0, b: 255 }
    }
}

/// `smart_leds::brightness` over an iterator of the one colour `color`,
/// asked for its first item. The adapter multiplies each channel by
/// `level + 1` and divides by 256, in 16 bits, and yields one item for
/// each item of the iterator it wraps.
#[verifier::external_body]
fn brightness_of(color: Rgb, level: u8) -> (first: Option<Rgb>)
    ensures
        first == Some(dimmed(color, level)),
{
    let source = core::iter::once(smart_leds::RGB8 { r: color.r, g: color.g, b: color.b });
    smart_leds::brightness(source, level).next().map(|c| Rgb { r: c.r, g: c.g, b: c.b })
}

/// The constant `smart_leds::colors::RED`: full red, nothing else.
#[verifier::external_body]
fn red() -> (color: Rgb)
    ensures
        color == (Rgb { r: 255, g: 0, b: 0 }),
{
    let c = smart_leds::colors::RED;
    Rgb { r: c.r, g: c.g, b: c.b }
}

/// The constant `smart_leds::colors::GREEN`: green at half intensity.
#[verifier::external_body]
fn green() -> (color: Rgb)
    ensures
        color == (Rgb { r: 0, g: 128, b: 0 }),
{
    let c = smart_leds::colors::GREEN;
    Rgb { r: c.r, g: c.g, b: c.b }
}

/// The constant `smart_leds::colors::BLUE`: full blue, nothing else.
#[verifier::external_body]
fn blue() -> (color: Rgb)
    ensures
        color == (Rgb { r: 0, g: 0, b: 255 }),
{
    let c = smart_leds::colors::BLUE;
    Rgb { r: c.r, g: c.g, b: c.b }
}

/// `color` at brightness `level`.
pub fn dim(color: Rgb, level: u8) -> (out: Rgb)
    ensures
        out == dimmed(color, level),
{
    brightness_of(color, level).unwrap()
}

/// The colour at `position` on the colour wheel.
pub fn wheel(position: u8) -> (color: Rgb)
    ensures
        color == wheel_color(position),
{
    let mut p: u8 = 255 - position;
    if p < 85 {
        return Rgb { r: 255 - p * 3, g: 0, b: p * 3 };
    }
    if p < 170 {
        p = p - 85;
        return Rgb { r: 0, g: p * 3, b: 255 - p * 3 };
    }
    p = p - 170;
    Rgb { r: p * 3, g: 255 - p * 3, b: 0 }
}

/// One frame of the rainbow animation: the colour to show for `hue`, and
/// the hue of the next frame, which wraps round after 255.
pub fn rainbow_frame(hue: u8) -> (frame: (Rgb, u8))
    ensures
        frame.0 == dimmed(wheel_color(hue), WHEEL_BRIGHTNESS),
        frame.1 == if hue == 255 {
            0u8
        } else {
            (hue + 1) as u8
        },
{
    let color = dim(wheel(hue), WHEEL_BRIGHTNESS);
    (color, hue.wrapping_add(1))
}

/// The colour to show after `presses` button presses.
pub fn press_frame(presses: usize) -> (color: Rgb)
    ensures
        color == dimmed(press_color(presses as nat), PRESS_BRIGHTNESS),
{
    let base = if presses % 3 == 0 {
        red()
    } else if presses % 3 == 1 {
        green()
    } else {
        blue()
    };
    dim(base, PRESS_BRIGHTNESS)
}

/// The wheel never lights all three channels: one is always dark, and
/// the other two add up to full intensity.
pub proof fn lemma_wheel_balance(position: u8)
    ensures
        wheel_color(position).r + wheel_color(position).g + wheel_color(position).b == 255,
        wheel_color(position).r == 0 || wheel_color(position).g == 0 || wheel_color(position).b
            == 0,
{
}

/// Dimming never brightens a channel, keeps it at brightness 255 and
/// darkens it fully at brightness 0.
pub proof fn lemma_dimmed_bounds(channel: u8, level: u8)
    ensures
        dimmed_channel(channel, level) <= channel,
        dimmed_channel(channel, 255) == channel,
        dimmed_channel(channel, 0) == 0,
{
    assert(channel * (level + 1) / 256 <= channel) by (nonlinear_arith)
        requires
            0 <= channel,
            0 <= level < 256,
    ;
    assert(channel * (255 + 1) / 256 == channel) by (nonlinear_arith);
}

} // verus!
