//! Importance levels and the color palette attached to them.

use vstd::prelude::*;

verus! {

/// An RGBA display color, 8 bits per channel.
#[derive(Clone, Copy, Debug, PartialEq, Eq, Structural)]
pub struct Color {
    pub r: u8,
    pub g: u8,
    pub b: u8,
    pub a: u8,
}

/// Level of importance of a toast, driving its border color and icon.
#[derive(Clone, Copy, Debug, PartialEq, Eq, Structural)]
pub enum ToastLevel {
    Info,
    Warning,
    Error,
    Success,
    NoLevel,
}

/// The palette: the color that belongs to each level.
pub open spec fn level_color(level: ToastLevel) -> Color {
    match level {
        ToastLevel::Info => Color { r: 150, g: 200, b: 210, a: 255 },
        ToastLevel::Warning => Color { r: 230, g: 220, b: 140, a: 255 },
        ToastLevel::Error => Color { r: 200, g: 90, b: 90, a: 255 },
        ToastLevel::Success => Color { r: 140, g: 230, b: 140, a: 255 },
        ToastLevel::NoLevel => Color { r: 160, g: 160, b: 160, a: 255 },
    }
}

impl ToastLevel {
    /// Color used for the level.
    pub fn color(&self) -> (c: Color)
        ensures
            c == level_color(*self),
    {
        match self {
            ToastLevel::Info => Color { r: 150, g: 200, b: 210, a: 255 },
            ToastLevel::Warning => Color { r: 230, g: 220, b: 140, a: 255 },
            ToastLevel::Error => Color { r: 200, g: 90, b: 90, a: 255 },
            ToastLevel::Success => Color { r: 140, g: 230, b: 140, a: 255 },
            ToastLevel::NoLevel => Color { r: 160, g: 160, b: 160, a: 255 },
        }
    }
}

/// One channel brightened by half again, saturating at full brightness.
pub open spec fn scaled_channel(c: u8) -> u8 {
    if 3 * c / 2 > 255 {
        255u8
    } else {
        (3 * c / 2) as u8
    }
}

/// A brighter variant of a color: every channel scaled by one and a half,
/// saturating at 255; the alpha channel is kept.
pub fn lighter(base: Color) -> (c: Color)
    ensures
        c.r == scaled_channel(base.r),
        c.g == scaled_channel(base.g),
        c.b == scaled_channel(base.b),
        c.a == base.a,
{
    Color {
        r: scale_up(base.r),
        g: scale_up(base.g),
        b: scale_up(base.b),
        a: base.a,
    }
}

fn scale_up(c: u8) -> (s: u8)
    ensures
        s == scaled_channel(c),
{
    let wide: u16 = 3 * (c as u16) / 2;
    if wide > 255 {
        255
    } else {
        wide as u8
    }
}

} // verus!
