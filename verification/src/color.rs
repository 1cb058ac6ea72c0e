//! Point colors: four fixed-point channels, each confined to `[0, 1]`.

use vstd::prelude::*;

verus! {

/// The fixed-point value that stands for a channel intensity of `1.0`.
/// Every channel of every [`Color`] lies in `[0, CHANNEL_MAX]`.
pub const CHANNEL_MAX: u32 = 1_000_000;

/// A raw channel value pulled back into `[0, CHANNEL_MAX]`.
pub open spec fn clamped_channel(v: u32) -> u32 {
    if v > CHANNEL_MAX {
        CHANNEL_MAX
    } else {
        v
    }
}

/// An RGBA color with fixed-point channels in `[0, CHANNEL_MAX]`.
///
/// A point's color is drawn once, when the grid is built, and never changes
/// afterwards; construction clamps each channel, so a well-formed value
/// cannot be observed outside the range.
#[derive(Clone, Copy)]
pub struct Color {
    r: u32,
    g: u32,
    b: u32,
    a: u32,
}

impl Color {
    /// The red channel.
    pub closed spec fn red(self) -> u32 {
        self.r
    }

    /// The green channel.
    pub closed spec fn green(self) -> u32 {
        self.g
    }

    /// The blue channel.
    pub closed spec fn blue(self) -> u32 {
        self.b
    }

    /// The alpha channel.
    pub closed spec fn alpha(self) -> u32 {
        self.a
    }

    #[verifier::type_invariant]
    spec fn channels_in_range(self) -> bool {
        &&& self.r <= CHANNEL_MAX
        &&& self.g <= CHANNEL_MAX
        &&& self.b <= CHANNEL_MAX
        &&& self.a <= CHANNEL_MAX
    }

    /// Builds a color from raw channel values, clamping each into
    /// `[0, CHANNEL_MAX]`; values already in range are kept exactly.
    pub fn new(r: u32, g: u32, b: u32, a: u32) -> (c: Color)
        ensures
            c.red() == clamped_channel(r),
            c.green() == clamped_channel(g),
            c.blue() == clamped_channel(b),
            c.alpha() == clamped_channel(a),
    {
        Color {
            r: clamp_channel(r),
            g: clamp_channel(g),
            b: clamp_channel(b),
            a: clamp_channel(a),
        }
    }

    /// The red channel as a value; every color carries it in
    /// `[0, CHANNEL_MAX]`, the fixed-point image of `[0, 1]`.
    pub fn red_value(&self) -> (v: u32)
        ensures
            v == self.red(),
            v <= CHANNEL_MAX,
    {
        proof {
            use_type_invariant(&*self);
        }
        self.r
    }

    /// The green channel as a value, in `[0, CHANNEL_MAX]`.
    pub fn green_value(&self) -> (v: u32)
        ensures
            v == self.green(),
            v <= CHANNEL_MAX,
    {
        proof {
            use_type_invariant(&*self);
        }
        self.g
    }

    /// The blue channel as a value, in `[0, CHANNEL_MAX]`.
    pub fn blue_value(&self) -> (v: u32)
        ensures
            v == self.blue(),
            v <= CHANNEL_MAX,
    {
        proof {
            use_type_invariant(&*self);
        }
        self.b
    }

    /// The alpha channel as a value, in `[0, CHANNEL_MAX]`.
    pub fn alpha_value(&self) -> (v: u32)
        ensures
            v == self.alpha(),
            v <= CHANNEL_MAX,
    {
        proof {
            use_type_invariant(&*self);
        }
        self.a
    }
}

/// Pulls one raw channel value back into `[0, CHANNEL_MAX]`.
fn clamp_channel(v: u32) -> (c: u32)
    ensures
        c == clamped_channel(v),
{
    if v > CHANNEL_MAX {
        CHANNEL_MAX
    } else {
        v
    }
}

} // verus!
