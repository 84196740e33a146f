use vstd::prelude::*;

verus! {

/// An RGBA color with 8 bits per channel, alpha premultiplied.
#[derive(Clone, Copy, Debug, Default, Eq, Hash, PartialEq)]
pub struct Color32(pub [u8; 4]);

impl Color32 {
    /// An opaque color.
    pub fn from_rgb(r: u8, g: u8, b: u8) -> (c: Self)
        ensures
            c.0@ == seq![r, g, b, 255u8],
    {
        Self([r, g, b, 255])
    }

    /// An additive color: its alpha is zero.
    pub fn from_rgb_additive(r: u8, g: u8, b: u8) -> (c: Self)
        ensures
            c.0@ == seq![r, g, b, 0u8],
    {
        Self([r, g, b, 0])
    }

    /// A color from premultiplied channels.
    pub fn from_rgba_premultiplied(r: u8, g: u8, b: u8, a: u8) -> (c: Self)
        ensures
            c.0@ == seq![r, g, b, a],
    {
        Self([r, g, b, a])
    }

    /// The red channel.
    pub fn r(&self) -> (v: u8)
        ensures
            v == self.0@[0],
    {
        self.0[0]
    }

    /// The green channel.
    pub fn g(&self) -> (v: u8)
        ensures
            v == self.0@[1],
    {
        self.0[1]
    }

    /// The blue channel.
    pub fn b(&self) -> (v: u8)
        ensures
            v == self.0@[2],
    {
        self.0[2]
    }

    /// The alpha channel.
    pub fn a(&self) -> (v: u8)
        ensures
            v == self.0@[3],
    {
        self.0[3]
    }

    /// The four channels in order red, green, blue, alpha.
    pub fn to_tuple(&self) -> (t: (u8, u8, u8, u8))
        ensures
            t == (self.0@[0], self.0@[1], self.0@[2], self.0@[3]),
    {
        (self.r(), self.g(), self.b(), self.a())
    }
}

/// Reading the channels of a color built from premultiplied channels gives
/// them back, and the opaque and additive constructors fix alpha at 255 and 0.
pub proof fn law_color_channels_round_trip(r: u8, g: u8, b: u8, a: u8, c: Color32)
    ensures
        c.0@ == seq![r, g, b, a] ==> (c.0@[0], c.0@[1], c.0@[2], c.0@[3]) == (r, g, b, a),
        c.0@ == seq![r, g, b, 255u8] ==> c.0@[3] == 255u8,
        c.0@ == seq![r, g, b, 0u8] ==> c.0@[3] == 0u8,
{
}

/// The id of the image that a shape is textured with.
#[derive(Clone, Copy, Hash, PartialEq, Eq)]
pub struct ImageId(pub u64);

} // verus!
