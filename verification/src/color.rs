use vstd::prelude::*;

verus! {

/// An RGBA color with four 8-bit channels.
///
/// Colors take part in the style cascade as opaque values: the resolver picks
/// one, it never computes with the channels.
#[derive(Clone, Copy, Debug, PartialEq, Eq, Structural)]
pub struct Color {
    pub red: u8,
    pub green: u8,
    pub blue: u8,
    pub alpha: u8,
}

impl Color {
    /// Construct a color from its four channels.
    pub fn rgba(red: u8, green: u8, blue: u8, alpha: u8) -> (c: Color)
        ensures
            c == (Color { red, green, blue, alpha }),
    {
        Color { red, green, blue, alpha }
    }

    /// Fully opaque black.
    pub fn black() -> (c: Color)
        ensures
            c == (Color { red: 0, green: 0, blue: 0, alpha: 255 }),
    {
        Color { red: 0, green: 0, blue: 0, alpha: 255 }
    }
}

} // verus!
