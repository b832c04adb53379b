use vstd::prelude::*;

verus! {

/// An RGBA colour with one channel per field, each in 0..=255.
#[derive(Clone, Copy, Debug)]
pub struct Color {
    pub r: u32,
    pub g: u32,
    pub b: u32,
    pub a: u32,
}

/// The default colour: fully transparent black.
pub open spec fn default_color() -> Color {
    Color { r: 0, g: 0, b: 0, a: 0 }
}

impl Default for Color {
    fn default() -> (c: Color)
        ensures
            c == default_color(),
    {
        Color { r: 0, g: 0, b: 0, a: 0 }
    }
}

} // verus!
