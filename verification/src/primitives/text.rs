use crate::style::TextStyle;
use vstd::prelude::*;

verus! {

/// A drawable text run: the content together with the node's resolved
/// position, size, and text styling.
#[derive(Debug)]
pub struct Text {
    pub text: String,
    pub position: [u32; 2],  // x, y
    pub size: [u32; 2],  // w, h
    pub text_style: TextStyle,
}

/// The mathematical image of a `Text` primitive.
pub struct TextView {
    pub text: String,
    pub x: u32,
    pub y: u32,
    pub w: u32,
    pub h: u32,
    pub text_style: TextStyle,
}

impl View for Text {
    type V = TextView;

    open spec fn view(&self) -> TextView {
        TextView {
            text: self.text,
            x: self.position[0],
            y: self.position[1],
            w: self.size[0],
            h: self.size[1],
            text_style: self.text_style,
        }
    }
}

} // verus!
