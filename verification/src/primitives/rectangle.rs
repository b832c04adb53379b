use crate::style::{default_style, Style};
use vstd::prelude::*;

verus! {

/// A drawable rectangle: final absolute position and size in device pixels,
/// with the visual parts of its style (background, border).
#[derive(Clone, Copy, Debug)]
pub struct Rectangle {
    pub position: [u32; 2],  // x, y
    pub size: [u32; 2],  // w, h
    pub style: Style,
}

/// The mathematical image of a `Rectangle`.
pub struct RectangleView {
    pub x: u32,
    pub y: u32,
    pub w: u32,
    pub h: u32,
    pub style: Style,
}

impl View for Rectangle {
    type V = RectangleView;

    open spec fn view(&self) -> RectangleView {
        RectangleView {
            x: self.position[0],
            y: self.position[1],
            w: self.size[0],
            h: self.size[1],
            style: self.style,
        }
    }
}

impl Rectangle {
    pub fn new(position: [u32; 2], size: [u32; 2], style: Option<Style>) -> (r: Rectangle)
        ensures
            r@ == (RectangleView {
                x: position[0],
                y: position[1],
                w: size[0],
                h: size[1],
                style: match style {
                    Option::Some(s) => s,
                    Option::None => default_style(),
                },
            }),
    {
        Rectangle {
            position,
            size,
            style: match style {
                Option::Some(s) => s,
                Option::None => Style::default(),
            },
        }
    }
}

} // verus!
