use crate::primitives::color::Color;
use vstd::prelude::*;

verus! {

/// How a node's size on one axis is resolved from its intrinsic (content)
/// size and the size its parent offers.
#[derive(Debug, Clone, Copy)]
pub enum SizingPolicy {
    /// Hug the content: the intrinsic size, clamped to the parent's offer.
    Auto,
    /// An exact pixel value, one per axis.
    Fixed(u32),
    /// Take the parent's whole offered size.
    FillParent,
}

/// Placement of an element, or of a container's content, along one axis.
#[derive(Debug, Clone, Copy)]
pub enum Align {
    /// Left for rows, top for columns.
    Start,
    Middle,
    /// Right for rows, bottom for columns.
    End,
}

/// Pixel insets on the four sides of a box.
#[derive(Debug, Clone, Copy)]
pub struct Insets {
    pub top: u32,
    pub right: u32,
    pub bottom: u32,
    pub left: u32,
}

pub open spec fn default_insets() -> Insets {
    Insets { top: 0, right: 0, bottom: 0, left: 0 }
}

impl Default for Insets {
    fn default() -> (i: Insets)
        ensures
            i == default_insets(),
    {
        Insets { top: 0, right: 0, bottom: 0, left: 0 }
    }
}

/// The box model record attached to every element.
///
/// `align_x`/`align_y` say how this element is placed within the space its
/// parent grants it; `justify_x`/`justify_y` say how this element arranges
/// its own children within its content box.
#[derive(Clone, Copy, Debug)]
pub struct Style {
    pub padding: Insets,
    pub margin: Insets,
    pub width: SizingPolicy,
    pub height: SizingPolicy,
    pub align_x: Align,
    pub align_y: Align,
    pub justify_x: Align,
    pub justify_y: Align,
    pub background_color: Color,
    pub border_color: Color,
    pub border_width: u32,
    pub border_radius: u32,
}

pub open spec fn default_style() -> Style {
    Style {
        padding: default_insets(),
        margin: default_insets(),
        width: SizingPolicy::Auto,
        height: SizingPolicy::Auto,
        align_x: Align::Start,
        align_y: Align::Start,
        justify_x: Align::Start,
        justify_y: Align::Start,
        background_color: crate::primitives::color::default_color(),
        border_color: crate::primitives::color::default_color(),
        border_width: 0,
        border_radius: 0,
    }
}

impl Default for Style {
    fn default() -> (s: Style)
        ensures
            s == default_style(),
    {
        Style {
            padding: Insets::default(),
            margin: Insets::default(),
            width: SizingPolicy::Auto,
            height: SizingPolicy::Auto,
            align_x: Align::Start,
            align_y: Align::Start,
            justify_x: Align::Start,
            justify_y: Align::Start,
            background_color: Color::default(),
            border_color: Color::default(),
            border_width: 0,
            border_radius: 0,
        }
    }
}

/// The font family a text run asks for.
#[derive(Debug)]
pub enum FontFamily {
    Name(String),
    Serif,
    SansSerif,
    Cursive,
    Fantasy,
    Monospace,
}

impl Clone for FontFamily {
    fn clone(&self) -> (r: FontFamily)
        ensures
            r == *self,
    {
        match self {
            FontFamily::Name(s) => FontFamily::Name(s.clone()),
            FontFamily::Serif => FontFamily::Serif,
            FontFamily::SansSerif => FontFamily::SansSerif,
            FontFamily::Cursive => FontFamily::Cursive,
            FontFamily::Fantasy => FontFamily::Fantasy,
            FontFamily::Monospace => FontFamily::Monospace,
        }
    }
}

#[derive(Clone, Copy, Debug)]
pub enum FontWeight {
    Thin,
    ExtraLight,
    Light,
    Normal,
    Medium,
    SemiBold,
    Bold,
    ExtraBold,
    Black,
}

#[derive(Clone, Copy, Debug)]
pub enum FontStyle {
    Normal,
    Italic,
    Oblique,
}

/// Text-specific styling, kept apart from `Style` because text measurement
/// goes by font metrics, not by the box policy. `font_size` and
/// `line_height` are whole device pixels.
#[derive(Debug)]
pub struct TextStyle {
    pub font_size: u32,
    pub line_height: u32,
    pub font_family: FontFamily,
    pub font_weight: FontWeight,
    pub font_style: FontStyle,
    pub text_color: Color,
}

impl Clone for TextStyle {
    fn clone(&self) -> (r: TextStyle)
        ensures
            r == *self,
    {
        TextStyle {
            font_size: self.font_size,
            line_height: self.line_height,
            font_family: self.font_family.clone(),
            font_weight: self.font_weight,
            font_style: self.font_style,
            text_color: self.text_color,
        }
    }
}

pub open spec fn default_text_style() -> TextStyle {
    TextStyle {
        font_size: 16,
        line_height: 20,
        font_family: FontFamily::SansSerif,
        font_weight: FontWeight::Normal,
        font_style: FontStyle::Normal,
        text_color: crate::primitives::color::default_color(),
    }
}

impl Default for TextStyle {
    fn default() -> (t: TextStyle)
        ensures
            t == default_text_style(),
    {
        TextStyle {
            font_size: 16,
            line_height: 20,
            font_family: FontFamily::SansSerif,
            font_weight: FontWeight::Normal,
            font_style: FontStyle::Normal,
            text_color: Color::default(),
        }
    }
}

} // verus!
