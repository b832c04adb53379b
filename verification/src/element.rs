use crate::anchor::AnchorPosition;
use crate::style::{default_style, Style, TextStyle};
use vstd::prelude::*;

verus! {

/// Which way a divider runs across its container.
#[derive(Clone, Copy, Debug)]
pub enum DividerOrientation {
    Horizontal,
    Vertical,
}

/// The closed set of node kinds the three passes dispatch on.
#[derive(Debug)]
pub enum ElementType {
    Root,
    Anchor(AnchorPosition),
    Text(String),
    FlexRow,
    FlexColumn,
    Pill,
    Image(uuid::Uuid),
    Divider(DividerOrientation, u32),
}

/// A node of the element tree. `size` is meaningful only once the measure
/// pass has run, and `frame_position` stays `None` until the layout pass
/// assigns it. Children are kept in insertion order, which is both paint
/// order and flex placement order.
#[derive(Debug)]
pub struct Element {
    pub _type: ElementType,  // 'type' is a reserved word in rust
    pub size: [u32; 2],  // w, h
    pub style: Style,
    pub text_style: Option<TextStyle>,
    pub frame_position: Option<[u32; 2]>,  // None until the layout pass
    pub children: Vec<Element>,
}

/// The mathematical image of an `ElementType`.
pub enum ElementTypeView {
    Root,
    Anchor(AnchorPosition),
    Text(String),
    FlexRow,
    FlexColumn,
    Pill,
    Image(uuid::Uuid),
    Divider(DividerOrientation, u32),
}

/// The mathematical image of an `Element`: the same record with the child
/// vector abstracted to a sequence.
#[verifier::ext_equal]
pub struct ElementView {
    pub kind: ElementTypeView,
    pub size: (u32, u32),
    pub style: Style,
    pub text_style: Option<TextStyle>,
    pub position: Option<(u32, u32)>,
    pub children: Seq<ElementView>,
}

pub open spec fn element_type_view(t: ElementType) -> ElementTypeView {
    match t {
        ElementType::Root => ElementTypeView::Root,
        ElementType::Anchor(p) => ElementTypeView::Anchor(p),
        ElementType::Text(s) => ElementTypeView::Text(s),
        ElementType::FlexRow => ElementTypeView::FlexRow,
        ElementType::FlexColumn => ElementTypeView::FlexColumn,
        ElementType::Pill => ElementTypeView::Pill,
        ElementType::Image(id) => ElementTypeView::Image(id),
        ElementType::Divider(o, t) => ElementTypeView::Divider(o, t),
    }
}

pub open spec fn position_view(p: Option<[u32; 2]>) -> Option<(u32, u32)> {
    match p {
        Option::None => Option::None,
        Option::Some(a) => Option::Some((a[0], a[1])),
    }
}

pub open spec fn element_view(e: Element) -> ElementView
    decreases e,
{
    ElementView {
        kind: element_type_view(e._type),
        size: (e.size[0], e.size[1]),
        style: e.style,
        text_style: e.text_style,
        position: position_view(e.frame_position),
        children: children_view(e.children@),
    }
}

pub open spec fn children_view(s: Seq<Element>) -> Seq<ElementView>
    decreases s,
{
    if s.len() == 0 {
        Seq::empty()
    } else {
        children_view(s.drop_last()).push(element_view(s.last()))
    }
}

/// `children_view` maps `element_view` over a sequence index by index.
pub proof fn lemma_children_view(s: Seq<Element>)
    ensures
        children_view(s).len() == s.len(),
        forall|i: int| 0 <= i < s.len() ==> children_view(s)[i] == element_view(s[i]),
    decreases s.len(),
{
    if s.len() > 0 {
        lemma_children_view(s.drop_last());
    }
}

impl View for Element {
    type V = ElementView;

    open spec fn view(&self) -> ElementView {
        element_view(*self)
    }
}

impl Element {
    pub fn is_root(&self) -> (b: bool)
        ensures
            b == (self@.kind is Root),
    {
        matches!(&self._type, ElementType::Root)
    }

    pub fn is_anchor(&self) -> (b: bool)
        ensures
            b == (self@.kind is Anchor),
    {
        matches!(&self._type, ElementType::Anchor(_))
    }

    pub fn is_text(&self) -> (b: bool)
        ensures
            b == (self@.kind is Text),
    {
        matches!(&self._type, ElementType::Text(_))
    }

    pub fn is_flex_row(&self) -> (b: bool)
        ensures
            b == (self@.kind is FlexRow),
    {
        matches!(&self._type, ElementType::FlexRow)
    }

    pub fn is_flex_column(&self) -> (b: bool)
        ensures
            b == (self@.kind is FlexColumn),
    {
        matches!(&self._type, ElementType::FlexColumn)
    }

    pub fn is_pill(&self) -> (b: bool)
        ensures
            b == (self@.kind is Pill),
    {
        matches!(&self._type, ElementType::Pill)
    }

    pub fn is_image(&self) -> (b: bool)
        ensures
            b == (self@.kind is Image),
    {
        matches!(&self._type, ElementType::Image(_))
    }

    pub fn is_divider(&self) -> (b: bool)
        ensures
            b == (self@.kind is Divider),
    {
        matches!(&self._type, ElementType::Divider(_, _))
    }

    pub fn new(element_type: ElementType, style: Option<Style>) -> (r: Element)
        ensures
            r@ == (ElementView {
                kind: element_type_view(element_type),
                size: (0u32, 0u32),
                style: match style {
                    Option::Some(s) => s,
                    Option::None => default_style(),
                },
                text_style: Option::None,
                position: Option::None,
                children: Seq::<ElementView>::empty(),
            }),
    {
        Element {
            _type: element_type,
            size: [0, 0],  // overwritten by the measure pass
            style: match style {
                Option::Some(s) => s,
                Option::None => Style::default(),
            },
            text_style: None,
            frame_position: None,
            children: Vec::new(),
        }
    }

    pub fn new_text(text: String, style: Option<Style>, text_style: TextStyle) -> (r: Element)
        ensures
            r@ == (ElementView {
                kind: ElementTypeView::Text(text),
                size: (0u32, 0u32),
                style: match style {
                    Option::Some(s) => s,
                    Option::None => default_style(),
                },
                text_style: Option::Some(text_style),
                position: Option::None,
                children: Seq::<ElementView>::empty(),
            }),
    {
        Element {
            _type: ElementType::Text(text),
            size: [0, 0],
            style: match style {
                Option::Some(s) => s,
                Option::None => Style::default(),
            },
            text_style: Some(text_style),
            frame_position: None,
            children: Vec::new(),
        }
    }

    pub fn new_root(size: [u32; 2]) -> (r: Element)
        ensures
            r@ == (ElementView {
                kind: ElementTypeView::Root,
                size: (size[0], size[1]),
                style: default_style(),
                text_style: Option::None,
                position: Option::None,
                children: Seq::<ElementView>::empty(),
            }),
    {
        Element {
            _type: ElementType::Root,
            size,
            style: Style::default(),
            text_style: None,
            frame_position: None,
            children: Vec::new(),
        }
    }

    pub fn new_image(texture_id: uuid::Uuid, style: Option<Style>) -> (r: Element)
        ensures
            r@ == (ElementView {
                kind: ElementTypeView::Image(texture_id),
                size: (0u32, 0u32),
                style: match style {
                    Option::Some(s) => s,
                    Option::None => default_style(),
                },
                text_style: Option::None,
                position: Option::None,
                children: Seq::<ElementView>::empty(),
            }),
    {
        Element {
            _type: ElementType::Image(texture_id),
            size: [0, 0],
            style: match style {
                Option::Some(s) => s,
                Option::None => Style::default(),
            },
            text_style: None,
            frame_position: None,
            children: Vec::new(),
        }
    }

    pub fn new_divider(
        orientation: DividerOrientation,
        thickness: u32,
        style: Option<Style>,
    ) -> (r: Element)
        ensures
            r@ == (ElementView {
                kind: ElementTypeView::Divider(orientation, thickness),
                size: (0u32, 0u32),
                style: match style {
                    Option::Some(s) => s,
                    Option::None => default_style(),
                },
                text_style: Option::None,
                position: Option::None,
                children: Seq::<ElementView>::empty(),
            }),
    {
        Element {
            _type: ElementType::Divider(orientation, thickness),
            size: [0, 0],
            style: match style {
                Option::Some(s) => s,
                Option::None => Style::default(),
            },
            text_style: None,
            frame_position: None,
            children: Vec::new(),
        }
    }

    /// Drop all children, leaving everything else as it was.
    pub fn clear(&mut self)
        ensures
            final(self)@ == (ElementView { children: Seq::<ElementView>::empty(), ..old(self)@ }),
    {
        self.children = Vec::new();
    }

    /// Append one child; it becomes the last (topmost / rightmost) one.
    pub fn add_child(&mut self, child: Element)
        ensures
            final(self)@ == (ElementView { children: old(self)@.children.push(child@), ..old(self)@ }),
    {
        let ghost before = self.children@;
        self.children.push(child);
        proof {
            assert(self.children@.drop_last() =~= before);
            assert(self@.children =~= old(self)@.children.push(child@));
            assert(self@ =~= (ElementView {
                children: old(self)@.children.push(child@),
                ..old(self)@
            }));
        }
    }
}

} // verus!
