pub mod anchor;
pub mod element;
pub mod laws;
pub mod layout;
pub mod measure;
pub mod primitives;
pub mod render;
pub mod style;

use crate::anchor::AnchorPosition;
use crate::element::{DividerOrientation, Element, ElementType, ElementTypeView, ElementView};
use crate::layout::{laid_children_same, layout_pass};
use crate::measure::{measure_pass, measured};
use crate::render::{flattened_children, render_pass, RenderList, RenderListView};
use crate::style::{default_style, Style, TextStyle};
use vstd::prelude::*;

verus! {

/// What the host hands the engine each frame: the frame's pixel size.
pub struct FrameInfo {
    pub size: [u32; 2],  // width, height
}

/// One whole frame of the pipeline on a tree view: measure every node
/// bottom-up under the frame size, then lay the top-level elements out
/// from the frame origin. The root slot itself keeps the frame size and
/// no position.
pub open spec fn frame_tree(t: ElementView, w: u32, h: u32) -> ElementView {
    let m = measured(t, w, h);
    ElementView { children: laid_children_same(m.children, 0u32, 0u32, w, h), ..m }
}

/// The primitives one frame emits for a tree view: the flattening of the
/// measured-and-laid-out tree.
pub open spec fn frame_output(t: ElementView, w: u32, h: u32) -> RenderListView {
    flattened_children(frame_tree(t, w, h).children)
}

/// A freshly built element before any pass has touched it: zero size, no
/// position, no children, the given style or the default.
pub open spec fn fresh_element_view(kind: ElementTypeView, style: Option<Style>) -> ElementView {
    ElementView {
        kind: kind,
        size: (0u32, 0u32),
        style: match style {
            Option::Some(s) => s,
            Option::None => default_style(),
        },
        text_style: Option::None,
        position: Option::None,
        children: Seq::<ElementView>::empty(),
    }
}

/// The retained element tree: one root holding everything built this
/// frame.
pub struct UIState {
    pub root: Element,
}

impl View for UIState {
    type V = ElementView;

    open spec fn view(&self) -> ElementView {
        self.root@
    }
}

/// A builder over one element: the frame builder receives one of these,
/// appends children to it (nested builders for container kinds), and
/// returns it.
pub struct UI {
    pub current: Element,
}

impl View for UI {
    type V = ElementView;

    open spec fn view(&self) -> ElementView {
        self.current@
    }
}

impl UIState {
    pub fn new(size: [u32; 2]) -> (r: UIState)
        ensures
            r@ == (ElementView {
                kind: ElementTypeView::Root,
                size: (size[0], size[1]),
                style: default_style(),
                text_style: Option::None,
                position: Option::None,
                children: Seq::<ElementView>::empty(),
            }),
    {
        UIState { root: Element::new_root(size) }
    }

    /// Run one frame: drop the previous frame's children, let `f` rebuild
    /// the tree, then measure, lay out, and flatten it in that order. The
    /// returned list is exactly the pipeline applied to the tree `f`
    /// built; the tree stays behind, fully measured and positioned.
    pub fn generate_frame<F: FnOnce(UI) -> UI>(&mut self, frame_info: FrameInfo, f: F) -> (r:
        RenderList)
        requires
            forall|u: UI| #[trigger] call_requires(f, (u,)),
        ensures
            exists|ui_in: UI, ui_out: UI|
                {
                    &&& #[trigger] call_ensures(f, (ui_in,), ui_out)
                    &&& ui_in@ == (ElementView {
                        children: Seq::<ElementView>::empty(),
                        ..old(self)@
                    })
                    &&& final(self)@ == frame_tree(
                        ui_out@,
                        frame_info.size[0],
                        frame_info.size[1],
                    )
                    &&& r@ == frame_output(ui_out@, frame_info.size[0], frame_info.size[1])
                },
    {
        self.root.clear();  // the previous frame's element tree

        let mut tmp = Element::new_root([0, 0]);
        core::mem::swap(&mut self.root, &mut tmp);
        let ui = UI { current: tmp };
        let ghost ui_in_g = ui;
        let ui = f(ui);
        let ghost ui_out_g = ui;
        self.root = ui.current;

        let mut render_list = RenderList::default();
        let ghost w = frame_info.size[0];
        let ghost h = frame_info.size[1];

        measure_pass(&mut self.root, &frame_info);
        layout_pass(&mut self.root, &frame_info);
        render_pass(&self.root, &mut render_list);

        proof {
            assert(ui_in_g@ == (ElementView {
                children: Seq::<ElementView>::empty(),
                ..old(self)@
            }));
            assert(self@ =~= frame_tree(ui_out_g@, w, h));
            assert(render_list@ =~= frame_output(ui_out_g@, w, h));
        }
        render_list
    }
}

impl UI {
    /// Append an anchored container; `f` builds its children.
    pub fn anchor<F: FnOnce(UI) -> UI>(
        &mut self,
        anchor_position: AnchorPosition,
        style: Option<Style>,
        f: F,
    )
        requires
            forall|u: UI| #[trigger] call_requires(f, (u,)),
        ensures
            exists|ui_in: UI, ui_out: UI|
                {
                    &&& #[trigger] call_ensures(f, (ui_in,), ui_out)
                    &&& ui_in@ == fresh_element_view(
                        ElementTypeView::Anchor(anchor_position),
                        style,
                    )
                    &&& final(self)@ == (ElementView {
                        children: old(self)@.children.push(ui_out@),
                        ..old(self)@
                    })
                },
    {
        let anchor_element = Element::new(ElementType::Anchor(anchor_position), style);
        let ui = UI { current: anchor_element };
        let ghost ui_in_g = ui;
        let ui = f(ui);  // builds all child elements of the anchor
        let ghost ui_out_g = ui;
        self.current.add_child(ui.current);
    }

    /// Append a text leaf.
    pub fn text(&mut self, text: String, style: Option<Style>, text_style: Option<TextStyle>)
        ensures
            final(self)@ == (ElementView {
                children: old(self)@.children.push(
                    ElementView {
                        text_style: Option::Some(crate::measure::effective_text_style(text_style)),
                        ..fresh_element_view(ElementTypeView::Text(text), style)
                    },
                ),
                ..old(self)@
            }),
    {
        let text_element = Element::new_text(
            text,
            style,
            match text_style {
                Some(t) => t,
                None => TextStyle::default(),
            },
        );
        self.current.add_child(text_element);
    }

    /// Append a flex row; `f` builds its children.
    pub fn flex_row<F: FnOnce(UI) -> UI>(&mut self, style: Option<Style>, f: F)
        requires
            forall|u: UI| #[trigger] call_requires(f, (u,)),
        ensures
            exists|ui_in: UI, ui_out: UI|
                {
                    &&& #[trigger] call_ensures(f, (ui_in,), ui_out)
                    &&& ui_in@ == fresh_element_view(ElementTypeView::FlexRow, style)
                    &&& final(self)@ == (ElementView {
                        children: old(self)@.children.push(ui_out@),
                        ..old(self)@
                    })
                },
    {
        let flex_row_element = Element::new(ElementType::FlexRow, style);
        let ui = UI { current: flex_row_element };
        let ghost ui_in_g = ui;
        let ui = f(ui);
        let ghost ui_out_g = ui;
        self.current.add_child(ui.current);
    }

    /// Append a flex column; `f` builds its children.
    pub fn flex_column<F: FnOnce(UI) -> UI>(&mut self, style: Option<Style>, f: F)
        requires
            forall|u: UI| #[trigger] call_requires(f, (u,)),
        ensures
            exists|ui_in: UI, ui_out: UI|
                {
                    &&& #[trigger] call_ensures(f, (ui_in,), ui_out)
                    &&& ui_in@ == fresh_element_view(ElementTypeView::FlexColumn, style)
                    &&& final(self)@ == (ElementView {
                        children: old(self)@.children.push(ui_out@),
                        ..old(self)@
                    })
                },
    {
        let flex_column_element = Element::new(ElementType::FlexColumn, style);
        let ui = UI { current: flex_column_element };
        let ghost ui_in_g = ui;
        let ui = f(ui);
        let ghost ui_out_g = ui;
        self.current.add_child(ui.current);
    }

    /// Append a pill; `f` builds what sits inside it.
    pub fn pill<F: FnOnce(UI) -> UI>(&mut self, style: Option<Style>, f: F)
        requires
            forall|u: UI| #[trigger] call_requires(f, (u,)),
        ensures
            exists|ui_in: UI, ui_out: UI|
                {
                    &&& #[trigger] call_ensures(f, (ui_in,), ui_out)
                    &&& ui_in@ == fresh_element_view(ElementTypeView::Pill, style)
                    &&& final(self)@ == (ElementView {
                        children: old(self)@.children.push(ui_out@),
                        ..old(self)@
                    })
                },
    {
        let pill_element = Element::new(ElementType::Pill, style);
        let ui = UI { current: pill_element };
        let ghost ui_in_g = ui;
        let ui = f(ui);
        let ghost ui_out_g = ui;
        self.current.add_child(ui.current);
    }

    /// Append an image leaf referencing an external texture.
    pub fn image(&mut self, texture_id: uuid::Uuid, style: Option<Style>)
        ensures
            final(self)@ == (ElementView {
                children: old(self)@.children.push(
                    fresh_element_view(ElementTypeView::Image(texture_id), style),
                ),
                ..old(self)@
            }),
    {
        let image_element = Element::new_image(texture_id, style);
        self.current.add_child(image_element);
    }

    /// Append a divider leaf.
    pub fn divider(&mut self, orientation: DividerOrientation, thickness: u32, style: Option<
        Style,
    >)
        ensures
            final(self)@ == (ElementView {
                children: old(self)@.children.push(
                    fresh_element_view(ElementTypeView::Divider(orientation, thickness), style),
                ),
                ..old(self)@
            }),
    {
        let divider_element = Element::new_divider(orientation, thickness, style);
        self.current.add_child(divider_element);
    }
}

} // verus!
