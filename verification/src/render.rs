use crate::element::{
    children_view, element_view, lemma_children_view, Element, ElementType, ElementView,
    ElementTypeView,
};
use crate::measure::effective_text_style;
use crate::primitives::image::{Image, ImageView};
use crate::primitives::rectangle::{Rectangle, RectangleView};
use crate::primitives::text::{Text, TextView};
use crate::style::TextStyle;
use vstd::prelude::*;

verus! {

/// The pipeline's output: drawable primitives in paint order, painted
/// first to last by the renderer.
#[derive(Debug)]
pub struct RenderList {
    pub rectangles: Vec<Rectangle>,
    pub text: Vec<Text>,
    pub images: Vec<Image>,
}

/// The mathematical image of a `RenderList`.
#[verifier::ext_equal]
pub struct RenderListView {
    pub rectangles: Seq<RectangleView>,
    pub text: Seq<TextView>,
    pub images: Seq<ImageView>,
}

impl View for RenderList {
    type V = RenderListView;

    open spec fn view(&self) -> RenderListView {
        RenderListView {
            rectangles: Seq::new(self.rectangles@.len(), |i: int| self.rectangles@[i]@),
            text: Seq::new(self.text@.len(), |i: int| self.text@[i]@),
            images: Seq::new(self.images@.len(), |i: int| self.images@[i]@),
        }
    }
}

/// A render list with nothing in it.
pub open spec fn rl_empty() -> RenderListView {
    RenderListView { rectangles: Seq::empty(), text: Seq::empty(), images: Seq::empty() }
}

/// Two render lists, one painted after the other.
pub open spec fn rl_cat(a: RenderListView, b: RenderListView) -> RenderListView {
    RenderListView {
        rectangles: a.rectangles + b.rectangles,
        text: a.text + b.text,
        images: a.images + b.images,
    }
}

impl Default for RenderList {
    fn default() -> (r: RenderList)
        ensures
            r@ == rl_empty(),
    {
        let r = RenderList { rectangles: Vec::new(), text: Vec::new(), images: Vec::new() };
        proof {
            assert(r@ =~= rl_empty());
        }
        r
    }
}

/// What a pill node itself paints: one background/border rectangle, or
/// nothing when the layout pass never gave it a position.
pub open spec fn pill_own_primitives(t: ElementView) -> RenderListView {
    match t.position {
        Option::Some(p) => RenderListView {
            rectangles: seq![
                RectangleView { x: p.0, y: p.1, w: t.size.0, h: t.size.1, style: t.style },
            ],
            text: Seq::empty(),
            images: Seq::empty(),
        },
        Option::None => rl_empty(),
    }
}

/// The render-flattening pass as a pure function on tree views: a
/// depth-first, pre-order walk emitting primitives in paint order.
/// Containers are transparent; a pill paints its rectangle before its
/// children; a node the layout pass never positioned emits nothing.
pub open spec fn flattened(t: ElementView) -> RenderListView
    decreases t,
{
    match t.kind {
        ElementTypeView::Root
        | ElementTypeView::Anchor(_)
        | ElementTypeView::FlexRow
        | ElementTypeView::FlexColumn => flattened_children(t.children),
        ElementTypeView::Text(s) => match t.position {
            Option::Some(p) => RenderListView {
                rectangles: Seq::empty(),
                text: seq![
                    TextView {
                        text: s,
                        x: p.0,
                        y: p.1,
                        w: t.size.0,
                        h: t.size.1,
                        text_style: effective_text_style(t.text_style),
                    },
                ],
                images: Seq::empty(),
            },
            Option::None => rl_empty(),
        },
        ElementTypeView::Pill => rl_cat(pill_own_primitives(t), flattened_children(t.children)),
        ElementTypeView::Image(id) => match t.position {
            Option::Some(p) => RenderListView {
                rectangles: Seq::empty(),
                text: Seq::empty(),
                images: seq![
                    ImageView {
                        texture_id: id,
                        rect: RectangleView {
                            x: p.0,
                            y: p.1,
                            w: t.size.0,
                            h: t.size.1,
                            style: t.style,
                        },
                    },
                ],
            },
            Option::None => rl_empty(),
        },
        ElementTypeView::Divider(_, _) => rl_empty(),
    }
}

/// The concatenation of the flattenings of a sequence of children, in
/// order.
pub open spec fn flattened_children(s: Seq<ElementView>) -> RenderListView
    decreases s,
{
    if s.len() == 0 {
        rl_empty()
    } else {
        rl_cat(flattened_children(s.drop_last()), flattened(s.last()))
    }
}

/// Flatten a whole tree into `render_list`: the top node itself paints
/// nothing (it is the root slot); its children are appended in order.
pub fn render_pass(root: &Element, render_list: &mut RenderList)
    ensures
        final(render_list)@ == rl_cat(old(render_list)@, flattened_children(root@.children)),
{
    render_children(root, render_list);
}

/// Append one node's primitives, then its children's, depth-first.
pub fn handle_element_render(element: &Element, render_list: &mut RenderList)
    ensures
        final(render_list)@ == rl_cat(old(render_list)@, flattened(element@)),
    decreases *element, 1int,
{
    let ghost l0 = render_list@;
    if element.is_text() {
        handle_text_element(element, render_list);
    } else if element.is_pill() {
        handle_pill_element(element, render_list);
        let ghost l1 = render_list@;
        render_children(element, render_list);
        proof {
            assert(render_list@ =~= rl_cat(l0, flattened(element@)));
        }
    } else if element.is_image() {
        handle_image_element(element, render_list);
    } else if element.is_divider() {
        proof {
            assert(render_list@ =~= rl_cat(l0, flattened(element@)));
        }
    } else {
        // root, anchor, flex row, flex column: transparent containers
        render_children(element, render_list);
        proof {
            assert(render_list@ =~= rl_cat(l0, flattened(element@)));
        }
    }
}

/// Append the flattenings of every child of `element`, in paint order.
#[verifier::loop_isolation(false)]
fn render_children(element: &Element, render_list: &mut RenderList)
    ensures
        final(render_list)@ == rl_cat(old(render_list)@, flattened_children(element@.children)),
    decreases *element, 0int,
{
    let ghost l0 = render_list@;
    let ghost kids0 = element.children@;
    let ghost kv = children_view(kids0);
    proof {
        lemma_children_view(kids0);
    }
    let mut i: usize = 0;
    while i < element.children.len()
        invariant
            i <= kids0.len(),
            render_list@ == rl_cat(l0, flattened_children(kv.take(i as int))),
        decreases kids0.len() - i,
    {
        let ghost k = i as int;
        let c = &element.children[i];
        proof {
            assert(*c == kids0[k]);
            assert(decreases_to!(element.children => element.children[k]));
            assert(decreases_to!(*element => element.children));
        }
        let ghost before = render_list@;
        handle_element_render(c, render_list);
        proof {
            assert(kv.take(k + 1).drop_last() =~= kv.take(k));
            assert(kv.take(k + 1).last() == kv[k]);
            assert(element_view(*c) == kv[k]);
            assert(render_list@ =~= rl_cat(l0, flattened_children(kv.take(k + 1))));
        }
        i = i + 1;
    }
    proof {
        assert(kv.take(kids0.len() as int) =~= kv);
        assert(render_list@ =~= rl_cat(l0, flattened_children(kv)));
    }
}

/// Emit one text primitive for a positioned text node; a text node the
/// layout pass never reached is skipped silently.
fn handle_text_element(element: &Element, render_list: &mut RenderList)
    requires
        element@.kind is Text,
    ensures
        final(render_list)@ == rl_cat(old(render_list)@, flattened(element@)),
{
    let ghost l0 = render_list@;
    let text: String = match &element._type {
        ElementType::Text(s) => s.clone(),
        _ => {
            proof {
                assert(false);
            }
            String::new()
        },
    };
    let position: [u32; 2] = match &element.frame_position {
        Some(pos) => *pos,
        None => {
            proof {
                assert(render_list@ =~= rl_cat(l0, flattened(element@)));
            }
            return ;
        },
    };
    let text_prim = Text {
        text,
        position,
        size: element.size,
        text_style: match &element.text_style {
            Some(t) => t.clone(),
            None => TextStyle::default(),
        },
    };
    render_list.text.push(text_prim);
    proof {
        assert(render_list@ =~= rl_cat(l0, flattened(element@)));
    }
}

/// Emit the background/border rectangle of a positioned pill (its
/// children follow separately, painting over it).
fn handle_pill_element(element: &Element, render_list: &mut RenderList)
    requires
        element@.kind is Pill,
    ensures
        final(render_list)@ == rl_cat(old(render_list)@, pill_own_primitives(element@)),
{
    let ghost l0 = render_list@;
    let position: [u32; 2] = match &element.frame_position {
        Some(pos) => *pos,
        None => {
            proof {
                assert(render_list@ =~= rl_cat(l0, pill_own_primitives(element@)));
            }
            return ;
        },
    };
    render_list.rectangles.push(
        Rectangle { position, size: element.size, style: element.style },
    );
    proof {
        assert(render_list@ =~= rl_cat(l0, pill_own_primitives(element@)));
    }
}

/// Emit one image primitive for a positioned image node.
fn handle_image_element(element: &Element, render_list: &mut RenderList)
    requires
        element@.kind is Image,
    ensures
        final(render_list)@ == rl_cat(old(render_list)@, flattened(element@)),
{
    let ghost l0 = render_list@;
    let position: [u32; 2] = match &element.frame_position {
        Some(pos) => *pos,
        None => {
            proof {
                assert(render_list@ =~= rl_cat(l0, flattened(element@)));
            }
            return ;
        },
    };
    match &element._type {
        ElementType::Image(id) => {
            let image_prim = Image {
                texture_id: *id,
                rectangle: Rectangle { position, size: element.size, style: element.style },
            };
            render_list.images.push(image_prim);
            proof {
                assert(render_list@ =~= rl_cat(l0, flattened(element@)));
            }
        },
        _ => {
            proof {
                assert(false);
            }
        },
    }
}

} // verus!
