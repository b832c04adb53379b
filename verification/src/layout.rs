use crate::anchor::AnchorPosition;
use crate::element::{
    children_view, element_view, lemma_children_view, Element, ElementType, ElementTypeView,
    ElementView,
};
use crate::measure::sat_mul;
use crate::style::Align;
use crate::FrameInfo;
use vstd::prelude::*;

verus! {

/// An anchored node's horizontal offset within the space allocated to it:
/// zero at the left, the leftover space at the right, half of it in the
/// center.
pub open spec fn anchor_offset_x(p: AnchorPosition, allocated_w: u32, own_w: u32) -> u32 {
    match p {
        AnchorPosition::TopLeft | AnchorPosition::MiddleLeft | AnchorPosition::BottomLeft => 0u32,
        AnchorPosition::TopCenter
        | AnchorPosition::MiddleCenter
        | AnchorPosition::BottomCenter => allocated_w.saturating_sub(own_w) / 2,
        AnchorPosition::TopRight
        | AnchorPosition::MiddleRight
        | AnchorPosition::BottomRight => allocated_w.saturating_sub(own_w),
    }
}

/// An anchored node's vertical offset within the space allocated to it.
pub open spec fn anchor_offset_y(p: AnchorPosition, allocated_h: u32, own_h: u32) -> u32 {
    match p {
        AnchorPosition::TopLeft | AnchorPosition::TopCenter | AnchorPosition::TopRight => 0u32,
        AnchorPosition::MiddleLeft
        | AnchorPosition::MiddleCenter
        | AnchorPosition::MiddleRight => allocated_h.saturating_sub(own_h) / 2,
        AnchorPosition::BottomLeft
        | AnchorPosition::BottomCenter
        | AnchorPosition::BottomRight => allocated_h.saturating_sub(own_h),
    }
}

/// Where a flex container's content starts on its main axis, after the
/// justify setting shifts it into the unused part of the content extent.
pub open spec fn justify_start(j: Align, base: u32, content_extent: u32, total: u32) -> u32 {
    match j {
        Align::Start => base,
        Align::Middle => base.saturating_add(content_extent.saturating_sub(total) / 2),
        Align::End => base.saturating_add(content_extent.saturating_sub(total)),
    }
}

/// A flex row's occupied main-axis extent: every child's width plus its
/// horizontal margins, accumulated left to right.
pub open spec fn row_content_total(s: Seq<ElementView>) -> u32
    decreases s,
{
    if s.len() == 0 {
        0u32
    } else {
        row_content_total(s.drop_last()).saturating_add(s.last().style.margin.left).saturating_add(
            s.last().size.0,
        ).saturating_add(s.last().style.margin.right)
    }
}

/// A flex column's occupied main-axis extent, top to bottom.
pub open spec fn col_content_total(s: Seq<ElementView>) -> u32
    decreases s,
{
    if s.len() == 0 {
        0u32
    } else {
        col_content_total(s.drop_last()).saturating_add(s.last().style.margin.top).saturating_add(
            s.last().size.1,
        ).saturating_add(s.last().style.margin.bottom)
    }
}

/// A row child's cross-axis (vertical) position, from its own `align_y`
/// against the row's content box, net of the child's own margins.
pub open spec fn row_child_y(c: ElementView, content_y0: u32, content_h: u32) -> u32 {
    match c.style.align_y {
        Align::Start => content_y0.saturating_add(c.style.margin.top),
        Align::Middle => content_y0.saturating_add(c.style.margin.top).saturating_add(
            content_h.saturating_sub(
                c.style.margin.top.saturating_add(c.style.margin.bottom),
            ).saturating_sub(c.size.1) / 2,
        ),
        Align::End => content_y0.saturating_add(
            content_h.saturating_sub(c.size.1).saturating_sub(c.style.margin.bottom),
        ),
    }
}

/// A column child's cross-axis (horizontal) position, from its own
/// `align_x`.
pub open spec fn col_child_x(c: ElementView, content_x0: u32, content_w: u32) -> u32 {
    match c.style.align_x {
        Align::Start => content_x0.saturating_add(c.style.margin.left),
        Align::Middle => content_x0.saturating_add(c.style.margin.left).saturating_add(
            content_w.saturating_sub(
                c.style.margin.left.saturating_add(c.style.margin.right),
            ).saturating_sub(c.size.0) / 2,
        ),
        Align::End => content_x0.saturating_add(
            content_w.saturating_sub(c.size.0).saturating_sub(c.style.margin.right),
        ),
    }
}

/// The layout pass as a pure function on tree views, top-down: each node
/// is told where it sits (`ox`, `oy`) and how much room it was granted
/// (`aw`, `ah`), takes its position from that per its kind, and hands its
/// children theirs. Sizes are read, never changed.
pub open spec fn laid(t: ElementView, ox: u32, oy: u32, aw: u32, ah: u32) -> ElementView
    decreases t,
{
    match t.kind {
        ElementTypeView::Root => ElementView {
            children: laid_children_same(t.children, ox, oy, aw, ah),
            ..t
        },
        ElementTypeView::Anchor(p) => {
            let px = ox.saturating_add(anchor_offset_x(p, aw, t.size.0));
            let py = oy.saturating_add(anchor_offset_y(p, ah, t.size.1));
            ElementView {
                position: Option::Some((px, py)),
                children: laid_children_same(t.children, px, py, t.size.0, t.size.1),
                ..t
            }
        },
        ElementTypeView::Text(_) => ElementView { position: Option::Some((ox, oy)), ..t },
        ElementTypeView::FlexRow => {
            let content_x0 = ox.saturating_add(t.style.padding.left);
            let content_y0 = oy.saturating_add(t.style.padding.top);
            let content_w = t.size.0.saturating_sub(
                t.style.padding.left.saturating_add(t.style.padding.right),
            );
            let content_h = t.size.1.saturating_sub(
                t.style.padding.top.saturating_add(t.style.padding.bottom),
            );
            let x_start = justify_start(
                t.style.justify_x,
                content_x0,
                content_w,
                row_content_total(t.children),
            );
            ElementView {
                position: Option::Some((ox, oy)),
                children: lay_row(t.children, x_start, content_y0, content_h),
                ..t
            }
        },
        ElementTypeView::FlexColumn => {
            let content_x0 = ox.saturating_add(t.style.padding.left);
            let content_y0 = oy.saturating_add(t.style.padding.top);
            let content_w = t.size.0.saturating_sub(
                t.style.padding.left.saturating_add(t.style.padding.right),
            );
            let content_h = t.size.1.saturating_sub(
                t.style.padding.top.saturating_add(t.style.padding.bottom),
            );
            let y_start = justify_start(
                t.style.justify_y,
                content_y0,
                content_h,
                col_content_total(t.children),
            );
            ElementView {
                position: Option::Some((ox, oy)),
                children: lay_col(t.children, y_start, content_x0, content_w),
                ..t
            }
        },
        ElementTypeView::Pill => {
            let bw = t.style.border_width;
            ElementView {
                position: Option::Some((ox, oy)),
                children: laid_children_same(
                    t.children,
                    ox.saturating_add(bw),
                    oy.saturating_add(bw),
                    t.size.0.saturating_sub(sat_mul(bw, 2)),
                    t.size.1.saturating_sub(sat_mul(bw, 2)),
                ),
                ..t
            }
        },
        ElementTypeView::Image(_) => ElementView { position: Option::Some((ox, oy)), ..t },
        ElementTypeView::Divider(_, _) => ElementView { position: Option::Some((ox, oy)), ..t },
    }
}

/// `laid`, mapped over children that all share one origin and allocation
/// (the children of the root, of an anchor, or of a pill).
pub open spec fn laid_children_same(
    s: Seq<ElementView>,
    ox: u32,
    oy: u32,
    aw: u32,
    ah: u32,
) -> Seq<ElementView>
    decreases s,
{
    if s.len() == 0 {
        Seq::empty()
    } else {
        laid_children_same(s.drop_last(), ox, oy, aw, ah).push(laid(s.last(), ox, oy, aw, ah))
    }
}

/// Flex-row placement: children are laid out left to right, each at the
/// running offset plus its leading margin, with its cross-axis position
/// from its own alignment, and each granted exactly its measured size.
pub open spec fn lay_row(
    s: Seq<ElementView>,
    offset: u32,
    content_y0: u32,
    content_h: u32,
) -> Seq<ElementView>
    decreases s,
{
    if s.len() == 0 {
        Seq::empty()
    } else {
        let c = s[0];
        let x = offset.saturating_add(c.style.margin.left);
        let y = row_child_y(c, content_y0, content_h);
        seq![laid(c, x, y, c.size.0, c.size.1)] + lay_row(
            s.drop_first(),
            x.saturating_add(c.size.0).saturating_add(c.style.margin.right),
            content_y0,
            content_h,
        )
    }
}

/// Flex-column placement: top to bottom, the mirror image of `lay_row`.
pub open spec fn lay_col(
    s: Seq<ElementView>,
    offset: u32,
    content_x0: u32,
    content_w: u32,
) -> Seq<ElementView>
    decreases s,
{
    if s.len() == 0 {
        Seq::empty()
    } else {
        let c = s[0];
        let y = offset.saturating_add(c.style.margin.top);
        let x = col_child_x(c, content_x0, content_w);
        seq![laid(c, x, y, c.size.0, c.size.1)] + lay_col(
            s.drop_first(),
            y.saturating_add(c.size.1).saturating_add(c.style.margin.bottom),
            content_x0,
            content_w,
        )
    }
}

/// `laid_children_same` maps `laid` index by index.
pub proof fn lemma_laid_children_same(s: Seq<ElementView>, ox: u32, oy: u32, aw: u32, ah: u32)
    ensures
        laid_children_same(s, ox, oy, aw, ah).len() == s.len(),
        forall|i: int|
            0 <= i < s.len() ==> laid_children_same(s, ox, oy, aw, ah)[i] == laid(
                s[i],
                ox,
                oy,
                aw,
                ah,
            ),
    decreases s.len(),
{
    if s.len() > 0 {
        lemma_laid_children_same(s.drop_last(), ox, oy, aw, ah);
    }
}

} // verus!

verus! {

/// Run the layout pass over a measured tree: every top-level element is
/// laid out against the frame origin and the frame size; the root node
/// itself keeps whatever position it had (it is never painted).
pub fn layout_pass(root: &mut Element, frame_info: &FrameInfo)
    ensures
        final(root)@ == (ElementView {
            children: laid_children_same(
                old(root)@.children,
                0u32,
                0u32,
                frame_info.size[0],
                frame_info.size[1],
            ),
            ..old(root)@
        }),
{
    let ghost r0 = *root;
    let mut kids: Vec<Element> = Vec::new();
    core::mem::swap(&mut root.children, &mut kids);
    let mut kids = layout_children_common(kids, 0, 0, frame_info.size[0], frame_info.size[1]);
    core::mem::swap(&mut root.children, &mut kids);
    proof {
        assert(root@ =~= (ElementView {
            children: laid_children_same(
                r0@.children,
                0u32,
                0u32,
                frame_info.size[0],
                frame_info.size[1],
            ),
            ..r0@
        }));
    }
}

/// Lay out one node and its subtree, given its allocated origin and size.
pub fn handle_element_layout(
    element: Element,
    allocated_origin: [u32; 2],
    allocated_size: [u32; 2],
) -> (r: Element)
    ensures
        r@ == laid(
            element@,
            allocated_origin[0],
            allocated_origin[1],
            allocated_size[0],
            allocated_size[1],
        ),
    decreases element, 1int,
{
    let ghost e0 = element;
    let ghost ox = allocated_origin[0];
    let ghost oy = allocated_origin[1];
    let ghost aw = allocated_size[0];
    let ghost ah = allocated_size[1];
    if element.is_root() {
        // a root node forwards its allocation unchanged to every child
        let mut element = element;
        let mut kids: Vec<Element> = Vec::new();
        core::mem::swap(&mut element.children, &mut kids);
        proof {
            assert(kids == e0.children);
            assert(decreases_to!(e0 => e0.children));
        }
        let kids = layout_children_common(
            kids,
            allocated_origin[0],
            allocated_origin[1],
            allocated_size[0],
            allocated_size[1],
        );
        element.children = kids;
        proof {
            assert(element@ =~= laid(e0@, ox, oy, aw, ah));
        }
        element
    } else if element.is_anchor() {
        handle_anchor_element(element, allocated_origin, allocated_size)
    } else if element.is_text() {
        let r = handle_text_element(element, allocated_origin);
        proof {
            assert(r@ =~= laid(e0@, ox, oy, aw, ah));
        }
        r
    } else if element.is_flex_row() {
        let r = handle_flex_row(element, allocated_origin);
        proof {
            assert(r@ =~= laid(e0@, ox, oy, aw, ah));
        }
        r
    } else if element.is_flex_column() {
        let r = handle_flex_column(element, allocated_origin);
        proof {
            assert(r@ =~= laid(e0@, ox, oy, aw, ah));
        }
        r
    } else if element.is_pill() {
        let r = handle_pill_element(element, allocated_origin);
        proof {
            assert(r@ =~= laid(e0@, ox, oy, aw, ah));
        }
        r
    } else {
        // images and dividers sit exactly where their parent put them
        let mut element = element;
        element.frame_position = Some(allocated_origin);
        proof {
            assert(element@ =~= laid(e0@, ox, oy, aw, ah));
        }
        element
    }
}

/// Lay out every element of `children` with one shared origin and
/// allocation (the children of a root, an anchor, or a pill).
#[verifier::loop_isolation(false)]
fn layout_children_common(children: Vec<Element>, ox: u32, oy: u32, aw: u32, ah: u32) -> (r: Vec<
    Element,
>)
    ensures
        children_view(r@) == laid_children_same(children_view(children@), ox, oy, aw, ah),
        r@.len() == children@.len(),
    decreases children, 0int,
{
    let ghost c0 = children;
    let ghost kids0 = children@;
    let ghost kv = children_view(kids0);
    let mut remaining = children;
    let mut out: Vec<Element> = Vec::new();
    proof {
        lemma_children_view(kids0);
    }
    while remaining.len() > 0
        invariant
            out@.len() + remaining@.len() == kids0.len(),
            remaining@ =~= kids0.subrange(out@.len() as int, kids0.len() as int),
            forall|i: int|
                0 <= i < out@.len() ==> #[trigger] element_view(out@[i]) == laid(
                    element_view(kids0[i]),
                    ox,
                    oy,
                    aw,
                    ah,
                ),
        decreases remaining@.len(),
    {
        let ghost k = out@.len() as int;
        let c = remaining.remove(0);
        proof {
            assert(c == kids0[k]);
            assert(c == c0[k]);
            assert(decreases_to!(c0 => c0[k]));
        }
        let c = handle_element_layout(c, [ox, oy], [aw, ah]);
        out.push(c);
    }
    proof {
        lemma_children_view(out@);
        lemma_laid_children_same(kv, ox, oy, aw, ah);
        assert(children_view(out@) =~= laid_children_same(kv, ox, oy, aw, ah));
    }
    out
}

/// Lay out an anchored container: its position is the allocated origin
/// shifted to its named reference point, each axis independently; its
/// children then get that position as their origin and the anchor's own
/// measured size as their allocation.
pub fn handle_anchor_element(
    element: Element,
    allocated_origin: [u32; 2],
    allocated_size: [u32; 2],
) -> (r: Element)
    requires
        element@.kind is Anchor,
    ensures
        r@ == laid(
            element@,
            allocated_origin[0],
            allocated_origin[1],
            allocated_size[0],
            allocated_size[1],
        ),
    decreases element, 0int,
{
    let ghost e0 = element;
    let ghost ox = allocated_origin[0];
    let ghost oy = allocated_origin[1];
    let mut element = element;

    let anchor_position: AnchorPosition = match &element._type {
        ElementType::Anchor(p) => *p,
        _ => AnchorPosition::TopLeft,
    };
    let aw = allocated_size[0];
    let ah = allocated_size[1];
    let ew = element.size[0];
    let eh = element.size[1];

    let (rel_x, rel_y): (u32, u32) = match anchor_position {
        AnchorPosition::TopLeft => (0, 0),
        AnchorPosition::TopCenter => (aw.saturating_sub(ew) / 2, 0),
        AnchorPosition::TopRight => (aw.saturating_sub(ew), 0),
        AnchorPosition::MiddleLeft => (0, ah.saturating_sub(eh) / 2),
        AnchorPosition::MiddleCenter => (aw.saturating_sub(ew) / 2, ah.saturating_sub(eh) / 2),
        AnchorPosition::MiddleRight => (aw.saturating_sub(ew), ah.saturating_sub(eh) / 2),
        AnchorPosition::BottomLeft => (0, ah.saturating_sub(eh)),
        AnchorPosition::BottomCenter => (aw.saturating_sub(ew) / 2, ah.saturating_sub(eh)),
        AnchorPosition::BottomRight => (aw.saturating_sub(ew), ah.saturating_sub(eh)),
    };
    let px = allocated_origin[0].saturating_add(rel_x);
    let py = allocated_origin[1].saturating_add(rel_y);
    element.frame_position = Some([px, py]);

    let mut kids: Vec<Element> = Vec::new();
    core::mem::swap(&mut element.children, &mut kids);
    proof {
        assert(kids == e0.children);
        assert(decreases_to!(e0 => e0.children));
    }
    let kids = layout_children_common(kids, px, py, ew, eh);
    element.children = kids;
    proof {
        assert(rel_x == anchor_offset_x(anchor_position, aw, ew));
        assert(rel_y == anchor_offset_y(anchor_position, ah, eh));
        assert(element@ =~= laid(e0@, ox, oy, aw, ah));
    }
    element
}

/// Lay out a text node: it sits exactly at the allocated origin.
pub fn handle_text_element(element: Element, allocated_origin: [u32; 2]) -> (r: Element)
    requires
        element@.kind is Text,
    ensures
        forall|aw: u32, ah: u32|
            r@ == laid(element@, allocated_origin[0], allocated_origin[1], aw, ah),
{
    let ghost e0 = element;
    let mut element = element;
    element.frame_position = Some(allocated_origin);
    proof {
        assert forall|aw: u32, ah: u32|
            element@ == laid(
                e0@,
                allocated_origin[0],
                allocated_origin[1],
                aw,
                ah,
            ) by {
            assert(element@ =~= laid(e0@, allocated_origin[0], allocated_origin[1], aw, ah));
        }
    }
    element
}

/// Lay out a pill: it sits at the allocated origin, and its children are
/// inset by the border width on every side, within the pill's own
/// measured size.
pub fn handle_pill_element(element: Element, allocated_origin: [u32; 2]) -> (r: Element)
    requires
        element@.kind is Pill,
    ensures
        forall|aw: u32, ah: u32|
            r@ == laid(element@, allocated_origin[0], allocated_origin[1], aw, ah),
    decreases element, 0int,
{
    let ghost e0 = element;
    let mut element = element;
    element.frame_position = Some(allocated_origin);

    let bw = element.style.border_width;
    let border2 = crate::measure::mul_sat(bw, 2);
    let cx = allocated_origin[0].saturating_add(bw);
    let cy = allocated_origin[1].saturating_add(bw);
    let cw = element.size[0].saturating_sub(border2);
    let ch = element.size[1].saturating_sub(border2);

    let mut kids: Vec<Element> = Vec::new();
    core::mem::swap(&mut element.children, &mut kids);
    proof {
        assert(kids == e0.children);
        assert(decreases_to!(e0 => e0.children));
    }
    let kids = layout_children_common(kids, cx, cy, cw, ch);
    element.children = kids;
    proof {
        assert forall|aw: u32, ah: u32|
            element@ == laid(
                e0@,
                allocated_origin[0],
                allocated_origin[1],
                aw,
                ah,
            ) by {
            assert(element@ =~= laid(e0@, allocated_origin[0], allocated_origin[1], aw, ah));
        }
    }
    element
}

} // verus!

verus! {

/// Lay out a flex row: the row sits at its allocated origin; its children
/// are placed left to right inside its content box, shifted as a block by
/// `justify_x`, each child aligned on the cross axis by its own `align_y`
/// and granted exactly its measured size.
#[verifier::rlimit(60)]
#[verifier::loop_isolation(false)]
pub fn handle_flex_row(element: Element, allocated_origin: [u32; 2]) -> (r: Element)
    requires
        element@.kind is FlexRow,
    ensures
        forall|aw: u32, ah: u32|
            r@ == laid(element@, allocated_origin[0], allocated_origin[1], aw, ah),
    decreases element, 0int,
{
    let ghost e0 = element;
    let mut element = element;
    let style = element.style;
    let ax = allocated_origin[0];
    let ay = allocated_origin[1];
    element.frame_position = Some(allocated_origin);

    let content_x_base = ax.saturating_add(style.padding.left);
    let content_y_start = ay.saturating_add(style.padding.top);
    let total_content_width = element.size[0].saturating_sub(
        style.padding.left.saturating_add(style.padding.right),
    );
    let total_content_height = element.size[1].saturating_sub(
        style.padding.top.saturating_add(style.padding.bottom),
    );

    let ghost kids0 = element.children@;
    let ghost kv = children_view(kids0);
    let ghost n = kids0.len() as int;
    proof {
        lemma_children_view(kids0);
    }

    // first pass: how much main-axis room the children occupy together
    let mut content_width_with_margin: u32 = 0;
    let mut i: usize = 0;
    while i < element.children.len()
        invariant
            i <= kids0.len(),
            content_width_with_margin == row_content_total(kv.take(i as int)),
        decreases kids0.len() - i,
    {
        let c = &element.children[i];
        proof {
            assert(kv.take(i as int + 1).drop_last() =~= kv.take(i as int));
            assert(kv.take(i as int + 1).last() == kv[i as int]);
        }
        content_width_with_margin = content_width_with_margin.saturating_add(
            c.style.margin.left,
        ).saturating_add(c.size[0]).saturating_add(c.style.margin.right);
        i = i + 1;
    }
    proof {
        assert(kv.take(n) =~= kv);
    }

    // shift the whole run per the row's justify setting
    let content_x_start = match style.justify_x {
        Align::Start => content_x_base,
        Align::Middle => content_x_base.saturating_add(
            total_content_width.saturating_sub(content_width_with_margin) / 2,
        ),
        Align::End => content_x_base.saturating_add(
            total_content_width.saturating_sub(content_width_with_margin),
        ),
    };

    // second pass: place children at the running offset
    let mut remaining: Vec<Element> = Vec::new();
    core::mem::swap(&mut element.children, &mut remaining);
    let mut out: Vec<Element> = Vec::new();
    let mut x_offset = content_x_start;
    while remaining.len() > 0
        invariant
            out@.len() + remaining@.len() == kids0.len(),
            remaining@ =~= kids0.subrange(out@.len() as int, n),
            children_view(out@) + lay_row(
                kv.subrange(out@.len() as int, n),
                x_offset,
                content_y_start,
                total_content_height,
            ) =~= lay_row(kv, content_x_start, content_y_start, total_content_height),
        decreases remaining@.len(),
    {
        let ghost k = out@.len() as int;
        let c = remaining.remove(0);
        proof {
            assert(c == kids0[k]);
            assert(c == e0.children@[k]);
            assert(decreases_to!(e0.children => e0.children[k]));
            assert(decreases_to!(e0 => e0.children));
        }
        let ml = c.style.margin.left;
        let mr = c.style.margin.right;
        let w = c.size[0];
        let h = c.size[1];
        let cx = x_offset.saturating_add(ml);
        let cy = match c.style.align_y {
            Align::Start => content_y_start.saturating_add(c.style.margin.top),
            Align::Middle => content_y_start.saturating_add(c.style.margin.top).saturating_add(
                total_content_height.saturating_sub(
                    c.style.margin.top.saturating_add(c.style.margin.bottom),
                ).saturating_sub(h) / 2,
            ),
            Align::End => content_y_start.saturating_add(
                total_content_height.saturating_sub(h).saturating_sub(c.style.margin.bottom),
            ),
        };
        proof {
            assert(element_view(c) == kv[k]);
            assert(cy == row_child_y(kv[k], content_y_start, total_content_height));
        }
        let c2 = handle_element_layout(c, [cx, cy], [w, h]);
        proof {
            let ghost sub = kv.subrange(k, n);
            assert(sub[0] == kv[k]);
            assert(sub.drop_first() =~= kv.subrange(k + 1, n));
            assert(element_view(c2) == laid(kv[k], cx, cy, w, h));
            assert(out@.push(c2).drop_last() =~= out@);
            assert(children_view(out@.push(c2)) == children_view(out@).push(element_view(c2)));
            assert(children_view(out@).push(element_view(c2)) + lay_row(
                kv.subrange(k + 1, n),
                cx.saturating_add(w).saturating_add(mr),
                content_y_start,
                total_content_height,
            ) =~= children_view(out@) + (seq![element_view(c2)] + lay_row(
                kv.subrange(k + 1, n),
                cx.saturating_add(w).saturating_add(mr),
                content_y_start,
                total_content_height,
            )));
        }
        x_offset = cx.saturating_add(w).saturating_add(mr);
        out.push(c2);
    }
    element.children = out;
    proof {
        assert(kv.subrange(n, n) =~= Seq::<ElementView>::empty());
        assert(children_view(element.children@) + lay_row(
            Seq::<ElementView>::empty(),
            x_offset,
            content_y_start,
            total_content_height,
        ) =~= children_view(element.children@));
        assert forall|aw: u32, ah: u32| element@ == laid(e0@, ax, ay, aw, ah) by {
            assert(element@ =~= laid(e0@, ax, ay, aw, ah));
        }
    }
    element
}

/// Lay out a flex column: the mirror image of `handle_flex_row`, placing
/// children top to bottom, justified by `justify_y`, each child aligned
/// horizontally by its own `align_x`.
#[verifier::rlimit(60)]
#[verifier::loop_isolation(false)]
pub fn handle_flex_column(element: Element, allocated_origin: [u32; 2]) -> (r: Element)
    requires
        element@.kind is FlexColumn,
    ensures
        forall|aw: u32, ah: u32|
            r@ == laid(element@, allocated_origin[0], allocated_origin[1], aw, ah),
    decreases element, 0int,
{
    let ghost e0 = element;
    let mut element = element;
    let style = element.style;
    let ax = allocated_origin[0];
    let ay = allocated_origin[1];
    element.frame_position = Some(allocated_origin);

    let content_x_start = ax.saturating_add(style.padding.left);
    let content_y_base = ay.saturating_add(style.padding.top);
    let total_content_width = element.size[0].saturating_sub(
        style.padding.left.saturating_add(style.padding.right),
    );
    let total_content_height = element.size[1].saturating_sub(
        style.padding.top.saturating_add(style.padding.bottom),
    );

    let ghost kids0 = element.children@;
    let ghost kv = children_view(kids0);
    let ghost n = kids0.len() as int;
    proof {
        lemma_children_view(kids0);
    }

    // first pass: how much main-axis room the children occupy together
    let mut content_height_with_margin: u32 = 0;
    let mut i: usize = 0;
    while i < element.children.len()
        invariant
            i <= kids0.len(),
            content_height_with_margin == col_content_total(kv.take(i as int)),
        decreases kids0.len() - i,
    {
        let c = &element.children[i];
        proof {
            assert(kv.take(i as int + 1).drop_last() =~= kv.take(i as int));
            assert(kv.take(i as int + 1).last() == kv[i as int]);
        }
        content_height_with_margin = content_height_with_margin.saturating_add(
            c.style.margin.top,
        ).saturating_add(c.size[1]).saturating_add(c.style.margin.bottom);
        i = i + 1;
    }
    proof {
        assert(kv.take(n) =~= kv);
    }

    // shift the whole run per the column's justify setting
    let content_y_start = match style.justify_y {
        Align::Start => content_y_base,
        Align::Middle => content_y_base.saturating_add(
            total_content_height.saturating_sub(content_height_with_margin) / 2,
        ),
        Align::End => content_y_base.saturating_add(
            total_content_height.saturating_sub(content_height_with_margin),
        ),
    };

    // second pass: place children at the running offset
    let mut remaining: Vec<Element> = Vec::new();
    core::mem::swap(&mut element.children, &mut remaining);
    let mut out: Vec<Element> = Vec::new();
    let mut y_offset = content_y_start;
    while remaining.len() > 0
        invariant
            out@.len() + remaining@.len() == kids0.len(),
            remaining@ =~= kids0.subrange(out@.len() as int, n),
            children_view(out@) + lay_col(
                kv.subrange(out@.len() as int, n),
                y_offset,
                content_x_start,
                total_content_width,
            ) =~= lay_col(kv, content_y_start, content_x_start, total_content_width),
        decreases remaining@.len(),
    {
        let ghost k = out@.len() as int;
        let c = remaining.remove(0);
        proof {
            assert(c == kids0[k]);
            assert(c == e0.children@[k]);
            assert(decreases_to!(e0.children => e0.children[k]));
            assert(decreases_to!(e0 => e0.children));
        }
        let mt = c.style.margin.top;
        let mb = c.style.margin.bottom;
        let w = c.size[0];
        let h = c.size[1];
        let cy = y_offset.saturating_add(mt);
        let cx = match c.style.align_x {
            Align::Start => content_x_start.saturating_add(c.style.margin.left),
            Align::Middle => content_x_start.saturating_add(c.style.margin.left).saturating_add(
                total_content_width.saturating_sub(
                    c.style.margin.left.saturating_add(c.style.margin.right),
                ).saturating_sub(w) / 2,
            ),
            Align::End => content_x_start.saturating_add(
                total_content_width.saturating_sub(w).saturating_sub(c.style.margin.right),
            ),
        };
        proof {
            assert(element_view(c) == kv[k]);
            assert(cx == col_child_x(kv[k], content_x_start, total_content_width));
        }
        let c2 = handle_element_layout(c, [cx, cy], [w, h]);
        proof {
            let ghost sub = kv.subrange(k, n);
            assert(sub[0] == kv[k]);
            assert(sub.drop_first() =~= kv.subrange(k + 1, n));
            assert(element_view(c2) == laid(kv[k], cx, cy, w, h));
            assert(out@.push(c2).drop_last() =~= out@);
            assert(children_view(out@.push(c2)) == children_view(out@).push(element_view(c2)));
            assert(children_view(out@).push(element_view(c2)) + lay_col(
                kv.subrange(k + 1, n),
                cy.saturating_add(h).saturating_add(mb),
                content_x_start,
                total_content_width,
            ) =~= children_view(out@) + (seq![element_view(c2)] + lay_col(
                kv.subrange(k + 1, n),
                cy.saturating_add(h).saturating_add(mb),
                content_x_start,
                total_content_width,
            )));
        }
        y_offset = cy.saturating_add(h).saturating_add(mb);
        out.push(c2);
    }
    element.children = out;
    proof {
        assert(kv.subrange(n, n) =~= Seq::<ElementView>::empty());
        assert(children_view(element.children@) + lay_col(
            Seq::<ElementView>::empty(),
            y_offset,
            content_x_start,
            total_content_width,
        ) =~= children_view(element.children@));
        assert forall|aw: u32, ah: u32| element@ == laid(e0@, ax, ay, aw, ah) by {
            assert(element@ =~= laid(e0@, ax, ay, aw, ah));
        }
    }
    element
}

} // verus!
