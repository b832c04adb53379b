use crate::element::{Element, ElementType, ElementTypeView, ElementView};
use crate::style::{default_text_style, SizingPolicy, TextStyle};
use crate::FrameInfo;
use vstd::prelude::*;
use vstd::string::StrSliceExecFns;

verus! {

/// The most room a node may take, handed down from its parent during the
/// measure pass.
#[derive(Clone, Copy, Debug)]
pub struct Constraints {
    pub max_size: [u32; 2],  // w, h
}

/// Saturating u32 product.
pub open spec fn sat_mul(a: u32, b: u32) -> u32 {
    if a * b > u32::MAX {
        u32::MAX
    } else {
        (a * b) as u32
    }
}

/// Saturating u32 product, executable form.
pub fn mul_sat(a: u32, b: u32) -> (r: u32)
    ensures
        r == sat_mul(a, b),
{
    proof {
        assert(a * b <= u32::MAX * u32::MAX) by (nonlinear_arith)
            requires
                a <= u32::MAX,
                b <= u32::MAX,
        ;
    }
    let p: u64 = (a as u64) * (b as u64);
    if p > u32::MAX as u64 {
        u32::MAX
    } else {
        p as u32
    }
}

/// A sequence length clamped into u32 range.
pub open spec fn clamp_len(n: nat) -> u32 {
    if n > u32::MAX {
        u32::MAX
    } else {
        n as u32
    }
}

/// What `SizingPolicy` makes of an intrinsic (content) size and the
/// parent's offered size: Auto hugs the content but never exceeds the
/// offer; FillParent takes the offer; Fixed is exact, unconditionally.
pub open spec fn resolve_size(policy: SizingPolicy, intrinsic: u32, parent: u32) -> u32 {
    match policy {
        SizingPolicy::Auto => if intrinsic <= parent {
            intrinsic
        } else {
            parent
        },
        SizingPolicy::FillParent => parent,
        SizingPolicy::Fixed(v) => v,
    }
}

/// Resolve one axis of a node's size from its sizing policy, the size its
/// content asks for, and the size its parent offers.
pub fn size_from_policy(sizing_policy: SizingPolicy, children_size: u32, parent_size: u32) -> (r:
    u32)
    ensures
        r == resolve_size(sizing_policy, children_size, parent_size),
{
    match sizing_policy {
        SizingPolicy::Auto => if children_size <= parent_size {
            children_size
        } else {
            parent_size
        },
        SizingPolicy::FillParent => parent_size,
        SizingPolicy::Fixed(s) => s,
    }
}

/// The text styling a node is measured and painted with: its own record,
/// or the default where it has none.
pub open spec fn effective_text_style(o: Option<TextStyle>) -> TextStyle {
    match o {
        Option::Some(t) => t,
        Option::None => default_text_style(),
    }
}

/// A measured node's width including its own left and right margins.
pub open spec fn margin_box_w(c: ElementView) -> u32 {
    c.size.0.saturating_add(c.style.margin.left).saturating_add(c.style.margin.right)
}

/// A measured node's height including its own top and bottom margins.
pub open spec fn margin_box_h(c: ElementView) -> u32 {
    c.size.1.saturating_add(c.style.margin.top).saturating_add(c.style.margin.bottom)
}

/// Saturating sum of the margin-box widths of a sequence of measured nodes.
pub open spec fn sum_margin_widths(s: Seq<ElementView>) -> u32
    decreases s,
{
    if s.len() == 0 {
        0u32
    } else {
        sum_margin_widths(s.drop_last()).saturating_add(margin_box_w(s.last()))
    }
}

/// Saturating sum of the margin-box heights of a sequence of measured nodes.
pub open spec fn sum_margin_heights(s: Seq<ElementView>) -> u32
    decreases s,
{
    if s.len() == 0 {
        0u32
    } else {
        sum_margin_heights(s.drop_last()).saturating_add(margin_box_h(s.last()))
    }
}

/// Largest margin-box width among a sequence of measured nodes.
pub open spec fn max_margin_widths(s: Seq<ElementView>) -> u32
    decreases s,
{
    if s.len() == 0 {
        0u32
    } else {
        let rest = max_margin_widths(s.drop_last());
        let w = margin_box_w(s.last());
        if rest >= w {
            rest
        } else {
            w
        }
    }
}

/// Largest margin-box height among a sequence of measured nodes.
pub open spec fn max_margin_heights(s: Seq<ElementView>) -> u32
    decreases s,
{
    if s.len() == 0 {
        0u32
    } else {
        let rest = max_margin_heights(s.drop_last());
        let h = margin_box_h(s.last());
        if rest >= h {
            rest
        } else {
            h
        }
    }
}

/// The constraint a node passes to its children during measurement.
///
/// Anchors constrain children by their own fixed size where one is set;
/// flex containers pass their constraint net of their own padding; pills
/// additionally reserve their border on every side; the root passes its
/// constraint through unchanged.
pub open spec fn child_constraints_of(t: ElementView, cw: u32, ch: u32) -> (u32, u32) {
    match t.kind {
        ElementTypeView::Root => (cw, ch),
        ElementTypeView::Anchor(_) => (
            match t.style.width {
                SizingPolicy::Fixed(w) => w,
                _ => cw,
            },
            match t.style.height {
                SizingPolicy::Fixed(h) => h,
                _ => ch,
            },
        ),
        ElementTypeView::FlexRow | ElementTypeView::FlexColumn => (
            cw.saturating_sub(t.style.padding.left.saturating_add(t.style.padding.right)),
            ch.saturating_sub(t.style.padding.top.saturating_add(t.style.padding.bottom)),
        ),
        ElementTypeView::Pill => (
            cw.saturating_sub(t.style.padding.left.saturating_add(t.style.padding.right)).saturating_sub(
                sat_mul(t.style.border_width, 2),
            ),
            ch.saturating_sub(t.style.padding.top.saturating_add(t.style.padding.bottom)).saturating_sub(
                sat_mul(t.style.border_width, 2),
            ),
        ),
        _ => (cw, ch),
    }
}

/// The size the measure pass gives a node, given its already-measured
/// children `mc` and the constraint `(cw, ch)` from its parent.
pub open spec fn measured_size(t: ElementView, mc: Seq<ElementView>, cw: u32, ch: u32) -> (
    u32,
    u32,
) {
    match t.kind {
        ElementTypeView::Root => (cw, ch),
        ElementTypeView::Anchor(_) => {
            let padded_w = max_margin_widths(mc).saturating_add(
                t.style.padding.left,
            ).saturating_add(t.style.padding.right);
            let padded_h = max_margin_heights(mc).saturating_add(
                t.style.padding.top,
            ).saturating_add(t.style.padding.bottom);
            (resolve_size(t.style.width, padded_w, cw), resolve_size(t.style.height, padded_h, ch))
        },
        ElementTypeView::Text(s) => {
            let ts = effective_text_style(t.text_style);
            let text_w = sat_mul(clamp_len(s@.len()), ts.font_size / 2);
            let padded_w = text_w.saturating_add(t.style.padding.left).saturating_add(
                t.style.padding.right,
            );
            let padded_h = ts.line_height.saturating_add(t.style.padding.top).saturating_add(
                t.style.padding.bottom,
            );
            (resolve_size(t.style.width, padded_w, cw), resolve_size(t.style.height, padded_h, ch))
        },
        ElementTypeView::FlexRow => {
            let padded_w = sum_margin_widths(mc).saturating_add(
                t.style.padding.left,
            ).saturating_add(t.style.padding.right);
            let padded_h = max_margin_heights(mc).saturating_add(
                t.style.padding.top,
            ).saturating_add(t.style.padding.bottom);
            (resolve_size(t.style.width, padded_w, cw), resolve_size(t.style.height, padded_h, ch))
        },
        ElementTypeView::FlexColumn => {
            let padded_w = max_margin_widths(mc).saturating_add(
                t.style.padding.left,
            ).saturating_add(t.style.padding.right);
            let padded_h = sum_margin_heights(mc).saturating_add(
                t.style.padding.top,
            ).saturating_add(t.style.padding.bottom);
            (resolve_size(t.style.width, padded_w, cw), resolve_size(t.style.height, padded_h, ch))
        },
        ElementTypeView::Pill => {
            let border2 = sat_mul(t.style.border_width, 2);
            let padded_w = max_margin_widths(mc).saturating_add(
                t.style.padding.left,
            ).saturating_add(t.style.padding.right).saturating_add(border2);
            let padded_h = max_margin_heights(mc).saturating_add(
                t.style.padding.top,
            ).saturating_add(t.style.padding.bottom).saturating_add(border2);
            (resolve_size(t.style.width, padded_w, cw), resolve_size(t.style.height, padded_h, ch))
        },
        ElementTypeView::Image(_) => (
            resolve_size(t.style.width, IMAGE_DEFAULT_SIZE, cw),
            resolve_size(t.style.height, IMAGE_DEFAULT_SIZE, ch),
        ),
        ElementTypeView::Divider(o, thickness) => {
            match o {
                crate::element::DividerOrientation::Horizontal => (
                    resolve_size(t.style.width, cw, cw),
                    resolve_size(t.style.height, thickness, ch),
                ),
                crate::element::DividerOrientation::Vertical => (
                    resolve_size(t.style.width, thickness, cw),
                    resolve_size(t.style.height, ch, ch),
                ),
            }
        },
    }
}

/// Whether the measure pass recurses into a node's children. Text, image
/// and divider nodes are leaves to the passes: any children they might
/// carry are ignored, never measured.
pub open spec fn measures_children(t: ElementView) -> bool {
    match t.kind {
        ElementTypeView::Root
        | ElementTypeView::Anchor(_)
        | ElementTypeView::FlexRow
        | ElementTypeView::FlexColumn
        | ElementTypeView::Pill => true,
        _ => false,
    }
}

/// The measure pass as a pure function on tree views: every visited node's
/// `size` is recomputed bottom-up from its children and its sizing policy;
/// nothing else changes.
pub open spec fn measured(t: ElementView, cw: u32, ch: u32) -> ElementView
    decreases t,
{
    if measures_children(t) {
        let cc = child_constraints_of(t, cw, ch);
        let mc = measured_children(t.children, cc.0, cc.1);
        ElementView { size: measured_size(t, mc, cw, ch), children: mc, ..t }
    } else {
        ElementView { size: measured_size(t, Seq::empty(), cw, ch), ..t }
    }
}

/// `measured`, mapped over a sequence of children under one constraint.
pub open spec fn measured_children(s: Seq<ElementView>, cw: u32, ch: u32) -> Seq<ElementView>
    decreases s,
{
    if s.len() == 0 {
        Seq::empty()
    } else {
        measured_children(s.drop_last(), cw, ch).push(measured(s.last(), cw, ch))
    }
}

/// `measured_children` maps `measured` index by index.
pub proof fn lemma_measured_children(s: Seq<ElementView>, cw: u32, ch: u32)
    ensures
        measured_children(s, cw, ch).len() == s.len(),
        forall|i: int|
            0 <= i < s.len() ==> measured_children(s, cw, ch)[i] == measured(s[i], cw, ch),
    decreases s.len(),
{
    if s.len() > 0 {
        lemma_measured_children(s.drop_last(), cw, ch);
    }
}

/// Fallback edge length for images whose style fixes no size.
pub const IMAGE_DEFAULT_SIZE: u32 = 64;

} // verus!

use crate::element::{children_view, element_view, lemma_children_view};
use crate::style::Style;

verus! {

/// Run the measure pass over the whole tree: every node's `size` becomes
/// its measured size, bottom-up, under the frame size as the root
/// constraint.
pub fn measure_pass(root: &mut Element, frame_info: &FrameInfo)
    ensures
        final(root)@ == measured(old(root)@, frame_info.size[0], frame_info.size[1]),
{
    let frame_constraints = Constraints { max_size: frame_info.size };
    let mut tmp = Element {
        _type: ElementType::Root,
        size: [0, 0],
        style: Style::default(),
        text_style: None,
        frame_position: None,
        children: Vec::new(),
    };
    core::mem::swap(root, &mut tmp);
    let mut tmp = measure_element_size(tmp, frame_constraints);
    core::mem::swap(root, &mut tmp);
}

/// Measure one node (and, for container kinds, its subtree): the returned
/// tree is the input annotated with measured sizes.
pub fn measure_element_size(element: Element, constraints: Constraints) -> (r: Element)
    ensures
        r@ == measured(element@, constraints.max_size[0], constraints.max_size[1]),
    decreases element, 1int,
{
    if element.is_root() {
        // the root ignores its own sizing policy: it takes the whole frame
        let ghost e0 = element;
        let mut element = element;
        let mut kids: Vec<Element> = Vec::new();
        core::mem::swap(&mut element.children, &mut kids);
        proof {
            assert(kids == e0.children);
            assert(decreases_to!(e0 => e0.children));
        }
        let (measured_kids, _sw, _mw, _sh, _mh) = measure_children_collect(kids, constraints);
        element.children = measured_kids;
        element.size = constraints.max_size;
        proof {
            assert(element@ =~= measured(
                e0@,
                constraints.max_size[0],
                constraints.max_size[1],
            ));
        }
        element
    } else if element.is_anchor() {
        measure_anchor_element_size(element, constraints)
    } else if element.is_text() {
        measure_text_element_size(element, constraints)
    } else if element.is_flex_row() {
        measure_flex_row_element_size(element, constraints)
    } else if element.is_flex_column() {
        measure_flex_column_size(element, constraints)
    } else if element.is_pill() {
        measure_pill_size(element, constraints)
    } else if element.is_image() {
        measure_image_size(element, constraints)
    } else {
        measure_divider_size(element, constraints)
    }
}

/// Measure every element of `children` under one constraint and fold up
/// the margin-box statistics the container kinds size themselves by:
/// (measured children, sum of widths, max width, sum of heights, max
/// height).
#[verifier::loop_isolation(false)]
fn measure_children_collect(children: Vec<Element>, constraints: Constraints) -> (r: (
    Vec<Element>,
    u32,
    u32,
    u32,
    u32,
))
    ensures
        ({
            let mc = measured_children(
                children_view(children@),
                constraints.max_size[0],
                constraints.max_size[1],
            );
            &&& children_view(r.0@) == mc
            &&& r.0@.len() == children@.len()
            &&& r.1 == sum_margin_widths(mc)
            &&& r.2 == max_margin_widths(mc)
            &&& r.3 == sum_margin_heights(mc)
            &&& r.4 == max_margin_heights(mc)
        }),
    decreases children, 0int,
{
    let ghost c0 = children;
    let ghost kids0 = children@;
    let ghost kv = children_view(kids0);
    let ghost cw = constraints.max_size[0];
    let ghost ch = constraints.max_size[1];
    let mut remaining = children;
    let mut out: Vec<Element> = Vec::new();
    let mut sum_w: u32 = 0;
    let mut max_w: u32 = 0;
    let mut sum_h: u32 = 0;
    let mut max_h: u32 = 0;
    proof {
        lemma_children_view(kids0);
    }
    while remaining.len() > 0
        invariant
            out@.len() + remaining@.len() == kids0.len(),
            remaining@ =~= kids0.subrange(out@.len() as int, kids0.len() as int),
            forall|i: int|
                0 <= i < out@.len() ==> #[trigger] element_view(out@[i]) == measured(
                    element_view(kids0[i]),
                    cw,
                    ch,
                ),
            sum_w == sum_margin_widths(measured_children(kv.take(out@.len() as int), cw, ch)),
            max_w == max_margin_widths(measured_children(kv.take(out@.len() as int), cw, ch)),
            sum_h == sum_margin_heights(measured_children(kv.take(out@.len() as int), cw, ch)),
            max_h == max_margin_heights(measured_children(kv.take(out@.len() as int), cw, ch)),
        decreases remaining@.len(),
    {
        let ghost k = out@.len() as int;
        let c = remaining.remove(0);
        proof {
            assert(c == kids0[k]);
            assert(c == c0[k]);
            assert(decreases_to!(c0 => c0[k]));
        }
        let c = measure_element_size(c, constraints);
        let mw = c.size[0].saturating_add(c.style.margin.left).saturating_add(
            c.style.margin.right,
        );
        let mh = c.size[1].saturating_add(c.style.margin.top).saturating_add(
            c.style.margin.bottom,
        );
        proof {
            let m = measured(kv[k], cw, ch);
            assert(element_view(c) == m);
            assert(kv.take(k + 1).drop_last() =~= kv.take(k));
            assert(kv.take(k + 1).last() == kv[k]);
            let prev = measured_children(kv.take(k), cw, ch);
            assert(measured_children(kv.take(k + 1), cw, ch) == prev.push(m));
            assert(prev.push(m).drop_last() =~= prev);
            assert(prev.push(m).last() == m);
            assert(mw == margin_box_w(m));
            assert(mh == margin_box_h(m));
        }
        sum_w = sum_w.saturating_add(mw);
        sum_h = sum_h.saturating_add(mh);
        if mw > max_w {
            max_w = mw;
        }
        if mh > max_h {
            max_h = mh;
        }
        out.push(c);
    }
    proof {
        assert(kv.take(kids0.len() as int) =~= kv);
        lemma_children_view(out@);
        lemma_measured_children(kv, cw, ch);
        assert(children_view(out@) =~= measured_children(kv, cw, ch));
    }
    (out, sum_w, max_w, sum_h, max_h)
}

/// Measure an anchored container: children are measured against the
/// anchor's fixed size where one is set (else the parent's constraint),
/// and the anchor itself wraps the bounding box of its children's margin
/// boxes, padded, then resolved by its sizing policy.
pub fn measure_anchor_element_size(element: Element, constraints: Constraints) -> (r: Element)
    requires
        element@.kind is Anchor,
    ensures
        r@ == measured(element@, constraints.max_size[0], constraints.max_size[1]),
    decreases element, 0int,
{
    let ghost e0 = element;
    let ghost cw = constraints.max_size[0];
    let ghost ch = constraints.max_size[1];
    let mut element = element;
    let style = element.style;

    let child_constraints_w = match style.width {
        SizingPolicy::Fixed(w) => w,
        _ => constraints.max_size[0],
    };
    let child_constraints_h = match style.height {
        SizingPolicy::Fixed(h) => h,
        _ => constraints.max_size[1],
    };
    let child_constraints = Constraints { max_size: [child_constraints_w, child_constraints_h] };

    let mut kids: Vec<Element> = Vec::new();
    core::mem::swap(&mut element.children, &mut kids);
    proof {
        assert(kids == e0.children);
        assert(decreases_to!(e0 => e0.children));
    }
    let (measured_kids, _sw, max_child_width, _sh, max_child_height) = measure_children_collect(
        kids,
        child_constraints,
    );
    element.children = measured_kids;

    let padded_width = max_child_width.saturating_add(style.padding.left).saturating_add(
        style.padding.right,
    );
    let padded_height = max_child_height.saturating_add(style.padding.top).saturating_add(
        style.padding.bottom,
    );
    let element_width = size_from_policy(style.width, padded_width, constraints.max_size[0]);
    let element_height = size_from_policy(style.height, padded_height, constraints.max_size[1]);
    element.size = [element_width, element_height];
    proof {
        assert((child_constraints.max_size[0], child_constraints.max_size[1])
            == child_constraints_of(e0@, cw, ch));
        assert(element@ =~= measured(e0@, cw, ch));
    }
    element
}

/// Measure a flex row: children are measured against the row's constraint
/// net of its padding; the row's own content size is the sum of the
/// children's margin-box widths by the tallest margin-box height, padded,
/// then resolved by its sizing policy.
pub fn measure_flex_row_element_size(element: Element, constraints: Constraints) -> (r: Element)
    requires
        element@.kind is FlexRow,
    ensures
        r@ == measured(element@, constraints.max_size[0], constraints.max_size[1]),
    decreases element, 0int,
{
    let ghost e0 = element;
    let ghost cw = constraints.max_size[0];
    let ghost ch = constraints.max_size[1];
    let mut element = element;
    let style = element.style;

    let child_constraints = Constraints {
        max_size: [
            constraints.max_size[0].saturating_sub(
                style.padding.left.saturating_add(style.padding.right),
            ),
            constraints.max_size[1].saturating_sub(
                style.padding.top.saturating_add(style.padding.bottom),
            ),
        ],
    };

    let mut kids: Vec<Element> = Vec::new();
    core::mem::swap(&mut element.children, &mut kids);
    proof {
        assert(kids == e0.children);
        assert(decreases_to!(e0 => e0.children));
    }
    let (measured_kids, total_child_width, _mw, _sh, max_child_height) = measure_children_collect(
        kids,
        child_constraints,
    );
    element.children = measured_kids;

    let padded_width = total_child_width.saturating_add(style.padding.left).saturating_add(
        style.padding.right,
    );
    let padded_height = max_child_height.saturating_add(style.padding.top).saturating_add(
        style.padding.bottom,
    );
    let element_width = size_from_policy(style.width, padded_width, constraints.max_size[0]);
    let element_height = size_from_policy(style.height, padded_height, constraints.max_size[1]);
    element.size = [element_width, element_height];
    proof {
        assert((child_constraints.max_size[0], child_constraints.max_size[1])
            == child_constraints_of(e0@, cw, ch));
        assert(element@ =~= measured(e0@, cw, ch));
    }
    element
}

/// Measure a flex column: the mirror image of a flex row, summing heights
/// and taking the widest margin-box width.
pub fn measure_flex_column_size(element: Element, constraints: Constraints) -> (r: Element)
    requires
        element@.kind is FlexColumn,
    ensures
        r@ == measured(element@, constraints.max_size[0], constraints.max_size[1]),
    decreases element, 0int,
{
    let ghost e0 = element;
    let ghost cw = constraints.max_size[0];
    let ghost ch = constraints.max_size[1];
    let mut element = element;
    let style = element.style;

    let child_constraints = Constraints {
        max_size: [
            constraints.max_size[0].saturating_sub(
                style.padding.left.saturating_add(style.padding.right),
            ),
            constraints.max_size[1].saturating_sub(
                style.padding.top.saturating_add(style.padding.bottom),
            ),
        ],
    };

    let mut kids: Vec<Element> = Vec::new();
    core::mem::swap(&mut element.children, &mut kids);
    proof {
        assert(kids == e0.children);
        assert(decreases_to!(e0 => e0.children));
    }
    let (measured_kids, _sw, max_child_width, total_child_height, _mh) = measure_children_collect(
        kids,
        child_constraints,
    );
    element.children = measured_kids;

    let padded_width = max_child_width.saturating_add(style.padding.left).saturating_add(
        style.padding.right,
    );
    let padded_height = total_child_height.saturating_add(style.padding.top).saturating_add(
        style.padding.bottom,
    );
    let element_width = size_from_policy(style.width, padded_width, constraints.max_size[0]);
    let element_height = size_from_policy(style.height, padded_height, constraints.max_size[1]);
    element.size = [element_width, element_height];
    proof {
        assert((child_constraints.max_size[0], child_constraints.max_size[1])
            == child_constraints_of(e0@, cw, ch));
        assert(element@ =~= measured(e0@, cw, ch));
    }
    element
}

/// Measure a pill: like an anchor, but the border is reserved on all four
/// sides, both when constraining the children and when padding the
/// content size.
pub fn measure_pill_size(element: Element, constraints: Constraints) -> (r: Element)
    requires
        element@.kind is Pill,
    ensures
        r@ == measured(element@, constraints.max_size[0], constraints.max_size[1]),
    decreases element, 0int,
{
    let ghost e0 = element;
    let ghost cw = constraints.max_size[0];
    let ghost ch = constraints.max_size[1];
    let mut element = element;
    let style = element.style;

    let border2 = mul_sat(style.border_width, 2);
    let child_constraints = Constraints {
        max_size: [
            constraints.max_size[0].saturating_sub(
                style.padding.left.saturating_add(style.padding.right),
            ).saturating_sub(border2),
            constraints.max_size[1].saturating_sub(
                style.padding.top.saturating_add(style.padding.bottom),
            ).saturating_sub(border2),
        ],
    };

    let mut kids: Vec<Element> = Vec::new();
    core::mem::swap(&mut element.children, &mut kids);
    proof {
        assert(kids == e0.children);
        assert(decreases_to!(e0 => e0.children));
    }
    let (measured_kids, _sw, max_child_width, _sh, max_child_height) = measure_children_collect(
        kids,
        child_constraints,
    );
    element.children = measured_kids;

    let padded_width = max_child_width.saturating_add(style.padding.left).saturating_add(
        style.padding.right,
    ).saturating_add(border2);
    let padded_height = max_child_height.saturating_add(style.padding.top).saturating_add(
        style.padding.bottom,
    ).saturating_add(border2);
    let element_width = size_from_policy(style.width, padded_width, constraints.max_size[0]);
    let element_height = size_from_policy(style.height, padded_height, constraints.max_size[1]);
    element.size = [element_width, element_height];
    proof {
        assert((child_constraints.max_size[0], child_constraints.max_size[1])
            == child_constraints_of(e0@, cw, ch));
        assert(element@ =~= measured(e0@, cw, ch));
    }
    element
}

/// Measure a text node from its character count and font metrics: the
/// glyph advance is taken as half the font size, the height as one line
/// height, both padded and then resolved by the sizing policy.
pub fn measure_text_element_size(element: Element, constraints: Constraints) -> (r: Element)
    requires
        element@.kind is Text,
    ensures
        r@ == measured(element@, constraints.max_size[0], constraints.max_size[1]),
{
    let ghost e0 = element;
    let ghost cw = constraints.max_size[0];
    let ghost ch = constraints.max_size[1];
    let mut element = element;
    let style = element.style;

    let char_count: usize = match &element._type {
        ElementType::Text(s) => s.as_str().unicode_len(),
        _ => 0,
    };
    let text_len: u32 = if char_count >= u32::MAX as usize {
        u32::MAX
    } else {
        char_count as u32
    };
    let fallback_text_style = TextStyle::default();
    let (font_size, line_height): (u32, u32) = match &element.text_style {
        Some(t) => (t.font_size, t.line_height),
        None => (fallback_text_style.font_size, fallback_text_style.line_height),
    };
    proof {
        assert(font_size == effective_text_style(e0@.text_style).font_size);
        assert(line_height == effective_text_style(e0@.text_style).line_height);
    }

    let char_w = font_size / 2;
    let text_width = mul_sat(text_len, char_w);
    let text_height = line_height;

    let padded_width = text_width.saturating_add(style.padding.left).saturating_add(
        style.padding.right,
    );
    let padded_height = text_height.saturating_add(style.padding.top).saturating_add(
        style.padding.bottom,
    );
    let element_width = size_from_policy(style.width, padded_width, constraints.max_size[0]);
    let element_height = size_from_policy(style.height, padded_height, constraints.max_size[1]);
    element.size = [element_width, element_height];
    proof {
        assert(element@ =~= measured(e0@, cw, ch));
    }
    element
}

/// Measure an image node: a default square, fully overridden by a fixed
/// or fill policy.
pub fn measure_image_size(element: Element, constraints: Constraints) -> (r: Element)
    requires
        element@.kind is Image,
    ensures
        r@ == measured(element@, constraints.max_size[0], constraints.max_size[1]),
{
    let ghost e0 = element;
    let mut element = element;
    let style = element.style;

    let element_width = size_from_policy(style.width, IMAGE_DEFAULT_SIZE, constraints.max_size[0]);
    let element_height = size_from_policy(
        style.height,
        IMAGE_DEFAULT_SIZE,
        constraints.max_size[1],
    );
    element.size = [element_width, element_height];
    proof {
        assert(element@ =~= measured(e0@, constraints.max_size[0], constraints.max_size[1]));
    }
    element
}

/// Measure a divider: its thickness across its orientation, the full
/// constraint along it, resolved by the sizing policy.
pub fn measure_divider_size(element: Element, constraints: Constraints) -> (r: Element)
    requires
        element@.kind is Divider,
    ensures
        r@ == measured(element@, constraints.max_size[0], constraints.max_size[1]),
{
    let ghost e0 = element;
    let mut element = element;
    let style = element.style;

    let (intrinsic_w, intrinsic_h): (u32, u32) = match &element._type {
        ElementType::Divider(orientation, thickness) => {
            match orientation {
                crate::element::DividerOrientation::Horizontal => (
                    constraints.max_size[0],
                    *thickness,
                ),
                crate::element::DividerOrientation::Vertical => (
                    *thickness,
                    constraints.max_size[1],
                ),
            }
        },
        _ => (0, 0),
    };
    let element_width = size_from_policy(style.width, intrinsic_w, constraints.max_size[0]);
    let element_height = size_from_policy(style.height, intrinsic_h, constraints.max_size[1]);
    element.size = [element_width, element_height];
    proof {
        assert(element@ =~= measured(e0@, constraints.max_size[0], constraints.max_size[1]));
    }
    element
}

} // verus!
