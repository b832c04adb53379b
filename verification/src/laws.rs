use crate::anchor::AnchorPosition;
use crate::element::{ElementTypeView, ElementView};
use crate::layout::laid;
use crate::measure::{
    child_constraints_of, max_margin_heights, max_margin_widths, measured, measured_children,
    sum_margin_heights, sum_margin_widths,
};
use crate::style::SizingPolicy;
use vstd::prelude::*;

verus! {

/// A node whose width policy is `Fixed(v)` measures exactly `v` wide,
/// whatever its children look like, for every constraint that admits `v`.
/// (The root slot alone ignores its policy and takes the frame size.)
pub proof fn lemma_fixed_width_is_exact(t: ElementView, cw: u32, ch: u32, v: u32)
    requires
        t.style.width == SizingPolicy::Fixed(v),
        v <= cw,
        !(t.kind is Root),
    ensures
        measured(t, cw, ch).size.0 == v,
{
}

/// The height counterpart of `lemma_fixed_width_is_exact`.
pub proof fn lemma_fixed_height_is_exact(t: ElementView, cw: u32, ch: u32, v: u32)
    requires
        t.style.height == SizingPolicy::Fixed(v),
        v <= ch,
        !(t.kind is Root),
    ensures
        measured(t, cw, ch).size.1 == v,
{
}

/// A top-left anchor resolves to exactly its allocated origin: zero
/// offset on both axes.
pub proof fn lemma_anchor_top_left(t: ElementView, ox: u32, oy: u32, aw: u32, ah: u32)
    requires
        t.kind == ElementTypeView::Anchor(AnchorPosition::TopLeft),
    ensures
        laid(t, ox, oy, aw, ah).position == Option::Some((ox, oy)),
{
}

/// A bottom-right anchor resolves to exactly the allocated origin plus
/// the leftover space, on both axes, whenever its own size fits the
/// allocation and the coordinates stay within pixel range.
pub proof fn lemma_anchor_bottom_right(t: ElementView, ox: u32, oy: u32, aw: u32, ah: u32)
    requires
        t.kind == ElementTypeView::Anchor(AnchorPosition::BottomRight),
        t.size.0 <= aw,
        t.size.1 <= ah,
        ox + (aw - t.size.0) <= u32::MAX,
        oy + (ah - t.size.1) <= u32::MAX,
    ensures
        laid(t, ox, oy, aw, ah).position == Option::Some(
            (((ox + (aw - t.size.0)) as u32), ((oy + (ah - t.size.1)) as u32)),
        ),
{
}

/// A measured node's margin-box width as unbounded arithmetic.
pub open spec fn margin_box_w_int(c: ElementView) -> int {
    c.size.0 + c.style.margin.left + c.style.margin.right
}

/// A measured node's margin-box height as unbounded arithmetic.
pub open spec fn margin_box_h_int(c: ElementView) -> int {
    c.size.1 + c.style.margin.top + c.style.margin.bottom
}

/// Sum of margin-box widths as unbounded arithmetic.
pub open spec fn sum_margin_widths_int(s: Seq<ElementView>) -> int
    decreases s,
{
    if s.len() == 0 {
        0
    } else {
        sum_margin_widths_int(s.drop_last()) + margin_box_w_int(s.last())
    }
}

/// Sum of margin-box heights as unbounded arithmetic.
pub open spec fn sum_margin_heights_int(s: Seq<ElementView>) -> int
    decreases s,
{
    if s.len() == 0 {
        0
    } else {
        sum_margin_heights_int(s.drop_last()) + margin_box_h_int(s.last())
    }
}

/// Largest margin-box width as unbounded arithmetic.
pub open spec fn max_margin_widths_int(s: Seq<ElementView>) -> int
    decreases s,
{
    if s.len() == 0 {
        0
    } else {
        let rest = max_margin_widths_int(s.drop_last());
        let w = margin_box_w_int(s.last());
        if rest >= w {
            rest
        } else {
            w
        }
    }
}

/// Largest margin-box height as unbounded arithmetic.
pub open spec fn max_margin_heights_int(s: Seq<ElementView>) -> int
    decreases s,
{
    if s.len() == 0 {
        0
    } else {
        let rest = max_margin_heights_int(s.drop_last());
        let h = margin_box_h_int(s.last());
        if rest >= h {
            rest
        } else {
            h
        }
    }
}

/// While the true sum stays within pixel range, the saturating sum equals
/// it (width form).
pub proof fn lemma_sum_widths_exact(s: Seq<ElementView>)
    requires
        sum_margin_widths_int(s) <= u32::MAX,
    ensures
        sum_margin_widths(s) == sum_margin_widths_int(s),
    decreases s.len(),
{
    if s.len() > 0 {
        lemma_sum_widths_exact(s.drop_last());
    }
}

/// While the true sum stays within pixel range, the saturating sum equals
/// it (height form).
pub proof fn lemma_sum_heights_exact(s: Seq<ElementView>)
    requires
        sum_margin_heights_int(s) <= u32::MAX,
    ensures
        sum_margin_heights(s) == sum_margin_heights_int(s),
    decreases s.len(),
{
    if s.len() > 0 {
        lemma_sum_heights_exact(s.drop_last());
    }
}

/// While the true maximum stays within pixel range, the saturating
/// maximum equals it (width form).
pub proof fn lemma_max_widths_exact(s: Seq<ElementView>)
    requires
        max_margin_widths_int(s) <= u32::MAX,
    ensures
        max_margin_widths(s) == max_margin_widths_int(s),
    decreases s.len(),
{
    if s.len() > 0 {
        lemma_max_widths_exact(s.drop_last());
    }
}

/// While the true maximum stays within pixel range, the saturating
/// maximum equals it (height form).
pub proof fn lemma_max_heights_exact(s: Seq<ElementView>)
    requires
        max_margin_heights_int(s) <= u32::MAX,
    ensures
        max_margin_heights(s) == max_margin_heights_int(s),
    decreases s.len(),
{
    if s.len() > 0 {
        lemma_max_heights_exact(s.drop_last());
    }
}

/// A flex row sized Auto on both axes measures exactly the sum of its
/// measured children's margin-box widths plus its own horizontal padding,
/// by the largest margin-box height plus its vertical padding, whenever
/// those totals fit the constraint handed to it.
pub proof fn lemma_flex_row_measured_size(t: ElementView, cw: u32, ch: u32)
    requires
        t.kind is FlexRow,
        t.style.width is Auto,
        t.style.height is Auto,
        ({
            let cc = child_constraints_of(t, cw, ch);
            let mc = measured_children(t.children, cc.0, cc.1);
            &&& sum_margin_widths_int(mc) + t.style.padding.left + t.style.padding.right <= cw
            &&& max_margin_heights_int(mc) + t.style.padding.top + t.style.padding.bottom <= ch
        }),
    ensures
        ({
            let cc = child_constraints_of(t, cw, ch);
            let mc = measured_children(t.children, cc.0, cc.1);
            &&& measured(t, cw, ch).size.0 == sum_margin_widths_int(mc) + t.style.padding.left
                + t.style.padding.right
            &&& measured(t, cw, ch).size.1 == max_margin_heights_int(mc) + t.style.padding.top
                + t.style.padding.bottom
        }),
{
    let cc = child_constraints_of(t, cw, ch);
    let mc = measured_children(t.children, cc.0, cc.1);
    lemma_sum_widths_exact(mc);
    lemma_max_heights_exact(mc);
}

/// The flex-column counterpart: the sum of margin-box heights plus
/// vertical padding, by the widest margin-box width plus horizontal
/// padding.
pub proof fn lemma_flex_column_measured_size(t: ElementView, cw: u32, ch: u32)
    requires
        t.kind is FlexColumn,
        t.style.width is Auto,
        t.style.height is Auto,
        ({
            let cc = child_constraints_of(t, cw, ch);
            let mc = measured_children(t.children, cc.0, cc.1);
            &&& max_margin_widths_int(mc) + t.style.padding.left + t.style.padding.right <= cw
            &&& sum_margin_heights_int(mc) + t.style.padding.top + t.style.padding.bottom <= ch
        }),
    ensures
        ({
            let cc = child_constraints_of(t, cw, ch);
            let mc = measured_children(t.children, cc.0, cc.1);
            &&& measured(t, cw, ch).size.0 == max_margin_widths_int(mc) + t.style.padding.left
                + t.style.padding.right
            &&& measured(t, cw, ch).size.1 == sum_margin_heights_int(mc) + t.style.padding.top
                + t.style.padding.bottom
        }),
{
    let cc = child_constraints_of(t, cw, ch);
    let mc = measured_children(t.children, cc.0, cc.1);
    lemma_max_widths_exact(mc);
    lemma_sum_heights_exact(mc);
}

} // verus!

use crate::element::ElementTypeView as K;
use crate::layout::{lay_col, lay_row, laid_children_same};
use crate::render::{flattened, flattened_children};

verus! {

/// How many (rectangle, text, image) primitives the paint walk emits for
/// this subtree: one rectangle per positioned pill, one text primitive
/// per positioned text node, one image primitive per positioned image
/// node; nodes without a resolved position emit nothing.
pub open spec fn positioned_prim_counts(t: ElementView) -> (nat, nat, nat)
    decreases t,
{
    match t.kind {
        K::Root | K::Anchor(_) | K::FlexRow | K::FlexColumn => positioned_prim_counts_children(
            t.children,
        ),
        K::Pill => {
            let c = positioned_prim_counts_children(t.children);
            (
                c.0 + if t.position is Some {
                    1nat
                } else {
                    0nat
                },
                c.1,
                c.2,
            )
        },
        K::Text(_) => (
            0nat,
            if t.position is Some {
                1nat
            } else {
                0nat
            },
            0nat,
        ),
        K::Image(_) => (
            0nat,
            0nat,
            if t.position is Some {
                1nat
            } else {
                0nat
            },
        ),
        K::Divider(_, _) => (0nat, 0nat, 0nat),
    }
}

/// `positioned_prim_counts`, summed over a sequence of children.
pub open spec fn positioned_prim_counts_children(s: Seq<ElementView>) -> (nat, nat, nat)
    decreases s,
{
    if s.len() == 0 {
        (0nat, 0nat, 0nat)
    } else {
        let rest = positioned_prim_counts_children(s.drop_last());
        let last = positioned_prim_counts(s.last());
        (rest.0 + last.0, rest.1 + last.1, rest.2 + last.2)
    }
}

/// How many (pill, text, image) nodes the paint walk reaches in this
/// subtree, positioned or not.
pub open spec fn prim_node_counts(t: ElementView) -> (nat, nat, nat)
    decreases t,
{
    match t.kind {
        K::Root | K::Anchor(_) | K::FlexRow | K::FlexColumn => prim_node_counts_children(
            t.children,
        ),
        K::Pill => {
            let c = prim_node_counts_children(t.children);
            (c.0 + 1nat, c.1, c.2)
        },
        K::Text(_) => (0nat, 1nat, 0nat),
        K::Image(_) => (0nat, 0nat, 1nat),
        K::Divider(_, _) => (0nat, 0nat, 0nat),
    }
}

/// `prim_node_counts`, summed over a sequence of children.
pub open spec fn prim_node_counts_children(s: Seq<ElementView>) -> (nat, nat, nat)
    decreases s,
{
    if s.len() == 0 {
        (0nat, 0nat, 0nat)
    } else {
        let rest = prim_node_counts_children(s.drop_last());
        let last = prim_node_counts(s.last());
        (rest.0 + last.0, rest.1 + last.1, rest.2 + last.2)
    }
}

/// The flattening emits exactly one rectangle per positioned pill, one
/// text primitive per positioned text node, and one image primitive per
/// positioned image node — so a node with no resolved position
/// contributes nothing at all.
pub proof fn lemma_flattened_counts(t: ElementView)
    ensures
        flattened(t).rectangles.len() == positioned_prim_counts(t).0,
        flattened(t).text.len() == positioned_prim_counts(t).1,
        flattened(t).images.len() == positioned_prim_counts(t).2,
    decreases t, 1int,
{
    match t.kind {
        K::Root | K::Anchor(_) | K::FlexRow | K::FlexColumn | K::Pill => {
            lemma_flattened_counts_children(t.children);
        },
        _ => {},
    }
}

/// `lemma_flattened_counts`, summed over a sequence of children.
pub proof fn lemma_flattened_counts_children(s: Seq<ElementView>)
    ensures
        flattened_children(s).rectangles.len() == positioned_prim_counts_children(s).0,
        flattened_children(s).text.len() == positioned_prim_counts_children(s).1,
        flattened_children(s).images.len() == positioned_prim_counts_children(s).2,
    decreases s, 0int,
{
    if s.len() > 0 {
        lemma_flattened_counts_children(s.drop_last());
        lemma_flattened_counts(s.last());
    }
}

/// Positioned-primitive counts add up over concatenation.
pub proof fn lemma_pos_counts_concat(a: Seq<ElementView>, b: Seq<ElementView>)
    ensures
        positioned_prim_counts_children(a + b).0 == positioned_prim_counts_children(a).0
            + positioned_prim_counts_children(b).0,
        positioned_prim_counts_children(a + b).1 == positioned_prim_counts_children(a).1
            + positioned_prim_counts_children(b).1,
        positioned_prim_counts_children(a + b).2 == positioned_prim_counts_children(a).2
            + positioned_prim_counts_children(b).2,
    decreases b.len(),
{
    if b.len() == 0 {
        assert(a + b =~= a);
    } else {
        lemma_pos_counts_concat(a, b.drop_last());
        assert((a + b).drop_last() =~= a + b.drop_last());
        assert((a + b).last() == b.last());
    }
}

/// Node counts add up over concatenation.
pub proof fn lemma_node_counts_concat(a: Seq<ElementView>, b: Seq<ElementView>)
    ensures
        prim_node_counts_children(a + b).0 == prim_node_counts_children(a).0
            + prim_node_counts_children(b).0,
        prim_node_counts_children(a + b).1 == prim_node_counts_children(a).1
            + prim_node_counts_children(b).1,
        prim_node_counts_children(a + b).2 == prim_node_counts_children(a).2
            + prim_node_counts_children(b).2,
    decreases b.len(),
{
    if b.len() == 0 {
        assert(a + b =~= a);
    } else {
        lemma_node_counts_concat(a, b.drop_last());
        assert((a + b).drop_last() =~= a + b.drop_last());
        assert((a + b).last() == b.last());
    }
}

/// The layout pass gives every node the paint walk reaches a position, so
/// afterwards the positioned counts are simply the node counts.
pub proof fn lemma_laid_positions(t: ElementView, ox: u32, oy: u32, aw: u32, ah: u32)
    ensures
        positioned_prim_counts(laid(t, ox, oy, aw, ah)) == prim_node_counts(t),
    decreases t, 2int,
{
    match t.kind {
        K::Root => {
            lemma_laid_positions_same(t.children, ox, oy, aw, ah);
        },
        K::Anchor(p) => {
            let px = ox.saturating_add(crate::layout::anchor_offset_x(p, aw, t.size.0));
            let py = oy.saturating_add(crate::layout::anchor_offset_y(p, ah, t.size.1));
            lemma_laid_positions_same(t.children, px, py, t.size.0, t.size.1);
        },
        K::Pill => {
            let bw = t.style.border_width;
            lemma_laid_positions_same(
                t.children,
                ox.saturating_add(bw),
                oy.saturating_add(bw),
                t.size.0.saturating_sub(crate::measure::sat_mul(bw, 2)),
                t.size.1.saturating_sub(crate::measure::sat_mul(bw, 2)),
            );
        },
        K::FlexRow => {
            let content_x0 = ox.saturating_add(t.style.padding.left);
            let content_y0 = oy.saturating_add(t.style.padding.top);
            let content_w = t.size.0.saturating_sub(
                t.style.padding.left.saturating_add(t.style.padding.right),
            );
            let content_h = t.size.1.saturating_sub(
                t.style.padding.top.saturating_add(t.style.padding.bottom),
            );
            let x_start = crate::layout::justify_start(
                t.style.justify_x,
                content_x0,
                content_w,
                crate::layout::row_content_total(t.children),
            );
            lemma_laid_positions_row(t.children, x_start, content_y0, content_h);
        },
        K::FlexColumn => {
            let content_x0 = ox.saturating_add(t.style.padding.left);
            let content_y0 = oy.saturating_add(t.style.padding.top);
            let content_w = t.size.0.saturating_sub(
                t.style.padding.left.saturating_add(t.style.padding.right),
            );
            let content_h = t.size.1.saturating_sub(
                t.style.padding.top.saturating_add(t.style.padding.bottom),
            );
            let y_start = crate::layout::justify_start(
                t.style.justify_y,
                content_y0,
                content_h,
                crate::layout::col_content_total(t.children),
            );
            lemma_laid_positions_col(t.children, y_start, content_x0, content_w);
        },
        _ => {},
    }
}

/// `lemma_laid_positions` over children that share one origin and
/// allocation.
pub proof fn lemma_laid_positions_same(s: Seq<ElementView>, ox: u32, oy: u32, aw: u32, ah: u32)
    ensures
        positioned_prim_counts_children(laid_children_same(s, ox, oy, aw, ah))
            == prim_node_counts_children(s),
    decreases s, 0int,
{
    if s.len() > 0 {
        lemma_laid_positions_same(s.drop_last(), ox, oy, aw, ah);
        lemma_laid_positions(s.last(), ox, oy, aw, ah);
        let r = laid_children_same(s, ox, oy, aw, ah);
        let prev = laid_children_same(s.drop_last(), ox, oy, aw, ah);
        assert(r.drop_last() =~= prev);
        assert(r.last() == laid(s.last(), ox, oy, aw, ah));
    }
}

/// `lemma_laid_positions` over a flex row's children.
pub proof fn lemma_laid_positions_row(s: Seq<ElementView>, offset: u32, cy0: u32, ch: u32)
    ensures
        positioned_prim_counts_children(lay_row(s, offset, cy0, ch)) == prim_node_counts_children(
            s,
        ),
    decreases s, 0int,
{
    if s.len() > 0 {
        let c = s[0];
        let x = offset.saturating_add(c.style.margin.left);
        let y = crate::layout::row_child_y(c, cy0, ch);
        let head = laid(c, x, y, c.size.0, c.size.1);
        let rest = lay_row(
            s.drop_first(),
            x.saturating_add(c.size.0).saturating_add(c.style.margin.right),
            cy0,
            ch,
        );
        lemma_laid_positions(c, x, y, c.size.0, c.size.1);
        lemma_laid_positions_row(
            s.drop_first(),
            x.saturating_add(c.size.0).saturating_add(c.style.margin.right),
            cy0,
            ch,
        );
        lemma_pos_counts_concat(seq![head], rest);
        assert(seq![head].drop_last() =~= Seq::<ElementView>::empty());
        assert(seq![head].last() == head);
        assert(positioned_prim_counts_children(Seq::<ElementView>::empty()) == (0nat, 0nat, 0nat));
        assert(positioned_prim_counts_children(seq![head]).0 == positioned_prim_counts(head).0);
        lemma_node_counts_concat(seq![c], s.drop_first());
        assert(seq![c].drop_last() =~= Seq::<ElementView>::empty());
        assert(seq![c].last() == c);
        assert(prim_node_counts_children(Seq::<ElementView>::empty()) == (0nat, 0nat, 0nat));
        assert(prim_node_counts_children(seq![c]).0 == prim_node_counts(c).0);
        assert(seq![c] + s.drop_first() =~= s);
        assert(lay_row(s, offset, cy0, ch) == seq![head] + rest);
        let lhs = positioned_prim_counts_children(lay_row(s, offset, cy0, ch));
        let rhs = prim_node_counts_children(s);
        assert(lhs.0 == rhs.0);
        assert(lhs.1 == rhs.1);
        assert(lhs.2 == rhs.2);
    }
}

/// `lemma_laid_positions` over a flex column's children.
pub proof fn lemma_laid_positions_col(s: Seq<ElementView>, offset: u32, cx0: u32, cw: u32)
    ensures
        positioned_prim_counts_children(lay_col(s, offset, cx0, cw)) == prim_node_counts_children(
            s,
        ),
    decreases s, 0int,
{
    if s.len() > 0 {
        let c = s[0];
        let y = offset.saturating_add(c.style.margin.top);
        let x = crate::layout::col_child_x(c, cx0, cw);
        let head = laid(c, x, y, c.size.0, c.size.1);
        let rest = lay_col(
            s.drop_first(),
            y.saturating_add(c.size.1).saturating_add(c.style.margin.bottom),
            cx0,
            cw,
        );
        lemma_laid_positions(c, x, y, c.size.0, c.size.1);
        lemma_laid_positions_col(
            s.drop_first(),
            y.saturating_add(c.size.1).saturating_add(c.style.margin.bottom),
            cx0,
            cw,
        );
        lemma_pos_counts_concat(seq![head], rest);
        assert(seq![head].drop_last() =~= Seq::<ElementView>::empty());
        assert(seq![head].last() == head);
        assert(positioned_prim_counts_children(Seq::<ElementView>::empty()) == (0nat, 0nat, 0nat));
        assert(positioned_prim_counts_children(seq![head]).0 == positioned_prim_counts(head).0);
        lemma_node_counts_concat(seq![c], s.drop_first());
        assert(seq![c].drop_last() =~= Seq::<ElementView>::empty());
        assert(seq![c].last() == c);
        assert(prim_node_counts_children(Seq::<ElementView>::empty()) == (0nat, 0nat, 0nat));
        assert(prim_node_counts_children(seq![c]).0 == prim_node_counts(c).0);
        assert(seq![c] + s.drop_first() =~= s);
        assert(lay_col(s, offset, cx0, cw) == seq![head] + rest);
        let lhs = positioned_prim_counts_children(lay_col(s, offset, cx0, cw));
        let rhs = prim_node_counts_children(s);
        assert(lhs.0 == rhs.0);
        assert(lhs.1 == rhs.1);
        assert(lhs.2 == rhs.2);
    }
}

/// The measure pass never changes which nodes exist: node counts are
/// untouched.
pub proof fn lemma_measured_counts(t: ElementView, cw: u32, ch: u32)
    ensures
        prim_node_counts(measured(t, cw, ch)) == prim_node_counts(t),
    decreases t, 1int,
{
    match t.kind {
        K::Root | K::Anchor(_) | K::FlexRow | K::FlexColumn | K::Pill => {
            let cc = child_constraints_of(t, cw, ch);
            lemma_measured_counts_children(t.children, cc.0, cc.1);
        },
        _ => {},
    }
}

/// `lemma_measured_counts`, over a sequence of children.
pub proof fn lemma_measured_counts_children(s: Seq<ElementView>, cw: u32, ch: u32)
    ensures
        prim_node_counts_children(measured_children(s, cw, ch)) == prim_node_counts_children(s),
    decreases s, 0int,
{
    if s.len() > 0 {
        lemma_measured_counts_children(s.drop_last(), cw, ch);
        lemma_measured_counts(s.last(), cw, ch);
        let r = measured_children(s, cw, ch);
        let prev = measured_children(s.drop_last(), cw, ch);
        assert(r.drop_last() =~= prev);
        assert(r.last() == measured(s.last(), cw, ch));
    }
}

/// One frame emits exactly one rectangle per pill node, one text
/// primitive per text node, and one image primitive per image node that
/// the paint walk reaches — however deep the nesting — and nothing for a
/// node the layout pass never positioned.
pub proof fn lemma_frame_output_counts(t: ElementView, w: u32, h: u32)
    ensures
        crate::frame_output(t, w, h).rectangles.len() == prim_node_counts_children(t.children).0,
        crate::frame_output(t, w, h).text.len() == prim_node_counts_children(t.children).1,
        crate::frame_output(t, w, h).images.len() == prim_node_counts_children(t.children).2,
{
    let m = measured(t, w, h);
    let laid_kids = laid_children_same(m.children, 0u32, 0u32, w, h);
    lemma_flattened_counts_children(laid_kids);
    lemma_laid_positions_same(m.children, 0u32, 0u32, w, h);
    let cc = child_constraints_of(t, w, h);
    if crate::measure::measures_children(t) {
        lemma_measured_counts_children(t.children, cc.0, cc.1);
    }
}

} // verus!

use crate::layout::{anchor_offset_x, anchor_offset_y, col_child_x, col_content_total, justify_start,
    row_child_y, row_content_total};
use crate::measure::{lemma_measured_children, measures_children};

verus! {

/// Measuring an already-measured tree changes nothing: the measured sizes
/// are a fixed point of the measure pass under unchanged constraints.
pub proof fn lemma_measured_idem(t: ElementView, cw: u32, ch: u32)
    ensures
        measured(measured(t, cw, ch), cw, ch) == measured(t, cw, ch),
    decreases t, 1int,
{
    let m = measured(t, cw, ch);
    if measures_children(t) {
        let cc = child_constraints_of(t, cw, ch);
        lemma_measured_idem_children(t.children, cc.0, cc.1);
        assert(measured(m, cw, ch) =~= m);
    } else {
        assert(measured(m, cw, ch) =~= m);
    }
}

/// `lemma_measured_idem`, over a sequence of children.
pub proof fn lemma_measured_idem_children(s: Seq<ElementView>, cw: u32, ch: u32)
    ensures
        measured_children(measured_children(s, cw, ch), cw, ch) == measured_children(s, cw, ch),
    decreases s, 0int,
{
    if s.len() > 0 {
        lemma_measured_idem_children(s.drop_last(), cw, ch);
        lemma_measured_idem(s.last(), cw, ch);
        let r = measured_children(s, cw, ch);
        let prev = measured_children(s.drop_last(), cw, ch);
        assert(r.drop_last() =~= prev);
        assert(r.last() == measured(s.last(), cw, ch));
        assert(measured_children(r, cw, ch) =~= r);
    }
}

/// The layout pass touches positions only: kind, size, style, text style
/// and the text payload all come through unchanged.
pub proof fn lemma_laid_boxes(t: ElementView, ox: u32, oy: u32, aw: u32, ah: u32)
    ensures
        laid(t, ox, oy, aw, ah).kind == t.kind,
        laid(t, ox, oy, aw, ah).size == t.size,
        laid(t, ox, oy, aw, ah).style == t.style,
        laid(t, ox, oy, aw, ah).text_style == t.text_style,
{
}

/// Two child sequences whose elements agree on size and style agree on
/// every margin-box fold the passes compute.
pub proof fn lemma_folds_same_boxes(a: Seq<ElementView>, b: Seq<ElementView>)
    requires
        a.len() == b.len(),
        forall|i: int|
            0 <= i < a.len() ==> #[trigger] a[i].size == b[i].size && a[i].style == b[i].style,
    ensures
        row_content_total(a) == row_content_total(b),
        col_content_total(a) == col_content_total(b),
        sum_margin_widths(a) == sum_margin_widths(b),
        sum_margin_heights(a) == sum_margin_heights(b),
        max_margin_widths(a) == max_margin_widths(b),
        max_margin_heights(a) == max_margin_heights(b),
    decreases a.len(),
{
    if a.len() > 0 {
        lemma_folds_same_boxes(a.drop_last(), b.drop_last());
    }
}

/// Children laid out with one shared origin keep their boxes.
pub proof fn lemma_laid_same_boxes(s: Seq<ElementView>, ox: u32, oy: u32, aw: u32, ah: u32)
    ensures
        laid_children_same(s, ox, oy, aw, ah).len() == s.len(),
        forall|i: int|
            0 <= i < s.len() ==> #[trigger] laid_children_same(s, ox, oy, aw, ah)[i].size == s[i].size
                && laid_children_same(s, ox, oy, aw, ah)[i].style == s[i].style,
    decreases s,
{
    if s.len() > 0 {
        lemma_laid_same_boxes(s.drop_last(), ox, oy, aw, ah);
        lemma_laid_boxes(s.last(), ox, oy, aw, ah);
    }
}

/// Children placed by flex-row layout keep their boxes.
pub proof fn lemma_lay_row_boxes(s: Seq<ElementView>, offset: u32, cy0: u32, ch: u32)
    ensures
        lay_row(s, offset, cy0, ch).len() == s.len(),
        forall|i: int|
            0 <= i < s.len() ==> #[trigger] lay_row(s, offset, cy0, ch)[i].size == s[i].size
                && lay_row(s, offset, cy0, ch)[i].style == s[i].style,
    decreases s,
{
    if s.len() > 0 {
        let c = s[0];
        let x = offset.saturating_add(c.style.margin.left);
        let y = row_child_y(c, cy0, ch);
        let next = x.saturating_add(c.size.0).saturating_add(c.style.margin.right);
        lemma_lay_row_boxes(s.drop_first(), next, cy0, ch);
        lemma_laid_boxes(c, x, y, c.size.0, c.size.1);
        assert forall|i: int| 0 <= i < s.len() implies #[trigger] lay_row(s, offset, cy0, ch)[i].size
            == s[i].size && lay_row(s, offset, cy0, ch)[i].style == s[i].style by {
            if i > 0 {
                assert(lay_row(s, offset, cy0, ch)[i] == lay_row(s.drop_first(), next, cy0, ch)[i
                    - 1]);
                assert(s.drop_first()[i - 1] == s[i]);
            }
        }
    }
}

/// Children placed by flex-column layout keep their boxes.
pub proof fn lemma_lay_col_boxes(s: Seq<ElementView>, offset: u32, cx0: u32, cw: u32)
    ensures
        lay_col(s, offset, cx0, cw).len() == s.len(),
        forall|i: int|
            0 <= i < s.len() ==> #[trigger] lay_col(s, offset, cx0, cw)[i].size == s[i].size
                && lay_col(s, offset, cx0, cw)[i].style == s[i].style,
    decreases s,
{
    if s.len() > 0 {
        let c = s[0];
        let y = offset.saturating_add(c.style.margin.top);
        let x = col_child_x(c, cx0, cw);
        let next = y.saturating_add(c.size.1).saturating_add(c.style.margin.bottom);
        lemma_lay_col_boxes(s.drop_first(), next, cx0, cw);
        lemma_laid_boxes(c, x, y, c.size.0, c.size.1);
        assert forall|i: int| 0 <= i < s.len() implies #[trigger] lay_col(s, offset, cx0, cw)[i].size
            == s[i].size && lay_col(s, offset, cx0, cw)[i].style == s[i].style by {
            if i > 0 {
                assert(lay_col(s, offset, cx0, cw)[i] == lay_col(s.drop_first(), next, cx0, cw)[i
                    - 1]);
                assert(s.drop_first()[i - 1] == s[i]);
            }
        }
    }
}

} // verus!

verus! {

/// Laying out an already-laid-out tree with the same origin and
/// allocation changes nothing: positions are a fixed point of the layout
/// pass.
pub proof fn lemma_laid_idem(t: ElementView, ox: u32, oy: u32, aw: u32, ah: u32)
    ensures
        laid(laid(t, ox, oy, aw, ah), ox, oy, aw, ah) == laid(t, ox, oy, aw, ah),
    decreases t, 1int,
{
    let y = laid(t, ox, oy, aw, ah);
    match t.kind {
        K::Root => {
            lemma_laid_same_idem(t.children, ox, oy, aw, ah);
            assert(laid(y, ox, oy, aw, ah) =~= y);
        },
        K::Anchor(p) => {
            let px = ox.saturating_add(anchor_offset_x(p, aw, t.size.0));
            let py = oy.saturating_add(anchor_offset_y(p, ah, t.size.1));
            lemma_laid_same_idem(t.children, px, py, t.size.0, t.size.1);
            assert(laid(y, ox, oy, aw, ah) =~= y);
        },
        K::Pill => {
            let bw = t.style.border_width;
            lemma_laid_same_idem(
                t.children,
                ox.saturating_add(bw),
                oy.saturating_add(bw),
                t.size.0.saturating_sub(crate::measure::sat_mul(bw, 2)),
                t.size.1.saturating_sub(crate::measure::sat_mul(bw, 2)),
            );
            assert(laid(y, ox, oy, aw, ah) =~= y);
        },
        K::FlexRow => {
            let content_x0 = ox.saturating_add(t.style.padding.left);
            let content_y0 = oy.saturating_add(t.style.padding.top);
            let content_w = t.size.0.saturating_sub(
                t.style.padding.left.saturating_add(t.style.padding.right),
            );
            let content_h = t.size.1.saturating_sub(
                t.style.padding.top.saturating_add(t.style.padding.bottom),
            );
            let x_start = justify_start(
                t.style.justify_x,
                content_x0,
                content_w,
                row_content_total(t.children),
            );
            lemma_lay_row_boxes(t.children, x_start, content_y0, content_h);
            lemma_folds_same_boxes(y.children, t.children);
            lemma_lay_row_idem(t.children, x_start, content_y0, content_h);
            assert(laid(y, ox, oy, aw, ah) =~= y);
        },
        K::FlexColumn => {
            let content_x0 = ox.saturating_add(t.style.padding.left);
            let content_y0 = oy.saturating_add(t.style.padding.top);
            let content_w = t.size.0.saturating_sub(
                t.style.padding.left.saturating_add(t.style.padding.right),
            );
            let content_h = t.size.1.saturating_sub(
                t.style.padding.top.saturating_add(t.style.padding.bottom),
            );
            let y_start = justify_start(
                t.style.justify_y,
                content_y0,
                content_h,
                col_content_total(t.children),
            );
            lemma_lay_col_boxes(t.children, y_start, content_x0, content_w);
            lemma_folds_same_boxes(y.children, t.children);
            lemma_lay_col_idem(t.children, y_start, content_x0, content_w);
            assert(laid(y, ox, oy, aw, ah) =~= y);
        },
        _ => {
            assert(laid(y, ox, oy, aw, ah) =~= y);
        },
    }
}

/// `lemma_laid_idem` over children that share one origin and allocation.
pub proof fn lemma_laid_same_idem(s: Seq<ElementView>, ox: u32, oy: u32, aw: u32, ah: u32)
    ensures
        laid_children_same(laid_children_same(s, ox, oy, aw, ah), ox, oy, aw, ah)
            == laid_children_same(s, ox, oy, aw, ah),
    decreases s, 0int,
{
    if s.len() > 0 {
        lemma_laid_same_idem(s.drop_last(), ox, oy, aw, ah);
        lemma_laid_idem(s.last(), ox, oy, aw, ah);
        let r = laid_children_same(s, ox, oy, aw, ah);
        let prev = laid_children_same(s.drop_last(), ox, oy, aw, ah);
        assert(r.drop_last() =~= prev);
        assert(r.last() == laid(s.last(), ox, oy, aw, ah));
        assert(laid_children_same(r, ox, oy, aw, ah) =~= r);
    }
}

/// `lemma_laid_idem` over a flex row's children: replaying the placement
/// from the same starting offset reproduces it exactly.
pub proof fn lemma_lay_row_idem(s: Seq<ElementView>, offset: u32, cy0: u32, ch: u32)
    ensures
        lay_row(lay_row(s, offset, cy0, ch), offset, cy0, ch) == lay_row(s, offset, cy0, ch),
    decreases s, 0int,
{
    if s.len() > 0 {
        let c = s[0];
        let x = offset.saturating_add(c.style.margin.left);
        let y = row_child_y(c, cy0, ch);
        let h = laid(c, x, y, c.size.0, c.size.1);
        let next = x.saturating_add(c.size.0).saturating_add(c.style.margin.right);
        let rest = lay_row(s.drop_first(), next, cy0, ch);
        let r = lay_row(s, offset, cy0, ch);
        lemma_laid_boxes(c, x, y, c.size.0, c.size.1);
        lemma_laid_idem(c, x, y, c.size.0, c.size.1);
        lemma_lay_row_idem(s.drop_first(), next, cy0, ch);
        assert(r[0] == h);
        assert(r.drop_first() =~= rest);
        assert(row_child_y(h, cy0, ch) == y);
        assert(lay_row(r, offset, cy0, ch) =~= r);
    }
}

/// `lemma_laid_idem` over a flex column's children.
pub proof fn lemma_lay_col_idem(s: Seq<ElementView>, offset: u32, cx0: u32, cw: u32)
    ensures
        lay_col(lay_col(s, offset, cx0, cw), offset, cx0, cw) == lay_col(s, offset, cx0, cw),
    decreases s, 0int,
{
    if s.len() > 0 {
        let c = s[0];
        let y = offset.saturating_add(c.style.margin.top);
        let x = col_child_x(c, cx0, cw);
        let h = laid(c, x, y, c.size.0, c.size.1);
        let next = y.saturating_add(c.size.1).saturating_add(c.style.margin.bottom);
        let rest = lay_col(s.drop_first(), next, cx0, cw);
        let r = lay_col(s, offset, cx0, cw);
        lemma_laid_boxes(c, x, y, c.size.0, c.size.1);
        lemma_laid_idem(c, x, y, c.size.0, c.size.1);
        lemma_lay_col_idem(s.drop_first(), next, cx0, cw);
        assert(r[0] == h);
        assert(r.drop_first() =~= rest);
        assert(col_child_x(h, cx0, cw) == x);
        assert(lay_col(r, offset, cx0, cw) =~= r);
    }
}

} // verus!

use crate::layout::lemma_laid_children_same;

verus! {

/// Measuring a correctly measured tree again after layout changes
/// nothing: layout touches no box the measure pass reads.
pub proof fn lemma_measured_fix_laid(
    x: ElementView,
    cw: u32,
    ch: u32,
    ox: u32,
    oy: u32,
    aw: u32,
    ah: u32,
)
    requires
        measured(x, cw, ch) == x,
    ensures
        measured(laid(x, ox, oy, aw, ah), cw, ch) == laid(x, ox, oy, aw, ah),
    decreases x, 1int,
{
    let y = laid(x, ox, oy, aw, ah);
    lemma_laid_boxes(x, ox, oy, aw, ah);
    if measures_children(x) {
        let cc = child_constraints_of(x, cw, ch);
        lemma_measured_children(x.children, cc.0, cc.1);
        match x.kind {
            K::Root => {
                lemma_measured_fix_same(x.children, cc.0, cc.1, ox, oy, aw, ah);
                lemma_laid_same_boxes(x.children, ox, oy, aw, ah);
            },
            K::Anchor(p) => {
                let px = ox.saturating_add(anchor_offset_x(p, aw, x.size.0));
                let py = oy.saturating_add(anchor_offset_y(p, ah, x.size.1));
                lemma_measured_fix_same(x.children, cc.0, cc.1, px, py, x.size.0, x.size.1);
                lemma_laid_same_boxes(x.children, px, py, x.size.0, x.size.1);
            },
            K::Pill => {
                let bw = x.style.border_width;
                let px = ox.saturating_add(bw);
                let py = oy.saturating_add(bw);
                let pw = x.size.0.saturating_sub(crate::measure::sat_mul(bw, 2));
                let ph = x.size.1.saturating_sub(crate::measure::sat_mul(bw, 2));
                lemma_measured_fix_same(x.children, cc.0, cc.1, px, py, pw, ph);
                lemma_laid_same_boxes(x.children, px, py, pw, ph);
            },
            K::FlexRow => {
                let content_x0 = ox.saturating_add(x.style.padding.left);
                let content_y0 = oy.saturating_add(x.style.padding.top);
                let content_w = x.size.0.saturating_sub(
                    x.style.padding.left.saturating_add(x.style.padding.right),
                );
                let content_h = x.size.1.saturating_sub(
                    x.style.padding.top.saturating_add(x.style.padding.bottom),
                );
                let x_start = justify_start(
                    x.style.justify_x,
                    content_x0,
                    content_w,
                    row_content_total(x.children),
                );
                lemma_measured_fix_row(x.children, cc.0, cc.1, x_start, content_y0, content_h);
                lemma_lay_row_boxes(x.children, x_start, content_y0, content_h);
            },
            K::FlexColumn => {
                let content_x0 = ox.saturating_add(x.style.padding.left);
                let content_y0 = oy.saturating_add(x.style.padding.top);
                let content_w = x.size.0.saturating_sub(
                    x.style.padding.left.saturating_add(x.style.padding.right),
                );
                let content_h = x.size.1.saturating_sub(
                    x.style.padding.top.saturating_add(x.style.padding.bottom),
                );
                let y_start = justify_start(
                    x.style.justify_y,
                    content_y0,
                    content_h,
                    col_content_total(x.children),
                );
                lemma_measured_fix_col(x.children, cc.0, cc.1, y_start, content_x0, content_w);
                lemma_lay_col_boxes(x.children, y_start, content_x0, content_w);
            },
            _ => {},
        }
        lemma_folds_same_boxes(y.children, x.children);
        assert(measured(y, cw, ch) =~= y);
    } else {
        assert(measured(y, cw, ch) =~= y);
    }
}

/// `lemma_measured_fix_laid` over children that share one origin and
/// allocation.
pub proof fn lemma_measured_fix_same(
    s: Seq<ElementView>,
    cw: u32,
    ch: u32,
    ox: u32,
    oy: u32,
    aw: u32,
    ah: u32,
)
    requires
        forall|i: int| 0 <= i < s.len() ==> measured(#[trigger] s[i], cw, ch) == s[i],
    ensures
        measured_children(laid_children_same(s, ox, oy, aw, ah), cw, ch) == laid_children_same(
            s,
            ox,
            oy,
            aw,
            ah,
        ),
    decreases s, 0int,
{
    let r = laid_children_same(s, ox, oy, aw, ah);
    lemma_laid_children_same(s, ox, oy, aw, ah);
    assert forall|i: int| 0 <= i < r.len() implies measured(#[trigger] r[i], cw, ch) == r[i] by {
        assert(r[i] == laid(s[i], ox, oy, aw, ah));
        lemma_measured_fix_laid(s[i], cw, ch, ox, oy, aw, ah);
    }
    lemma_measured_children(r, cw, ch);
    assert(measured_children(r, cw, ch) =~= r);
}

/// `lemma_measured_fix_laid` over a flex row's children.
pub proof fn lemma_measured_fix_row(
    s: Seq<ElementView>,
    cw: u32,
    ch: u32,
    offset: u32,
    cy0: u32,
    chh: u32,
)
    requires
        forall|i: int| 0 <= i < s.len() ==> measured(#[trigger] s[i], cw, ch) == s[i],
    ensures
        measured_children(lay_row(s, offset, cy0, chh), cw, ch) == lay_row(s, offset, cy0, chh),
    decreases s, 0int,
{
    let r = lay_row(s, offset, cy0, chh);
    if s.len() > 0 {
        let c = s[0];
        let x = offset.saturating_add(c.style.margin.left);
        let y = row_child_y(c, cy0, chh);
        let hd = laid(c, x, y, c.size.0, c.size.1);
        let next = x.saturating_add(c.size.0).saturating_add(c.style.margin.right);
        let rest = lay_row(s.drop_first(), next, cy0, chh);
        lemma_measured_fix_laid(c, cw, ch, x, y, c.size.0, c.size.1);
        lemma_measured_fix_row(s.drop_first(), cw, ch, next, cy0, chh);
        lemma_measured_children(rest, cw, ch);
        assert forall|i: int| 0 <= i < r.len() implies measured(#[trigger] r[i], cw, ch)
            == r[i] by {
            if i == 0 {
                assert(r[i] == hd);
            } else {
                assert(r[i] == rest[i - 1]);
                assert(measured_children(rest, cw, ch)[i - 1] == measured(rest[i - 1], cw, ch));
            }
        }
        lemma_measured_children(r, cw, ch);
        assert(measured_children(r, cw, ch) =~= r);
    } else {
        assert(measured_children(r, cw, ch) =~= r);
    }
}

/// `lemma_measured_fix_laid` over a flex column's children.
pub proof fn lemma_measured_fix_col(
    s: Seq<ElementView>,
    cw: u32,
    ch: u32,
    offset: u32,
    cx0: u32,
    cww: u32,
)
    requires
        forall|i: int| 0 <= i < s.len() ==> measured(#[trigger] s[i], cw, ch) == s[i],
    ensures
        measured_children(lay_col(s, offset, cx0, cww), cw, ch) == lay_col(s, offset, cx0, cww),
    decreases s, 0int,
{
    let r = lay_col(s, offset, cx0, cww);
    if s.len() > 0 {
        let c = s[0];
        let y = offset.saturating_add(c.style.margin.top);
        let x = col_child_x(c, cx0, cww);
        let hd = laid(c, x, y, c.size.0, c.size.1);
        let next = y.saturating_add(c.size.1).saturating_add(c.style.margin.bottom);
        let rest = lay_col(s.drop_first(), next, cx0, cww);
        lemma_measured_fix_laid(c, cw, ch, x, y, c.size.0, c.size.1);
        lemma_measured_fix_col(s.drop_first(), cw, ch, next, cx0, cww);
        lemma_measured_children(rest, cw, ch);
        assert forall|i: int| 0 <= i < r.len() implies measured(#[trigger] r[i], cw, ch)
            == r[i] by {
            if i == 0 {
                assert(r[i] == hd);
            } else {
                assert(r[i] == rest[i - 1]);
                assert(measured_children(rest, cw, ch)[i - 1] == measured(rest[i - 1], cw, ch));
            }
        }
        lemma_measured_children(r, cw, ch);
        assert(measured_children(r, cw, ch) =~= r);
    } else {
        assert(measured_children(r, cw, ch) =~= r);
    }
}

/// Running the measure and layout passes a second time, on the tree the
/// first run produced, with the same frame size, reproduces every size
/// and position exactly — and therefore the same primitives.
pub proof fn lemma_frame_idempotent(t: ElementView, w: u32, h: u32)
    requires
        t.kind is Root,
    ensures
        crate::frame_tree(crate::frame_tree(t, w, h), w, h) == crate::frame_tree(t, w, h),
        crate::frame_output(crate::frame_tree(t, w, h), w, h) == crate::frame_output(t, w, h),
{
    let m = measured(t, w, h);
    let ft = crate::frame_tree(t, w, h);
    lemma_measured_idem(t, w, h);
    lemma_measured_children(m.children, w, h);
    lemma_measured_fix_same(m.children, w, h, 0u32, 0u32, w, h);
    assert(measured(ft, w, h) =~= ft);
    lemma_laid_same_idem(m.children, 0u32, 0u32, w, h);
    assert(crate::frame_tree(ft, w, h) =~= ft);
}

} // verus!
