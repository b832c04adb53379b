use anchor_kit::anchor::AnchorPosition;
use anchor_kit::element::{Element, ElementType};
use anchor_kit::layout::layout_pass;
use anchor_kit::measure::measure_pass;
use anchor_kit::style::{Align, Insets, SizingPolicy, Style};
use anchor_kit::FrameInfo;

fn fixed_box(w: u32, h: u32) -> Element {
    Element::new(
        ElementType::Pill,
        Some(Style {
            width: SizingPolicy::Fixed(w),
            height: SizingPolicy::Fixed(h),
            ..Style::default()
        }),
    )
}

fn run_passes(root: &mut Element, w: u32, h: u32) {
    measure_pass(root, &FrameInfo { size: [w, h] });
    layout_pass(root, &FrameInfo { size: [w, h] });
}

fn anchored_box(position: AnchorPosition) -> Element {
    let mut anchor = Element::new(ElementType::Anchor(position), None);
    anchor.add_child(fixed_box(100, 50));
    anchor
}

#[test]
fn nine_anchor_positions_resolve_correctly() {
    // a 100x50 box anchored inside an 800x600 frame
    let cases = [
        (AnchorPosition::TopLeft, [0, 0]),
        (AnchorPosition::TopCenter, [350, 0]),
        (AnchorPosition::TopRight, [700, 0]),
        (AnchorPosition::MiddleLeft, [0, 275]),
        (AnchorPosition::MiddleCenter, [350, 275]),
        (AnchorPosition::MiddleRight, [700, 275]),
        (AnchorPosition::BottomLeft, [0, 550]),
        (AnchorPosition::BottomCenter, [350, 550]),
        (AnchorPosition::BottomRight, [700, 550]),
    ];
    for (position, expected) in cases {
        let mut root = Element::new_root([800, 600]);
        root.add_child(anchored_box(position));
        run_passes(&mut root, 800, 600);
        assert_eq!(root.children[0].frame_position, Some(expected));
        // the child starts at the anchor's own position
        assert_eq!(root.children[0].children[0].frame_position, Some(expected));
    }
}

#[test]
fn top_left_anchor_is_exactly_the_origin() {
    let mut root = Element::new_root([300, 300]);
    root.add_child(anchored_box(AnchorPosition::TopLeft));
    run_passes(&mut root, 300, 300);
    assert_eq!(root.children[0].frame_position, Some([0, 0]));
}

#[test]
fn bottom_right_anchor_is_origin_plus_leftover() {
    let mut root = Element::new_root([300, 300]);
    root.add_child(anchored_box(AnchorPosition::BottomRight));
    run_passes(&mut root, 300, 300);
    assert_eq!(root.children[0].frame_position, Some([200, 250]));
}

#[test]
fn anchor_larger_than_its_allocation_clamps_to_the_origin() {
    // the box is bigger than the frame: saturating offsets stay at zero
    let mut root = Element::new_root([50, 20]);
    root.add_child(anchored_box(AnchorPosition::BottomRight));
    run_passes(&mut root, 50, 20);
    assert_eq!(root.children[0].frame_position, Some([0, 0]));
}

#[test]
fn flex_row_places_children_left_to_right() {
    let mut row = Element::new(ElementType::FlexRow, None);
    row.add_child(fixed_box(50, 50));
    row.add_child(fixed_box(30, 50));
    row.add_child(fixed_box(20, 50));
    let mut root = Element::new_root([500, 500]);
    root.add_child(row);
    run_passes(&mut root, 500, 500);
    let row = &root.children[0];
    assert_eq!(row.frame_position, Some([0, 0]));
    assert_eq!(row.children[0].frame_position, Some([0, 0]));
    assert_eq!(row.children[1].frame_position, Some([50, 0]));
    assert_eq!(row.children[2].frame_position, Some([80, 0]));
}

#[test]
fn flex_row_justify_end_shifts_the_run() {
    // two 50x50 children in a row fixed at 200 wide: End leaves 100 in front
    let mut row = Element::new(
        ElementType::FlexRow,
        Some(Style {
            width: SizingPolicy::Fixed(200),
            height: SizingPolicy::Fixed(50),
            justify_x: Align::End,
            ..Style::default()
        }),
    );
    row.add_child(fixed_box(50, 50));
    row.add_child(fixed_box(50, 50));
    let mut root = Element::new_root([500, 500]);
    root.add_child(row);
    run_passes(&mut root, 500, 500);
    let row = &root.children[0];
    assert_eq!(row.children[0].frame_position, Some([100, 0]));
    assert_eq!(row.children[1].frame_position, Some([150, 0]));
}

#[test]
fn flex_row_justify_middle_centers_the_run() {
    let mut row = Element::new(
        ElementType::FlexRow,
        Some(Style {
            width: SizingPolicy::Fixed(200),
            height: SizingPolicy::Fixed(50),
            justify_x: Align::Middle,
            ..Style::default()
        }),
    );
    row.add_child(fixed_box(50, 50));
    row.add_child(fixed_box(50, 50));
    let mut root = Element::new_root([500, 500]);
    root.add_child(row);
    run_passes(&mut root, 500, 500);
    let row = &root.children[0];
    assert_eq!(row.children[0].frame_position, Some([50, 0]));
    assert_eq!(row.children[1].frame_position, Some([100, 0]));
}

#[test]
fn flex_row_child_align_y_positions_on_the_cross_axis() {
    let mut row = Element::new(
        ElementType::FlexRow,
        Some(Style {
            width: SizingPolicy::Fixed(100),
            height: SizingPolicy::Fixed(100),
            ..Style::default()
        }),
    );
    let mut top = fixed_box(10, 20);
    top.style.align_y = Align::Start;
    let mut middle = fixed_box(10, 20);
    middle.style.align_y = Align::Middle;
    let mut bottom = fixed_box(10, 20);
    bottom.style.align_y = Align::End;
    row.add_child(top);
    row.add_child(middle);
    row.add_child(bottom);
    let mut root = Element::new_root([500, 500]);
    root.add_child(row);
    run_passes(&mut root, 500, 500);
    let row = &root.children[0];
    assert_eq!(row.children[0].frame_position, Some([0, 0]));
    assert_eq!(row.children[1].frame_position, Some([10, 40]));
    assert_eq!(row.children[2].frame_position, Some([20, 80]));
}

#[test]
fn flex_row_margins_advance_the_offset() {
    let mut row = Element::new(ElementType::FlexRow, None);
    let mut a = fixed_box(50, 50);
    a.style.margin = Insets { top: 0, right: 4, bottom: 0, left: 6 };
    row.add_child(a);
    row.add_child(fixed_box(50, 50));
    let mut root = Element::new_root([500, 500]);
    root.add_child(row);
    run_passes(&mut root, 500, 500);
    let row = &root.children[0];
    assert_eq!(row.children[0].frame_position, Some([6, 0]));
    assert_eq!(row.children[1].frame_position, Some([60, 0]));
}

#[test]
fn flex_column_places_children_top_to_bottom() {
    let mut col = Element::new(ElementType::FlexColumn, None);
    col.add_child(fixed_box(50, 50));
    col.add_child(fixed_box(50, 30));
    let mut root = Element::new_root([500, 500]);
    root.add_child(col);
    run_passes(&mut root, 500, 500);
    let col = &root.children[0];
    assert_eq!(col.children[0].frame_position, Some([0, 0]));
    assert_eq!(col.children[1].frame_position, Some([0, 50]));
}

#[test]
fn flex_column_justify_end_shifts_the_run_down() {
    let mut col = Element::new(
        ElementType::FlexColumn,
        Some(Style {
            width: SizingPolicy::Fixed(50),
            height: SizingPolicy::Fixed(200),
            justify_y: Align::End,
            ..Style::default()
        }),
    );
    col.add_child(fixed_box(50, 50));
    col.add_child(fixed_box(50, 50));
    let mut root = Element::new_root([500, 500]);
    root.add_child(col);
    run_passes(&mut root, 500, 500);
    let col = &root.children[0];
    assert_eq!(col.children[0].frame_position, Some([0, 100]));
    assert_eq!(col.children[1].frame_position, Some([0, 150]));
}

#[test]
fn pill_children_are_inset_by_the_border() {
    let mut pill = Element::new(
        ElementType::Pill,
        Some(Style {
            border_width: 3,
            ..Style::default()
        }),
    );
    pill.add_child(fixed_box(50, 20));
    let mut root = Element::new_root([500, 500]);
    root.add_child(pill);
    run_passes(&mut root, 500, 500);
    let pill = &root.children[0];
    assert_eq!(pill.frame_position, Some([0, 0]));
    assert_eq!(pill.children[0].frame_position, Some([3, 3]));
}

#[test]
fn text_and_divider_sit_at_their_allocated_origin() {
    let mut col = Element::new(ElementType::FlexColumn, None);
    col.add_child(Element::new_text(
        "hi".to_string(),
        None,
        anchor_kit::style::TextStyle::default(),
    ));
    col.add_child(Element::new_divider(
        anchor_kit::element::DividerOrientation::Horizontal,
        2,
        None,
    ));
    let mut root = Element::new_root([500, 500]);
    root.add_child(col);
    run_passes(&mut root, 500, 500);
    let col = &root.children[0];
    assert_eq!(col.children[0].frame_position, Some([0, 0]));
    assert_eq!(col.children[1].frame_position, Some([0, 20]));
}

#[test]
fn passes_are_idempotent_on_an_unchanged_tree() {
    let mut row = Element::new(
        ElementType::FlexRow,
        Some(Style {
            justify_x: Align::Middle,
            width: SizingPolicy::FillParent,
            height: SizingPolicy::FillParent,
            ..Style::default()
        }),
    );
    row.add_child(fixed_box(50, 50));
    row.add_child(anchored_box_bottom());
    let mut root = Element::new_root([640, 480]);
    root.add_child(row);

    run_passes(&mut root, 640, 480);
    let sizes_once = collect_sizes(&root);
    let positions_once = collect_positions(&root);

    run_passes(&mut root, 640, 480);
    assert_eq!(collect_sizes(&root), sizes_once);
    assert_eq!(collect_positions(&root), positions_once);
}

fn anchored_box_bottom() -> Element {
    let mut anchor = Element::new(ElementType::Anchor(AnchorPosition::BottomRight), None);
    anchor.add_child(fixed_box(30, 10));
    anchor
}

fn collect_sizes(e: &Element) -> Vec<[u32; 2]> {
    let mut out = vec![e.size];
    for c in &e.children {
        out.extend(collect_sizes(c));
    }
    out
}

fn collect_positions(e: &Element) -> Vec<Option<[u32; 2]>> {
    let mut out = vec![e.frame_position];
    for c in &e.children {
        out.extend(collect_positions(c));
    }
    out
}
