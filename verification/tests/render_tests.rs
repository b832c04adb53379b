use anchor_kit::anchor::AnchorPosition;
use anchor_kit::element::{DividerOrientation, Element, ElementType};
use anchor_kit::layout::layout_pass;
use anchor_kit::measure::measure_pass;
use anchor_kit::render::{render_pass, RenderList};
use anchor_kit::primitives::color::Color;
use anchor_kit::style::{SizingPolicy, Style, TextStyle};
use anchor_kit::FrameInfo;

fn fixed_pill(w: u32, h: u32) -> Element {
    Element::new(
        ElementType::Pill,
        Some(Style {
            width: SizingPolicy::Fixed(w),
            height: SizingPolicy::Fixed(h),
            ..Style::default()
        }),
    )
}

fn run_frame(root: &mut Element, w: u32, h: u32) -> RenderList {
    measure_pass(root, &FrameInfo { size: [w, h] });
    layout_pass(root, &FrameInfo { size: [w, h] });
    let mut list = RenderList::default();
    render_pass(root, &mut list);
    list
}

#[test]
fn containers_emit_nothing_themselves() {
    let mut row = Element::new(ElementType::FlexRow, None);
    let mut anchor = Element::new(ElementType::Anchor(AnchorPosition::TopLeft), None);
    anchor.add_child(Element::new(ElementType::FlexColumn, None));
    row.add_child(anchor);
    let mut root = Element::new_root([100, 100]);
    root.add_child(row);
    let list = run_frame(&mut root, 100, 100);
    assert!(list.rectangles.is_empty());
    assert!(list.text.is_empty());
    assert!(list.images.is_empty());
}

#[test]
fn one_rectangle_per_pill_regardless_of_nesting() {
    // three pills, nested two deep inside containers
    let mut inner = fixed_pill(10, 10);
    inner.add_child(fixed_pill(4, 4));
    let mut row = Element::new(ElementType::FlexRow, None);
    row.add_child(inner);
    row.add_child(fixed_pill(8, 8));
    let mut root = Element::new_root([100, 100]);
    root.add_child(row);
    let list = run_frame(&mut root, 100, 100);
    assert_eq!(list.rectangles.len(), 3);
}

#[test]
fn pill_rectangle_carries_position_size_and_style() {
    let mut pill = fixed_pill(40, 20);
    pill.style.background_color = Color { r: 1, g: 2, b: 3, a: 4 };
    let mut root = Element::new_root([100, 100]);
    root.add_child(pill);
    let list = run_frame(&mut root, 100, 100);
    assert_eq!(list.rectangles.len(), 1);
    let rect = &list.rectangles[0];
    assert_eq!(rect.position, [0, 0]);
    assert_eq!(rect.size, [40, 20]);
    assert_eq!(rect.style.background_color.r, 1);
    assert_eq!(rect.style.background_color.a, 4);
}

#[test]
fn text_primitive_carries_content_position_and_metrics() {
    let mut root = Element::new_root([100, 100]);
    root.add_child(Element::new_text(
        "hi".to_string(),
        None,
        TextStyle::default(),
    ));
    let list = run_frame(&mut root, 100, 100);
    assert_eq!(list.text.len(), 1);
    let t = &list.text[0];
    assert_eq!(t.text, "hi");
    assert_eq!(t.position, [0, 0]);
    assert_eq!(t.size, [16, 20]);
    assert_eq!(t.text_style.font_size, 16);
}

#[test]
fn image_primitive_carries_its_texture_handle() {
    let id = uuid::Uuid::new_v4();
    let mut root = Element::new_root([100, 100]);
    root.add_child(Element::new_image(id, None));
    let list = run_frame(&mut root, 100, 100);
    assert_eq!(list.images.len(), 1);
    assert_eq!(list.images[0].texture_id, id);
    assert_eq!(list.images[0].rectangle.position, [0, 0]);
    assert_eq!(list.images[0].rectangle.size, [64, 64]);
}

#[test]
fn dividers_emit_no_primitive() {
    let mut root = Element::new_root([100, 100]);
    root.add_child(Element::new_divider(DividerOrientation::Horizontal, 2, None));
    let list = run_frame(&mut root, 100, 100);
    assert!(list.rectangles.is_empty());
    assert!(list.text.is_empty());
    assert!(list.images.is_empty());
}

#[test]
fn unpositioned_nodes_are_skipped_silently() {
    // render without running layout: nothing has a position, nothing is emitted
    let mut root = Element::new_root([100, 100]);
    root.add_child(fixed_pill(10, 10));
    root.add_child(Element::new_text("hi".to_string(), None, TextStyle::default()));
    root.add_child(Element::new_image(uuid::Uuid::new_v4(), None));
    measure_pass(&mut root, &FrameInfo { size: [100, 100] });
    let mut list = RenderList::default();
    render_pass(&root, &mut list);
    assert!(list.rectangles.is_empty());
    assert!(list.text.is_empty());
    assert!(list.images.is_empty());
}

#[test]
fn pill_body_is_painted_before_its_content() {
    let mut pill = fixed_pill(50, 50);
    pill.add_child(fixed_pill(10, 10));
    let mut root = Element::new_root([100, 100]);
    root.add_child(pill);
    let list = run_frame(&mut root, 100, 100);
    assert_eq!(list.rectangles.len(), 2);
    // the outer pill's 50x50 body comes first, the inner one paints over it
    assert_eq!(list.rectangles[0].size, [50, 50]);
    assert_eq!(list.rectangles[1].size, [10, 10]);
}

#[test]
fn primitives_come_out_in_paint_order() {
    let mut row = Element::new(ElementType::FlexRow, None);
    row.add_child(fixed_pill(10, 10));
    row.add_child(fixed_pill(20, 10));
    let mut root = Element::new_root([100, 100]);
    root.add_child(row);
    let list = run_frame(&mut root, 100, 100);
    assert_eq!(list.rectangles.len(), 2);
    assert_eq!(list.rectangles[0].position, [0, 0]);
    assert_eq!(list.rectangles[1].position, [10, 0]);
}
