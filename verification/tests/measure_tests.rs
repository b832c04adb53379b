use anchor_kit::element::{DividerOrientation, Element, ElementType};
use anchor_kit::measure::{measure_element_size, measure_pass, size_from_policy, Constraints};
use anchor_kit::style::{Insets, SizingPolicy, Style, TextStyle};
use anchor_kit::FrameInfo;

fn style_with(width: SizingPolicy, height: SizingPolicy) -> Style {
    Style {
        width,
        height,
        ..Style::default()
    }
}

fn fixed_box(w: u32, h: u32) -> Element {
    Element::new(
        ElementType::Pill,
        Some(style_with(SizingPolicy::Fixed(w), SizingPolicy::Fixed(h))),
    )
}

#[test]
fn size_from_policy_auto_hugs_and_clamps() {
    assert_eq!(size_from_policy(SizingPolicy::Auto, 30, 100), 30);
    assert_eq!(size_from_policy(SizingPolicy::Auto, 130, 100), 100);
    assert_eq!(size_from_policy(SizingPolicy::Auto, 0, 0), 0);
}

#[test]
fn size_from_policy_fill_parent_takes_offer() {
    assert_eq!(size_from_policy(SizingPolicy::FillParent, 30, 100), 100);
    assert_eq!(size_from_policy(SizingPolicy::FillParent, 0, 0), 0);
}

#[test]
fn size_from_policy_fixed_is_exact() {
    assert_eq!(size_from_policy(SizingPolicy::Fixed(42), 30, 100), 42);
    // fixed wins even beyond the parent's offer
    assert_eq!(size_from_policy(SizingPolicy::Fixed(500), 30, 100), 500);
}

#[test]
fn root_takes_the_frame_size() {
    let mut root = Element::new_root([800, 600]);
    root.add_child(fixed_box(50, 50));
    measure_pass(&mut root, &FrameInfo { size: [1024, 768] });
    assert_eq!(root.size, [1024, 768]);
    assert_eq!(root.children[0].size, [50, 50]);
}

#[test]
fn text_measures_by_glyph_advance_and_line_height() {
    // four characters at half a 16px font = 32 wide, one 20px line
    let e = Element::new_text("abcd".to_string(), None, TextStyle::default());
    let r = measure_element_size(e, Constraints { max_size: [1000, 1000] });
    assert_eq!(r.size, [32, 20]);
}

#[test]
fn text_padding_is_added_before_resolving() {
    let style = Style {
        padding: Insets { top: 1, right: 2, bottom: 3, left: 4 },
        ..Style::default()
    };
    let e = Element::new_text("hi".to_string(), Some(style), TextStyle::default());
    let r = measure_element_size(e, Constraints { max_size: [1000, 1000] });
    // 2 chars * 8 + 4 + 2 = 22 wide; 20 + 1 + 3 = 24 tall
    assert_eq!(r.size, [22, 24]);
}

#[test]
fn text_auto_width_clamps_to_the_constraint() {
    let e = Element::new_text("hello world".to_string(), None, TextStyle::default());
    let r = measure_element_size(e, Constraints { max_size: [30, 10] });
    assert_eq!(r.size, [30, 10]);
}

#[test]
fn empty_text_measures_zero_wide() {
    let e = Element::new_text(String::new(), None, TextStyle::default());
    let r = measure_element_size(e, Constraints { max_size: [100, 100] });
    assert_eq!(r.size, [0, 20]);
}

#[test]
fn anchor_wraps_the_largest_child_margin_box() {
    let mut anchor = Element::new(
        ElementType::Anchor(anchor_kit::anchor::AnchorPosition::TopLeft),
        None,
    );
    anchor.add_child(fixed_box(50, 20));
    let mut tall = fixed_box(10, 70);
    tall.style.margin = Insets { top: 5, right: 0, bottom: 5, left: 3 };
    anchor.add_child(tall);
    let r = measure_element_size(anchor, Constraints { max_size: [500, 500] });
    // widths: 50 vs 10+3 = 13; heights: 20 vs 70+10 = 80
    assert_eq!(r.size, [50, 80]);
}

#[test]
fn anchor_fixed_size_constrains_its_children() {
    let mut anchor = Element::new(
        ElementType::Anchor(anchor_kit::anchor::AnchorPosition::TopLeft),
        Some(style_with(SizingPolicy::Fixed(40), SizingPolicy::Fixed(30))),
    );
    let auto_fill = Element::new(
        ElementType::FlexRow,
        Some(style_with(SizingPolicy::FillParent, SizingPolicy::FillParent)),
    );
    anchor.add_child(auto_fill);
    let r = measure_element_size(anchor, Constraints { max_size: [500, 500] });
    assert_eq!(r.size, [40, 30]);
    assert_eq!(r.children[0].size, [40, 30]);
}

#[test]
fn flex_row_sums_widths_and_takes_max_height() {
    let mut row = Element::new(ElementType::FlexRow, None);
    row.add_child(fixed_box(50, 50));
    row.add_child(fixed_box(30, 70));
    let r = measure_element_size(row, Constraints { max_size: [500, 500] });
    assert_eq!(r.size, [80, 70]);
}

#[test]
fn flex_row_of_two_fixed_children_measures_their_sum() {
    // two 50x50 children, no padding or margin, Auto sizing
    let mut row = Element::new(ElementType::FlexRow, None);
    row.add_child(fixed_box(50, 50));
    row.add_child(fixed_box(50, 50));
    let r = measure_element_size(row, Constraints { max_size: [500, 500] });
    assert_eq!(r.size, [100, 50]);
}

#[test]
fn flex_row_margins_count_toward_the_sum() {
    let mut row = Element::new(ElementType::FlexRow, None);
    let mut a = fixed_box(50, 50);
    a.style.margin = Insets { top: 0, right: 4, bottom: 0, left: 6 };
    row.add_child(a);
    row.add_child(fixed_box(50, 50));
    let r = measure_element_size(row, Constraints { max_size: [500, 500] });
    assert_eq!(r.size, [110, 50]);
}

#[test]
fn flex_row_padding_is_added_and_passed_down() {
    let style = Style {
        padding: Insets { top: 10, right: 10, bottom: 10, left: 10 },
        ..Style::default()
    };
    let mut row = Element::new(ElementType::FlexRow, Some(style));
    let fill = Element::new(
        ElementType::Pill,
        Some(style_with(SizingPolicy::FillParent, SizingPolicy::FillParent)),
    );
    row.add_child(fill);
    let r = measure_element_size(row, Constraints { max_size: [100, 60] });
    // the child fills the constraint net of padding: 80x40; row adds it back
    assert_eq!(r.children[0].size, [80, 40]);
    assert_eq!(r.size, [100, 60]);
}

#[test]
fn flex_column_sums_heights_and_takes_max_width() {
    let mut col = Element::new(ElementType::FlexColumn, None);
    col.add_child(fixed_box(50, 50));
    col.add_child(fixed_box(30, 70));
    let r = measure_element_size(col, Constraints { max_size: [500, 500] });
    assert_eq!(r.size, [50, 120]);
}

#[test]
fn pill_reserves_its_border_on_all_sides() {
    let style = Style {
        border_width: 3,
        ..Style::default()
    };
    let mut pill = Element::new(ElementType::Pill, Some(style));
    pill.add_child(fixed_box(50, 20));
    let r = measure_element_size(pill, Constraints { max_size: [500, 500] });
    // content 50x20 plus a 3px border left+right / top+bottom
    assert_eq!(r.size, [56, 26]);
}

#[test]
fn image_defaults_to_a_64_square() {
    let id = uuid::Uuid::new_v4();
    let e = Element::new_image(id, None);
    let r = measure_element_size(e, Constraints { max_size: [500, 500] });
    assert_eq!(r.size, [64, 64]);
}

#[test]
fn image_fixed_policy_overrides_the_default() {
    let id = uuid::Uuid::new_v4();
    let e = Element::new_image(
        id,
        Some(style_with(SizingPolicy::Fixed(100), SizingPolicy::Fixed(12))),
    );
    let r = measure_element_size(e, Constraints { max_size: [500, 500] });
    assert_eq!(r.size, [100, 12]);
}

#[test]
fn image_default_clamps_to_a_small_constraint() {
    let id = uuid::Uuid::new_v4();
    let e = Element::new_image(id, None);
    let r = measure_element_size(e, Constraints { max_size: [40, 500] });
    assert_eq!(r.size, [40, 64]);
}

#[test]
fn horizontal_divider_spans_the_constraint_at_its_thickness() {
    let e = Element::new_divider(DividerOrientation::Horizontal, 2, None);
    let r = measure_element_size(e, Constraints { max_size: [300, 200] });
    assert_eq!(r.size, [300, 2]);
}

#[test]
fn vertical_divider_spans_the_constraint_at_its_thickness() {
    let e = Element::new_divider(DividerOrientation::Vertical, 2, None);
    let r = measure_element_size(e, Constraints { max_size: [300, 200] });
    assert_eq!(r.size, [2, 200]);
}

#[test]
fn zero_constraints_never_go_negative() {
    let style = Style {
        padding: Insets { top: 10, right: 10, bottom: 10, left: 10 },
        ..Style::default()
    };
    let mut row = Element::new(ElementType::FlexRow, Some(style));
    row.add_child(fixed_box(5, 5));
    let r = measure_element_size(row, Constraints { max_size: [0, 0] });
    // auto sizing clamps to the zero offer; nothing panics or wraps
    assert_eq!(r.size, [0, 0]);
}

#[test]
fn fixed_size_ignores_children_entirely() {
    let mut row = Element::new(
        ElementType::FlexRow,
        Some(style_with(SizingPolicy::Fixed(7), SizingPolicy::Fixed(9))),
    );
    row.add_child(fixed_box(50, 50));
    row.add_child(fixed_box(50, 50));
    let r = measure_element_size(row, Constraints { max_size: [500, 500] });
    assert_eq!(r.size, [7, 9]);
}
