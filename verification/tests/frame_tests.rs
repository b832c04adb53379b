use anchor_kit::anchor::AnchorPosition;
use anchor_kit::primitives::color::Color;
use anchor_kit::style::{FontFamily, FontStyle, FontWeight, SizingPolicy, Style, TextStyle};
use anchor_kit::{FrameInfo, UIState, UI};

fn metrics_8_by_16() -> TextStyle {
    TextStyle {
        font_size: 16,
        line_height: 16,
        font_family: FontFamily::SansSerif,
        font_weight: FontWeight::Normal,
        font_style: FontStyle::Normal,
        text_color: Color::default(),
    }
}

#[test]
fn top_center_anchored_text_lands_at_392_0() {
    // a root of 800x600 holding one TopCenter anchor around "hi" at an
    // 8x16 glyph metric: the text measures 16x16, the anchor hugs it, and
    // both land at x = (800-16)/2 = 392, y = 0
    let mut state = UIState::new([800, 600]);
    let list = state.generate_frame(FrameInfo { size: [800, 600] }, |mut ui: UI| {
        ui.anchor(AnchorPosition::TopCenter, None, |mut inner: UI| {
            inner.text("hi".to_string(), None, Some(metrics_8_by_16()));
            inner
        });
        ui
    });
    assert_eq!(list.text.len(), 1);
    assert_eq!(list.text[0].size, [16, 16]);
    assert_eq!(list.text[0].position, [392, 0]);
}

#[test]
fn generate_frame_clears_the_previous_tree() {
    let mut state = UIState::new([100, 100]);
    let first = state.generate_frame(FrameInfo { size: [100, 100] }, |mut ui: UI| {
        ui.pill(
            Some(Style {
                width: SizingPolicy::Fixed(10),
                height: SizingPolicy::Fixed(10),
                ..Style::default()
            }),
            |inner: UI| inner,
        );
        ui
    });
    assert_eq!(first.rectangles.len(), 1);
    // an empty builder leaves nothing of the previous frame behind
    let second = state.generate_frame(FrameInfo { size: [100, 100] }, |ui: UI| ui);
    assert!(second.rectangles.is_empty());
}

#[test]
fn identical_frames_give_identical_output() {
    let build = |mut ui: UI| {
        ui.flex_row(None, |mut row: UI| {
            row.text("abc".to_string(), None, None);
            row.pill(
                Some(Style {
                    width: SizingPolicy::Fixed(30),
                    height: SizingPolicy::Fixed(30),
                    ..Style::default()
                }),
                |inner: UI| inner,
            );
            row
        });
        ui
    };
    let mut state = UIState::new([640, 480]);
    let a = state.generate_frame(FrameInfo { size: [640, 480] }, build);
    let b = state.generate_frame(FrameInfo { size: [640, 480] }, build);
    assert_eq!(a.rectangles.len(), b.rectangles.len());
    assert_eq!(a.text.len(), b.text.len());
    assert_eq!(a.rectangles[0].position, b.rectangles[0].position);
    assert_eq!(a.rectangles[0].size, b.rectangles[0].size);
    assert_eq!(a.text[0].position, b.text[0].position);
    assert_eq!(a.text[0].size, b.text[0].size);
}

#[test]
fn builder_kinds_all_reach_the_output() {
    let mut state = UIState::new([400, 400]);
    let id = uuid::Uuid::new_v4();
    let list = state.generate_frame(FrameInfo { size: [400, 400] }, move |mut ui: UI| {
        ui.flex_column(None, move |mut col: UI| {
            col.text("one".to_string(), None, None);
            col.image(id, None);
            col.divider(anchor_kit::element::DividerOrientation::Horizontal, 1, None);
            col.pill(None, |inner: UI| inner);
            col
        });
        ui
    });
    assert_eq!(list.text.len(), 1);
    assert_eq!(list.images.len(), 1);
    assert_eq!(list.images[0].texture_id, id);
    assert_eq!(list.rectangles.len(), 1);
}

#[test]
fn defaults_match_the_documented_values() {
    let style = Style::default();
    assert!(matches!(style.width, SizingPolicy::Auto));
    assert!(matches!(style.height, SizingPolicy::Auto));
    assert_eq!(style.padding.top, 0);
    assert_eq!(style.margin.left, 0);
    assert_eq!(style.border_width, 0);
    let ts = TextStyle::default();
    assert_eq!(ts.font_size, 16);
    assert_eq!(ts.line_height, 20);
    let c = Color::default();
    assert_eq!((c.r, c.g, c.b, c.a), (0, 0, 0, 0));
}

#[test]
fn rectangle_new_fills_in_the_default_style() {
    let r = anchor_kit::primitives::rectangle::Rectangle::new([1, 2], [3, 4], None);
    assert_eq!(r.position, [1, 2]);
    assert_eq!(r.size, [3, 4]);
    assert_eq!(r.style.border_width, 0);
    let img = anchor_kit::primitives::image::Image::new(uuid::Uuid::new_v4(), r);
    assert_eq!(img.rectangle.size, [3, 4]);
}
