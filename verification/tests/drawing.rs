use imagetext_py::canvas::Canvas;
use imagetext_py::drawing::{
    draw_text, draw_text_anchored, draw_text_multiline, draw_text_wrapped, resolve_align,
    resolve_spacing, resolve_wrap_style, Outline,
};
use imagetext_py::error::InvalidInput;
use imagetext_py::objects::{Color, TextAlign, WrapStyle};
use imagetext_py::paint::Paint;
use imagetext_py::scalar::Scalar;

fn scalar(v: f32) -> Scalar {
    Scalar::from_bits(v.to_bits())
}

fn white() -> Paint {
    Paint::Color(Color([255, 255, 255, 255]))
}

fn canvas() -> Canvas {
    Canvas::new(200, 60, Color([0, 0, 0, 0]))
}

#[test]
fn plain_draw_is_resolved_without_outline_or_emojis() {
    let call = draw_text(
        &canvas(),
        "Hi".to_string(),
        scalar(10.0),
        scalar(10.0),
        scalar(24.0),
        white(),
        None,
        None,
        None,
    )
    .unwrap();
    assert_eq!(call.text, "Hi");
    assert_eq!(call.x, scalar(10.0));
    assert_eq!(call.y, scalar(10.0));
    assert_eq!(call.style.size, scalar(24.0));
    assert_eq!(call.style.fill, white());
    assert_eq!(call.style.outline, Outline::Nothing);
    assert!(!call.style.emojis);
}

#[test]
fn stroke_without_a_color_is_black() {
    let call = draw_text(
        &canvas(),
        "Hi".to_string(),
        scalar(0.0),
        scalar(0.0),
        scalar(24.0),
        white(),
        Some(scalar(2.0)),
        None,
        Some(false),
    )
    .unwrap();
    assert_eq!(
        call.style.outline,
        Outline::Solid {
            stroke: scalar(2.0),
            fill: Paint::Color(Color([0, 0, 0, 255])),
        }
    );
    assert!(!call.style.emojis);
}

#[test]
fn stroke_with_a_color_uses_it() {
    let red = Paint::new(Some(Color([255, 0, 0, 255])), Some(false));
    let call = draw_text(
        &canvas(),
        "Hi".to_string(),
        scalar(0.0),
        scalar(0.0),
        scalar(24.0),
        white(),
        Some(scalar(1.5)),
        Some(red.clone()),
        Some(true),
    )
    .unwrap();
    assert_eq!(
        call.style.outline,
        Outline::Solid {
            stroke: scalar(1.5),
            fill: red,
        }
    );
    assert!(call.style.emojis);
}

#[test]
fn stroke_color_without_a_stroke_gives_no_outline() {
    let red = Paint::Color(Color([255, 0, 0, 255]));
    let call = draw_text(
        &canvas(),
        "Hi".to_string(),
        scalar(0.0),
        scalar(0.0),
        scalar(24.0),
        white(),
        None,
        Some(red),
        None,
    )
    .unwrap();
    assert_eq!(call.style.outline, Outline::Nothing);
}

#[test]
fn negative_size_is_refused() {
    let r = draw_text(
        &canvas(),
        "Hi".to_string(),
        scalar(0.0),
        scalar(0.0),
        scalar(-24.0),
        white(),
        None,
        None,
        None,
    );
    assert_eq!(r.err(), Some(InvalidInput::NegativeSize));
    let r = draw_text_anchored(
        &canvas(),
        "X".to_string(),
        scalar(50.0),
        scalar(50.0),
        scalar(0.5),
        scalar(0.5),
        scalar(f32::NEG_INFINITY),
        white(),
        None,
        None,
        None,
    );
    assert_eq!(r.err(), Some(InvalidInput::NegativeSize));
}

#[test]
fn zero_and_negative_zero_sizes_are_not_negative() {
    for size in [0.0f32, -0.0] {
        let r = draw_text(
            &canvas(),
            "Hi".to_string(),
            scalar(0.0),
            scalar(0.0),
            scalar(size),
            white(),
            None,
            None,
            None,
        );
        assert!(r.is_ok());
    }
}

#[test]
fn empty_canvas_is_refused() {
    for (w, h) in [(0u32, 0u32), (0, 10), (10, 0)] {
        let empty = Canvas::new(w, h, Color([0, 0, 0, 0]));
        let r = draw_text(
            &empty,
            "Hi".to_string(),
            scalar(0.0),
            scalar(0.0),
            scalar(24.0),
            white(),
            None,
            None,
            None,
        );
        assert_eq!(r.err(), Some(InvalidInput::EmptyCanvas));
    }
}

#[test]
fn negative_size_is_reported_before_an_empty_canvas() {
    let empty = Canvas::new(0, 0, Color([0, 0, 0, 0]));
    let r = draw_text_wrapped(
        &empty,
        "Hi".to_string(),
        scalar(0.0),
        scalar(0.0),
        scalar(0.0),
        scalar(0.0),
        scalar(100.0),
        scalar(-1.0),
        white(),
        None,
        None,
        None,
        None,
        None,
        None,
    );
    assert_eq!(r.err(), Some(InvalidInput::NegativeSize));
}

#[test]
fn anchored_draw_keeps_position_and_anchor() {
    let call = draw_text_anchored(
        &Canvas::new(100, 100, Color([0, 0, 0, 0])),
        "X".to_string(),
        scalar(50.0),
        scalar(50.0),
        scalar(0.5),
        scalar(0.5),
        scalar(16.0),
        white(),
        None,
        None,
        None,
    )
    .unwrap();
    assert_eq!(call.text, "X");
    assert_eq!((call.x, call.y), (scalar(50.0), scalar(50.0)));
    assert_eq!((call.ax, call.ay), (scalar(0.5), scalar(0.5)));
    assert_eq!(call.style.size, scalar(16.0));
    assert_eq!(call.style.outline, Outline::Nothing);
    assert!(!call.style.emojis);
}

#[test]
fn multiline_defaults_are_spacing_one_and_left() {
    let lines = vec!["a".to_string(), "b".to_string()];
    let call = draw_text_multiline(
        &canvas(),
        lines.clone(),
        scalar(1.0),
        scalar(2.0),
        scalar(0.0),
        scalar(1.0),
        scalar(120.0),
        scalar(16.0),
        white(),
        None,
        None,
        None,
        None,
        None,
    )
    .unwrap();
    assert_eq!(call.lines, lines);
    assert_eq!((call.x, call.y), (scalar(1.0), scalar(2.0)));
    assert_eq!((call.ax, call.ay), (scalar(0.0), scalar(1.0)));
    assert_eq!(call.width, scalar(120.0));
    assert_eq!(call.line_spacing, scalar(1.0));
    assert_eq!(call.align, TextAlign::Left);
    assert_eq!(call.style.fill, white());
}

#[test]
fn multiline_keeps_what_is_given() {
    let call = draw_text_multiline(
        &canvas(),
        vec![],
        scalar(1.0),
        scalar(2.0),
        scalar(0.5),
        scalar(0.5),
        scalar(120.0),
        scalar(16.0),
        white(),
        Some(scalar(1.25)),
        Some(TextAlign::Center),
        Some(scalar(3.0)),
        None,
        Some(true),
    )
    .unwrap();
    assert_eq!(call.line_spacing, scalar(1.25));
    assert_eq!(call.align, TextAlign::Center);
    assert!(call.style.emojis);
    assert_eq!(
        call.style.outline,
        Outline::Solid {
            stroke: scalar(3.0),
            fill: Paint::new(None, None),
        }
    );
}

#[test]
fn wrapped_defaults_add_word_wrapping() {
    let call = draw_text_wrapped(
        &canvas(),
        "hello world hello world".to_string(),
        scalar(0.0),
        scalar(0.0),
        scalar(0.0),
        scalar(0.0),
        scalar(60.0),
        scalar(16.0),
        white(),
        None,
        None,
        None,
        None,
        None,
        None,
    )
    .unwrap();
    assert_eq!(call.text, "hello world hello world");
    assert_eq!(call.width, scalar(60.0));
    assert_eq!(call.line_spacing, scalar(1.0));
    assert_eq!(call.align, TextAlign::Left);
    assert_eq!(call.wrap_style, WrapStyle::Word);
}

#[test]
fn wrapped_keeps_what_is_given() {
    let call = draw_text_wrapped(
        &canvas(),
        "hello".to_string(),
        scalar(0.0),
        scalar(0.0),
        scalar(1.0),
        scalar(1.0),
        scalar(60.0),
        scalar(16.0),
        white(),
        Some(scalar(2.0)),
        Some(TextAlign::Right),
        None,
        None,
        Some(false),
        Some(WrapStyle::Character),
    )
    .unwrap();
    assert_eq!(call.line_spacing, scalar(2.0));
    assert_eq!(call.align, TextAlign::Right);
    assert_eq!(call.wrap_style, WrapStyle::Character);
    assert!(!call.style.emojis);
}

#[test]
fn wrap_style_defaults_to_word() {
    assert_eq!(resolve_wrap_style(None), WrapStyle::Word);
    assert_eq!(resolve_wrap_style(Some(WrapStyle::Word)), WrapStyle::Word);
    assert_eq!(
        resolve_wrap_style(Some(WrapStyle::Character)),
        WrapStyle::Character
    );
}

#[test]
fn spacing_defaults_to_one_and_align_to_left() {
    assert_eq!(resolve_spacing(None), scalar(1.0));
    assert_eq!(resolve_spacing(Some(scalar(0.0))), scalar(0.0));
    assert_eq!(resolve_spacing(Some(scalar(1.75))), scalar(1.75));
    assert_eq!(resolve_align(None), TextAlign::Left);
    assert_eq!(resolve_align(Some(TextAlign::Right)), TextAlign::Right);
    assert_eq!(resolve_align(Some(TextAlign::Center)), TextAlign::Center);
}
