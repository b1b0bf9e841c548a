use imagetext_py::emoji::EmojiToken;
use imagetext_py::objects::{EmojiOptions, WrapStyle};
use imagetext_py::scalar::Scalar;
use imagetext_py::utils::{text_size, text_size_multiline, text_wrap};

fn scalar(v: f32) -> Scalar {
    Scalar::from_bits(v.to_bits())
}

#[test]
fn text_size_counts_emojis_only_when_asked() {
    let call = text_size("a\u{3042}".to_string(), scalar(16.0), None);
    assert_eq!(call.text, "a\u{3042}");
    assert_eq!(call.size, scalar(16.0));
    assert!(!call.emojis);
    assert!(!text_size("a".to_string(), scalar(16.0), Some(false)).emojis);
    assert!(text_size("a".to_string(), scalar(16.0), Some(true)).emojis);
}

#[test]
fn equal_size_requests_give_equal_calls() {
    let one = text_size("hello".to_string(), scalar(12.5), Some(true));
    let two = text_size("hello".to_string(), scalar(12.5), Some(true));
    assert_eq!(one, two);
}

#[test]
fn block_size_defaults_to_spacing_one() {
    let lines = vec!["a".to_string(), "bc".to_string()];
    let call = text_size_multiline(lines.clone(), scalar(16.0), None, None);
    assert_eq!(call.lines, lines);
    assert_eq!(call.size, scalar(16.0));
    assert_eq!(call.line_spacing, scalar(1.0));
    assert!(!call.emojis);
    let call = text_size_multiline(lines, scalar(16.0), Some(scalar(1.5)), Some(true));
    assert_eq!(call.line_spacing, scalar(1.5));
    assert!(call.emojis);
}

#[test]
fn wrap_request_takes_the_flags_of_the_font() {
    let mut options = EmojiOptions::default();
    options.parse_shortcodes = false;
    options.parse_discord_emojis = true;
    let call = text_wrap(
        "hello world hello world".to_string(),
        60,
        scalar(16.0),
        &options,
        Some(true),
        Some(WrapStyle::Character),
    );
    assert_eq!(call.text, "hello world hello world");
    assert_eq!(call.width, 60);
    assert_eq!(call.size, scalar(16.0));
    assert_eq!(call.wrap_style, WrapStyle::Character);
    assert!(call.emojis);
    assert!(!call.parse_shortcodes);
    assert!(call.parse_discord_emojis);
}

#[test]
fn wrap_request_defaults() {
    let options = EmojiOptions::default();
    let call = text_wrap("hi".to_string(), -5, scalar(16.0), &options, None, None);
    assert_eq!(call.width, -5);
    assert_eq!(call.wrap_style, WrapStyle::Word);
    assert!(!call.emojis);
    assert!(call.parse_shortcodes);
    assert!(!call.parse_discord_emojis);
}

#[test]
fn finish_restores_only_in_emoji_mode() {
    let options = EmojiOptions::default();
    let wrapped = vec!["hi \u{1f600}".to_string(), "\u{1f600}".to_string()];
    let emojis = vec![
        EmojiToken::Regular("\u{1f389}".to_string()),
        EmojiToken::External("5".to_string()),
    ];
    let with = text_wrap("x".to_string(), 60, scalar(16.0), &options, Some(true), None);
    assert_eq!(
        with.finish(wrapped.clone(), &emojis),
        vec!["hi \u{1f389}".to_string(), "<:ee:5>".to_string()]
    );
    let without = text_wrap("x".to_string(), 60, scalar(16.0), &options, None, None);
    assert_eq!(without.finish(wrapped.clone(), &emojis), wrapped);
}
