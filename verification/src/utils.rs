//! Measure and wrap requests, resolved, and what is done with the lines
//! that come back from wrapping.

use vstd::prelude::*;
use crate::drawing::{resolve_spacing, resolve_wrap_style, spacing_of, wrap_style_of};
use crate::emoji::{representations, restore_emojis, restore_lines, texts, EmojiToken};
use crate::objects::{EmojiOptions, WrapStyle};
use crate::scalar::Scalar;

verus! {

/// The measuring of one line: with emojis counted as squares of the line
/// height, or every code point by its glyph.
#[derive(Clone, Debug, PartialEq, Eq)]
pub struct SizeCall {
    pub text: String,
    pub size: Scalar,
    pub emojis: bool,
}

/// The measuring of a block of lines.
#[derive(Clone, Debug, PartialEq, Eq)]
pub struct BlockSizeCall {
    pub lines: Vec<String>,
    pub size: Scalar,
    pub line_spacing: Scalar,
    pub emojis: bool,
}

/// The wrapping of a text to a width in pixels.
///
/// With `emojis` set, the text is first stripped of its emojis, each
/// giving way to one placeholder, under the two parse flags; it is wrapped
/// with every placeholder measured as an emoji, and [`WrapCall::finish`]
/// puts the emojis back.
#[derive(Clone, Debug, PartialEq, Eq)]
pub struct WrapCall {
    pub text: String,
    pub width: i32,
    pub size: Scalar,
    pub wrap_style: WrapStyle,
    pub emojis: bool,
    pub parse_shortcodes: bool,
    pub parse_discord_emojis: bool,
}

/// Measures one line. Emojis count as images only when asked for.
pub fn text_size(text: String, size: Scalar, draw_emojis: Option<bool>) -> (call: SizeCall)
    ensures
        call.text == text,
        call.size == size,
        call.emojis == (draw_emojis == Some(true)),
{
    let emojis = match draw_emojis {
        Some(flag) => flag,
        None => false,
    };
    SizeCall { text, size, emojis }
}

/// Measures a block of lines. Without a line spacing the lines are one
/// line height apart.
pub fn text_size_multiline(
    lines: Vec<String>,
    size: Scalar,
    line_spacing: Option<Scalar>,
    draw_emojis: Option<bool>,
) -> (call: BlockSizeCall)
    ensures
        call.lines == lines,
        call.size == size,
        call.line_spacing == spacing_of(line_spacing),
        call.emojis == (draw_emojis == Some(true)),
{
    let emojis = match draw_emojis {
        Some(flag) => flag,
        None => false,
    };
    BlockSizeCall { lines, size, line_spacing: resolve_spacing(line_spacing), emojis }
}

/// Wraps a text. Without a wrap policy it is broken between words; the
/// parse flags are those of the emoji policy of the font that measures.
pub fn text_wrap(
    text: String,
    width: i32,
    size: Scalar,
    emoji_options: &EmojiOptions,
    draw_emojis: Option<bool>,
    wrap_style: Option<WrapStyle>,
) -> (call: WrapCall)
    ensures
        call.text == text,
        call.width == width,
        call.size == size,
        call.wrap_style == wrap_style_of(wrap_style),
        call.emojis == (draw_emojis == Some(true)),
        call.parse_shortcodes == emoji_options.parse_shortcodes,
        call.parse_discord_emojis == emoji_options.parse_discord_emojis,
{
    let emojis = match draw_emojis {
        Some(flag) => flag,
        None => false,
    };
    WrapCall {
        text,
        width,
        size,
        wrap_style: resolve_wrap_style(wrap_style),
        emojis,
        parse_shortcodes: emoji_options.parse_shortcodes,
        parse_discord_emojis: emoji_options.parse_discord_emojis,
    }
}

impl WrapCall {
    /// The lines that the caller gets, from the lines that wrapping gave:
    /// with emojis, the lines with the emojis back in place of their
    /// placeholders; without, the lines as they are.
    pub fn finish(&self, lines: Vec<String>, emojis: &Vec<EmojiToken>) -> (r: Vec<String>)
        ensures
            texts(r@) == if self.emojis {
                restore_lines(texts(lines@), representations(emojis@))
            } else {
                texts(lines@)
            },
    {
        if self.emojis {
            restore_emojis(lines, emojis)
        } else {
            lines
        }
    }
}

} // verus!
