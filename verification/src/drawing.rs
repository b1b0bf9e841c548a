//! Draw requests, resolved.
//!
//! Each function here takes a request as a caller makes it, with its
//! optional parts left out or given, and returns the call that the
//! rasteriser is to perform, with nothing left open; or the reason why
//! nothing is drawn. The font stays with the caller.

use vstd::prelude::*;
use crate::canvas::Canvas;
use crate::error::InvalidInput;
use crate::objects::{TextAlign, WrapStyle};
use crate::paint::Paint;
use crate::scalar::{Scalar, ONE_BITS};

verus! {

/// The outline under the glyphs.
#[derive(Clone, Debug, PartialEq, Eq)]
pub enum Outline {
    /// No outline at all.
    Nothing,
    /// A stroke of the given width, drawn in `fill` before the glyphs.
    Solid { stroke: Scalar, fill: Paint },
}

/// What every draw call shares: the size of the text, its fill, its
/// outline, and whether emojis are drawn as images.
#[derive(Clone, Debug, PartialEq, Eq)]
pub struct Style {
    pub size: Scalar,
    pub fill: Paint,
    pub outline: Outline,
    pub emojis: bool,
}

/// One line of text with its top-left corner at `(x, y)`.
#[derive(Clone, Debug, PartialEq, Eq)]
pub struct TextCall {
    pub text: String,
    pub x: Scalar,
    pub y: Scalar,
    pub style: Style,
}

/// One line of text placed so that the point `(ax, ay)` of its box, as
/// fractions of its width and height, lies at `(x, y)`.
#[derive(Clone, Debug, PartialEq, Eq)]
pub struct AnchoredCall {
    pub text: String,
    pub x: Scalar,
    pub y: Scalar,
    pub ax: Scalar,
    pub ay: Scalar,
    pub style: Style,
}

/// A block of lines, anchored as a whole, each line aligned inside it.
#[derive(Clone, Debug, PartialEq, Eq)]
pub struct MultilineCall {
    pub lines: Vec<String>,
    pub x: Scalar,
    pub y: Scalar,
    pub ax: Scalar,
    pub ay: Scalar,
    pub width: Scalar,
    pub style: Style,
    pub line_spacing: Scalar,
    pub align: TextAlign,
}

/// A text that is wrapped to `width` and then drawn as a block.
#[derive(Clone, Debug, PartialEq, Eq)]
pub struct WrappedCall {
    pub text: String,
    pub x: Scalar,
    pub y: Scalar,
    pub ax: Scalar,
    pub ay: Scalar,
    pub width: Scalar,
    pub style: Style,
    pub line_spacing: Scalar,
    pub align: TextAlign,
    pub wrap_style: WrapStyle,
}

/// Why a request is not drawn, if it is not: a size below zero comes
/// first, then a canvas without pixels.
pub open spec fn rejection(canvas: &Canvas, size: Scalar) -> Option<InvalidInput> {
    if size.spec_is_negative() {
        Some(InvalidInput::NegativeSize)
    } else if canvas.width() == 0 || canvas.height() == 0 {
        Some(InvalidInput::EmptyCanvas)
    } else {
        None
    }
}

/// The outline that a request asks for: none without a stroke width; with
/// one, a stroke in the given paint, or in black where no paint is given.
pub open spec fn is_outline_of(
    outline: Outline,
    stroke: Option<Scalar>,
    stroke_color: Option<Paint>,
) -> bool {
    match stroke {
        None => outline is Nothing,
        Some(width) => {
            &&& outline matches Outline::Solid { stroke, fill }
            &&& stroke == width
            &&& match stroke_color {
                Some(paint) => fill == paint,
                None => fill.is_black(),
            }
        },
    }
}

/// The style that a request asks for. Emojis are drawn as images only when
/// asked for.
pub open spec fn is_style_of(
    style: Style,
    size: Scalar,
    fill: Paint,
    stroke: Option<Scalar>,
    stroke_color: Option<Paint>,
    draw_emojis: Option<bool>,
) -> bool {
    &&& style.size == size
    &&& style.fill == fill
    &&& is_outline_of(style.outline, stroke, stroke_color)
    &&& style.emojis == (draw_emojis == Some(true))
}

/// The line spacing of a request: as given, or one.
pub open spec fn spacing_of(line_spacing: Option<Scalar>) -> Scalar {
    match line_spacing {
        Some(factor) => factor,
        None => Scalar { bits: ONE_BITS },
    }
}

/// The alignment of a request: as given, or left.
pub open spec fn align_of(align: Option<TextAlign>) -> TextAlign {
    match align {
        Some(side) => side,
        None => TextAlign::Left,
    }
}

/// The wrap policy of a request: as given, or by words.
pub open spec fn wrap_style_of(wrap_style: Option<WrapStyle>) -> WrapStyle {
    match wrap_style {
        Some(policy) => policy,
        None => WrapStyle::Word,
    }
}

fn resolve_style(
    canvas: &Canvas,
    size: Scalar,
    fill: Paint,
    stroke: Option<Scalar>,
    stroke_color: Option<Paint>,
    draw_emojis: Option<bool>,
) -> (r: Result<Style, InvalidInput>)
    ensures
        match rejection(canvas, size) {
            Some(reason) => r == Err::<Style, InvalidInput>(reason),
            None => r matches Ok(style) && is_style_of(
                style,
                size,
                fill,
                stroke,
                stroke_color,
                draw_emojis,
            ),
        },
{
    if size.is_negative() {
        return Err(InvalidInput::NegativeSize);
    }
    if canvas.is_empty() {
        return Err(InvalidInput::EmptyCanvas);
    }
    let outline = match stroke {
        None => Outline::Nothing,
        Some(width) => {
            let paint = match stroke_color {
                Some(paint) => paint,
                None => Paint::default_black(),
            };
            Outline::Solid { stroke: width, fill: paint }
        },
    };
    let emojis = match draw_emojis {
        Some(flag) => flag,
        None => false,
    };
    Ok(Style { size, fill, outline, emojis })
}

/// Resolves the line spacing of a request.
pub fn resolve_spacing(line_spacing: Option<Scalar>) -> (r: Scalar)
    ensures
        r == spacing_of(line_spacing),
{
    match line_spacing {
        Some(factor) => factor,
        None => Scalar::one(),
    }
}

/// Resolves the alignment of a request.
pub fn resolve_align(align: Option<TextAlign>) -> (r: TextAlign)
    ensures
        r == align_of(align),
{
    match align {
        Some(side) => side,
        None => TextAlign::Left,
    }
}

/// Resolves the wrap policy of a request.
pub fn resolve_wrap_style(wrap_style: Option<WrapStyle>) -> (r: WrapStyle)
    ensures
        r == wrap_style_of(wrap_style),
{
    match wrap_style {
        Some(policy) => policy,
        None => WrapStyle::Word,
    }
}

/// A line of text at `(x, y)`.
pub fn draw_text(
    canvas: &Canvas,
    text: String,
    x: Scalar,
    y: Scalar,
    size: Scalar,
    fill: Paint,
    stroke: Option<Scalar>,
    stroke_color: Option<Paint>,
    draw_emojis: Option<bool>,
) -> (r: Result<TextCall, InvalidInput>)
    ensures
        match rejection(canvas, size) {
            Some(reason) => r == Err::<TextCall, InvalidInput>(reason),
            None => {
                &&& r matches Ok(call)
                &&& call.text == text
                &&& call.x == x
                &&& call.y == y
                &&& is_style_of(call.style, size, fill, stroke, stroke_color, draw_emojis)
            },
        },
{
    match resolve_style(canvas, size, fill, stroke, stroke_color, draw_emojis) {
        Ok(style) => Ok(TextCall { text, x, y, style }),
        Err(reason) => Err(reason),
    }
}

/// A line of text anchored at `(x, y)`.
pub fn draw_text_anchored(
    canvas: &Canvas,
    text: String,
    x: Scalar,
    y: Scalar,
    ax: Scalar,
    ay: Scalar,
    size: Scalar,
    fill: Paint,
    stroke: Option<Scalar>,
    stroke_color: Option<Paint>,
    draw_emojis: Option<bool>,
) -> (r: Result<AnchoredCall, InvalidInput>)
    ensures
        match rejection(canvas, size) {
            Some(reason) => r == Err::<AnchoredCall, InvalidInput>(reason),
            None => {
                &&& r matches Ok(call)
                &&& call.text == text
                &&& call.x == x
                &&& call.y == y
                &&& call.ax == ax
                &&& call.ay == ay
                &&& is_style_of(call.style, size, fill, stroke, stroke_color, draw_emojis)
            },
        },
{
    match resolve_style(canvas, size, fill, stroke, stroke_color, draw_emojis) {
        Ok(style) => Ok(AnchoredCall { text, x, y, ax, ay, style }),
        Err(reason) => Err(reason),
    }
}

/// A block of lines anchored at `(x, y)`. Without a line spacing the
/// lines are one line height apart; without an alignment they are aligned
/// to the left.
pub fn draw_text_multiline(
    canvas: &Canvas,
    lines: Vec<String>,
    x: Scalar,
    y: Scalar,
    ax: Scalar,
    ay: Scalar,
    width: Scalar,
    size: Scalar,
    fill: Paint,
    line_spacing: Option<Scalar>,
    align: Option<TextAlign>,
    stroke: Option<Scalar>,
    stroke_color: Option<Paint>,
    draw_emojis: Option<bool>,
) -> (r: Result<MultilineCall, InvalidInput>)
    ensures
        match rejection(canvas, size) {
            Some(reason) => r == Err::<MultilineCall, InvalidInput>(reason),
            None => {
                &&& r matches Ok(call)
                &&& call.lines == lines
                &&& call.x == x
                &&& call.y == y
                &&& call.ax == ax
                &&& call.ay == ay
                &&& call.width == width
                &&& is_style_of(call.style, size, fill, stroke, stroke_color, draw_emojis)
                &&& call.line_spacing == spacing_of(line_spacing)
                &&& call.align == align_of(align)
            },
        },
{
    match resolve_style(canvas, size, fill, stroke, stroke_color, draw_emojis) {
        Ok(style) => Ok(
            MultilineCall {
                lines,
                x,
                y,
                ax,
                ay,
                width,
                style,
                line_spacing: resolve_spacing(line_spacing),
                align: resolve_align(align),
            },
        ),
        Err(reason) => Err(reason),
    }
}

/// A text wrapped to `width` and drawn as a block anchored at `(x, y)`.
/// The defaults of [`draw_text_multiline`] hold; without a wrap policy the
/// text is broken between words.
pub fn draw_text_wrapped(
    canvas: &Canvas,
    text: String,
    x: Scalar,
    y: Scalar,
    ax: Scalar,
    ay: Scalar,
    width: Scalar,
    size: Scalar,
    fill: Paint,
    line_spacing: Option<Scalar>,
    align: Option<TextAlign>,
    stroke: Option<Scalar>,
    stroke_color: Option<Paint>,
    draw_emojis: Option<bool>,
    wrap_style: Option<WrapStyle>,
) -> (r: Result<WrappedCall, InvalidInput>)
    ensures
        match rejection(canvas, size) {
            Some(reason) => r == Err::<WrappedCall, InvalidInput>(reason),
            None => {
                &&& r matches Ok(call)
                &&& call.text == text
                &&& call.x == x
                &&& call.y == y
                &&& call.ax == ax
                &&& call.ay == ay
                &&& call.width == width
                &&& is_style_of(call.style, size, fill, stroke, stroke_color, draw_emojis)
                &&& call.line_spacing == spacing_of(line_spacing)
                &&& call.align == align_of(align)
                &&& call.wrap_style == wrap_style_of(wrap_style)
            },
        },
{
    match resolve_style(canvas, size, fill, stroke, stroke_color, draw_emojis) {
        Ok(style) => Ok(
            WrappedCall {
                text,
                x,
                y,
                ax,
                ay,
                width,
                style,
                line_spacing: resolve_spacing(line_spacing),
                align: resolve_align(align),
                wrap_style: resolve_wrap_style(wrap_style),
            },
        ),
        Err(reason) => Err(reason),
    }
}

} // verus!
