//! The small values a request is made of: colours, alignment, wrap policy
//! and the emoji policy of a font.

use vstd::prelude::*;
use crate::error::InvalidInput;
use crate::scalar::{Scalar, ONE_BITS};

verus! {

/// A colour as `[r, g, b, a]`, alpha not premultiplied.
#[derive(Clone, Copy, Debug, PartialEq, Eq)]
pub struct Color(pub [u8; 4]);

/// All four values are channel values.
pub open spec fn is_channels(values: Seq<i64>) -> bool {
    &&& values.len() == 4
    &&& forall|i: int| 0 <= i < 4 ==> 0 <= #[trigger] values[i] <= 255
}

impl Color {
    /// Opaque black.
    pub fn black() -> (r: Color)
        ensures
            r.0@ == seq![0u8, 0u8, 0u8, 255u8],
    {
        let r = Color([0, 0, 0, 255]);
        assert(r.0@ =~= seq![0u8, 0u8, 0u8, 255u8]);
        r
    }

    /// Reads a colour from a sequence of numbers: exactly four of them, each
    /// in `0..=255`; anything else is malformed.
    pub fn from_values(values: &Vec<i64>) -> (r: Result<Color, InvalidInput>)
        ensures
            r is Ok <==> is_channels(values@),
            r matches Ok(c) ==> forall|i: int| 0 <= i < 4 ==> c.0@[i] as int == values@[i],
            r matches Err(e) ==> e == InvalidInput::MalformedColor,
    {
        if values.len() != 4 {
            return Err(InvalidInput::MalformedColor);
        }
        let mut channels: [u8; 4] = [0, 0, 0, 0];
        for k in 0..4usize
            invariant
                values@.len() == 4,
                forall|i: int| 0 <= i < k ==> 0 <= #[trigger] values@[i] <= 255,
                forall|i: int| 0 <= i < k ==> channels@[i] as int == values@[i],
        {
            let v: i64 = values[k];
            if v < 0 || v > 255 {
                return Err(InvalidInput::MalformedColor);
            }
            channels[k] = v as u8;
        }
        Ok(Color(channels))
    }
}

/// Where a line sits inside the block it belongs to.
#[derive(Clone, Copy, Debug, PartialEq, Eq, Structural)]
pub enum TextAlign {
    Left,
    Center,
    Right,
}

/// Where a line may be broken.
#[derive(Clone, Copy, Debug, PartialEq, Eq, Structural)]
pub enum WrapStyle {
    Word,
    Character,
}

/// Where emoji bitmaps come from: one of the named sets, or a directory
/// that holds one image per emoji.
#[derive(Debug, PartialEq, Eq)]
pub enum EmojiSource {
    Twitter,
    Apple,
    Google,
    Microsoft,
    Samsung,
    WhatsApp,
    JoyPixels,
    OpenMoji,
    Emojidex,
    Messenger,
    Mozilla,
    Lg,
    Htc,
    Twemoji,
    Dir(String),
}

impl Clone for EmojiSource {
    fn clone(&self) -> (r: EmojiSource)
        ensures
            r == *self,
    {
        match self {
            EmojiSource::Twitter => EmojiSource::Twitter,
            EmojiSource::Apple => EmojiSource::Apple,
            EmojiSource::Google => EmojiSource::Google,
            EmojiSource::Microsoft => EmojiSource::Microsoft,
            EmojiSource::Samsung => EmojiSource::Samsung,
            EmojiSource::WhatsApp => EmojiSource::WhatsApp,
            EmojiSource::JoyPixels => EmojiSource::JoyPixels,
            EmojiSource::OpenMoji => EmojiSource::OpenMoji,
            EmojiSource::Emojidex => EmojiSource::Emojidex,
            EmojiSource::Messenger => EmojiSource::Messenger,
            EmojiSource::Mozilla => EmojiSource::Mozilla,
            EmojiSource::Lg => EmojiSource::Lg,
            EmojiSource::Htc => EmojiSource::Htc,
            EmojiSource::Twemoji => EmojiSource::Twemoji,
            EmojiSource::Dir(path) => EmojiSource::Dir(path.clone()),
        }
    }
}

/// The emoji policy of a font.
#[derive(Debug, PartialEq, Eq)]
pub struct EmojiOptions {
    /// Side of an emoji as a multiple of the line height.
    pub scale: Scalar,
    /// Offset of an emoji in pixels, applied after scaling.
    pub shift: (i64, i64),
    /// `:name:` is read as an emoji.
    pub parse_shortcodes: bool,
    /// `<:name:id>` is read as an emoji.
    pub parse_discord_emojis: bool,
    pub source: EmojiSource,
}

impl Clone for EmojiOptions {
    fn clone(&self) -> (r: EmojiOptions)
        ensures
            r == *self,
    {
        EmojiOptions {
            scale: self.scale,
            shift: (self.shift.0, self.shift.1),
            parse_shortcodes: self.parse_shortcodes,
            parse_discord_emojis: self.parse_discord_emojis,
            source: self.source.clone(),
        }
    }
}

impl Default for EmojiOptions {
    /// Scale one, no shift, shortcodes on, outside emojis off, the Twitter set.
    fn default() -> (r: EmojiOptions)
        ensures
            r.scale.bits == ONE_BITS,
            r.shift == (0i64, 0i64),
            r.parse_shortcodes,
            !r.parse_discord_emojis,
            r.source == EmojiSource::Twitter,
    {
        EmojiOptions {
            scale: Scalar::one(),
            shift: (0, 0),
            parse_shortcodes: true,
            parse_discord_emojis: false,
            source: EmojiSource::Twitter,
        }
    }
}

} // verus!
