//! The description of a composite font: where its faces come from, in
//! the order in which they are consulted, and its emoji policy.

use vstd::prelude::*;
use crate::objects::EmojiOptions;

verus! {

/// A primary face, the faces to fall back on, and an emoji policy. A code
/// point is looked for in the primary face first, then in the fallbacks in
/// their order.
#[derive(Debug, PartialEq, Eq)]
pub struct Font {
    pub path: String,
    pub fallbacks: Vec<String>,
    pub emoji_options: EmojiOptions,
}

/// The emoji policy that a font has when none is given.
pub open spec fn is_default_policy(options: EmojiOptions) -> bool {
    &&& options.scale.bits == crate::scalar::ONE_BITS
    &&& options.shift == (0i64, 0i64)
    &&& options.parse_shortcodes
    &&& !options.parse_discord_emojis
    &&& options.source == crate::objects::EmojiSource::Twitter
}

impl Font {
    /// The files of all faces: the primary one, then the fallbacks.
    pub open spec fn spec_sources(&self) -> Seq<Seq<char>> {
        seq![self.path@] + Seq::new(self.fallbacks@.len(), |i: int| self.fallbacks@[i]@)
    }

    /// A font from the file at `path`. Without `fallbacks` it has none;
    /// without `emoji_options` it has the default policy.
    pub fn new(path: &str, fallbacks: Option<Vec<String>>, emoji_options: Option<EmojiOptions>) -> (font:
        Font)
        ensures
            font.path@ == path@,
            match fallbacks {
                Some(list) => font.fallbacks == list,
                None => font.fallbacks@.len() == 0,
            },
            match emoji_options {
                Some(options) => font.emoji_options == options,
                None => is_default_policy(font.emoji_options),
            },
    {
        let fallbacks = match fallbacks {
            Some(list) => list,
            None => Vec::new(),
        };
        let emoji_options = match emoji_options {
            Some(options) => options,
            None => EmojiOptions::default(),
        };
        Font { path: String::from_str(path), fallbacks, emoji_options }
    }

    /// Replaces the emoji policy; the faces stay.
    pub fn set_emoji_options(&mut self, emoji_options: EmojiOptions)
        ensures
            final(self).emoji_options == emoji_options,
            final(self).path == old(self).path,
            final(self).fallbacks == old(self).fallbacks,
    {
        self.emoji_options = emoji_options;
    }

    /// The files to load, in the order in which the faces are consulted.
    pub fn sources(&self) -> (r: Vec<String>)
        ensures
            crate::emoji::texts(r@) == self.spec_sources(),
    {
        let mut out: Vec<String> = Vec::new();
        out.push(self.path.clone());
        for k in 0..self.fallbacks.len()
            invariant
                out@.len() == k + 1,
                out@[0]@ == self.path@,
                forall|j: int| 1 <= j <= k ==> (#[trigger] out@[j])@ == self.fallbacks@[j - 1]@,
        {
            out.push(self.fallbacks[k].clone());
        }
        assert(crate::emoji::texts(out@) =~= self.spec_sources());
        out
    }
}

} // verus!
