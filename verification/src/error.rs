//! Why a request is turned down before any pixel is touched.

use vstd::prelude::*;

verus! {

/// An argument that no draw, measure or canvas operation accepts.
#[derive(Clone, Copy, Debug, PartialEq, Eq, Structural)]
pub enum InvalidInput {
    /// A colour is not four channels of `0..=255`.
    MalformedColor,
    /// A text size below zero.
    NegativeSize,
    /// A canvas without width or without height.
    EmptyCanvas,
    /// Pixel data in a layout other than 8-bit RGBA.
    UnsupportedMode,
    /// Pixel data whose length is not four bytes for each pixel.
    BufferSize,
}

impl InvalidInput {
    /// The wording of each reason.
    pub open spec fn spec_message(&self) -> Seq<char> {
        match self {
            InvalidInput::MalformedColor => "color must be four channels between 0 and 255"@,
            InvalidInput::NegativeSize => "size must not be negative"@,
            InvalidInput::EmptyCanvas => "canvas has no pixels"@,
            InvalidInput::UnsupportedMode => "image mode must be RGBA"@,
            InvalidInput::BufferSize => "image data does not match its dimensions"@,
        }
    }

    pub fn message(&self) -> (r: String)
        ensures
            r@ == self.spec_message(),
    {
        match self {
            InvalidInput::MalformedColor => String::from_str(
                "color must be four channels between 0 and 255",
            ),
            InvalidInput::NegativeSize => String::from_str("size must not be negative"),
            InvalidInput::EmptyCanvas => String::from_str("canvas has no pixels"),
            InvalidInput::UnsupportedMode => String::from_str("image mode must be RGBA"),
            InvalidInput::BufferSize => String::from_str(
                "image data does not match its dimensions",
            ),
        }
    }
}

} // verus!
