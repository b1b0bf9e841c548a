//! How glyphs are filled: one colour, a gradient between stops, or a
//! rainbow.

use vstd::prelude::*;
use crate::objects::Color;
use crate::scalar::Scalar;

verus! {

/// A position on the surface, in pixels from the top-left corner.
#[derive(Clone, Copy, Debug, PartialEq, Eq, Structural)]
pub struct Point {
    pub x: Scalar,
    pub y: Scalar,
}

/// Where the colour of a pixel comes from.
#[derive(Clone, Debug, PartialEq, Eq)]
pub enum Shader {
    /// The same colour everywhere.
    Solid(Color),
    /// The stops spread evenly along the line from `start` to `stop`,
    /// blended in between.
    Gradient { start: Point, stop: Point, stops: Vec<Color> },
    /// The hue circle once along the line from `start` to `stop`.
    Rainbow { start: Point, stop: Point },
}

/// A fill: a shader, and whether glyph edges are smoothed.
#[derive(Clone, Debug, PartialEq, Eq)]
pub struct Paint {
    pub shader: Shader,
    pub anti_alias: bool,
}

/// Opaque black as a colour value.
pub open spec fn black() -> Seq<u8> {
    seq![0u8, 0u8, 0u8, 255u8]
}

/// The point with the two coordinates of a pair.
pub open spec fn point_of(pair: (Scalar, Scalar)) -> Point {
    Point { x: pair.0, y: pair.1 }
}

#[allow(non_snake_case)]
impl Paint {
    /// One smooth colour.
    pub open spec fn is_solid(&self, color: Color) -> bool {
        self.shader == Shader::Solid(color) && self.anti_alias
    }

    /// The paint used where none is given: smooth opaque black.
    pub open spec fn is_black(&self) -> bool {
        &&& self.shader matches Shader::Solid(c) && c.0@ == black()
        &&& self.anti_alias
    }

    /// A solid paint. Without a colour it is opaque black; without a word on
    /// smoothing it is smooth.
    pub fn new(color: Option<Color>, anti_alias: Option<bool>) -> (paint: Paint)
        ensures
            paint.anti_alias == (anti_alias != Some(false)),
            match color {
                Some(c) => paint.shader == Shader::Solid(c),
                None => paint.shader matches Shader::Solid(c) && c.0@ == black(),
            },
    {
        let shader = match color {
            Some(c) => Shader::Solid(c),
            None => Shader::Solid(Color::black()),
        };
        let anti_alias = match anti_alias {
            Some(flag) => flag,
            None => true,
        };
        Paint { shader, anti_alias }
    }

    /// Smooth opaque black.
    pub fn default_black() -> (paint: Paint)
        ensures
            paint.is_black(),
    {
        Paint { shader: Shader::Solid(Color::black()), anti_alias: true }
    }

    /// Makes the paint a solid one of the given colour; smoothing stays.
    pub fn set_color(&mut self, color: Color)
        ensures
            final(self).shader == Shader::Solid(color),
            final(self).anti_alias == old(self).anti_alias,
    {
        self.shader = Shader::Solid(color);
    }

    /// Switches smoothing; the shader stays.
    pub fn set_anti_alias(&mut self, anti_alias: bool)
        ensures
            final(self).anti_alias == anti_alias,
            final(self).shader == old(self).shader,
    {
        self.anti_alias = anti_alias;
    }

    /// One smooth colour.
    pub fn Color(color: Color) -> (paint: Paint)
        ensures
            paint.is_solid(color),
    {
        Paint { shader: Shader::Solid(color), anti_alias: true }
    }

    /// A smooth gradient along the line from `start` to `stop`, through the
    /// given colours in their order.
    pub fn Gradient(start: (Scalar, Scalar), stop: (Scalar, Scalar), colors: Vec<Color>) -> (paint:
        Paint)
        ensures
            paint.shader == (Shader::Gradient {
                start: point_of(start),
                stop: point_of(stop),
                stops: colors,
            }),
            paint.anti_alias,
    {
        Paint {
            shader: Shader::Gradient {
                start: Point { x: start.0, y: start.1 },
                stop: Point { x: stop.0, y: stop.1 },
                stops: colors,
            },
            anti_alias: true,
        }
    }

    /// A smooth rainbow along the line from `start` to `stop`.
    pub fn Rainbow(start: (Scalar, Scalar), stop: (Scalar, Scalar)) -> (paint: Paint)
        ensures
            paint.shader == (Shader::Rainbow { start: point_of(start), stop: point_of(stop) }),
            paint.anti_alias,
    {
        Paint {
            shader: Shader::Rainbow {
                start: Point { x: start.0, y: start.1 },
                stop: Point { x: stop.0, y: stop.1 },
            },
            anti_alias: true,
        }
    }
}

} // verus!
