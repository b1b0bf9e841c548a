//! The drawing surface: an 8-bit RGBA image with its width and height.
//!
//! The pixels live in an `image::RgbaImage`. That type cannot be shown to
//! the verifier, so it is kept behind [`Raster`], and what it holds is
//! spoken of through [`raster_pixels`] and [`raster_size`].

use vstd::prelude::*;
use crate::error::InvalidInput;
use crate::objects::Color;

verus! {

/// An `image::RgbaImage`, opaque to the verifier.
#[verifier::external_body]
pub struct Raster {
    im: image::RgbaImage,
}

/// The raw bytes of a raster, row by row, four bytes for each pixel.
pub uninterp spec fn raster_pixels(raster: Raster) -> Seq<u8>;

/// The width and the height that a raster was made with.
pub uninterp spec fn raster_size(raster: Raster) -> (u32, u32);

/// Bytes that an image of the given size takes.
pub open spec fn byte_len(width: u32, height: u32) -> int {
    4 * width * height
}

/// Index of the first byte of the pixel in column `x` of row `y`.
pub open spec fn pixel_offset(width: u32, x: u32, y: u32) -> int {
    4 * (y * width + x)
}

/// `image::ImageBuffer::from_pixel` on an RGBA pixel. It allocates
/// `4 * width * height` bytes and writes the pixel into every group of four;
/// it panics when that many bytes cannot be a vector, which `requires` rules
/// out.
#[verifier::external_body]
fn raster_from_pixel(width: u32, height: u32, color: [u8; 4]) -> (raster: Raster)
    requires
        byte_len(width, height) <= isize::MAX,
    ensures
        raster_size(raster) == (width, height),
        raster_pixels(raster).len() == byte_len(width, height),
        forall|i: int|
            0 <= i < byte_len(width, height) ==> #[trigger] raster_pixels(raster)[i] == color@[i
                % 4],
{
    Raster { im: image::RgbaImage::from_pixel(width, height, image::Rgba(color)) }
}

/// `image::ImageBuffer::from_raw`. It takes the buffer as it is when the
/// buffer holds at least `4 * width * height` bytes, and gives `None`
/// otherwise; a longer buffer is kept whole.
#[verifier::external_body]
fn raster_from_raw(width: u32, height: u32, buffer: Vec<u8>) -> (r: Option<Raster>)
    ensures
        r is Some <==> byte_len(width, height) <= buffer@.len(),
        r matches Some(raster) ==> raster_size(raster) == (width, height) && raster_pixels(raster)
            == buffer@,
{
    match image::RgbaImage::from_raw(width, height, buffer) {
        Some(im) => Some(Raster { im }),
        None => None,
    }
}

/// `image::ImageBuffer::dimensions`: the width and height given at
/// construction.
#[verifier::external_body]
fn raster_dimensions(raster: &Raster) -> (r: (u32, u32))
    ensures
        r == raster_size(*raster),
{
    raster.im.dimensions()
}

/// `image::ImageBuffer::as_raw`, copied: all bytes of the underlying
/// buffer.
#[verifier::external_body]
fn raster_to_vec(raster: &Raster) -> (r: Vec<u8>)
    ensures
        r@ == raster_pixels(*raster),
{
    raster.im.as_raw().clone()
}

/// `image::ImageBuffer::into_raw`: the underlying buffer itself.
#[verifier::external_body]
fn raster_into_raw(raster: Raster) -> (r: Vec<u8>)
    ensures
        r@ == raster_pixels(raster),
{
    raster.im.into_raw()
}

/// `image::ImageBuffer::get_pixel`: the four bytes at the pixel's offset.
/// It panics outside the image, which `requires` rules out.
#[verifier::external_body]
fn raster_get_pixel(raster: &Raster, x: u32, y: u32) -> (r: [u8; 4])
    requires
        x < raster_size(*raster).0,
        y < raster_size(*raster).1,
        byte_len(raster_size(*raster).0, raster_size(*raster).1) <= raster_pixels(*raster).len(),
    ensures
        forall|k: int|
            0 <= k < 4 ==> #[trigger] r@[k] == raster_pixels(*raster)[pixel_offset(
                raster_size(*raster).0,
                x,
                y,
            ) + k],
{
    raster.im.get_pixel(x, y).0
}

/// The four characters `RGBA`.
pub open spec fn rgba_mode() -> Seq<char> {
    seq!['R', 'G', 'B', 'A']
}

/// A drawing surface. Its buffer always holds exactly four bytes for each
/// of its `width * height` pixels.
pub struct Canvas {
    raster: Raster,
}

impl Canvas {
    #[verifier::type_invariant]
    spec fn inv(self) -> bool {
        self.wf()
    }

    pub closed spec fn width(&self) -> u32 {
        raster_size(self.raster).0
    }

    pub closed spec fn height(&self) -> u32 {
        raster_size(self.raster).1
    }

    /// The bytes of the canvas, row by row from the top, `r, g, b, a` for
    /// each pixel.
    pub closed spec fn pixels(&self) -> Seq<u8> {
        raster_pixels(self.raster)
    }

    /// The buffer length matches the dimensions.
    pub open spec fn wf(&self) -> bool {
        self.pixels().len() == byte_len(self.width(), self.height())
    }

    /// The colour of the pixel in column `x` of row `y`.
    pub open spec fn color_at(&self, x: u32, y: u32) -> Seq<u8> {
        self.pixels().subrange(
            pixel_offset(self.width(), x, y),
            pixel_offset(self.width(), x, y) + 4,
        )
    }

    /// Whether a canvas of the given size can be made at all: its bytes
    /// must be no more than a vector can hold.
    pub fn fits(width: u32, height: u32) -> (r: bool)
        ensures
            r == (byte_len(width, height) <= isize::MAX),
    {
        byte_count(width, height) <= isize::MAX as u128
    }

    /// A canvas of the given size, every pixel of the given colour.
    pub fn new(width: u32, height: u32, color: Color) -> (canvas: Canvas)
        requires
            byte_len(width, height) <= isize::MAX,
        ensures
            canvas.wf(),
            canvas.width() == width,
            canvas.height() == height,
            forall|i: int|
                0 <= i < byte_len(width, height) ==> #[trigger] canvas.pixels()[i] == color.0@[i
                    % 4],
    {
        Canvas { raster: raster_from_pixel(width, height, color.0) }
    }

    /// Whether pixel data in the given mode has to be converted before
    /// [`Canvas::from_image`] takes it: every mode but `RGBA`.
    pub fn needs_conversion(mode: &str) -> (r: bool)
        ensures
            r == (mode@ != rgba_mode()),
    {
        proof {
            reveal_strlit("RGBA");
            assert("RGBA"@ =~= rgba_mode());
        }
        String::from_str(mode) != String::from_str("RGBA")
    }

    /// A canvas over pixel data that came from elsewhere. The mode has to be
    /// `RGBA` and the buffer exactly `4 * width * height` bytes long; the
    /// buffer then becomes the canvas unchanged.
    pub fn from_image(mode: &str, width: u32, height: u32, buffer: Vec<u8>) -> (r: Result<
        Canvas,
        InvalidInput,
    >)
        ensures
            r is Ok <==> mode@ == rgba_mode() && buffer@.len() == byte_len(width, height),
            r matches Ok(canvas) ==> canvas.wf() && canvas.width() == width && canvas.height()
                == height && canvas.pixels() == buffer@,
            r matches Err(e) ==> e == if mode@ != rgba_mode() {
                InvalidInput::UnsupportedMode
            } else {
                InvalidInput::BufferSize
            },
    {
        if Canvas::needs_conversion(mode) {
            return Err(InvalidInput::UnsupportedMode);
        }
        if buffer.len() as u128 != byte_count(width, height) {
            return Err(InvalidInput::BufferSize);
        }
        match raster_from_raw(width, height, buffer) {
            Some(raster) => Ok(Canvas { raster }),
            None => Err(InvalidInput::BufferSize),
        }
    }

    /// Width and height in pixels.
    pub fn dimensions(&self) -> (r: (u32, u32))
        ensures
            r == (self.width(), self.height()),
    {
        raster_dimensions(&self.raster)
    }

    /// No pixel at all: the width or the height is zero.
    pub fn is_empty(&self) -> (r: bool)
        ensures
            r == (self.width() == 0 || self.height() == 0),
    {
        let (width, height) = self.dimensions();
        width == 0 || height == 0
    }

    /// The size together with a copy of the bytes.
    pub fn to_bytes(&self) -> (r: ((u32, u32), Vec<u8>))
        ensures
            r.0 == (self.width(), self.height()),
            r.1@ == self.pixels(),
            r.1@.len() == byte_len(self.width(), self.height()),
    {
        proof {
            use_type_invariant(self);
        }
        (raster_dimensions(&self.raster), raster_to_vec(&self.raster))
    }

    /// A copy of the bytes.
    pub fn to_buffer(&self) -> (r: Vec<u8>)
        ensures
            r@ == self.pixels(),
            r@.len() == byte_len(self.width(), self.height()),
    {
        proof {
            use_type_invariant(self);
        }
        raster_to_vec(&self.raster)
    }

    /// Gives up the canvas for its size and its buffer.
    pub fn into_parts(self) -> (r: (u32, u32, Vec<u8>))
        ensures
            r.0 == self.width(),
            r.1 == self.height(),
            r.2@ == self.pixels(),
            r.2@.len() == byte_len(self.width(), self.height()),
    {
        proof {
            use_type_invariant(&self);
        }
        let (width, height) = raster_dimensions(&self.raster);
        (width, height, raster_into_raw(self.raster))
    }

    /// The colour of one pixel, or `None` outside the canvas.
    pub fn pixel(&self, x: u32, y: u32) -> (r: Option<Color>)
        ensures
            r is Some <==> x < self.width() && y < self.height(),
            r matches Some(c) ==> c.0@ == self.color_at(x, y),
    {
        proof {
            use_type_invariant(self);
        }
        let (width, height) = raster_dimensions(&self.raster);
        if x < width && y < height {
            let channels = raster_get_pixel(&self.raster, x, y);
            proof {
                lemma_pixel_in_buffer(width, height, x, y);
                assert(channels@ =~= self.color_at(x, y));
            }
            Some(Color(channels))
        } else {
            None
        }
    }
}

/// `4 * width * height`, which may be more than an address can hold.
fn byte_count(width: u32, height: u32) -> (r: u128)
    ensures
        r == byte_len(width, height),
{
    assert(width * height <= 0xffff_ffff * 0xffff_ffff) by (nonlinear_arith)
        requires
            width <= 0xffff_ffff,
            height <= 0xffff_ffff,
    ;
    let area: u128 = (width as u128) * (height as u128);
    assert(4 * width * height == 4 * (width * height)) by (nonlinear_arith);
    4 * area
}

/// The four bytes of a pixel inside the image lie inside its buffer.
pub proof fn lemma_pixel_in_buffer(width: u32, height: u32, x: u32, y: u32)
    requires
        x < width,
        y < height,
    ensures
        0 <= pixel_offset(width, x, y),
        pixel_offset(width, x, y) + 4 <= byte_len(width, height),
{
    assert(y * width + x + 1 <= height * width) by (nonlinear_arith)
        requires
            x < width,
            y < height,
    ;
    assert(4 * width * height == 4 * (height * width)) by (nonlinear_arith);
}

} // verus!
