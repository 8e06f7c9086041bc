//! What the imaging and font crates do for the library: reading a font,
//! measuring and painting a line of text, converting between pixel formats,
//! laying one image over another. Nothing here is proved; each contract
//! says what the library takes on trust.

use crate::captured_image::PixelFormat;
use ab_glyph::{Font, FontRef, PxScale};
use image::codecs::png::PngEncoder;
use image::{
    DynamicImage, ExtendedColorType, ImageBuffer, ImageEncoder, ImageFormat, Rgba, RgbaImage,
};
use imageproc::drawing::{draw_text_mut, text_size};
use vstd::prelude::*;

verus! {

/// The lowest row or column at which a line of text may be set, and the
/// largest extent of a canvas for text. Below this bound the rasterizer's
/// 32-bit arithmetic on pixel positions has room for the pen's travel along
/// a line and for the glyphs themselves.
pub const MAX_TEXT_EXTENT: u32 = 0x3fff_ffff;

/// The furthest that the pen and one glyph together may reach from the
/// origin of a line, in pixels.
pub const PEN_LIMIT: u32 = 0x1fff_ffff;

/// The most characters that one line may hold.
pub const MAX_LINE_CHARS: u32 = 0x10_0000;

/// More font units than one glyph can move the pen and reach beyond it: an
/// advance is below 65536 units, a kerning step and each glyph coordinate
/// are within 32768 units, and the rest allows for rounding.
pub const GLYPH_REACH: u32 = 0x2_0000;

/// Whether a line of `len` characters can be painted at `size` pixels in a
/// font `height` units high without the pen or a glyph leaving the range of
/// the rasterizer's arithmetic: the font has at least one unit to the
/// pixel, the line is not longer than `MAX_LINE_CHARS`, and the reach of
/// one glyph more than the line has, scaled to pixels, is within
/// `PEN_LIMIT`.
pub open spec fn line_paintable(height: int, size: int, len: int) -> bool {
    &&& 1 <= size <= height
    &&& 0 <= len <= MAX_LINE_CHARS
    &&& (len + 1) * GLYPH_REACH * size <= PEN_LIMIT * height
}

/// What the first bytes of a file say about its format.
#[derive(Clone, Copy, Debug, PartialEq, Eq, Structural)]
pub enum FormatGuess {
    /// They are those of no format that is known.
    Unknown,
    /// They are the signature of a PNG file.
    Png,
    /// They are those of another image format.
    Other,
}

/// The eight bytes that every PNG file starts with.
pub open spec fn png_signature() -> Seq<u8> {
    seq![137u8, 80u8, 78u8, 71u8, 13u8, 10u8, 26u8, 10u8]
}

/// Whether `bytes` start with the PNG signature.
pub open spec fn starts_as_png(bytes: Seq<u8>) -> bool {
    bytes.len() >= 8 && bytes.take(8) == png_signature()
}

/// Whether `ab_glyph::FontRef::try_from_slice` accepts `font` as a font file.
pub uninterp spec fn font_readable(font: Seq<u8>) -> bool;

/// The height of `font` in font units, from the lowest descender to the
/// highest ascender, as `ab_glyph::Font::height_unscaled` reports it: a
/// whole number, since both ends are whole numbers of units.
pub uninterp spec fn font_units_high(font: Seq<u8>) -> int;

/// The width and height in pixels that `imageproc::drawing::text_size`
/// reports for `text` set in `font` at `size` pixels.
pub uninterp spec fn line_extent(font: Seq<u8>, size: int, text: Seq<char>) -> (int, int);

/// The samples of a `width` by `height` canonical image after
/// `imageproc::drawing::draw_text_mut` has painted `text` on `samples` in
/// `color`, set in `font` at `size` pixels with its origin at `(x, y)`.
pub uninterp spec fn painted_line(
    samples: Seq<u8>,
    width: int,
    height: int,
    color: Seq<u8>,
    x: int,
    y: int,
    font: Seq<u8>,
    size: int,
    text: Seq<char>,
) -> Seq<u8>;

/// Sample `index` of the canonical form of an image with `samples` in
/// `format`: gray is written to red, green and blue alike; color stays; the
/// opacity is the image's own where it has one, and full where it has
/// none.
pub open spec fn rgba8_sample(format: PixelFormat, samples: Seq<u8>, index: int) -> u8 {
    let pixel = index / 4;
    let channel = index % 4;
    match format {
        PixelFormat::Luma8 => if channel < 3 {
            samples[pixel]
        } else {
            255u8
        },
        PixelFormat::LumaA8 => if channel < 3 {
            samples[2 * pixel]
        } else {
            samples[2 * pixel + 1]
        },
        PixelFormat::Rgb8 => if channel < 3 {
            samples[3 * pixel + channel]
        } else {
            255u8
        },
        PixelFormat::Rgba8 => samples[index],
    }
}

/// The samples of the canonical form of a `width` by `height` image with
/// `samples` in `format`.
pub open spec fn rgba8_samples(
    format: PixelFormat,
    width: int,
    height: int,
    samples: Seq<u8>,
) -> Seq<u8> {
    Seq::new((width * height * 4) as nat, |index: int| rgba8_sample(format, samples, index))
}

/// The samples that `image::DynamicImage::grayscale` makes of a `width` by
/// `height` image with `samples` in `format`.
pub uninterp spec fn grayscale_samples(
    format: PixelFormat,
    width: int,
    height: int,
    samples: Seq<u8>,
) -> Seq<u8>;

/// The PNG file that `image::codecs::png::PngEncoder::write_image` writes,
/// with the encoder's default settings, of a `width` by `height` image with
/// `samples` in `format`; nothing where it writes none.
pub uninterp spec fn png_file(
    format: PixelFormat,
    width: int,
    height: int,
    samples: Seq<u8>,
) -> Option<Seq<u8>>;

/// The samples of a canonical `bottom` image after
/// `image::imageops::overlay` has blended a canonical `top` image onto it
/// with the top's first pixel at `(x, y)`.
pub uninterp spec fn overlaid(
    bottom: Seq<u8>,
    bottom_width: int,
    bottom_height: int,
    top: Seq<u8>,
    top_width: int,
    top_height: int,
    x: int,
    y: int,
) -> Seq<u8>;

/// Calls `image::guess_format`, which goes by the first bytes alone. It
/// tries the PNG signature before any other, so it says PNG exactly of the
/// bytes that start with that signature.
#[verifier::external_body]
pub(crate) fn guess_format(bytes: &[u8]) -> (guess: FormatGuess)
    ensures
        guess == FormatGuess::Png <==> starts_as_png(bytes@),
{
    match image::guess_format(bytes) {
        Ok(ImageFormat::Png) => FormatGuess::Png,
        Ok(_) => FormatGuess::Other,
        Err(_) => FormatGuess::Unknown,
    }
}

/// Calls `image::load_from_memory` and, where that reads an image, gives
/// its extent and its samples in the canonical format. Which files it can
/// read depends on how the imaging crate was built, so nothing is said of
/// when it succeeds.
#[verifier::external_body]
pub(crate) fn decode_rgba8(bytes: &[u8]) -> (decoded: Option<(u32, u32, Vec<u8>)>)
    ensures
        decoded matches Some(parts) ==> parts.2@.len() == parts.0 * parts.1 * 4,
{
    match image::load_from_memory(bytes) {
        Ok(image) => Some((image.width(), image.height(), image.into_rgba8().into_raw())),
        Err(_) => None,
    }
}

/// Calls `image::codecs::png::PngEncoder::write_image` with the encoder's
/// default settings and gives the file it wrote, if it wrote one. A PNG
/// file starts with the PNG signature.
#[verifier::external_body]
pub(crate) fn encode_png(format: PixelFormat, width: u32, height: u32, samples: &[u8]) -> (file:
    Option<Vec<u8>>)
    requires
        samples@.len() == width * height * format.channels(),
    ensures
        match file {
            Some(bytes) => png_file(format, width as int, height as int, samples@) == Some(bytes@)
                && starts_as_png(bytes@),
            None => png_file(format, width as int, height as int, samples@) is None,
        },
{
    let color = match format {
        PixelFormat::Luma8 => ExtendedColorType::L8,
        PixelFormat::LumaA8 => ExtendedColorType::La8,
        PixelFormat::Rgb8 => ExtendedColorType::Rgb8,
        PixelFormat::Rgba8 => ExtendedColorType::Rgba8,
    };
    let mut file = Vec::new();
    match PngEncoder::new(&mut file).write_image(samples, width, height, color) {
        Ok(()) => Some(file),
        Err(_) => None,
    }
}

/// Calls `ab_glyph::FontRef::try_from_slice` and says whether it took the
/// bytes for a font.
#[verifier::external_body]
pub(crate) fn font_parses(font: &[u8]) -> (ok: bool)
    ensures
        ok == font_readable(font@),
{
    FontRef::try_from_slice(font).is_ok()
}

/// Calls `ab_glyph::Font::height_unscaled` on a font that reads. The height
/// is the difference of two 16-bit metrics, so it is a whole number that a
/// 32-bit integer holds.
#[verifier::external_body]
pub(crate) fn font_height(font: &[u8]) -> (height: i32)
    requires
        font_readable(font@),
    ensures
        height == font_units_high(font@),
        -0xffff <= height <= 0xffff,
{
    FontRef::try_from_slice(font).unwrap().height_unscaled() as i32
}

/// Calls `imageproc::drawing::text_size` on a font that reads. The result is
/// taken to depend on the font, the size and the text alone.
#[verifier::external_body]
pub(crate) fn measure_line(font: &[u8], size: u16, text: &str) -> (extent: (u32, u32))
    requires
        font_readable(font@),
    ensures
        (extent.0 as int, extent.1 as int) == line_extent(font@, size as int, text@),
{
    let face = FontRef::try_from_slice(font).unwrap();
    text_size(PxScale { x: size.into(), y: size.into() }, &face, text)
}

/// Calls `imageproc::drawing::draw_text_mut` on a canonical image held as
/// its samples. The image keeps its extent; which samples change, and to
/// what, is left to the name. The call adds the pen's position, a glyph's
/// offset and the line's origin in 32-bit arithmetic; `line_paintable`
/// keeps the first two within `PEN_LIMIT` and the origin is within
/// `MAX_TEXT_EXTENT`, so the sum stays in range. How much memory a glyph of
/// a font takes to rasterize is the machine's matter.
#[verifier::external_body]
pub(crate) fn paint_line(
    samples: Vec<u8>,
    width: u32,
    height: u32,
    color: [u8; 4],
    x: i32,
    y: i32,
    font: &[u8],
    size: u16,
    text: &str,
) -> (out: Vec<u8>)
    requires
        font_readable(font@),
        line_paintable(font_units_high(font@), size as int, text@.len() as int),
        samples@.len() == width * height * 4,
        0 <= x <= MAX_TEXT_EXTENT,
        0 <= y <= MAX_TEXT_EXTENT,
    ensures
        out@ == painted_line(
            samples@,
            width as int,
            height as int,
            color@,
            x as int,
            y as int,
            font@,
            size as int,
            text@,
        ),
        out@.len() == samples@.len(),
{
    let face = FontRef::try_from_slice(font).unwrap();
    let mut canvas = RgbaImage::from_raw(width, height, samples).unwrap();
    let scale = PxScale { x: size.into(), y: size.into() };
    draw_text_mut(&mut canvas, Rgba(color), x, y, scale, &face, text);
    canvas.into_raw()
}

/// Calls `image::DynamicImage::into_rgba8`. For samples of eight bits the
/// conversion copies color, writes gray to red, green and blue alike, keeps
/// an opacity and sets a missing one to full; a gray sample goes through
/// the unit interval and comes back as it was.
#[verifier::external_body]
pub(crate) fn into_rgba8(format: PixelFormat, width: u32, height: u32, samples: Vec<u8>) -> (out:
    Vec<u8>)
    requires
        samples@.len() == width * height * format.channels(),
    ensures
        out@ == rgba8_samples(format, width as int, height as int, samples@),
        out@.len() == width * height * 4,
{
    let (w, h) = (width, height);
    let image = match format {
        PixelFormat::Luma8 => DynamicImage::ImageLuma8(ImageBuffer::from_raw(w, h, samples).unwrap()),
        PixelFormat::LumaA8 => DynamicImage::ImageLumaA8(ImageBuffer::from_raw(w, h, samples).unwrap()),
        PixelFormat::Rgb8 => DynamicImage::ImageRgb8(ImageBuffer::from_raw(w, h, samples).unwrap()),
        PixelFormat::Rgba8 => DynamicImage::ImageRgba8(ImageBuffer::from_raw(w, h, samples).unwrap()),
    };
    image.into_rgba8().into_raw()
}

/// Calls `image::DynamicImage::grayscale`. A format with alpha comes back as
/// gray with alpha, one without as gray alone.
#[verifier::external_body]
pub(crate) fn grayscale(format: PixelFormat, width: u32, height: u32, samples: Vec<u8>) -> (out:
    Vec<u8>)
    requires
        samples@.len() == width * height * format.channels(),
    ensures
        out@ == grayscale_samples(format, width as int, height as int, samples@),
        out@.len() == width * height * (if format.carries_alpha() {
            2int
        } else {
            1int
        }),
{
    let (w, h) = (width, height);
    let image = match format {
        PixelFormat::Luma8 => DynamicImage::ImageLuma8(ImageBuffer::from_raw(w, h, samples).unwrap()),
        PixelFormat::LumaA8 => DynamicImage::ImageLumaA8(ImageBuffer::from_raw(w, h, samples).unwrap()),
        PixelFormat::Rgb8 => DynamicImage::ImageRgb8(ImageBuffer::from_raw(w, h, samples).unwrap()),
        PixelFormat::Rgba8 => DynamicImage::ImageRgba8(ImageBuffer::from_raw(w, h, samples).unwrap()),
    };
    image.grayscale().into_bytes()
}

/// Calls `image::imageops::overlay` on two canonical images held as their
/// samples. The bottom image keeps its extent, and a top image that lies
/// wholly beside it leaves it as it was.
#[verifier::external_body]
pub(crate) fn overlay_rgba8(
    bottom: Vec<u8>,
    bottom_width: u32,
    bottom_height: u32,
    top: &[u8],
    top_width: u32,
    top_height: u32,
    x: i64,
    y: i64,
) -> (out: Vec<u8>)
    requires
        bottom@.len() == bottom_width * bottom_height * 4,
        top@.len() == top_width * top_height * 4,
    ensures
        out@ == overlaid(
            bottom@,
            bottom_width as int,
            bottom_height as int,
            top@,
            top_width as int,
            top_height as int,
            x as int,
            y as int,
        ),
        out@.len() == bottom@.len(),
        x >= bottom_width || y >= bottom_height || x + top_width <= 0 || y + top_height <= 0
            ==> out@ == bottom@,
{
    let mut under = RgbaImage::from_raw(bottom_width, bottom_height, bottom).unwrap();
    let over = ImageBuffer::<Rgba<u8>, &[u8]>::from_raw(top_width, top_height, top)
        .unwrap();
    image::imageops::overlay(&mut under, &over, x, y);
    under.into_raw()
}

} // verus!
