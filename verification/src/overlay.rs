//! The compositor: wraps a text to the width of an image, paints it line by
//! line on a transparent layer and lays that layer over the image.

use crate::captured_image::{CapturedImage, ImageView, PixelFormat};
use crate::raster::{
    font_height, font_parses, font_readable, font_units_high, line_extent, line_paintable,
    measure_line, overlaid, overlay_rgba8, paint_line, painted_line, GLYPH_REACH, MAX_LINE_CHARS,
    MAX_TEXT_EXTENT, PEN_LIMIT,
};
use crate::text_wrap::{
    available_char_width, available_width, count_lines, lemma_wrapped_line_len, line_count,
    lines_view, widest_line, wrap_text, wrapped, wrapped_line, GLYPH_ADVANCE_PIXELS,
};
use vstd::prelude::*;
use vstd::string::*;

verus! {

/// Why a text could not be laid over an image.
#[derive(Clone, Copy, Debug, PartialEq, Eq, Structural)]
pub enum CompositionError {
    /// The font bytes are no font.
    FontUnreadable,
    /// The font reads, but it has less than one font unit to the pixel at
    /// the size of the text: its height is not that of a font.
    FontUnusable,
    /// The wrapped text needs a layer, or a line origin, beyond what the
    /// rasterizer or the machine can hold.
    TextTooLarge,
    /// There is no image to lay the text over.
    NoImage,
}

/// The color of overlaid text: an opaque red that reads on most backgrounds.
pub open spec fn accent() -> Seq<u8> {
    seq![0xffu8, 0x40u8, 0x40u8, 0xffu8]
}

/// The color of overlaid text.
pub fn accent_color() -> (color: [u8; 4])
    ensures
        color@ == accent(),
{
    let color: [u8; 4] = [0xff, 0x40, 0x40, 0xff];
    assert(color@ =~= accent());
    color
}

/// The row at which line `index` starts: the measured heights of the lines
/// above it, added up.
pub open spec fn line_top(font: Seq<u8>, lines: Seq<Seq<char>>, index: int) -> int
    decreases index,
{
    if index <= 0 {
        0
    } else {
        line_top(font, lines, index - 1) + line_extent(
            font,
            GLYPH_ADVANCE_PIXELS as int,
            lines[index - 1],
        ).1
    }
}

/// Whether a font can be used at the size of the text: whether it has at
/// least one font unit to the pixel.
pub open spec fn font_usable(font: Seq<u8>) -> bool {
    font_units_high(font) >= GLYPH_ADVANCE_PIXELS
}

/// The width in pixels of the layer for a text of `len` characters at
/// `per_line` a line: one glyph square for each character of its longest line.
pub open spec fn layer_width(len: int, per_line: int) -> int {
    widest_line(len, per_line) * GLYPH_ADVANCE_PIXELS
}

/// The height in pixels of that layer: one glyph square for each line.
pub open spec fn layer_height(len: int, per_line: int) -> int {
    line_count(len, per_line) * GLYPH_ADVANCE_PIXELS
}

/// The samples of a `width` by `height` layer after the first `count` of
/// `lines` have been painted on `blank`, each at its own row.
pub open spec fn layer_after(
    blank: Seq<u8>,
    width: int,
    height: int,
    font: Seq<u8>,
    lines: Seq<Seq<char>>,
    count: int,
) -> Seq<u8>
    decreases count,
{
    if count <= 0 {
        blank
    } else {
        painted_line(
            layer_after(blank, width, height, font, lines, count - 1),
            width,
            height,
            accent(),
            0,
            line_top(font, lines, count - 1),
            font,
            GLYPH_ADVANCE_PIXELS as int,
            lines[count - 1],
        )
    }
}

/// Whether the layer for `text` on an image `image_width` pixels wide can be
/// made: its longest line can be painted in the font, its height and the
/// row of each line stay within `MAX_TEXT_EXTENT`, and its samples fit the
/// machine.
pub open spec fn text_fits(font: Seq<u8>, text: Seq<char>, image_width: int) -> bool {
    let per_line = available_width(image_width);
    let lines = wrapped(text, per_line);
    let len = text.len() as int;
    &&& line_paintable(
        font_units_high(font),
        GLYPH_ADVANCE_PIXELS as int,
        widest_line(len, per_line),
    )
    &&& layer_height(len, per_line) <= MAX_TEXT_EXTENT
    &&& forall|index: int|
        0 <= index < lines.len() ==> #[trigger] line_top(font, lines, index) <= MAX_TEXT_EXTENT
    &&& layer_width(len, per_line) * layer_height(len, per_line) * 4 <= usize::MAX
}

/// The samples of the finished text layer for `text` on an image
/// `image_width` pixels wide.
pub open spec fn text_layer(font: Seq<u8>, text: Seq<char>, image_width: int) -> Seq<u8> {
    let per_line = available_width(image_width);
    let lines = wrapped(text, per_line);
    let len = text.len() as int;
    let width = layer_width(len, per_line);
    let height = layer_height(len, per_line);
    layer_after(
        Seq::new((width * height * 4) as nat, |i: int| 0u8),
        width,
        height,
        font,
        lines,
        lines.len() as int,
    )
}

/// Whether the text layer for a text of `len` characters, set one glyph
/// square right of and below `(x, y)`, lies wholly beside an image of the
/// extent of `base`.
pub open spec fn layer_outside(base: ImageView, len: int, x: int, y: int) -> bool {
    let per_line = available_width(base.width);
    let left = x + GLYPH_ADVANCE_PIXELS;
    let top = y + GLYPH_ADVANCE_PIXELS;
    ||| left >= base.width
    ||| top >= base.height
    ||| left + layer_width(len, per_line) <= 0
    ||| top + layer_height(len, per_line) <= 0
}

/// What composing `text` onto `base` at `(x, y)` gives: the base itself for
/// an empty text; an error where the font does not read, cannot be used at
/// the size of the text, or the text does not fit; else the normalized base
/// with the text layer blended onto it one glyph square right of and below
/// `(x, y)`.
pub open spec fn composed(base: ImageView, text: Seq<char>, x: int, y: int, font: Seq<u8>) -> Result<
    ImageView,
    CompositionError,
> {
    let per_line = available_width(base.width);
    let len = text.len() as int;
    if len == 0 {
        Ok(base)
    } else if !font_readable(font) {
        Err(CompositionError::FontUnreadable)
    } else if !font_usable(font) {
        Err(CompositionError::FontUnusable)
    } else if !text_fits(font, text, base.width) {
        Err(CompositionError::TextTooLarge)
    } else {
        Ok(
            ImageView {
                format: PixelFormat::Rgba8,
                width: base.width,
                height: base.height,
                samples: overlaid(
                    base.normalized().samples,
                    base.width,
                    base.height,
                    text_layer(font, text, base.width),
                    layer_width(len, per_line),
                    layer_height(len, per_line),
                    x + GLYPH_ADVANCE_PIXELS,
                    y + GLYPH_ADVANCE_PIXELS,
                ),
            },
        )
    }
}

/// An empty text changes nothing: the image comes back as it was, sample
/// for sample and in its own format, whatever the font and the place.
pub proof fn lemma_empty_text_changes_nothing(base: ImageView, x: int, y: int, font: Seq<u8>)
    ensures
        composed(base, Seq::<char>::empty(), x, y, font) == Ok::<ImageView, CompositionError>(base),
{
}

/// Whatever was composed with a text is canonical: in the canonical format,
/// its own normal form, and composing onto it again gives the canonical
/// format again.
pub proof fn lemma_composed_is_canonical(
    base: ImageView,
    text: Seq<char>,
    x: int,
    y: int,
    font: Seq<u8>,
    again: Seq<char>,
)
    requires
        text.len() > 0,
        composed(base, text, x, y, font) is Ok,
    ensures
        composed(base, text, x, y, font)->Ok_0.format == PixelFormat::Rgba8,
        composed(base, text, x, y, font)->Ok_0.normalized() == composed(base, text, x, y, font)->Ok_0,
        composed(base, text, x, y, font)->Ok_0.width == base.width,
        composed(base, text, x, y, font)->Ok_0.height == base.height,
        composed(composed(base, text, x, y, font)->Ok_0, again, x, y, font) matches Ok(second)
            ==> second.format == PixelFormat::Rgba8,
{
}

/// A line that can be painted can be painted when it is shorter.
pub proof fn lemma_shorter_line_paintable(height: int, size: int, len: int, shorter: int)
    requires
        line_paintable(height, size, len),
        0 <= shorter <= len,
    ensures
        line_paintable(height, size, shorter),
{
    assert((shorter + 1) * GLYPH_REACH * size <= (len + 1) * GLYPH_REACH * size)
        by (nonlinear_arith)
        requires
            0 <= shorter <= len,
            size >= 1,
    ;
}

/// Whether a line of `len` characters can be painted at `size` pixels in a
/// font `height` units high.
pub fn can_paint(height: i32, size: u16, len: u32) -> (fine: bool)
    ensures
        fine == line_paintable(height as int, size as int, len as int),
{
    if size < 1 || height < size as i32 || len > MAX_LINE_CHARS {
        return false;
    }
    assert((len + 1) * GLYPH_REACH * size <= (MAX_LINE_CHARS + 1) * GLYPH_REACH * 0xffff)
        by (nonlinear_arith)
        requires
            0 <= len <= MAX_LINE_CHARS,
            0 <= size <= 0xffff,
    ;
    assert(0 <= PEN_LIMIT * height <= PEN_LIMIT * 0x7fff_ffff) by (nonlinear_arith)
        requires
            0 <= height <= 0x7fff_ffff,
    ;
    let reach: u64 = (len as u64 + 1) * (GLYPH_REACH as u64) * (size as u64);
    reach <= PEN_LIMIT as u64 * height as u64
}

/// The rows at which the lines start, if each of them is within
/// `MAX_TEXT_EXTENT`.
pub fn measure_tops(font: &[u8], lines: &Vec<String>) -> (tops: Option<Vec<i32>>)
    requires
        font_readable(font@),
    ensures
        tops is Some <==> (forall|index: int|
            0 <= index < lines@.len() ==> #[trigger] line_top(font@, lines_view(lines@), index)
                <= MAX_TEXT_EXTENT),
        tops matches Some(rows) ==> {
            &&& rows@.len() == lines@.len()
            &&& forall|index: int|
                0 <= index < rows@.len() ==> 0 <= #[trigger] rows@[index] <= MAX_TEXT_EXTENT
                    && rows@[index] == line_top(font@, lines_view(lines@), index)
        },
{
    let mut rows: Vec<i32> = Vec::new();
    let mut top: u64 = 0;
    let mut index: usize = 0;
    while index < lines.len()
        invariant
            font_readable(font@),
            index <= lines@.len(),
            rows@.len() == index,
            top == line_top(font@, lines_view(lines@), index as int),
            forall|done: int|
                0 <= done < index ==> 0 <= #[trigger] rows@[done] <= MAX_TEXT_EXTENT
                    && rows@[done] == line_top(font@, lines_view(lines@), done),
            forall|done: int|
                0 <= done < index ==> #[trigger] line_top(font@, lines_view(lines@), done)
                    <= MAX_TEXT_EXTENT,
        decreases lines@.len() - index,
    {
        if top > MAX_TEXT_EXTENT as u64 {
            return None;
        }
        rows.push(top as i32);
        let size = GLYPH_ADVANCE_PIXELS as u16;
        let extent = measure_line(font, size, lines[index].as_str());
        assert(lines_view(lines@)[index as int] == lines@[index as int]@);
        top = top + extent.1 as u64;
        index = index + 1;
    }
    Some(rows)
}

/// Paints `lines` on a blank layer, line `index` at row `tops[index]`.
pub fn paint_lines(
    width: u32,
    height: u32,
    font: &[u8],
    lines: &Vec<String>,
    tops: &Vec<i32>,
) -> (layer: Option<CapturedImage>)
    requires
        font_readable(font@),
        tops@.len() == lines@.len(),
        forall|index: int|
            0 <= index < tops@.len() ==> 0 <= #[trigger] tops@[index] <= MAX_TEXT_EXTENT
                && tops@[index] == line_top(font@, lines_view(lines@), index),
        forall|index: int|
            0 <= index < lines@.len() ==> line_paintable(
                font_units_high(font@),
                GLYPH_ADVANCE_PIXELS as int,
                (#[trigger] lines@[index])@.len() as int,
            ),
    ensures
        layer is Some <==> width * height * 4 <= usize::MAX,
        layer matches Some(image) ==> image@ == (ImageView {
            format: PixelFormat::Rgba8,
            width: width as int,
            height: height as int,
            samples: layer_after(
                Seq::new((width * height * 4) as nat, |i: int| 0u8),
                width as int,
                height as int,
                font@,
                lines_view(lines@),
                lines@.len() as int,
            ),
        }),
{
    let blank = match CapturedImage::transparent(width, height) {
        Some(blank) => blank,
        None => {
            return None;
        },
    };
    let ghost start = blank@.samples;
    let mut samples = blank.into_raw();
    let color = accent_color();
    let mut index: usize = 0;
    while index < lines.len()
        invariant
            font_readable(font@),
            index <= lines@.len(),
            tops@.len() == lines@.len(),
            color@ == accent(),
            start.len() == width * height * 4,
            forall|at: int|
                0 <= at < tops@.len() ==> 0 <= #[trigger] tops@[at] <= MAX_TEXT_EXTENT && tops@[at]
                    == line_top(font@, lines_view(lines@), at),
            forall|at: int|
                0 <= at < lines@.len() ==> line_paintable(
                    font_units_high(font@),
                    GLYPH_ADVANCE_PIXELS as int,
                    (#[trigger] lines@[at])@.len() as int,
                ),
            samples@.len() == width * height * 4,
            samples@ == layer_after(
                start,
                width as int,
                height as int,
                font@,
                lines_view(lines@),
                index as int,
            ),
        decreases lines@.len() - index,
    {
        assert(lines_view(lines@)[index as int] == lines@[index as int]@);
        let size = GLYPH_ADVANCE_PIXELS as u16;
        let line = lines[index].as_str();
        samples = paint_line(samples, width, height, color, 0, tops[index], font, size, line);
        index = index + 1;
    }
    CapturedImage::from_raw(PixelFormat::Rgba8, width, height, samples)
}

/// Lays `text` over `base`, wrapped to the width of `base` and set in
/// `font`, with the text layer one glyph square right of and below `(x, y)`.
/// `base` itself is left as it was. An empty text gives a copy of `base`.
pub fn compose(base: &CapturedImage, text: &str, x: i32, y: i32, font: &[u8]) -> (out: Result<
    CapturedImage,
    CompositionError,
>)
    ensures
        match out {
            Ok(image) => composed(base@, text@, x as int, y as int, font@) == Ok::<
                ImageView,
                CompositionError,
            >(image@) && image@.well_formed(),
            Err(error) => composed(base@, text@, x as int, y as int, font@) == Err::<
                ImageView,
                CompositionError,
            >(error),
        },
        text@.len() > 0 && layer_outside(base@, text@.len() as int, x as int, y as int) ==> (
        out matches Ok(image) ==> image@ == base@.normalized()),
{
    let len = text.unicode_len();
    if len == 0 {
        return Ok(base.duplicate());
    }
    if !font_parses(font) {
        return Err(CompositionError::FontUnreadable);
    }
    let units = font_height(font);
    if units < GLYPH_ADVANCE_PIXELS as i32 {
        return Err(CompositionError::FontUnusable);
    }
    let per_line = available_char_width(base.width());
    let widest: u32 = if len <= per_line as usize {
        len as u32
    } else {
        per_line
    };
    if !can_paint(units, GLYPH_ADVANCE_PIXELS as u16, widest) {
        return Err(CompositionError::TextTooLarge);
    }
    if count_lines(len, per_line) > (MAX_TEXT_EXTENT / GLYPH_ADVANCE_PIXELS) as usize {
        return Err(CompositionError::TextTooLarge);
    }
    let lines = wrap_text(text, per_line);
    proof {
        assert forall|index: int| 0 <= index < lines@.len() implies line_paintable(
            font_units_high(font@),
            GLYPH_ADVANCE_PIXELS as int,
            (#[trigger] lines@[index])@.len() as int,
        ) by {
            assert(lines_view(lines@)[index] == lines@[index]@);
            assert(lines@[index]@ == wrapped_line(text@, per_line as int, index));
            lemma_wrapped_line_len(text@, per_line as int, index);
            lemma_shorter_line_paintable(
                units as int,
                GLYPH_ADVANCE_PIXELS as int,
                widest as int,
                lines@[index]@.len() as int,
            );
        }
    }
    let width: u32 = widest * GLYPH_ADVANCE_PIXELS;
    let height: u32 = lines.len() as u32 * GLYPH_ADVANCE_PIXELS;
    let tops = match measure_tops(font, &lines) {
        Some(tops) => tops,
        None => {
            return Err(CompositionError::TextTooLarge);
        },
    };
    let layer = match paint_lines(width, height, font, &lines, &tops) {
        Some(layer) => layer,
        None => {
            return Err(CompositionError::TextTooLarge);
        },
    };
    let canonical = base.to_rgba8();
    let samples = overlay_rgba8(
        canonical.into_raw(),
        base.width(),
        base.height(),
        layer.as_bytes().as_slice(),
        width,
        height,
        x as i64 + GLYPH_ADVANCE_PIXELS as i64,
        y as i64 + GLYPH_ADVANCE_PIXELS as i64,
    );
    let out = CapturedImage::from_raw(PixelFormat::Rgba8, base.width(), base.height(), samples);
    Ok(out.unwrap())
}

} // verus!
