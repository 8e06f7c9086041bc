//! What recognition gives back: the text, its lines, and where its words
//! stand; and what every recognition engine offers.

use crate::captured_image::{CapturedImage, ImageView, PixelFormat};
use crate::raster::{decode_rgba8, guess_format, png_signature, starts_as_png, FormatGuess};
use crate::text_lines::{joined_with, line_break};
use crate::text_wrap::lines_view;
use vstd::prelude::*;

verus! {

/// Why bytes did not become an image.
#[derive(Clone, Copy, Debug, PartialEq, Eq, Structural)]
pub enum ImageError {
    /// The bytes start like a PNG file and could not be read as an image.
    Undecodable,
    /// The bytes are taken for bare samples, and there are fewer of them
    /// than the extent calls for.
    TooFewSamples,
}

/// Whether `image` starts with the eight bytes of the PNG signature.
pub fn has_png_signature(image: &[u8]) -> (found: bool)
    ensures
        found == starts_as_png(image@),
{
    if image.len() < 8 {
        return false;
    }
    let found = image[0] == 137 && image[1] == 80 && image[2] == 78 && image[3] == 71 && image[4]
        == 13 && image[5] == 10 && image[6] == 26 && image[7] == 10;
    assert(found ==> image@.take(8) =~= png_signature());
    assert(!found ==> image@.take(8) != png_signature()) by {
        if !found && image@.take(8) == png_signature() {
            assert(image@[0] == image@.take(8)[0]);
            assert(image@[1] == image@.take(8)[1]);
            assert(image@[2] == image@.take(8)[2]);
            assert(image@[3] == image@.take(8)[3]);
            assert(image@[4] == image@.take(8)[4]);
            assert(image@[5] == image@.take(8)[5]);
            assert(image@[6] == image@.take(8)[6]);
            assert(image@[7] == image@.take(8)[7]);
        }
    }
    found
}

/// Whether `image` is to be read as a PNG file: whether it starts with the
/// PNG signature. Nothing is said of what follows the signature.
pub fn is_valid_png(image: &[u8]) -> (valid: bool)
    ensures
        valid == starts_as_png(image@),
{
    let guess = guess_format(image);
    match guess {
        FormatGuess::Unknown => false,
        _ => has_png_signature(image) && image.len() > 8 || guess == FormatGuess::Png,
    }
}

/// What making an image of bytes of unknown kind may give. Bytes that do
/// not start like a PNG file are bare samples: the first `width * height`
/// pixels of them are the image, and fewer are an error. Bytes that start
/// like a PNG file give a canonical image if the decoder reads them, and an
/// error if it does not.
pub open spec fn image_of_bytes(
    image: Seq<u8>,
    width: int,
    height: int,
    out: Result<CapturedImage, ImageError>,
) -> bool {
    if starts_as_png(image) {
        match out {
            Ok(made) => made@.format == PixelFormat::Rgba8 && made@.well_formed(),
            Err(error) => error == ImageError::Undecodable,
        }
    } else {
        match out {
            Ok(made) => image.len() >= width * height * 4 && made@ == (ImageView {
                format: PixelFormat::Rgba8,
                width,
                height,
                samples: image.take(width * height * 4),
            }),
            Err(error) => image.len() < width * height * 4 && error == ImageError::TooFewSamples,
        }
    }
}

/// Makes an image of bytes of unknown kind: bytes that start like a PNG
/// file are decoded, all others are taken for the samples of a canonical
/// image `width` by `height`.
pub fn to_imageproc_dynamic_image(image: &[u8], width: u32, height: u32) -> (out: Result<
    CapturedImage,
    ImageError,
>)
    ensures
        image_of_bytes(image@, width as int, height as int, out),
{
    if is_valid_png(image) {
        decoded_image(image)
    } else {
        match CapturedImage::from_rgba_prefix(width, height, image) {
            Some(made) => Ok(made),
            None => Err(ImageError::TooFewSamples),
        }
    }
}

/// Makes an image of bytes of unknown kind, as `to_imageproc_dynamic_image`
/// does.
pub fn to_rusty_tesseract_dynamic_image(image: &[u8], width: u32, height: u32) -> (out: Result<
    CapturedImage,
    ImageError,
>)
    ensures
        image_of_bytes(image@, width as int, height as int, out),
{
    to_imageproc_dynamic_image(image, width, height)
}

/// Decodes an image file into a canonical image.
pub(crate) fn decoded_image(file: &[u8]) -> (out: Result<CapturedImage, ImageError>)
    ensures
        match out {
            Ok(made) => made@.format == PixelFormat::Rgba8 && made@.well_formed(),
            Err(error) => error == ImageError::Undecodable,
        },
{
    match decode_rgba8(file) {
        Some((width, height, samples)) => {
            match CapturedImage::from_raw(PixelFormat::Rgba8, width, height, samples) {
                Some(made) => {
                    let _ = made.width();
                    Ok(made)
                },
                None => Err(ImageError::Undecodable),
            }
        },
        None => Err(ImageError::Undecodable),
    }
}

/// What an attempt to make an image comes to, seen as what the image is.
pub open spec fn outcome_view(out: Result<CapturedImage, ImageError>) -> Result<
    ImageView,
    ImageError,
> {
    match out {
        Ok(made) => Ok(made@),
        Err(error) => Err(error),
    }
}

/// What the image is that decoding made, if it made one.
pub open spec fn decoded_view(decoded: Option<CapturedImage>) -> Option<ImageView> {
    match decoded {
        Some(made) => Some(made@),
        None => None,
    }
}

/// What bytes come to that were tried as an image file first: the decoded
/// image if there is one; else the canonical image whose samples are the
/// first `width * height` pixels of the bytes; and an error if there are
/// fewer.
pub open spec fn decoded_or_samples(
    decoded: Option<ImageView>,
    image: Seq<u8>,
    width: int,
    height: int,
) -> Result<ImageView, ImageError> {
    match decoded {
        Some(made) => Ok(made),
        None => if image.len() >= width * height * 4 {
            Ok(
                ImageView {
                    format: PixelFormat::Rgba8,
                    width,
                    height,
                    samples: image.take(width * height * 4),
                },
            )
        } else {
            Err(ImageError::TooFewSamples)
        },
    }
}

/// Whether `out` is what the bytes come to for some outcome of decoding:
/// for a canonical image that decoding made, or for none.
pub open spec fn bytes_give(
    image: Seq<u8>,
    width: int,
    height: int,
    out: Result<ImageView, ImageError>,
) -> bool {
    exists|decoded: Option<ImageView>|
        {
            &&& decoded matches Some(made) ==> made.format == PixelFormat::Rgba8
                && made.well_formed()
            &&& out == #[trigger] decoded_or_samples(decoded, image, width, height)
        }
}

/// Settles what bytes come to once decoding has had its try: `decoded` is
/// the image that decoding made of them, if it made one.
pub fn image_from_outcome(
    decoded: Option<CapturedImage>,
    image: &[u8],
    width: u32,
    height: u32,
) -> (out: Result<CapturedImage, ImageError>)
    ensures
        outcome_view(out) == decoded_or_samples(
            decoded_view(decoded),
            image@,
            width as int,
            height as int,
        ),
        decoded is None ==> (out matches Ok(made) ==> made@.well_formed()),
{
    match decoded {
        Some(made) => Ok(made),
        None => match CapturedImage::from_rgba_prefix(width, height, image) {
            Some(made) => {
                let _ = made.width();
                Ok(made)
            },
            None => Err(ImageError::TooFewSamples),
        },
    }
}

/// Makes an image of bytes that may be an image file: what decodes is
/// decoded, everything else is taken for the samples of a canonical image
/// of the extent given. Whether the bytes decode is the decoder's matter;
/// whatever it makes of them is canonical.
pub fn image_from_file_or_samples(image: &[u8], width: u32, height: u32) -> (out: Result<
    CapturedImage,
    ImageError,
>)
    ensures
        bytes_give(image@, width as int, height as int, outcome_view(out)),
        match out {
            Ok(made) => made@.format == PixelFormat::Rgba8 && made@.well_formed(),
            Err(error) => error == ImageError::TooFewSamples && image@.len() < width * height * 4,
        },
{
    let decoded = match decoded_image(image) {
        Ok(made) => Some(made),
        Err(_) => None,
    };
    let ghost tried = decoded_view(decoded);
    let out = image_from_outcome(decoded, image, width, height);
    assert(outcome_view(out) == decoded_or_samples(tried, image@, width as int, height as int));
    out
}

/// Why recognition gave no result. None of these ends the program.
#[derive(Debug)]
pub enum OcrError {
    /// The engine is not there to be called.
    BackendUnavailable,
    /// The engine ran and failed; it said why.
    RecognitionFailed(String),
    /// The engine cannot read images of this kind.
    UnsupportedImageFormat,
}

/// A rectangle by its corners. Coordinates are signed: where the origin
/// lies is the engine's matter.
#[derive(Debug, Clone, Copy, PartialEq, Eq, Hash)]
pub struct OcrRect {
    pub x_min: i32,
    pub y_min: i32,
    pub x_max: i32,
    pub y_max: i32,
}

/// What a rectangle is.
pub ghost struct RectView {
    pub x_min: int,
    pub y_min: int,
    pub x_max: int,
    pub y_max: int,
}

/// How far `high` lies beyond `low`; nothing where it does not lie beyond.
pub open spec fn span(low: int, high: int) -> int {
    if high >= low {
        high - low
    } else {
        0
    }
}

impl RectView {
    /// The distance from the left to the right edge. A rectangle whose
    /// right edge is left of its left edge has no width.
    pub open spec fn width(self) -> int {
        span(self.x_min, self.x_max)
    }

    /// The distance from the top to the bottom edge. A rectangle whose
    /// bottom edge is above its top edge has no height.
    pub open spec fn height(self) -> int {
        span(self.y_min, self.y_max)
    }
}

impl View for OcrRect {
    type V = RectView;

    open spec fn view(&self) -> RectView {
        RectView {
            x_min: self.x_min as int,
            y_min: self.y_min as int,
            x_max: self.x_max as int,
            y_max: self.y_max as int,
        }
    }
}

/// How far `high` lies beyond `low`; nothing where it does not.
fn span_of(low: i32, high: i32) -> (distance: u32)
    ensures
        distance == span(low as int, high as int),
{
    if high >= low {
        (high as i64 - low as i64) as u32
    } else {
        0
    }
}

impl OcrRect {
    /// The rectangle with these corners.
    pub fn new(x_min: i32, y_min: i32, x_max: i32, y_max: i32) -> (rect: OcrRect)
        ensures
            rect == (OcrRect { x_min, y_min, x_max, y_max }),
    {
        OcrRect { x_min, y_min, x_max, y_max }
    }

    /// The rectangle with this upper left corner and this size.
    pub fn from(x_min: i32, y_min: i32, width: u32, height: u32) -> (rect: OcrRect)
        requires
            x_min + width <= i32::MAX,
            y_min + height <= i32::MAX,
        ensures
            rect@ == (RectView {
                x_min: x_min as int,
                y_min: y_min as int,
                x_max: x_min + width,
                y_max: y_min + height,
            }),
            rect@.width() == width,
            rect@.height() == height,
    {
        let x_max: i64 = x_min as i64 + width as i64;
        let y_max: i64 = y_min as i64 + height as i64;
        OcrRect { x_min, y_min, x_max: x_max as i32, y_max: y_max as i32 }
    }

    /// The distance from the left to the right edge; 0 where the right edge
    /// is left of the left one.
    pub fn width(&self) -> (width: u32)
        ensures
            width == self@.width(),
    {
        span_of(self.x_min, self.x_max)
    }

    /// The distance from the top to the bottom edge; 0 where the bottom
    /// edge is above the top one.
    pub fn height(&self) -> (height: u32)
        ensures
            height == self@.height(),
    {
        span_of(self.y_min, self.y_max)
    }
}

/// One or more characters that stand together, the line they stand on, and
/// where they stand.
#[derive(Debug, PartialEq, Eq, Hash)]
pub struct OcrWord {
    word: String,
    line_index: u16,
    rect: OcrRect,
}

/// What a word is.
pub ghost struct WordView {
    pub word: Seq<char>,
    pub line_index: int,
    pub rect: RectView,
}

impl View for OcrWord {
    type V = WordView;

    closed spec fn view(&self) -> WordView {
        WordView { word: self.word@, line_index: self.line_index as int, rect: self.rect@ }
    }
}

impl Clone for OcrWord {
    fn clone(&self) -> (out: OcrWord)
        ensures
            out@ == self@,
    {
        OcrWord { word: self.word.clone(), line_index: self.line_index, rect: self.rect }
    }
}

impl OcrWord {
    /// The word `word` on line `line_index` at `rect`.
    pub fn new(word: String, line_index: u16, rect: OcrRect) -> (out: OcrWord)
        ensures
            out@ == (WordView { word: word@, line_index: line_index as int, rect: rect@ }),
    {
        OcrWord { word, line_index, rect }
    }

    /// The word `word` on line `line_index`, with its upper left corner and
    /// its size.
    pub fn from(word: String, line_index: u16, x_min: i32, y_min: i32, width: u32, height: u32) -> (out:
        OcrWord)
        requires
            x_min + width <= i32::MAX,
            y_min + height <= i32::MAX,
        ensures
            out@ == (WordView {
                word: word@,
                line_index: line_index as int,
                rect: RectView {
                    x_min: x_min as int,
                    y_min: y_min as int,
                    x_max: x_min + width,
                    y_max: y_min + height,
                },
            }),
    {
        OcrWord { word, line_index, rect: OcrRect::from(x_min, y_min, width, height) }
    }

    /// The width of the word's rectangle.
    pub fn width(&self) -> (width: u32)
        ensures
            width == self@.rect.width(),
    {
        self.rect.width()
    }

    /// The height of the word's rectangle.
    pub fn height(&self) -> (height: u32)
        ensures
            height == self@.rect.height(),
    {
        self.rect.height()
    }

    /// The column of the word's left edge.
    pub fn x_min(&self) -> (x: i32)
        ensures
            x == self@.rect.x_min,
    {
        self.rect.x_min
    }

    /// The row of the word's top edge.
    pub fn y_min(&self) -> (y: i32)
        ensures
            y == self@.rect.y_min,
    {
        self.rect.y_min
    }

    /// Where the word stands.
    pub fn rect(&self) -> (rect: OcrRect)
        ensures
            rect@ == self@.rect,
    {
        self.rect
    }

    /// The line the word stands on.
    pub fn line_index(&self) -> (index: u16)
        ensures
            index == self@.line_index,
    {
        self.line_index
    }

    /// The characters of the word.
    pub fn word(&self) -> (word: String)
        ensures
            word@ == self@.word,
    {
        self.word.clone()
    }
}

/// What the words of a line are.
pub open spec fn words_view(words: Seq<OcrWord>) -> Seq<WordView> {
    Seq::new(words.len(), |index: int| words[index]@)
}

/// The width of the widest of `words`; 0 where there is none.
pub open spec fn widest(words: Seq<WordView>) -> int
    decreases words.len(),
{
    if words.len() == 0 {
        0
    } else {
        let rest = widest(words.drop_last());
        if words.last().rect.width() > rest {
            words.last().rect.width()
        } else {
            rest
        }
    }
}

/// The height of the highest of `words`; 0 where there is none.
pub open spec fn highest(words: Seq<WordView>) -> int
    decreases words.len(),
{
    if words.len() == 0 {
        0
    } else {
        let rest = highest(words.drop_last());
        if words.last().rect.height() > rest {
            words.last().rect.height()
        } else {
            rest
        }
    }
}

/// The column of the leftmost edge among `words`; the largest column there
/// is where there is no word.
pub open spec fn leftmost(words: Seq<WordView>) -> int
    decreases words.len(),
{
    if words.len() == 0 {
        i32::MAX as int
    } else {
        let rest = leftmost(words.drop_last());
        if words.last().rect.x_min < rest {
            words.last().rect.x_min
        } else {
            rest
        }
    }
}

/// The row of the topmost edge among `words`; the largest row there is
/// where there is no word.
pub open spec fn topmost(words: Seq<WordView>) -> int
    decreases words.len(),
{
    if words.len() == 0 {
        i32::MAX as int
    } else {
        let rest = topmost(words.drop_last());
        if words.last().rect.y_min < rest {
            words.last().rect.y_min
        } else {
            rest
        }
    }
}

/// The words of one line, in reading order.
#[derive(Debug, PartialEq, Eq, Hash)]
pub struct OcrLine {
    line: Vec<OcrWord>,
}

impl View for OcrLine {
    type V = Seq<WordView>;

    closed spec fn view(&self) -> Seq<WordView> {
        words_view(self.line@)
    }
}

/// A copy of `words` that shares nothing with them.
fn copy_words(words: &Vec<OcrWord>) -> (out: Vec<OcrWord>)
    ensures
        words_view(out@) == words_view(words@),
{
    let mut out: Vec<OcrWord> = Vec::new();
    let mut index: usize = 0;
    while index < words.len()
        invariant
            index <= words@.len(),
            out@.len() == index,
            forall|done: int| 0 <= done < index ==> (#[trigger] out@[done])@ == words@[done]@,
        decreases words@.len() - index,
    {
        out.push(words[index].clone());
        index = index + 1;
    }
    assert(words_view(out@) =~= words_view(words@));
    out
}

impl Clone for OcrLine {
    fn clone(&self) -> (out: OcrLine)
        ensures
            out@ == self@,
    {
        OcrLine { line: copy_words(&self.line) }
    }
}

impl OcrLine {
    /// The line of these words.
    pub fn new(words: Vec<OcrWord>) -> (line: OcrLine)
        ensures
            line@ == words_view(words@),
    {
        OcrLine { line: words }
    }

    /// Puts `word` at the end of the line.
    pub fn add_word(&mut self, word: OcrWord)
        ensures
            final(self)@ == old(self)@.push(word@),
    {
        self.line.push(word);
        assert(words_view(self.line@) =~= words_view(old(self).line@).push(word@));
    }

    /// The words of the line, in reading order.
    pub fn words(&self) -> (words: Vec<OcrWord>)
        ensures
            words_view(words@) == self@,
    {
        copy_words(&self.line)
    }

    /// The width of the widest word; 0 for a line without words.
    pub fn width(&self) -> (width: u32)
        ensures
            width == widest(self@),
    {
        let mut width: u32 = 0;
        let mut index: usize = 0;
        assert(self@.take(0) =~= Seq::<WordView>::empty());
        while index < self.line.len()
            invariant
                index <= self.line@.len(),
                self@ == words_view(self.line@),
                width == widest(self@.take(index as int)),
            decreases self.line@.len() - index,
        {
            assert(self@.take(index + 1).drop_last() =~= self@.take(index as int));
            let next = self.line[index].width();
            if next > width {
                width = next;
            }
            index = index + 1;
        }
        assert(self@.take(index as int) =~= self@);
        width
    }

    /// The height of the highest word; 0 for a line without words.
    pub fn height(&self) -> (height: u32)
        ensures
            height == highest(self@),
    {
        let mut height: u32 = 0;
        let mut index: usize = 0;
        assert(self@.take(0) =~= Seq::<WordView>::empty());
        while index < self.line.len()
            invariant
                index <= self.line@.len(),
                self@ == words_view(self.line@),
                height == highest(self@.take(index as int)),
            decreases self.line@.len() - index,
        {
            assert(self@.take(index + 1).drop_last() =~= self@.take(index as int));
            let next = self.line[index].height();
            if next > height {
                height = next;
            }
            index = index + 1;
        }
        assert(self@.take(index as int) =~= self@);
        height
    }

    /// The column of the leftmost word's left edge; `i32::MAX` for a line
    /// without words.
    pub fn x_min(&self) -> (x: i32)
        ensures
            x == leftmost(self@),
    {
        let mut x: i32 = i32::MAX;
        let mut index: usize = 0;
        assert(self@.take(0) =~= Seq::<WordView>::empty());
        while index < self.line.len()
            invariant
                index <= self.line@.len(),
                self@ == words_view(self.line@),
                x == leftmost(self@.take(index as int)),
            decreases self.line@.len() - index,
        {
            assert(self@.take(index + 1).drop_last() =~= self@.take(index as int));
            let next = self.line[index].x_min();
            if next < x {
                x = next;
            }
            index = index + 1;
        }
        assert(self@.take(index as int) =~= self@);
        x
    }

    /// The row of the topmost word's top edge; `i32::MAX` for a line
    /// without words.
    pub fn y_min(&self) -> (y: i32)
        ensures
            y == topmost(self@),
    {
        let mut y: i32 = i32::MAX;
        let mut index: usize = 0;
        assert(self@.take(0) =~= Seq::<WordView>::empty());
        while index < self.line.len()
            invariant
                index <= self.line@.len(),
                self@ == words_view(self.line@),
                y == topmost(self@.take(index as int)),
            decreases self.line@.len() - index,
        {
            assert(self@.take(index + 1).drop_last() =~= self@.take(index as int));
            let next = self.line[index].y_min();
            if next < y {
                y = next;
            }
            index = index + 1;
        }
        assert(self@.take(index as int) =~= self@);
        y
    }
}

/// What the structured lines of a result are.
pub open spec fn rects_view(rects: Seq<OcrLine>) -> Seq<Seq<WordView>> {
    Seq::new(rects.len(), |index: int| rects[index]@)
}

/// What recognition read: the whole text, the text line by line, and the
/// words of each line with their places.
#[derive(Debug)]
pub struct OcrTraitResult {
    pub text: String,
    pub lines: Vec<String>,
    pub rects: Vec<OcrLine>,
}

impl OcrTraitResult {
    /// The text is its lines, joined by line breaks.
    pub open spec fn coherent(self) -> bool {
        self.text@ == joined_with(lines_view(self.lines@), seq![line_break()])
    }

    /// The result that holds nothing.
    pub fn new() -> (result: OcrTraitResult)
        ensures
            result.text@.len() == 0,
            result.lines@.len() == 0,
            result.rects@.len() == 0,
            result.coherent(),
    {
        OcrTraitResult { text: String::new(), lines: Vec::new(), rects: Vec::new() }
    }
}

/// A recognition engine.
pub trait OcrTrait {
    /// The languages and scripts that the engine can read. Called once,
    /// before any recognition.
    fn init(&self) -> Vec<String>;

    /// Reads the image stored at `image_path`.
    fn evaluate_by_paths(&self, image_path: &str) -> Result<OcrTraitResult, OcrError>;

    /// Reads `image`.
    fn evaluate(&self, image: &CapturedImage) -> Result<OcrTraitResult, OcrError>;
}

} // verus!
