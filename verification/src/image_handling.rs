//! The image at hand and the fonts to write on it with; and how bytes of
//! unknown kind become an image.

use crate::captured_image::{CapturedImage, ImageView, PixelFormat};
use crate::overlay::{compose, composed, font_usable, CompositionError};
use crate::ocr_traits::{
    bytes_give, image_from_file_or_samples, image_of_bytes, is_valid_png, outcome_view,
    to_imageproc_dynamic_image, to_rusty_tesseract_dynamic_image, ImageError,
};
use crate::raster::{font_height, font_parses, font_readable, starts_as_png};
use crate::text_wrap::GLYPH_ADVANCE_PIXELS;
use vstd::prelude::*;
use vstd::string::*;

verus! {

/// Bytes that may be an image file or bare samples, red, green, blue,
/// alpha, with the extent they are said to have.
#[derive(Debug)]
pub struct RawBitmapImage {
    pub image: Vec<u8>,
    pub width: u32,
    pub height: u32,
}

/// Bytes that may be a PNG file or bare samples, red, green, blue, alpha,
/// with the extent they are said to have.
#[derive(Debug)]
pub struct RawPngImage {
    pub image: Vec<u8>,
    pub width: u32,
    pub height: u32,
}

/// The image at hand, where it came from, and two fonts, regular and bold,
/// as the bytes of their files. Both fonts read.
#[derive(Debug)]
pub struct OCRImage {
    image_path: String,
    dynamic_image: Option<CapturedImage>,
    ttf_font: Vec<u8>,
    ttf_font_bold: Vec<u8>,
}

/// What an `OCRImage` holds.
pub ghost struct OcrImageView {
    pub image_path: Seq<char>,
    pub image: Option<ImageView>,
    pub font: Seq<u8>,
    pub font_bold: Seq<u8>,
}

impl View for OCRImage {
    type V = OcrImageView;

    closed spec fn view(&self) -> OcrImageView {
        OcrImageView {
            image_path: self.image_path@,
            image: match self.dynamic_image {
                Some(image) => Some(image@),
                None => None,
            },
            font: self.ttf_font@,
            font_bold: self.ttf_font_bold@,
        }
    }
}

/// What stands against a pair of fonts, if anything: that one of them does
/// not read, or else that one of them cannot be used at the size of the
/// text.
pub open spec fn fonts_fit(font: Seq<u8>, font_bold: Seq<u8>) -> Option<CompositionError> {
    if !(font_readable(font) && font_readable(font_bold)) {
        Some(CompositionError::FontUnreadable)
    } else if !(font_usable(font) && font_usable(font_bold)) {
        Some(CompositionError::FontUnusable)
    } else {
        None
    }
}

impl OCRImage {
    #[verifier::type_invariant]
    spec fn fonts_read(self) -> bool {
        &&& font_readable(self.ttf_font@)
        &&& font_readable(self.ttf_font_bold@)
        &&& font_usable(self.ttf_font@)
        &&& font_usable(self.ttf_font_bold@)
    }

    /// Sets up the fonts, with no image yet. Fails if either font is no
    /// font, or cannot be used at the size of the text.
    pub fn new(font: Vec<u8>, font_bold: Vec<u8>) -> (out: Result<OCRImage, CompositionError>)
        ensures
            match out {
                Ok(made) => fonts_fit(font@, font_bold@) is None && made@ == (OcrImageView {
                    image_path: Seq::empty(),
                    image: None,
                    font: font@,
                    font_bold: font_bold@,
                }),
                Err(error) => fonts_fit(font@, font_bold@) == Some(error),
            },
    {
        if !font_parses(font.as_slice()) || !font_parses(font_bold.as_slice()) {
            return Err(CompositionError::FontUnreadable);
        }
        let floor = GLYPH_ADVANCE_PIXELS as i32;
        if font_height(font.as_slice()) < floor || font_height(font_bold.as_slice()) < floor {
            return Err(CompositionError::FontUnusable);
        }
        Ok(
            OCRImage {
                image_path: String::new(),
                dynamic_image: None,
                ttf_font: font,
                ttf_font_bold: font_bold,
            },
        )
    }

    /// Where the image came from; empty if it came from no file.
    pub fn get_image_path(&self) -> (path: &str)
        ensures
            path@ == self@.image_path,
    {
        self.image_path.as_str()
    }

    /// Notes where the image came from.
    pub fn set_image_path(&mut self, path: &str)
        ensures
            final(self)@ == (OcrImageView { image_path: path@, ..old(self)@ }),
    {
        proof {
            use_type_invariant(&*self);
        }
        self.image_path = path.to_owned();
    }

    /// The regular font, as the bytes of its file.
    pub fn get_font(&self) -> (font: &Vec<u8>)
        ensures
            font@ == self@.font,
            font_readable(font@),
            font_usable(font@),
    {
        proof {
            use_type_invariant(self);
        }
        &self.ttf_font
    }

    /// The bold font, as the bytes of its file.
    pub fn get_font_bold(&self) -> (font: &Vec<u8>)
        ensures
            font@ == self@.font_bold,
            font_readable(font@),
            font_usable(font@),
    {
        proof {
            use_type_invariant(self);
        }
        &self.ttf_font_bold
    }

    /// Takes `img` for the image at hand.
    pub fn set_image(&mut self, img: CapturedImage)
        ensures
            final(self)@ == (OcrImageView { image: Some(img@), ..old(self)@ }),
    {
        proof {
            use_type_invariant(&*self);
        }
        self.dynamic_image = Some(img);
    }

    /// The image at hand, if there is one.
    pub fn get_possible_image(&self) -> (image: Option<&CapturedImage>)
        ensures
            match image {
                Some(held) => self@.image == Some(held@),
                None => self@.image is None,
            },
    {
        self.dynamic_image.as_ref()
    }

    /// The image at hand.
    pub fn get_image(&self) -> (image: &CapturedImage)
        requires
            self@.image is Some,
        ensures
            self@.image == Some(image@),
    {
        self.dynamic_image.as_ref().unwrap()
    }

    /// The image at hand, as `get_image` gives it.
    pub fn get_dynamic_image(&self) -> (image: &CapturedImage)
        requires
            self@.image is Some,
        ensures
            self@.image == Some(image@),
    {
        self.get_image()
    }

    /// The samples of the image at hand; none if there is no image.
    pub fn get_image_bytes(&self) -> (bytes: &[u8])
        ensures
            match self@.image {
                Some(held) => bytes@ == held.samples,
                None => bytes@.len() == 0,
            },
    {
        match &self.dynamic_image {
            Some(img) => img.as_bytes().as_slice(),
            None => &[],
        }
    }

    /// Whether the samples of the image at hand start with the PNG
    /// signature. Holds of no image's samples but by accident.
    pub fn is_png(&self) -> (png: bool)
        ensures
            png == match self@.image {
                Some(held) => starts_as_png(held.samples),
                None => false,
            },
    {
        match &self.dynamic_image {
            Some(img) => is_valid_png(img.as_bytes().as_slice()),
            None => false,
        }
    }

    /// Whether `image` is to be read as a PNG file: whether it starts with
    /// the PNG signature.
    pub fn is_valid_png(image: &[u8]) -> (valid: bool)
        ensures
            valid == starts_as_png(image@),
    {
        is_valid_png(image)
    }

    /// Makes an image of bytes of unknown kind: bytes that start like a PNG
    /// file are decoded, all others are taken for the samples of a
    /// canonical image `width` by `height`.
    pub fn to_imageproc_dynamic_image(image: &[u8], width: u32, height: u32) -> (out: Result<
        CapturedImage,
        ImageError,
    >)
        ensures
            image_of_bytes(image@, width as int, height as int, out),
    {
        to_imageproc_dynamic_image(image, width, height)
    }

    /// Makes an image of bytes of unknown kind, as
    /// `to_imageproc_dynamic_image` does.
    pub fn to_rusty_tesseract_dynamic_image(image: &[u8], width: u32, height: u32) -> (out: Result<
        CapturedImage,
        ImageError,
    >)
        ensures
            image_of_bytes(image@, width as int, height as int, out),
    {
        to_rusty_tesseract_dynamic_image(image, width, height)
    }

    /// Takes the image that `raw_image` holds for the image at hand and
    /// gives a copy of it. What does not decode as an image file is taken
    /// for bare samples: the first `width * height` pixels of the bytes.
    pub fn from_raw_bytes(&mut self, raw_image: RawBitmapImage) -> (out: Result<
        CapturedImage,
        ImageError,
    >)
        ensures
            bytes_give(
                raw_image.image@,
                raw_image.width as int,
                raw_image.height as int,
                outcome_view(out),
            ),
            match out {
                Ok(made) => made@.format == PixelFormat::Rgba8 && made@.well_formed() && final(self)@
                    == (OcrImageView { image: Some(made@), ..old(self)@ }),
                Err(error) => error == ImageError::TooFewSamples && raw_image.image@.len()
                    < raw_image.width * raw_image.height * 4 && final(self)@ == old(self)@,
            },
    {
        self.take_bytes(raw_image.image.as_slice(), raw_image.width, raw_image.height)
    }

    /// Takes the image that `image` holds for the image at hand and gives a
    /// copy of it. What does not decode as an image file is taken for bare
    /// samples: the first `width * height` pixels of the bytes.
    pub fn from_png_bytes(&mut self, image: RawPngImage) -> (out: Result<CapturedImage, ImageError>)
        ensures
            bytes_give(image.image@, image.width as int, image.height as int, outcome_view(out)),
            match out {
                Ok(made) => made@.format == PixelFormat::Rgba8 && made@.well_formed() && final(self)@
                    == (OcrImageView { image: Some(made@), ..old(self)@ }),
                Err(error) => error == ImageError::TooFewSamples && image.image@.len() < image.width
                    * image.height * 4 && final(self)@ == old(self)@,
            },
    {
        self.take_bytes(image.image.as_slice(), image.width, image.height)
    }

    /// Makes an image of `bytes` and, if that gives one, takes it for the
    /// image at hand and gives a copy of it.
    fn take_bytes(&mut self, bytes: &[u8], width: u32, height: u32) -> (out: Result<
        CapturedImage,
        ImageError,
    >)
        ensures
            bytes_give(bytes@, width as int, height as int, outcome_view(out)),
            match out {
                Ok(made) => made@.format == PixelFormat::Rgba8 && made@.well_formed() && final(self)@
                    == (OcrImageView { image: Some(made@), ..old(self)@ }),
                Err(error) => error == ImageError::TooFewSamples && bytes@.len() < width * height * 4
                    && final(self)@ == old(self)@,
            },
    {
        match image_from_file_or_samples(bytes, width, height) {
            Ok(made) => {
                let copy = made.duplicate();
                self.set_image(made);
                Ok(copy)
            },
            Err(error) => Err(error),
        }
    }

    /// Lays `text` over the image at hand, set in the bold font, and gives
    /// the result. The image at hand stays as it is.
    pub fn overlay_text(&self, text: &str, textx: i32, texty: i32) -> (out: Result<
        CapturedImage,
        CompositionError,
    >)
        ensures
            match self@.image {
                None => out matches Err(error) && error == CompositionError::NoImage,
                Some(held) => match out {
                    Ok(image) => composed(
                        held,
                        text@,
                        textx as int,
                        texty as int,
                        self@.font_bold,
                    ) == Ok::<ImageView, CompositionError>(image@) && image@.well_formed(),
                    Err(error) => composed(
                        held,
                        text@,
                        textx as int,
                        texty as int,
                        self@.font_bold,
                    ) == Err::<ImageView, CompositionError>(error),
                },
            },
    {
        match &self.dynamic_image {
            Some(base) => compose(base, text, textx, texty, self.ttf_font_bold.as_slice()),
            None => Err(CompositionError::NoImage),
        }
    }
}

} // verus!
