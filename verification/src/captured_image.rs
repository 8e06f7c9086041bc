//! The pixel buffer that travels through one tick: captured from the screen,
//! read by recognition, painted on by the compositor, handed to the window.

use crate::raster::{
    encode_png, grayscale, grayscale_samples, into_rgba8, png_file, rgba8_samples, starts_as_png,
};
use vstd::prelude::*;

verus! {

/// How the samples of one pixel are laid out. All samples are 8 bits wide.
#[derive(Clone, Copy, Debug, PartialEq, Eq, Structural)]
pub enum PixelFormat {
    /// One gray sample.
    Luma8,
    /// Gray, then alpha.
    LumaA8,
    /// Red, green, blue.
    Rgb8,
    /// Red, green, blue, alpha: the canonical format.
    Rgba8,
}

impl PixelFormat {
    /// Samples per pixel.
    pub open spec fn channels(self) -> int {
        match self {
            PixelFormat::Luma8 => 1,
            PixelFormat::LumaA8 => 2,
            PixelFormat::Rgb8 => 3,
            PixelFormat::Rgba8 => 4,
        }
    }

    /// Whether the last sample of a pixel is its opacity.
    pub open spec fn carries_alpha(self) -> bool {
        self == PixelFormat::LumaA8 || self == PixelFormat::Rgba8
    }

    /// Samples per pixel.
    pub fn channel_count(self) -> (n: u8)
        ensures
            n == self.channels(),
    {
        match self {
            PixelFormat::Luma8 => 1,
            PixelFormat::LumaA8 => 2,
            PixelFormat::Rgb8 => 3,
            PixelFormat::Rgba8 => 4,
        }
    }

    /// Whether the last sample of a pixel is its opacity.
    pub fn has_alpha(self) -> (b: bool)
        ensures
            b == self.carries_alpha(),
    {
        match self {
            PixelFormat::LumaA8 => true,
            PixelFormat::Rgba8 => true,
            _ => false,
        }
    }
}

/// What an image is: its format, its extent, and its samples row by row.
pub ghost struct ImageView {
    pub format: PixelFormat,
    pub width: int,
    pub height: int,
    pub samples: Seq<u8>,
}

impl ImageView {
    /// The number of samples that the extent and the format call for.
    pub open spec fn sample_count(self) -> int {
        self.width * self.height * self.format.channels()
    }

    /// The samples fill the extent exactly.
    pub open spec fn well_formed(self) -> bool {
        &&& 0 <= self.width <= u32::MAX
        &&& 0 <= self.height <= u32::MAX
        &&& self.samples.len() == self.sample_count()
    }

    /// The image in the canonical format: itself if it is canonical already,
    /// else what the conversion makes of it.
    pub open spec fn normalized(self) -> ImageView {
        if self.format == PixelFormat::Rgba8 {
            self
        } else {
            ImageView {
                format: PixelFormat::Rgba8,
                width: self.width,
                height: self.height,
                samples: rgba8_samples(self.format, self.width, self.height, self.samples),
            }
        }
    }

    /// The image as a PNG file, where the encoder writes one of it.
    pub open spec fn encoded(self) -> Option<Seq<u8>> {
        png_file(self.format, self.width, self.height, self.samples)
    }

    /// The image in shades of gray. Opacity is kept where the format has it.
    pub open spec fn grayed(self) -> ImageView {
        ImageView {
            format: if self.format.carries_alpha() {
                PixelFormat::LumaA8
            } else {
                PixelFormat::Luma8
            },
            width: self.width,
            height: self.height,
            samples: grayscale_samples(self.format, self.width, self.height, self.samples),
        }
    }
}

/// An owned pixel buffer with its extent. The samples always fill the
/// extent exactly.
#[derive(Debug)]
pub struct CapturedImage {
    format: PixelFormat,
    width: u32,
    height: u32,
    data: Vec<u8>,
}

impl View for CapturedImage {
    type V = ImageView;

    closed spec fn view(&self) -> ImageView {
        ImageView {
            format: self.format,
            width: self.width as int,
            height: self.height as int,
            samples: self.data@,
        }
    }
}

/// `width * height * channels`, when it fits the machine.
pub fn checked_sample_count(format: PixelFormat, width: u32, height: u32) -> (n: Option<usize>)
    ensures
        match n {
            Some(n) => n == width * height * format.channels(),
            None => width * height * format.channels() > usize::MAX,
        },
{
    let channels: u128 = format.channel_count() as u128;
    assert(0 <= (width as int) * (height as int) <= 0xffff_ffff * 0xffff_ffff) by (nonlinear_arith)
        requires
            0 <= width <= 0xffff_ffff,
            0 <= height <= 0xffff_ffff,
    ;
    let area: u128 = (width as u128) * (height as u128);
    assert(0 <= (area as int) * (channels as int) <= 0xffff_ffff * 0xffff_ffff * 4)
        by (nonlinear_arith)
        requires
            0 <= area <= 0xffff_ffff * 0xffff_ffff,
            1 <= channels <= 4,
    ;
    let total: u128 = area * channels;
    if total <= usize::MAX as u128 {
        Some(total as usize)
    } else {
        None
    }
}

impl CapturedImage {
    #[verifier::type_invariant]
    spec fn filled(self) -> bool {
        self.data@.len() == self.width * self.height * self.format.channels()
    }

    /// An image over `data`, if `data` holds exactly `width * height` pixels.
    pub fn from_raw(format: PixelFormat, width: u32, height: u32, data: Vec<u8>) -> (out: Option<
        CapturedImage,
    >)
        ensures
            out is Some <==> data@.len() == width * height * format.channels(),
            out matches Some(img) ==> img@ == (ImageView {
                format,
                width: width as int,
                height: height as int,
                samples: data@,
            }),
    {
        let len = data.len();
        match checked_sample_count(format, width, height) {
            Some(n) => {
                if len == n {
                    Some(CapturedImage { format, width, height, data })
                } else {
                    None
                }
            },
            None => None,
        }
    }

    /// A fully transparent canonical image, if one of that extent fits the
    /// machine.
    pub fn transparent(width: u32, height: u32) -> (out: Option<CapturedImage>)
        ensures
            out is Some <==> width * height * 4 <= usize::MAX,
            out matches Some(img) ==> img@ == (ImageView {
                format: PixelFormat::Rgba8,
                width: width as int,
                height: height as int,
                samples: Seq::new((width * height * 4) as nat, |i: int| 0u8),
            }),
    {
        match checked_sample_count(PixelFormat::Rgba8, width, height) {
            Some(n) => {
                let data = vec![0u8; n];
                assert(data@ =~= Seq::new((width * height * 4) as nat, |i: int| 0u8));
                Some(CapturedImage { format: PixelFormat::Rgba8, width, height, data })
            },
            None => None,
        }
    }

    /// The layout of a pixel.
    pub fn format(&self) -> (f: PixelFormat)
        ensures
            f == self@.format,
            self@.well_formed(),
    {
        proof {
            use_type_invariant(self);
        }
        self.format
    }

    /// Pixels per row.
    pub fn width(&self) -> (w: u32)
        ensures
            w == self@.width,
            self@.well_formed(),
    {
        proof {
            use_type_invariant(self);
        }
        self.width
    }

    /// Rows.
    pub fn height(&self) -> (h: u32)
        ensures
            h == self@.height,
            self@.well_formed(),
    {
        proof {
            use_type_invariant(self);
        }
        self.height
    }

    /// The samples, row by row.
    pub fn as_bytes(&self) -> (bytes: &Vec<u8>)
        ensures
            bytes@ == self@.samples,
            self@.well_formed(),
    {
        proof {
            use_type_invariant(self);
        }
        &self.data
    }

    /// Gives up the image for its samples.
    pub fn into_raw(self) -> (bytes: Vec<u8>)
        ensures
            bytes@ == self@.samples,
            self@.well_formed(),
    {
        proof {
            use_type_invariant(&self);
        }
        self.data
    }

    /// A copy that shares nothing with this image.
    pub fn duplicate(&self) -> (out: CapturedImage)
        ensures
            out@ == self@,
            self@.well_formed(),
    {
        proof {
            use_type_invariant(self);
        }
        let data = self.data.clone();
        assert(data@ =~= self.data@);
        CapturedImage { format: self.format, width: self.width, height: self.height, data }
    }
}

impl CapturedImage {
    /// The image in the canonical format. An image that is canonical already
    /// is copied sample for sample.
    pub fn to_rgba8(&self) -> (out: CapturedImage)
        ensures
            out@ == self@.normalized(),
            out@.well_formed(),
            out@.format == PixelFormat::Rgba8,
            self@.format == PixelFormat::Rgba8 ==> out@ == self@,
    {
        proof {
            use_type_invariant(self);
        }
        match self.format {
            PixelFormat::Rgba8 => self.duplicate(),
            _ => {
                let samples = into_rgba8(self.format, self.width, self.height, self.data.clone());
                CapturedImage {
                    format: PixelFormat::Rgba8,
                    width: self.width,
                    height: self.height,
                    data: samples,
                }
            },
        }
    }

    /// The image as a PNG file, if the encoder can write one of it.
    pub fn to_png(&self) -> (file: Option<Vec<u8>>)
        ensures
            match file {
                Some(bytes) => self@.encoded() == Some(bytes@) && starts_as_png(bytes@),
                None => self@.encoded() is None,
            },
    {
        proof {
            use_type_invariant(self);
        }
        encode_png(self.format, self.width, self.height, self.data.as_slice())
    }

    /// The image in shades of gray, as recognition wants it.
    pub fn to_grayscale(&self) -> (out: CapturedImage)
        ensures
            out@ == self@.grayed(),
            out@.well_formed(),
    {
        proof {
            use_type_invariant(self);
        }
        let samples = grayscale(self.format, self.width, self.height, self.data.clone());
        let format = if self.format.has_alpha() {
            PixelFormat::LumaA8
        } else {
            PixelFormat::Luma8
        };
        CapturedImage { format, width: self.width, height: self.height, data: samples }
    }
}

/// Sample `index` of a canonical image made from samples in the order blue,
/// green, red, unused: red and blue change places, and every pixel is opaque.
pub open spec fn from_screen_order(samples: Seq<u8>, index: int) -> u8 {
    if index % 4 == 0 {
        samples[index + 2]
    } else if index % 4 == 1 {
        samples[index]
    } else if index % 4 == 2 {
        samples[index - 2]
    } else {
        255u8
    }
}

impl CapturedImage {
    /// The image that a screen grab holds: `width * height` pixels in the
    /// order blue, green, red, unused. `None` if `samples` holds fewer
    /// pixels, or more.
    pub fn from_bgrx(width: u32, height: u32, samples: &[u8]) -> (out: Option<CapturedImage>)
        ensures
            out is Some <==> samples@.len() == width * height * 4,
            out matches Some(image) ==> image@ == (ImageView {
                format: PixelFormat::Rgba8,
                width: width as int,
                height: height as int,
                samples: Seq::new(samples@.len(), |index: int| from_screen_order(samples@, index)),
            }),
    {
        let len = samples.len();
        match checked_sample_count(PixelFormat::Rgba8, width, height) {
            Some(n) => {
                if len != n {
                    return None;
                }
            },
            None => {
                return None;
            },
        }
        let mut data: Vec<u8> = Vec::new();
        let mut at: usize = 0;
        while at < len
            invariant
                len == samples@.len(),
                len % 4 == 0,
                at % 4 == 0,
                at <= len,
                data@.len() == at,
                forall|index: int|
                    0 <= index < at ==> #[trigger] data@[index] == from_screen_order(
                        samples@,
                        index,
                    ),
            decreases len - at,
        {
            data.push(samples[at + 2]);
            data.push(samples[at + 1]);
            data.push(samples[at]);
            data.push(255);
            at = at + 4;
        }
        assert(data@ =~= Seq::new(samples@.len(), |index: int| from_screen_order(samples@, index)));
        Some(CapturedImage { format: PixelFormat::Rgba8, width, height, data })
    }

    /// The image as a window surface takes it: in the canonical format with
    /// red and blue changed places and every pixel opaque.
    pub fn to_bgrx(&self) -> (out: Vec<u8>)
        ensures
            out@ == Seq::new(
                self@.normalized().samples.len(),
                |index: int| from_screen_order(self@.normalized().samples, index),
            ),
            out@.len() == self@.width * self@.height * 4,
    {
        let canonical = self.to_rgba8();
        let samples = canonical.as_bytes();
        let len = samples.len();
        let mut out: Vec<u8> = Vec::new();
        let mut at: usize = 0;
        assert(len % 4 == 0) by {
            assert(len == (canonical@.width * canonical@.height) * 4) by (nonlinear_arith)
                requires
                    len == canonical@.width * canonical@.height * 4,
            ;
        }
        while at < len
            invariant
                len == samples@.len(),
                len % 4 == 0,
                at % 4 == 0,
                at <= len,
                out@.len() == at,
                forall|index: int|
                    0 <= index < at ==> #[trigger] out@[index] == from_screen_order(
                        samples@,
                        index,
                    ),
            decreases len - at,
        {
            out.push(samples[at + 2]);
            out.push(samples[at + 1]);
            out.push(samples[at]);
            out.push(255);
            at = at + 4;
        }
        assert(out@ =~= Seq::new(samples@.len(), |index: int| from_screen_order(samples@, index)));
        out
    }

    /// The canonical image whose samples are the first `width * height`
    /// pixels of `samples`, if there are that many.
    pub fn from_rgba_prefix(width: u32, height: u32, samples: &[u8]) -> (out: Option<
        CapturedImage,
    >)
        ensures
            out is Some <==> samples@.len() >= width * height * 4,
            out matches Some(image) ==> image@ == (ImageView {
                format: PixelFormat::Rgba8,
                width: width as int,
                height: height as int,
                samples: samples@.take(width * height * 4),
            }),
    {
        let len = samples.len();
        let needed = match checked_sample_count(PixelFormat::Rgba8, width, height) {
            Some(n) => n,
            None => {
                return None;
            },
        };
        if len < needed {
            return None;
        }
        let mut data: Vec<u8> = Vec::new();
        let mut at: usize = 0;
        while at < needed
            invariant
                needed <= samples@.len(),
                at <= needed,
                data@ == samples@.take(at as int),
            decreases needed - at,
        {
            data.push(samples[at]);
            assert(samples@.take(at as int).push(samples@[at as int]) =~= samples@.take(at + 1));
            at = at + 1;
        }
        Some(CapturedImage { format: PixelFormat::Rgba8, width, height, data })
    }
}

/// Normalizing twice is normalizing once: the canonical format is a fixed
/// point of the conversion.
pub proof fn lemma_normalized_idempotent(image: ImageView)
    ensures
        image.normalized().format == PixelFormat::Rgba8,
        image.normalized().normalized() == image.normalized(),
        image.format == PixelFormat::Rgba8 ==> image.normalized() == image,
{
}

impl Clone for CapturedImage {
    fn clone(&self) -> (out: CapturedImage)
        ensures
            out@ == self@,
    {
        self.duplicate()
    }
}

} // verus!
