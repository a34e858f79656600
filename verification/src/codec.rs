//! Decoding of stored objects into RGBA rasters and their encoding as PNG.
//!
//! The codecs themselves are those of the `image` crate. What they compute
//! is not restated here: each of the two conversions has a name, and the
//! functions of this module say how their results follow from those names.

use vstd::prelude::*;

verus! {

/// `image::ImageError`, the error of every operation of `image`. Nothing
/// is known of a value of it; it is turned into text and dropped.
#[verifier::external_type_specification]
#[verifier::external_body]
pub struct ExImageError(image::ImageError);

/// What `image` makes of `bytes`: width, height and the 8-bit RGBA samples
/// of the picture they encode, row by row, or nothing where `image` does
/// not recognise or cannot decode them.
pub uninterp spec fn decoded_rgba8(bytes: Seq<u8>) -> Option<(u32, u32, Seq<u8>)>;

/// The PNG file that `image` writes for 8-bit RGBA `samples` of a picture
/// `width` wide and `height` high, or nothing where its encoder fails.
pub uninterp spec fn png_encoded(samples: Seq<u8>, width: u32, height: u32) -> Option<Seq<u8>>;

/// A picture as the pipeline sees it: its size and its samples.
pub struct Raster {
    pub width: u32,
    pub height: u32,
    pub pixels: Seq<u8>,
}

impl Raster {
    /// Four samples for each pixel, no more and no fewer.
    pub open spec fn is_consistent(self) -> bool {
        self.pixels.len() == 4 * self.width * self.height
    }
}

/// The raster that a byte sequence decodes to, if it is an image.
pub open spec fn decoding(bytes: Seq<u8>) -> Option<Raster> {
    match decoded_rgba8(bytes) {
        Some((width, height, pixels)) => Some(Raster { width, height, pixels }),
        None => None,
    }
}

/// The PNG encoding of a raster: that of the encoder where the raster is
/// consistent, none where it is not.
pub open spec fn png_of(raster: Raster) -> Option<Seq<u8>> {
    if raster.is_consistent() {
        png_encoded(raster.pixels, raster.width, raster.height)
    } else {
        None
    }
}

/// A decoded picture: 8-bit RGBA samples, row by row, with its dimensions.
#[derive(Clone, Debug)]
pub struct DecodedImage {
    pub width: u32,
    pub height: u32,
    pub pixels: Vec<u8>,
}

impl View for DecodedImage {
    type V = Raster;

    open spec fn view(&self) -> Raster {
        Raster { width: self.width, height: self.height, pixels: self.pixels@ }
    }
}

/// The bytes were not an image that could be decoded.
#[derive(Clone, Debug)]
pub struct DecodeError {
    /// The decoder's own account of what went wrong.
    pub message: String,
}

/// The picture could not be written as PNG.
#[derive(Clone, Debug)]
pub enum EncodeError {
    /// The number of samples does not fit the dimensions.
    InconsistentDimensions,
    /// The encoder itself gave up; the text is its own account.
    Encoder { message: String },
}

impl EncodeError {
    /// A line of text for a log.
    pub fn message(&self) -> (text: String)
        ensures
            self matches EncodeError::Encoder { message } ==> text@ == message@,
            self is InconsistentDimensions ==> text@
                == "pixel buffer does not match the image dimensions"@,
    {
        match self {
            EncodeError::InconsistentDimensions => {
                "pixel buffer does not match the image dimensions".to_owned()
            },
            EncodeError::Encoder { message } => message.clone(),
        }
    }
}

impl DecodedImage {
    /// Whether the buffer holds exactly four samples per pixel.
    pub fn has_consistent_dimensions(&self) -> (consistent: bool)
        ensures
            consistent == self@.is_consistent(),
    {
        let width: u64 = self.width as u64;
        let height: u64 = self.height as u64;
        assert(width * height <= 0xffff_ffff * 0xffff_ffff) by (nonlinear_arith)
            requires
                width <= 0xffff_ffff,
                height <= 0xffff_ffff,
        ;
        let area: u64 = width * height;
        let length: usize = self.pixels.len();
        assert(4 * self.width * self.height == 4 * area) by (nonlinear_arith)
            requires
                area == self.width * self.height,
        ;
        area <= u64::MAX / 4 && length as u64 == 4 * area
    }
}

/// Decodes `bytes`, whatever supported format they are in, into an RGBA
/// raster.
pub fn decode(bytes: &[u8]) -> (decoded: Result<DecodedImage, DecodeError>)
    ensures
        match decoded {
            Ok(image) => decoding(bytes@) == Some(image@),
            Err(_) => decoding(bytes@) is None,
        },
{
    match load_rgba8(bytes) {
        Ok((width, height, pixels)) => Ok(DecodedImage { width, height, pixels }),
        Err(error) => Err(DecodeError { message: describe(&error) }),
    }
}

/// Writes `image` as a PNG file.
pub fn encode_png(image: DecodedImage) -> (encoded: Result<Vec<u8>, EncodeError>)
    ensures
        match encoded {
            Ok(png) => png_of(image@) == Some(png@),
            Err(EncodeError::InconsistentDimensions) => !image@.is_consistent(),
            Err(EncodeError::Encoder { .. }) => image@.is_consistent() && png_of(image@) is None,
        },
{
    if !image.has_consistent_dimensions() {
        return Err(EncodeError::InconsistentDimensions);
    }
    match write_png(image.pixels.as_slice(), image.width, image.height) {
        Ok(png) => Ok(png),
        Err(error) => Err(EncodeError::Encoder { message: describe(&error) }),
    }
}

/// A picture written as PNG, with the dimensions it was decoded with.
#[derive(Clone, Debug)]
pub struct EncodedPng {
    pub width: u32,
    pub height: u32,
    pub bytes: Vec<u8>,
}

/// An `EncodedPng` as plain values.
pub struct PngView {
    pub width: u32,
    pub height: u32,
    pub bytes: Seq<u8>,
}

impl View for EncodedPng {
    type V = PngView;

    open spec fn view(&self) -> PngView {
        PngView { width: self.width, height: self.height, bytes: self.bytes@ }
    }
}

/// Why an object could not be turned into a PNG.
#[derive(Clone, Debug)]
pub enum ConversionError {
    Decode(DecodeError),
    Encode(EncodeError),
}

/// The kinds of failure of a conversion, without the decoder's or the
/// encoder's wording.
pub enum Failure {
    /// The bytes did not decode.
    Undecodable,
    /// The decoded buffer did not fit its dimensions.
    InconsistentDimensions,
    /// The encoder gave up.
    Unencodable,
}

impl View for EncodeError {
    type V = Failure;

    open spec fn view(&self) -> Failure {
        match self {
            EncodeError::InconsistentDimensions => Failure::InconsistentDimensions,
            EncodeError::Encoder { .. } => Failure::Unencodable,
        }
    }
}

impl View for ConversionError {
    type V = Failure;

    open spec fn view(&self) -> Failure {
        match self {
            ConversionError::Decode(_) => Failure::Undecodable,
            ConversionError::Encode(error) => error@,
        }
    }
}

/// What converting `bytes` comes to: the PNG of the raster they decode to,
/// or the step at which the conversion fails.
pub open spec fn conversion(bytes: Seq<u8>) -> Result<PngView, Failure> {
    match decoding(bytes) {
        None => Err(Failure::Undecodable),
        Some(raster) => if !raster.is_consistent() {
            Err(Failure::InconsistentDimensions)
        } else {
            match png_of(raster) {
                None => Err(Failure::Unencodable),
                Some(png) => Ok(PngView { width: raster.width, height: raster.height, bytes: png }),
            }
        },
    }
}

/// The view of the result of a conversion.
pub open spec fn converted_view(converted: Result<EncodedPng, ConversionError>) -> Result<
    PngView,
    Failure,
> {
    match converted {
        Ok(png) => Ok(png@),
        Err(error) => Err(error@),
    }
}

/// Decodes `bytes` and writes the picture again as PNG.
pub fn convert(bytes: &[u8]) -> (converted: Result<EncodedPng, ConversionError>)
    ensures
        converted_view(converted) == conversion(bytes@),
{
    match decode(bytes) {
        Err(error) => Err(ConversionError::Decode(error)),
        Ok(image) => {
            let width: u32 = image.width;
            let height: u32 = image.height;
            match encode_png(image) {
                Err(error) => Err(ConversionError::Encode(error)),
                Ok(bytes) => Ok(EncodedPng { width, height, bytes }),
            }
        },
    }
}

/// Calls `image::guess_format` and `image::load_from_memory_with_format`,
/// then `DynamicImage::into_rgba8`, and hands out the buffer of the result
/// with its width and height. These are the two steps of
/// `image::load_from_memory`, taken without the format hooks that a process
/// may register with `image`: the format is read from the leading bytes and
/// from nothing else. The contract claims that the outcome depends on the
/// bytes alone, which is why it can carry a name: the decoders read no
/// clock, no environment and no source of chance. Nothing is claimed about
/// what the samples are, nor about how many there are.
#[verifier::external_body]
fn load_rgba8(bytes: &[u8]) -> (loaded: Result<(u32, u32, Vec<u8>), image::ImageError>)
    ensures
        match loaded {
            Ok((width, height, pixels)) => decoded_rgba8(bytes@) == Some((width, height, pixels@)),
            Err(_) => decoded_rgba8(bytes@) is None,
        },
{
    let format = image::guess_format(bytes)?;
    let rgba = image::load_from_memory_with_format(bytes, format)?.into_rgba8();
    Ok((rgba.width(), rgba.height(), rgba.into_raw()))
}

/// Calls `write_image` of `image::codecs::png::PngEncoder`, made by
/// `PngEncoder::new` over an empty buffer, with the colour type `Rgba8`.
/// That method panics unless the buffer holds four bytes per pixel, so the
/// contract asks for it. It claims that the file written depends on the
/// samples and the dimensions alone: the encoder is made with its default
/// settings every time. Nothing is claimed about what the file holds.
#[verifier::external_body]
fn write_png(pixels: &[u8], width: u32, height: u32) -> (written: Result<
    Vec<u8>,
    image::ImageError,
>)
    requires
        pixels@.len() == 4 * width * height,
    ensures
        match written {
            Ok(png) => png_encoded(pixels@, width, height) == Some(png@),
            Err(_) => png_encoded(pixels@, width, height) is None,
        },
{
    let mut png = Vec::new();
    let encoder = image::codecs::png::PngEncoder::new(&mut png);
    let colour = image::ExtendedColorType::Rgba8;
    image::ImageEncoder::write_image(encoder, pixels, width, height, colour)?;
    Ok(png)
}

/// Calls `to_string` on an `image::ImageError`, which goes through the
/// error's `Display`. Nothing is claimed about the text.
#[verifier::external_body]
fn describe(error: &image::ImageError) -> String {
    error.to_string()
}

} // verus!
