//! Decoding raster bytes into RGBA8 images, and resampling decoded images.

use self::DecoderReport::{Decoding, Encoding, Io, Limits, Parameter, Unsupported};
use crate::raster::{DecodedImage, ImageView};
use image::imageops::FilterType;
use image::{DynamicImage, ImageError, ImageReader, RgbaImage};
use std::io::Cursor;
use std::io::ErrorKind::UnexpectedEof;
use vstd::prelude::*;

verus! {

/// Why a byte buffer could not be decoded.
#[derive(Clone, Copy, Debug, PartialEq, Eq, Hash, Structural)]
pub enum DecodeError {
    /// The bytes are not a raster image in any supported format.
    Malformed,
    /// The bytes end before the image that their headers announce.
    Truncated,
}

/// The kind of failure that the raster decoder reports, one for each variant
/// of `image::ImageError`. Of an I/O failure it says whether the bytes ran
/// out.
#[derive(Clone, Copy, Debug, PartialEq, Eq, Hash, Structural)]
pub enum DecoderReport {
    Decoding,
    Encoding,
    Parameter,
    Limits,
    Unsupported,
    Io { end_of_input: bool },
}

/// Plain values taken out of the raster decoder: dimensions and RGBA bytes,
/// not yet checked against each other.
#[derive(Debug)]
pub struct RawRaster {
    pub width: u32,
    pub height: u32,
    pub pixels: Vec<u8>,
}

impl View for RawRaster {
    type V = ImageView;

    open spec fn view(&self) -> ImageView {
        ImageView {
            width: self.width as nat,
            height: self.height as nat,
            pixels: self.pixels@,
        }
    }
}

/// The view of a decoder outcome.
pub open spec fn outcome_view(outcome: Result<RawRaster, DecoderReport>) -> Result<
    ImageView,
    DecoderReport,
> {
    match outcome {
        Ok(raw) => Ok(raw@),
        Err(report) => Err(report),
    }
}

/// The view of a decoding result.
pub open spec fn decoded_view(result: Result<DecodedImage, DecodeError>) -> Result<
    ImageView,
    DecodeError,
> {
    match result {
        Ok(image) => Ok(image@),
        Err(error) => Err(error),
    }
}

/// What the `image` crate makes of a byte buffer: the format is guessed from
/// the first bytes, the image is decoded with the crate's default limits and
/// converted to RGBA8. The decoders are not restated here.
pub uninterp spec fn raster_decoding(bytes: Seq<u8>) -> Result<ImageView, DecoderReport>;

/// Calls `image::ImageReader::new` on a cursor over the bytes, then
/// `with_guessed_format` and `decode`, and takes width, height and the
/// `to_rgba8` buffer out of the decoded image. Trusted: the outcome is the
/// one that the crate's decoders give for these bytes, and depends on nothing
/// else. An error is passed on by its variant; of an I/O error the report
/// keeps whether its kind is `UnexpectedEof`.
#[verifier::external_body]
fn decode_rgba8(bytes: &[u8]) -> (outcome: Result<RawRaster, DecoderReport>)
    ensures
        outcome_view(outcome) == raster_decoding(bytes@),
{
    let decoded = match ImageReader::new(Cursor::new(bytes)).with_guessed_format() {
        Ok(reader) => reader.decode(),
        Err(error) => Err(ImageError::IoError(error)),
    };
    match decoded {
        Ok(p) => Ok(RawRaster { width: p.width(), height: p.height(), pixels: p.to_rgba8().into_raw() }),
        Err(ImageError::Decoding(_)) => Err(Decoding),
        Err(ImageError::Encoding(_)) => Err(Encoding),
        Err(ImageError::Parameter(_)) => Err(Parameter),
        Err(ImageError::Limits(_)) => Err(Limits),
        Err(ImageError::Unsupported(_)) => Err(Unsupported),
        Err(ImageError::IoError(e)) => Err(Io { end_of_input: e.kind() == UnexpectedEof }),
    }
}

/// The error that stands for a decoder report: bytes that ran out are a
/// truncated image; every other report means that the bytes are no image
/// that can be decoded.
pub open spec fn error_of_report(report: DecoderReport) -> DecodeError {
    match report {
        DecoderReport::Io { end_of_input: true } => DecodeError::Truncated,
        _ => DecodeError::Malformed,
    }
}

/// The decoding result that stands for a decoder outcome: a raster whose
/// buffer does not fit its dimensions, or that has no pixels, is malformed.
pub open spec fn decode_outcome(outcome: Result<ImageView, DecoderReport>) -> Result<
    ImageView,
    DecodeError,
> {
    match outcome {
        Ok(raw) => if raw.wf() {
            Ok(raw)
        } else {
            Err(DecodeError::Malformed)
        },
        Err(report) => Err(error_of_report(report)),
    }
}

/// The image that the bytes decode to, or the reason why there is none.
pub open spec fn decode_spec(bytes: Seq<u8>) -> Result<ImageView, DecodeError> {
    decode_outcome(raster_decoding(bytes))
}

/// Turns what the decoder gave into a decoded image or a decoding error.
pub fn decoded_from_outcome(outcome: Result<RawRaster, DecoderReport>) -> (result: Result<
    DecodedImage,
    DecodeError,
>)
    ensures
        decoded_view(result) == decode_outcome(outcome_view(outcome)),
{
    match outcome {
        Ok(raw) => {
            match DecodedImage::from_rgba(raw.width, raw.height, raw.pixels) {
                Some(image) => Ok(image),
                None => Err(DecodeError::Malformed),
            }
        },
        Err(DecoderReport::Io { end_of_input: true }) => Err(DecodeError::Truncated),
        Err(_) => Err(DecodeError::Malformed),
    }
}

/// Decodes raster bytes, whatever their format, into a top-left-origin,
/// row-major RGBA8 image.
pub fn decode(bytes: &[u8]) -> (result: Result<DecodedImage, DecodeError>)
    ensures
        decoded_view(result) == decode_spec(bytes@),
{
    decoded_from_outcome(decode_rgba8(bytes))
}

/// A target dimension as the resampler counts it: never less than one.
pub open spec fn at_least_one(side: u32) -> int {
    if side == 0 {
        1
    } else {
        side as int
    }
}

/// Whether the buffers that resampling to `width` by `height` allocates can
/// exist on this machine: the intermediate buffer of the vertical pass holds
/// sixteen bytes for each pixel, the result four.
pub open spec fn resize_fits(image: ImageView, width: u32, height: u32) -> bool {
    &&& 16 * (image.width * at_least_one(height)) <= isize::MAX
    &&& 4 * (at_least_one(width) * at_least_one(height)) <= isize::MAX
}

/// What holds of every image resampled from `source` for the target
/// `width` by `height`: it is well formed; with the source's own dimensions
/// as the target it is the source; with a positive target it fits within the
/// target and meets it on one side, so the aspect ratio is kept.
pub open spec fn is_resized(source: ImageView, width: u32, height: u32, resized: ImageView) -> bool {
    &&& resized.wf()
    &&& (width == source.width && height == source.height) ==> resized == source
    &&& (width >= 1 && height >= 1) ==> {
        &&& resized.width <= width
        &&& resized.height <= height
        &&& (resized.width == width || resized.height == height)
    }
}

/// Calls `image::DynamicImage::resize` with `FilterType::Lanczos3` on an
/// RGBA8 image made of the raster by `image::RgbaImage::from_raw`, and takes
/// width, height and the `to_rgba8` buffer out of the result. Trusted: a well
/// formed raster is accepted; the result is a copy where the target is the
/// raster's own size, and otherwise has the largest size of the same aspect
/// ratio that fits the target, at least one pixel each way. The resampled
/// bytes go through floating point and are not described.
#[verifier::external_body]
fn resample_lanczos3(source: RawRaster, width: u32, height: u32) -> (resized: Option<RawRaster>)
    requires
        source@.wf(),
        resize_fits(source@, width, height),
    ensures
        resized is Some,
        resized matches Some(raw) ==> is_resized(source@, width, height, raw@),
{
    let source = RgbaImage::from_raw(source.width, source.height, source.pixels)?;
    let scaled = DynamicImage::ImageRgba8(source).resize(width, height, FilterType::Lanczos3);
    let scaled = scaled.to_rgba8();
    Some(RawRaster { width: scaled.width(), height: scaled.height(), pixels: scaled.into_raw() })
}

fn at_least_one_of(side: u32) -> (count: u128)
    ensures
        count == at_least_one(side),
{
    if side == 0 {
        1
    } else {
        side as u128
    }
}

/// Whether `resize` can take this image and target on this machine.
pub fn can_resize(image: &DecodedImage, width: u32, height: u32) -> (fits: bool)
    ensures
        fits == resize_fits(image@, width, height),
{
    let columns = at_least_one_of(width);
    let rows = at_least_one_of(height);
    let own_width = image.width() as u128;
    assert(own_width * rows <= 0x1_0000_0000_0000_0000 && columns * rows
        <= 0x1_0000_0000_0000_0000) by (nonlinear_arith)
        requires
            0 <= own_width <= 0xffff_ffff,
            0 <= columns <= 0xffff_ffff,
            0 <= rows <= 0xffff_ffff,
    ;
    let limit = isize::MAX as u128;
    16 * (own_width * rows) <= limit && 4 * (columns * rows) <= limit
}

/// Resamples a decoded image with a Lanczos filter of three lobes to the
/// largest size of its aspect ratio that fits `width` by `height`. Works on
/// the decoded buffer alone.
pub fn resize(image: &DecodedImage, width: u32, height: u32) -> (resized: DecodedImage)
    requires
        resize_fits(image@, width, height),
    ensures
        is_resized(image@, width, height, resized@),
{
    let source = RawRaster {
        width: image.width(),
        height: image.height(),
        pixels: image.pixels().clone(),
    };
    match resample_lanczos3(source, width, height) {
        Some(raw) => DecodedImage::from_valid_rgba(raw.width, raw.height, raw.pixels),
        None => image.clone(),
    }
}

/// Resamples as `resize` does where the machine can hold the buffers, and
/// returns `None` where it cannot.
pub fn try_resize(image: &DecodedImage, width: u32, height: u32) -> (resized: Option<DecodedImage>)
    ensures
        resized is Some <==> resize_fits(image@, width, height),
        resized matches Some(out) ==> is_resized(image@, width, height, out@),
{
    if can_resize(image, width, height) {
        Some(resize(image, width, height))
    } else {
        None
    }
}

} // verus!
