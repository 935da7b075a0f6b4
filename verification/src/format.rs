//! The encodings an uploaded image may come in, told apart by the first bytes
//! of the data and never by what the client says it sent.

use crate::error::AppError;
use ::image::{ImageError, ImageFormat, ImageReader};
use std::io::Cursor;
use vstd::prelude::*;

verus! {

/// An encoding the service accepts.
#[derive(Clone, Copy, Debug, PartialEq, Eq, Structural)]
pub enum SupportedFormat {
    Jpeg,
    Png,
    Webp,
}

/// What the first bytes of some data were taken for.
#[derive(Clone, Copy, Debug, PartialEq, Eq, Structural)]
pub enum Detected {
    Jpeg,
    Png,
    WebP,
    /// An image format, but none of the three above.
    Other,
    /// No image format at all.
    Unknown,
}

/// The eight bytes every PNG file starts with.
pub open spec fn png_signature() -> Seq<u8> {
    seq![0x89u8, 0x50u8, 0x4eu8, 0x47u8, 0x0du8, 0x0au8, 0x1au8, 0x0au8]
}

/// The three bytes every JPEG file starts with.
pub open spec fn jpeg_signature() -> Seq<u8> {
    seq![0xffu8, 0xd8u8, 0xffu8]
}

/// `RIFF`, the container tag a WebP file starts with.
pub open spec fn riff_tag() -> Seq<u8> {
    seq![0x52u8, 0x49u8, 0x46u8, 0x46u8]
}

/// `WEBP`, the form tag that follows the length field of the container.
pub open spec fn webp_tag() -> Seq<u8> {
    seq![0x57u8, 0x45u8, 0x42u8, 0x50u8]
}

/// Whether `data` begins with `signature`.
pub open spec fn starts_with(data: Seq<u8>, signature: Seq<u8>) -> bool {
    data.len() >= signature.len() && data.subrange(0, signature.len() as int) == signature
}

/// Whether `data` begins like a WebP file: `RIFF`, four bytes of any value,
/// then `WEBP`.
pub open spec fn is_webp(data: Seq<u8>) -> bool {
    data.len() >= 12 && data.subrange(0, 4) == riff_tag() && data.subrange(8, 12) == webp_tag()
}

/// The accepted encoding that `data` starts like, if any.
pub open spec fn sniff(data: Seq<u8>) -> Option<SupportedFormat> {
    if starts_with(data, png_signature()) {
        Some(SupportedFormat::Png)
    } else if starts_with(data, jpeg_signature()) {
        Some(SupportedFormat::Jpeg)
    } else if is_webp(data) {
        Some(SupportedFormat::Webp)
    } else {
        None
    }
}

/// The file name extension of an encoding.
pub open spec fn extension_of(format: SupportedFormat) -> Seq<char> {
    match format {
        SupportedFormat::Jpeg => "jpg"@,
        SupportedFormat::Png => "png"@,
        SupportedFormat::Webp => "webp"@,
    }
}

/// The media type of an encoding.
pub open spec fn mime_type_of(format: SupportedFormat) -> Seq<char> {
    match format {
        SupportedFormat::Jpeg => "image/jpeg"@,
        SupportedFormat::Png => "image/png"@,
        SupportedFormat::Webp => "image/webp"@,
    }
}

/// What classifying `data` gives: the accepted encoding it starts like, or
/// the refusal of its type.
pub open spec fn classified(data: Seq<u8>) -> Result<SupportedFormat, AppError> {
    match sniff(data) {
        Some(format) => Ok(format),
        None => Err(AppError::WrongFileType),
    }
}

/// What is made of a detection: the three accepted encodings pass, anything
/// else is refused.
pub open spec fn accepted(detected: Detected) -> Result<SupportedFormat, AppError> {
    match detected {
        Detected::Jpeg => Ok(SupportedFormat::Jpeg),
        Detected::Png => Ok(SupportedFormat::Png),
        Detected::WebP => Ok(SupportedFormat::Webp),
        Detected::Other => Err(AppError::WrongFileType),
        Detected::Unknown => Err(AppError::WrongFileType),
    }
}

/// What reading the header of an image gave.
#[derive(Clone, Copy, Debug, PartialEq, Eq, Structural)]
pub enum Probe {
    /// The header was read: the image is this wide and this high.
    Size(u32, u32),
    /// The image is beyond what the decoder takes in.
    TooLarge,
    /// The header cannot be read.
    Unreadable,
}

/// What the `image` crate, under the limits it sets by itself, makes of the
/// header of `data` when it takes the data for `format`.
pub uninterp spec fn probed(data: Seq<u8>, format: SupportedFormat) -> Probe;

/// `image::guess_format`, which walks a fixed table of signatures and returns
/// the format of the first one that `data` starts with. PNG comes first in
/// that table, JPEG second, and the WebP entry (with the four length bytes
/// masked out) before any other that begins with `R`, so each of the three is
/// reported exactly for the data that starts with its signature.
#[verifier::external_body]
fn detect(data: &[u8]) -> (detected: Detected)
    ensures
        detected == Detected::Png <==> starts_with(data@, png_signature()),
        detected == Detected::Jpeg <==> starts_with(data@, jpeg_signature()),
        detected == Detected::WebP <==> is_webp(data@),
{
    match ::image::guess_format(data) {
        Ok(ImageFormat::Png) => Detected::Png,
        Ok(ImageFormat::Jpeg) => Detected::Jpeg,
        Ok(ImageFormat::WebP) => Detected::WebP,
        Ok(_) => Detected::Other,
        Err(_) => Detected::Unknown,
    }
}

/// `ImageReader::with_format` on the data, then `into_dimensions`: the size
/// in the image's header, read with the decoder of the given format. An error
/// of the kind `ImageError::Limits`, by which the crate refuses an image that
/// is more than it takes in, is told apart from every other error.
#[verifier::external_body]
pub(crate) fn probe(data: &[u8], format: SupportedFormat) -> (result: Probe)
    ensures
        result == probed(data@, format),
{
    let format = match format {
        SupportedFormat::Jpeg => ImageFormat::Jpeg,
        SupportedFormat::Png => ImageFormat::Png,
        SupportedFormat::Webp => ImageFormat::WebP,
    };
    match ImageReader::with_format(Cursor::new(data), format).into_dimensions() {
        Ok((width, height)) => Probe::Size(width, height),
        Err(ImageError::Limits(_)) => Probe::TooLarge,
        Err(_) => Probe::Unreadable,
    }
}

impl SupportedFormat {
    /// Classifies uploaded data by its first bytes.
    pub fn guess(data: &[u8]) -> (result: Result<SupportedFormat, AppError>)
        ensures
            result == classified(data@),
    {
        Self::from_detected(detect(data))
    }

    /// Accepts a detected format if it is one of the three the service takes.
    pub fn from_detected(detected: Detected) -> (result: Result<SupportedFormat, AppError>)
        ensures
            result == accepted(detected),
    {
        match detected {
            Detected::Jpeg => Ok(SupportedFormat::Jpeg),
            Detected::Png => Ok(SupportedFormat::Png),
            Detected::WebP => Ok(SupportedFormat::Webp),
            Detected::Other => Err(AppError::WrongFileType),
            Detected::Unknown => Err(AppError::WrongFileType),
        }
    }

    /// The file name extension of files in this encoding.
    pub fn extension(self) -> (s: &'static str)
        ensures
            s@ == extension_of(self),
    {
        match self {
            SupportedFormat::Jpeg => "jpg",
            SupportedFormat::Png => "png",
            SupportedFormat::Webp => "webp",
        }
    }

    /// The media type files in this encoding are served as.
    pub fn mime_type(self) -> (s: &'static str)
        ensures
            s@ == mime_type_of(self),
    {
        match self {
            SupportedFormat::Jpeg => "image/jpeg",
            SupportedFormat::Png => "image/png",
            SupportedFormat::Webp => "image/webp",
        }
    }
}

} // verus!
