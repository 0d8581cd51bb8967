//! Pictures, by way of the `image` crate: reading one from bytes and
//! writing it out in a chosen format.

use crate::common::text::str_eq;
use vstd::prelude::*;

verus! {

/// The formats in which a picture can be read and written.
#[derive(Debug, Clone, Copy, PartialEq, Eq, Structural)]
pub enum PictureFormat {
    Png,
    Jpeg,
    Gif,
    WebP,
}

/// Why a picture could not be made ready.
#[derive(Debug, Clone, Copy, PartialEq, Eq, Structural)]
pub enum PictureError {
    /// The bytes are no picture of the format.
    Decode,
    /// The file's extension names no format in which pictures are
    /// written.
    Unsupported,
    /// The picture could not be written in the format.
    Encode,
    /// The picture is so large that the length of its base64 text does not
    /// fit `usize`.
    TooLarge,
}

/// `c` in lower case where it is a capital letter of ASCII, and `c` itself
/// where it is not.
pub open spec fn ascii_lower(c: char) -> char {
    if 0x41 <= c as u32 <= 0x5A {
        ((c as u32 + 0x20) as u8) as char
    } else {
        c
    }
}

impl PictureFormat {
    /// The format as which a file with the extension `extension` is read.
    /// Capital letters count as small ones. `png` and `apng` are read as
    /// PNG, `jpg`, `jpeg` and `jfif` as JPEG, `gif` as GIF and `webp` as
    /// WebP. A file with any other extension is not read.
    pub open spec fn read_for(extension: Seq<char>) -> Option<PictureFormat> {
        let lower = extension.map_values(|c: char| ascii_lower(c));
        if lower == "png"@ || lower == "apng"@ {
            Some(PictureFormat::Png)
        } else if lower == "jpg"@ || lower == "jpeg"@ || lower == "jfif"@ {
            Some(PictureFormat::Jpeg)
        } else if lower == "gif"@ {
            Some(PictureFormat::Gif)
        } else if lower == "webp"@ {
            Some(PictureFormat::WebP)
        } else {
            None
        }
    }

    /// The format in which a file with the extension `extension` is
    /// written: `png`, `jpg` or `jpeg`, `gif`, `webp`, in lower case. No
    /// other extension has one.
    pub open spec fn for_extension(extension: Seq<char>) -> Option<PictureFormat> {
        if extension == "png"@ {
            Some(PictureFormat::Png)
        } else if extension == "jpg"@ || extension == "jpeg"@ {
            Some(PictureFormat::Jpeg)
        } else if extension == "gif"@ {
            Some(PictureFormat::Gif)
        } else if extension == "webp"@ {
            Some(PictureFormat::WebP)
        } else {
            None
        }
    }

    /// The format that goes with a file name extension.
    pub fn from_extension(extension: &str) -> (format: Option<PictureFormat>)
        ensures
            format == Self::for_extension(extension@),
    {
        if str_eq(extension, "png") {
            Some(PictureFormat::Png)
        } else if str_eq(extension, "jpg") || str_eq(extension, "jpeg") {
            Some(PictureFormat::Jpeg)
        } else if str_eq(extension, "gif") {
            Some(PictureFormat::Gif)
        } else if str_eq(extension, "webp") {
            Some(PictureFormat::WebP)
        } else {
            None
        }
    }
}

#[verifier::external_type_specification]
#[verifier::external_body]
pub struct ExDynamicImage(image::DynamicImage);

#[verifier::external_type_specification]
#[verifier::external_body]
pub struct ExImageError(image::ImageError);

/// The picture that the `image` crate reads from `bytes` as a file of the
/// format `format`; `None` where it reads none.
pub uninterp spec fn picture_of(bytes: Seq<u8>, format: PictureFormat) -> Option<
    image::DynamicImage,
>;

/// The bytes that the `image` crate writes for `picture` in the format
/// `format`; `None` where it cannot write it.
pub uninterp spec fn bytes_of(picture: image::DynamicImage, format: PictureFormat) -> Option<
    Seq<u8>,
>;

/// Trusted: `image::ImageFormat::from_extension` puts the extension into
/// ASCII lower case and looks it up in its table. Of the formats in the
/// table the four that this crate reads are handed on; an extension of any
/// other format, or of none, gives `None`.
#[verifier::external_body]
fn format_read_for(extension: &str) -> (format: Option<PictureFormat>)
    ensures
        format == PictureFormat::read_for(extension@),
{
    match image::ImageFormat::from_extension(extension) {
        Some(image::ImageFormat::Png) => Some(PictureFormat::Png),
        Some(image::ImageFormat::Jpeg) => Some(PictureFormat::Jpeg),
        Some(image::ImageFormat::Gif) => Some(PictureFormat::Gif),
        Some(image::ImageFormat::WebP) => Some(PictureFormat::WebP),
        _ => None,
    }
}

/// Trusted: `image::load_from_memory_with_format` reads the bytes as a
/// file of the given format and returns the picture, or an error where the
/// bytes are no such file.
#[verifier::external_body]
fn decode_as(bytes: &[u8], format: PictureFormat) -> (picture: Result<
    image::DynamicImage,
    image::ImageError,
>)
    ensures
        match picture {
            Ok(picture) => picture_of(bytes@, format) == Some(picture),
            Err(_) => picture_of(bytes@, format) is None,
        },
{
    let format = match format {
        PictureFormat::Png => image::ImageFormat::Png,
        PictureFormat::Jpeg => image::ImageFormat::Jpeg,
        PictureFormat::Gif => image::ImageFormat::Gif,
        PictureFormat::WebP => image::ImageFormat::WebP,
    };
    image::load_from_memory_with_format(bytes, format)
}

/// Trusted: `image::load_from_memory` guesses the format from the first
/// bytes and reads the picture. Nothing is stated of which picture comes
/// back.
#[verifier::external_body]
pub(crate) fn decode_guessed(bytes: &[u8]) -> (picture: Result<image::DynamicImage, image::ImageError>) {
    image::load_from_memory(bytes)
}

/// Trusted: `DynamicImage::write_to` writes the picture in the given
/// format into a buffer in memory; the buffer's bytes are returned, or the
/// error where the picture cannot be written.
#[verifier::external_body]
fn encode_as(picture: &image::DynamicImage, format: PictureFormat) -> (bytes: Result<
    Vec<u8>,
    image::ImageError,
>)
    ensures
        match bytes {
            Ok(bytes) => bytes_of(*picture, format) == Some(bytes@),
            Err(_) => bytes_of(*picture, format) is None,
        },
{
    let format = match format {
        PictureFormat::Png => image::ImageFormat::Png,
        PictureFormat::Jpeg => image::ImageFormat::Jpeg,
        PictureFormat::Gif => image::ImageFormat::Gif,
        PictureFormat::WebP => image::ImageFormat::WebP,
    };
    let mut buffer = std::io::Cursor::new(Vec::new());
    picture.write_to(&mut buffer, format).map(|_| buffer.into_inner())
}

/// What writing `picture` out in `format` gives.
pub open spec fn written(picture: image::DynamicImage, format: PictureFormat) -> Result<
    Seq<u8>,
    PictureError,
> {
    match bytes_of(picture, format) {
        Some(bytes) => Ok(bytes),
        None => Err(PictureError::Encode),
    }
}

/// Writes `picture` out in `format`.
pub fn write_picture(picture: &image::DynamicImage, format: PictureFormat) -> (bytes: Result<
    Vec<u8>,
    PictureError,
>)
    ensures
        match bytes {
            Ok(bytes) => written(*picture, format) == Ok::<Seq<u8>, PictureError>(bytes@),
            Err(error) => written(*picture, format) == Err::<Seq<u8>, PictureError>(error),
        },
{
    match encode_as(picture, format) {
        Ok(bytes) => Ok(bytes),
        Err(_) => Err(PictureError::Encode),
    }
}

/// The picture that is read from the bytes of a file with the extension
/// `extension`; `None` where the extension names no format that is read,
/// or the bytes are no picture of that format.
pub open spec fn picture_in_file(extension: Seq<char>, bytes: Seq<u8>) -> Option<
    image::DynamicImage,
> {
    match PictureFormat::read_for(extension) {
        Some(format) => picture_of(bytes, format),
        None => None,
    }
}

/// Reads the picture in the bytes of a file with the extension
/// `extension`.
pub fn read_picture(extension: &str, bytes: &[u8]) -> (picture: Option<image::DynamicImage>)
    ensures
        picture == picture_in_file(extension@, bytes@),
{
    match format_read_for(extension) {
        Some(format) => match decode_as(bytes, format) {
            Ok(picture) => Some(picture),
            Err(_) => None,
        },
        None => None,
    }
}

} // verus!
