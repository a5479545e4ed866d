//! What the image work rests on: the format of the source decides how the
//! resized image is written.

use crate::path::{replace_extension, with_replaced_extension};
use crate::text::{chars_of, opt_text, push_str, string_from_chars};
use vstd::prelude::*;

verus! {

/// The format of an image.
#[derive(Debug)]
pub enum ImageFormat {
    Png,
    Jpeg,
    Gif,
    WebP,
    /// Another format, by its MIME type.
    Other(String),
}

/// What an `ImageFormat` holds, as mathematical values.
pub enum ImageFormatView {
    Png,
    Jpeg,
    Gif,
    WebP,
    Other(Seq<char>),
}

impl View for ImageFormat {
    type V = ImageFormatView;

    open spec fn view(&self) -> ImageFormatView {
        match self {
            ImageFormat::Png => ImageFormatView::Png,
            ImageFormat::Jpeg => ImageFormatView::Jpeg,
            ImageFormat::Gif => ImageFormatView::Gif,
            ImageFormat::WebP => ImageFormatView::WebP,
            ImageFormat::Other(mime) => ImageFormatView::Other(mime@),
        }
    }
}

/// The name of a format: its own, or its MIME type.
pub open spec fn format_name(format: ImageFormatView) -> Seq<char> {
    match format {
        ImageFormatView::Png => "Png"@,
        ImageFormatView::Jpeg => "Jpeg"@,
        ImageFormatView::Gif => "Gif"@,
        ImageFormatView::WebP => "WebP"@,
        ImageFormatView::Other(mime) => mime,
    }
}

impl ImageFormat {
    /// The name of the format: its own, or its MIME type.
    pub fn name(&self) -> (name: String)
        ensures
            name@ == format_name(self@),
    {
        match self {
            ImageFormat::Png => "Png".to_owned(),
            ImageFormat::Jpeg => "Jpeg".to_owned(),
            ImageFormat::Gif => "Gif".to_owned(),
            ImageFormat::WebP => "WebP".to_owned(),
            ImageFormat::Other(mime) => mime.clone(),
        }
    }

    /// A copy of this format.
    pub fn duplicate(&self) -> (copy: ImageFormat)
        ensures
            copy@ == self@,
    {
        match self {
            ImageFormat::Png => ImageFormat::Png,
            ImageFormat::Jpeg => ImageFormat::Jpeg,
            ImageFormat::Gif => ImageFormat::Gif,
            ImageFormat::WebP => ImageFormat::WebP,
            ImageFormat::Other(mime) => ImageFormat::Other(mime.clone()),
        }
    }
}

/// The encoder that writes a resized image.
#[derive(Clone, Copy, Debug, PartialEq, Eq, Structural)]
pub enum Encoder {
    Png,
    Jpeg,
    Gif,
    /// WebP without loss.
    WebPLossless,
}

/// What went wrong with an image.
#[derive(Debug)]
pub enum ImageError {
    /// The image's file could not be read or written.
    IO(String),
    /// The format of the image could not be told.
    UnknownFormat,
    /// The image could not be decoded or encoded.
    Image(String),
    /// The image's buffer does not fit its size.
    ImageBuffer(String),
    /// The image could not be resized.
    Resize(String),
    /// No encoder writes the format.
    UnsupportedFormat(ImageFormat),
}

/// What an `ImageError` holds, as mathematical values.
pub enum ImageErrorView {
    IO(Seq<char>),
    UnknownFormat,
    Image(Seq<char>),
    ImageBuffer(Seq<char>),
    Resize(Seq<char>),
    UnsupportedFormat(ImageFormatView),
}

impl View for ImageError {
    type V = ImageErrorView;

    open spec fn view(&self) -> ImageErrorView {
        match self {
            ImageError::IO(cause) => ImageErrorView::IO(cause@),
            ImageError::UnknownFormat => ImageErrorView::UnknownFormat,
            ImageError::Image(cause) => ImageErrorView::Image(cause@),
            ImageError::ImageBuffer(cause) => ImageErrorView::ImageBuffer(cause@),
            ImageError::Resize(cause) => ImageErrorView::Resize(cause@),
            ImageError::UnsupportedFormat(format) => ImageErrorView::UnsupportedFormat(format@),
        }
    }
}

/// The MIME type of a picture that is set on an audio file.
#[derive(Debug)]
pub enum PictureMime {
    Png,
    Jpeg,
    Gif,
    /// Another type, as the text that names it.
    FromText(String),
}

/// What a `PictureMime` holds, as mathematical values.
pub enum PictureMimeView {
    Png,
    Jpeg,
    Gif,
    FromText(Seq<char>),
}

impl View for PictureMime {
    type V = PictureMimeView;

    open spec fn view(&self) -> PictureMimeView {
        match self {
            PictureMime::Png => PictureMimeView::Png,
            PictureMime::Jpeg => PictureMimeView::Jpeg,
            PictureMime::Gif => PictureMimeView::Gif,
            PictureMime::FromText(text) => PictureMimeView::FromText(text@),
        }
    }
}

/// The MIME type of a picture in a format.
pub open spec fn mime_for(format: ImageFormatView) -> PictureMimeView {
    match format {
        ImageFormatView::Png => PictureMimeView::Png,
        ImageFormatView::Jpeg => PictureMimeView::Jpeg,
        ImageFormatView::Gif => PictureMimeView::Gif,
        ImageFormatView::WebP => PictureMimeView::FromText("image/webp"@),
        ImageFormatView::Other(mime) => PictureMimeView::FromText(mime),
    }
}

/// The usual extension of a file in a format, where the format has a name.
pub open spec fn extension_for(format: ImageFormatView) -> Option<Seq<char>> {
    match format {
        ImageFormatView::Png => Some("png"@),
        ImageFormatView::Jpeg => Some("jpg"@),
        ImageFormatView::Gif => Some("gif"@),
        ImageFormatView::WebP => Some("webp"@),
        ImageFormatView::Other(_) => None,
    }
}

/// The encoder for a format, if there is one.
pub open spec fn encoder_for(format: ImageFormatView) -> Option<Encoder> {
    match format {
        ImageFormatView::Png => Some(Encoder::Png),
        ImageFormatView::Jpeg => Some(Encoder::Jpeg),
        ImageFormatView::Gif => Some(Encoder::Gif),
        ImageFormatView::WebP => Some(Encoder::WebPLossless),
        ImageFormatView::Other(_) => None,
    }
}

/// An image that is to be resized, by its format.
#[derive(Debug)]
pub struct Resize {
    format: ImageFormat,
}

impl View for Resize {
    type V = ImageFormatView;

    /// The format of the source image.
    closed spec fn view(&self) -> ImageFormatView {
        self.format@
    }
}

impl Resize {
    /// Takes up an image whose format was guessed from its content; without
    /// a format there is nothing to resize.
    pub fn new(format: Option<ImageFormat>) -> (resize: Result<Resize, ImageError>)
        ensures
            format matches Some(f) ==> resize matches Ok(r) && r@ == f@,
            format is None ==> (resize matches Err(e) && e@ == ImageErrorView::UnknownFormat),
    {
        match format {
            Some(format) => Ok(Resize { format }),
            None => Err(ImageError::UnknownFormat),
        }
    }

    /// The format of the source image.
    pub fn format(&self) -> (format: &ImageFormat)
        ensures
            format@ == self@,
    {
        &self.format
    }

    /// The MIME type under which the resized image is set on an audio file.
    pub fn to_picture(&self) -> (mime: PictureMime)
        ensures
            mime@ == mime_for(self@),
    {
        match &self.format {
            ImageFormat::Png => PictureMime::Png,
            ImageFormat::Jpeg => PictureMime::Jpeg,
            ImageFormat::Gif => PictureMime::Gif,
            ImageFormat::WebP => PictureMime::FromText("image/webp".to_owned()),
            ImageFormat::Other(mime) => PictureMime::FromText(mime.clone()),
        }
    }

    /// The file to which the resized image is written: `path` with the
    /// extension that is usual for the format of the source. `None` for a
    /// format without a name, which no encoder writes.
    pub fn to_file(&self, path: &str) -> (file: Option<String>)
        ensures
            opt_text(file) == (match extension_for(self@) {
                Some(extension) => Some(with_replaced_extension(path@, extension)),
                None => None,
            }),
    {
        match &self.format {
            ImageFormat::Png => Some(replace_extension(path, "png")),
            ImageFormat::Jpeg => Some(replace_extension(path, "jpg")),
            ImageFormat::Gif => Some(replace_extension(path, "gif")),
            ImageFormat::WebP => Some(replace_extension(path, "webp")),
            ImageFormat::Other(_) => None,
        }
    }

    /// The encoder that writes the resized image: that of the source's
    /// format, or the error that names a format which none writes.
    pub fn to_bytes(&self) -> (encoder: Result<Encoder, ImageError>)
        ensures
            match encoder {
                Ok(e) => encoder_for(self@) == Some(e),
                Err(e) => encoder_for(self@) is None && e@ == ImageErrorView::UnsupportedFormat(
                    self@,
                ),
            },
    {
        match &self.format {
            ImageFormat::Png => Ok(Encoder::Png),
            ImageFormat::Jpeg => Ok(Encoder::Jpeg),
            ImageFormat::Gif => Ok(Encoder::Gif),
            ImageFormat::WebP => Ok(Encoder::WebPLossless),
            ImageFormat::Other(_) => Err(ImageError::UnsupportedFormat(self.format.duplicate())),
        }
    }
}

/// What the user reads of an `ImageError`.
pub open spec fn image_error_message(error: ImageErrorView) -> Seq<char> {
    match error {
        ImageErrorView::IO(cause) => "An I/O error occurred: "@ + cause,
        ImageErrorView::UnknownFormat => "Unable to determine image format"@,
        ImageErrorView::Image(cause) => "An image error occurred: "@ + cause,
        ImageErrorView::ImageBuffer(cause) => "An image buffer error occurred: "@ + cause,
        ImageErrorView::Resize(cause) => "A resize error occurred: "@ + cause,
        ImageErrorView::UnsupportedFormat(format) =>
            "Unable to encode image format: "@ + format_name(format),
    }
}

impl ImageError {
    /// Writes the error out for the user.
    pub fn message(&self) -> (text: String)
        ensures
            text@ == image_error_message(self@),
    {
        match self {
            ImageError::IO(cause) => {
                let mut out = chars_of("An I/O error occurred: ");
                push_str(&mut out, cause.as_str());
                string_from_chars(&out)
            },
            ImageError::UnknownFormat => {
                let mut out = chars_of("Unable to determine image format");
                string_from_chars(&out)
            },
            ImageError::Image(cause) => {
                let mut out = chars_of("An image error occurred: ");
                push_str(&mut out, cause.as_str());
                string_from_chars(&out)
            },
            ImageError::ImageBuffer(cause) => {
                let mut out = chars_of("An image buffer error occurred: ");
                push_str(&mut out, cause.as_str());
                string_from_chars(&out)
            },
            ImageError::Resize(cause) => {
                let mut out = chars_of("A resize error occurred: ");
                push_str(&mut out, cause.as_str());
                string_from_chars(&out)
            },
            ImageError::UnsupportedFormat(format) => {
                let mut out = chars_of("Unable to encode image format: ");
                push_str(&mut out, format.name().as_str());
                string_from_chars(&out)
            },
        }
    }
}

} // verus!
