//! The interop adapter: the one seam between the vocabulary and the classification
//! of image formats that the image-handling side of the application works with.

use vstd::prelude::*;
use vstd::std_specs::convert::{FromSpecImpl, TryFromSpecImpl};
use vstd::string::StringExecFns;
use crate::vocabulary::ContentType;

verus! {

/// The image formats that the image-handling side can be asked for.
#[derive(Debug, Clone, Copy, PartialEq, Eq, Structural)]
pub enum ImageFormat {
    Png,
    Jpeg,
    WebP,
    Avif,
    Gif,
}

/// The errors that this library reports.
#[derive(Debug, PartialEq, Eq)]
pub enum CoreError {
    /// A request that cannot be met, with the reason in words.
    InternalError(String),
}

impl ImageFormat {
    /// The member of the vocabulary that an image format is.
    pub open spec fn spec_content_type(self) -> ContentType {
        match self {
            ImageFormat::Png => ContentType::PNG,
            ImageFormat::Jpeg => ContentType::JPEG,
            ImageFormat::WebP => ContentType::WEBP,
            ImageFormat::Avif => ContentType::AVIF,
            ImageFormat::Gif => ContentType::GIF,
        }
    }
}

impl ContentType {
    /// The image format that a member is, for the five members that are one.
    pub open spec fn spec_image_format(self) -> Option<ImageFormat> {
        match self {
            ContentType::PNG => Some(ImageFormat::Png),
            ContentType::JPEG => Some(ImageFormat::Jpeg),
            ContentType::WEBP => Some(ImageFormat::WebP),
            ContentType::AVIF => Some(ImageFormat::Avif),
            ContentType::GIF => Some(ImageFormat::Gif),
            _ => None,
        }
    }

    /// The name under which a member is written in diagnostics.
    pub open spec fn spec_variant_name(self) -> Seq<char> {
        match self {
            ContentType::XHTML => "ContentType::XHTML"@,
            ContentType::XML => "ContentType::XML"@,
            ContentType::HTML => "ContentType::HTML"@,
            ContentType::PDF => "ContentType::PDF"@,
            ContentType::EPUB_ZIP => "ContentType::EPUB_ZIP"@,
            ContentType::ZIP => "ContentType::ZIP"@,
            ContentType::COMIC_ZIP => "ContentType::COMIC_ZIP"@,
            ContentType::RAR => "ContentType::RAR"@,
            ContentType::COMIC_RAR => "ContentType::COMIC_RAR"@,
            ContentType::PNG => "ContentType::PNG"@,
            ContentType::JPEG => "ContentType::JPEG"@,
            ContentType::WEBP => "ContentType::WEBP"@,
            ContentType::AVIF => "ContentType::AVIF"@,
            ContentType::GIF => "ContentType::GIF"@,
            ContentType::TXT => "ContentType::TXT"@,
            ContentType::UNKNOWN => "ContentType::UNKNOWN"@,
        }
    }

    /// The reason given when a member that is no image format is asked for one.
    pub open spec fn spec_unsupported_message(self) -> Seq<char> {
        "Cannot convert "@ + self.spec_variant_name()
            + " into image::ImageFormat, not supported."@
    }

    /// The name under which the member is written in diagnostics.
    pub fn variant_name(&self) -> (name: &'static str)
        ensures
            name@ == self.spec_variant_name(),
    {
        match self {
            ContentType::XHTML => "ContentType::XHTML",
            ContentType::XML => "ContentType::XML",
            ContentType::HTML => "ContentType::HTML",
            ContentType::PDF => "ContentType::PDF",
            ContentType::EPUB_ZIP => "ContentType::EPUB_ZIP",
            ContentType::ZIP => "ContentType::ZIP",
            ContentType::COMIC_ZIP => "ContentType::COMIC_ZIP",
            ContentType::RAR => "ContentType::RAR",
            ContentType::COMIC_RAR => "ContentType::COMIC_RAR",
            ContentType::PNG => "ContentType::PNG",
            ContentType::JPEG => "ContentType::JPEG",
            ContentType::WEBP => "ContentType::WEBP",
            ContentType::AVIF => "ContentType::AVIF",
            ContentType::GIF => "ContentType::GIF",
            ContentType::TXT => "ContentType::TXT",
            ContentType::UNKNOWN => "ContentType::UNKNOWN",
        }
    }
}

/// The error for a member of the vocabulary that is no image format.
fn unsupported_error(unsupported_type: &str) -> (error: CoreError)
    ensures
        error matches CoreError::InternalError(message) && message@ == "Cannot convert "@
            + unsupported_type@ + " into image::ImageFormat, not supported."@,
{
    let mut message = String::from_str("Cannot convert ");
    message.append(unsupported_type);
    message.append(" into image::ImageFormat, not supported.");
    CoreError::InternalError(message)
}

impl From<ImageFormat> for ContentType {
    /// Every image format is a member of the vocabulary.
    fn from(format: ImageFormat) -> (content_type: ContentType) {
        match format {
            ImageFormat::Jpeg => ContentType::JPEG,
            ImageFormat::Png => ContentType::PNG,
            ImageFormat::WebP => ContentType::WEBP,
            ImageFormat::Avif => ContentType::AVIF,
            ImageFormat::Gif => ContentType::GIF,
        }
    }
}

impl FromSpecImpl<ImageFormat> for ContentType {
    open spec fn obeys_from_spec() -> bool {
        true
    }

    open spec fn from_spec(format: ImageFormat) -> ContentType {
        format.spec_content_type()
    }
}

impl TryFrom<ContentType> for ImageFormat {
    type Error = CoreError;

    /// The image format that a member of the vocabulary is. Only PNG, JPEG, WEBP,
    /// AVIF and GIF are image formats; every other member, `UNKNOWN` too, is
    /// refused with an error that names it.
    fn try_from(value: ContentType) -> (converted: Result<ImageFormat, CoreError>)
        ensures
            match converted {
                Ok(format) => value.spec_image_format() == Some(format),
                Err(CoreError::InternalError(message)) => {
                    &&& value.spec_image_format() is None
                    &&& message@ == value.spec_unsupported_message()
                },
            },
    {
        match value {
            ContentType::PNG => Ok(ImageFormat::Png),
            ContentType::JPEG => Ok(ImageFormat::Jpeg),
            ContentType::WEBP => Ok(ImageFormat::WebP),
            ContentType::AVIF => Ok(ImageFormat::Avif),
            ContentType::GIF => Ok(ImageFormat::Gif),
            _ => Err(unsupported_error(value.variant_name())),
        }
    }
}

/// The error carries a `String`, and a specification cannot build one: what `try_from`
/// returns is stated by its own `ensures`, not through `try_from_spec`.
impl TryFromSpecImpl<ContentType> for ImageFormat {
    open spec fn obeys_try_from_spec() -> bool {
        false
    }

    open spec fn try_from_spec(value: ContentType) -> Result<ImageFormat, CoreError> {
        arbitrary()
    }
}

} // verus!
