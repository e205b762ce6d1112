use content_type::{ContentType, CoreError, ImageFormat};

#[test]
fn image_members_convert() {
    assert_eq!(ImageFormat::try_from(ContentType::PNG), Ok(ImageFormat::Png));
    assert_eq!(ImageFormat::try_from(ContentType::JPEG), Ok(ImageFormat::Jpeg));
    assert_eq!(ImageFormat::try_from(ContentType::WEBP), Ok(ImageFormat::WebP));
    assert_eq!(ImageFormat::try_from(ContentType::AVIF), Ok(ImageFormat::Avif));
    assert_eq!(ImageFormat::try_from(ContentType::GIF), Ok(ImageFormat::Gif));
}

#[test]
fn other_members_are_refused_by_name() {
    let refused = [
        (ContentType::XHTML, "ContentType::XHTML"),
        (ContentType::XML, "ContentType::XML"),
        (ContentType::HTML, "ContentType::HTML"),
        (ContentType::PDF, "ContentType::PDF"),
        (ContentType::EPUB_ZIP, "ContentType::EPUB_ZIP"),
        (ContentType::ZIP, "ContentType::ZIP"),
        (ContentType::COMIC_ZIP, "ContentType::COMIC_ZIP"),
        (ContentType::RAR, "ContentType::RAR"),
        (ContentType::COMIC_RAR, "ContentType::COMIC_RAR"),
        (ContentType::TXT, "ContentType::TXT"),
        (ContentType::UNKNOWN, "ContentType::UNKNOWN"),
    ];
    for (content_type, name) in refused.iter() {
        let expected = format!("Cannot convert {} into image::ImageFormat, not supported.", name);
        assert_eq!(
            ImageFormat::try_from(*content_type),
            Err(CoreError::InternalError(expected))
        );
        assert_eq!(content_type.variant_name(), *name);
    }
}

#[test]
fn refusal_message_in_full() {
    assert_eq!(
        ImageFormat::try_from(ContentType::COMIC_RAR),
        Err(CoreError::InternalError(
            "Cannot convert ContentType::COMIC_RAR into image::ImageFormat, not supported."
                .to_string()
        ))
    );
}

#[test]
fn try_into_goes_the_same_way() {
    let converted: Result<ImageFormat, CoreError> = ContentType::GIF.try_into();
    assert_eq!(converted, Ok(ImageFormat::Gif));
    let refused: Result<ImageFormat, CoreError> = ContentType::PDF.try_into();
    assert!(refused.is_err());
}

#[test]
fn conversion_succeeds_exactly_for_images() {
    let all = [
        ContentType::XHTML,
        ContentType::XML,
        ContentType::HTML,
        ContentType::PDF,
        ContentType::EPUB_ZIP,
        ContentType::ZIP,
        ContentType::COMIC_ZIP,
        ContentType::RAR,
        ContentType::COMIC_RAR,
        ContentType::PNG,
        ContentType::JPEG,
        ContentType::WEBP,
        ContentType::AVIF,
        ContentType::GIF,
        ContentType::TXT,
        ContentType::UNKNOWN,
    ];
    for content_type in all.iter() {
        assert_eq!(ImageFormat::try_from(*content_type).is_ok(), content_type.is_image());
    }
}

#[test]
fn every_image_format_is_a_member() {
    assert_eq!(ContentType::from(ImageFormat::Png), ContentType::PNG);
    assert_eq!(ContentType::from(ImageFormat::Jpeg), ContentType::JPEG);
    assert_eq!(ContentType::from(ImageFormat::WebP), ContentType::WEBP);
    assert_eq!(ContentType::from(ImageFormat::Avif), ContentType::AVIF);
    assert_eq!(ContentType::from(ImageFormat::Gif), ContentType::GIF);
}

#[test]
fn image_format_round_trip() {
    let formats = [
        ImageFormat::Png,
        ImageFormat::Jpeg,
        ImageFormat::WebP,
        ImageFormat::Avif,
        ImageFormat::Gif,
    ];
    for format in formats.iter() {
        assert_eq!(ImageFormat::try_from(ContentType::from(*format)), Ok(*format));
    }
}

#[test]
fn image_formats_agree_with_the_image_crate() {
    let formats = [
        (ImageFormat::Png, image::ImageFormat::Png),
        (ImageFormat::Jpeg, image::ImageFormat::Jpeg),
        (ImageFormat::WebP, image::ImageFormat::WebP),
        (ImageFormat::Avif, image::ImageFormat::Avif),
        (ImageFormat::Gif, image::ImageFormat::Gif),
    ];
    for (format, outside) in formats.iter() {
        assert_eq!(ContentType::from(*format).mime_str(), outside.to_mime_type());
    }
}
