use content_type::ContentType;

const ALL: [ContentType; 16] = [
    ContentType::XHTML,
    ContentType::XML,
    ContentType::HTML,
    ContentType::PDF,
    ContentType::EPUB_ZIP,
    ContentType::ZIP,
    ContentType::COMIC_ZIP,
    ContentType::RAR,
    ContentType::COMIC_RAR,
    ContentType::PNG,
    ContentType::JPEG,
    ContentType::WEBP,
    ContentType::AVIF,
    ContentType::GIF,
    ContentType::TXT,
    ContentType::UNKNOWN,
];

#[test]
fn default_is_unknown() {
    assert_eq!(ContentType::default(), ContentType::UNKNOWN);
}

#[test]
fn mime_type_of_every_member() {
    let expected = [
        "application/xhtml+xml",
        "application/xml",
        "text/html",
        "application/pdf",
        "application/epub+zip",
        "application/zip",
        "application/vnd.comicbook+zip",
        "application/vnd.rar",
        "application/vnd.comicbook-rar",
        "image/png",
        "image/jpeg",
        "image/webp",
        "image/avif",
        "image/gif",
        "text/plain",
        "unknown",
    ];
    for (content_type, mime) in ALL.iter().zip(expected.iter()) {
        assert_eq!(content_type.mime_type(), mime.to_string());
        assert_eq!(content_type.mime_str(), *mime);
    }
}

#[test]
fn extension_of_every_member() {
    let expected = [
        "xhtml", "xml", "html", "pdf", "epub", "zip", "cbz", "rar", "cbr", "png", "jpg", "webp",
        "avif", "gif", "txt", "",
    ];
    for (content_type, extension) in ALL.iter().zip(expected.iter()) {
        assert_eq!(content_type.extension(), *extension);
    }
}

#[test]
fn unknown_has_no_extension() {
    assert_eq!(ContentType::UNKNOWN.extension(), "");
}

#[test]
fn members_compare_by_tag() {
    let copy = ContentType::PNG;
    let other = copy;
    assert_eq!(copy, other);
    assert_ne!(ContentType::ZIP, ContentType::COMIC_ZIP);
    assert_eq!(format!("{:?}", ContentType::EPUB_ZIP), "EPUB_ZIP");
}

#[test]
fn is_image_exactly_for_the_image_formats() {
    for content_type in ALL.iter() {
        let expected = matches!(
            content_type,
            ContentType::PNG
                | ContentType::JPEG
                | ContentType::WEBP
                | ContentType::AVIF
                | ContentType::GIF
        );
        assert_eq!(content_type.is_image(), expected);
        assert_eq!(content_type.is_image(), content_type.mime_str().starts_with("image/"));
    }
    assert!(ContentType::PNG.is_image());
    assert!(!ContentType::XHTML.is_image());
    assert!(!ContentType::UNKNOWN.is_image());
}

#[test]
fn is_opds_legacy_image_only_for_png_jpeg_gif() {
    for content_type in ALL.iter() {
        let expected = matches!(
            content_type,
            ContentType::PNG | ContentType::JPEG | ContentType::GIF
        );
        assert_eq!(content_type.is_opds_legacy_image(), expected);
    }
    assert!(ContentType::PNG.is_opds_legacy_image());
    assert!(ContentType::WEBP.is_image());
    assert!(!ContentType::WEBP.is_opds_legacy_image());
    assert!(ContentType::AVIF.is_image());
    assert!(!ContentType::AVIF.is_opds_legacy_image());
}

#[test]
fn is_zip_for_zip_and_comic_zip() {
    for content_type in ALL.iter() {
        let expected = matches!(content_type, ContentType::ZIP | ContentType::COMIC_ZIP);
        assert_eq!(content_type.is_zip(), expected);
    }
    assert!(!ContentType::EPUB_ZIP.is_zip());
}

#[test]
fn is_rar_for_rar_and_comic_rar() {
    for content_type in ALL.iter() {
        let expected = matches!(content_type, ContentType::RAR | ContentType::COMIC_RAR);
        assert_eq!(content_type.is_rar(), expected);
    }
}

#[test]
fn is_epub_only_for_epub() {
    for content_type in ALL.iter() {
        let expected = matches!(content_type, ContentType::EPUB_ZIP);
        assert_eq!(content_type.is_epub(), expected);
    }
}

#[test]
fn at_most_one_family_per_member() {
    for content_type in ALL.iter() {
        let families = [
            content_type.is_image(),
            content_type.is_zip(),
            content_type.is_rar(),
            content_type.is_epub(),
        ];
        assert!(families.iter().filter(|f| **f).count() <= 1);
    }
}
