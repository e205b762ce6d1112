use content_type::ContentType;

#[test]
fn from_mime_string_of_every_member() {
    assert_eq!(ContentType::from("application/xhtml+xml"), ContentType::XHTML);
    assert_eq!(ContentType::from("application/xml"), ContentType::XML);
    assert_eq!(ContentType::from("text/html"), ContentType::HTML);
    assert_eq!(ContentType::from("application/pdf"), ContentType::PDF);
    assert_eq!(ContentType::from("application/epub+zip"), ContentType::EPUB_ZIP);
    assert_eq!(ContentType::from("application/zip"), ContentType::ZIP);
    assert_eq!(ContentType::from("application/vnd.comicbook+zip"), ContentType::COMIC_ZIP);
    assert_eq!(ContentType::from("application/vnd.rar"), ContentType::RAR);
    assert_eq!(ContentType::from("application/vnd.comicbook-rar"), ContentType::COMIC_RAR);
    assert_eq!(ContentType::from("image/png"), ContentType::PNG);
    assert_eq!(ContentType::from("image/jpeg"), ContentType::JPEG);
    assert_eq!(ContentType::from("image/webp"), ContentType::WEBP);
    assert_eq!(ContentType::from("image/avif"), ContentType::AVIF);
    assert_eq!(ContentType::from("image/gif"), ContentType::GIF);
    assert_eq!(ContentType::from("text/plain"), ContentType::TXT);
}

#[test]
fn from_mime_string_ignores_letter_case() {
    assert_eq!(ContentType::from("IMAGE/PNG"), ContentType::PNG);
    assert_eq!(ContentType::from("Image/Jpeg"), ContentType::JPEG);
    assert_eq!(ContentType::from("Application/EPUB+ZIP"), ContentType::EPUB_ZIP);
    assert_eq!(ContentType::from("application/vnd.comicboo\u{212a}+zip"), ContentType::COMIC_ZIP);
}

#[test]
fn from_mime_string_unrecognised_is_unknown() {
    assert_eq!(ContentType::from("unknown"), ContentType::UNKNOWN);
    assert_eq!(ContentType::from(""), ContentType::UNKNOWN);
    assert_eq!(ContentType::from("garbage"), ContentType::UNKNOWN);
    assert_eq!(ContentType::from("image/tiff"), ContentType::UNKNOWN);
    assert_eq!(ContentType::from("image/png; charset=utf-8"), ContentType::UNKNOWN);
    assert_eq!(ContentType::from("png"), ContentType::UNKNOWN);
    assert_eq!(ContentType::from("text/xml"), ContentType::UNKNOWN);
}

#[test]
fn lookup_mime_takes_the_key_as_it_is() {
    assert_eq!(ContentType::lookup_mime("image/png"), ContentType::PNG);
    assert_eq!(ContentType::lookup_mime("IMAGE/PNG"), ContentType::UNKNOWN);
    assert_eq!(ContentType::lookup_mime(""), ContentType::UNKNOWN);
}

#[test]
fn mime_round_trip() {
    let members = [
        ContentType::XHTML,
        ContentType::XML,
        ContentType::HTML,
        ContentType::PDF,
        ContentType::EPUB_ZIP,
        ContentType::ZIP,
        ContentType::COMIC_ZIP,
        ContentType::RAR,
        ContentType::COMIC_RAR,
        ContentType::PNG,
        ContentType::JPEG,
        ContentType::WEBP,
        ContentType::AVIF,
        ContentType::GIF,
        ContentType::TXT,
    ];
    for member in members.iter() {
        assert_eq!(ContentType::from(member.mime_type().as_str()), *member);
        assert_eq!(ContentType::from(member.mime_str()), *member);
    }
}
