//! The MIME codec, string to member: parsing a MIME string, in any letter case, into
//! the vocabulary.

use vstd::prelude::*;
use vstd::std_specs::convert::FromSpecImpl;
use crate::text::{lowercase, normalize, str_eq};
use crate::vocabulary::ContentType;

verus! {

impl ContentType {
    /// The MIME table. Its keys are the canonical MIME strings of the members other
    /// than `UNKNOWN`; every other key stands for `UNKNOWN`.
    pub open spec fn spec_lookup_mime(key: Seq<char>) -> ContentType {
        if key == "application/xhtml+xml"@ {
            ContentType::XHTML
        } else if key == "application/xml"@ {
            ContentType::XML
        } else if key == "text/html"@ {
            ContentType::HTML
        } else if key == "application/pdf"@ {
            ContentType::PDF
        } else if key == "application/epub+zip"@ {
            ContentType::EPUB_ZIP
        } else if key == "application/zip"@ {
            ContentType::ZIP
        } else if key == "application/vnd.comicbook+zip"@ {
            ContentType::COMIC_ZIP
        } else if key == "application/vnd.rar"@ {
            ContentType::RAR
        } else if key == "application/vnd.comicbook-rar"@ {
            ContentType::COMIC_RAR
        } else if key == "image/png"@ {
            ContentType::PNG
        } else if key == "image/jpeg"@ {
            ContentType::JPEG
        } else if key == "image/webp"@ {
            ContentType::WEBP
        } else if key == "image/avif"@ {
            ContentType::AVIF
        } else if key == "image/gif"@ {
            ContentType::GIF
        } else if key == "text/plain"@ {
            ContentType::TXT
        } else {
            ContentType::UNKNOWN
        }
    }

    /// The member that a MIME string stands for: the table's entry for the
    /// normalised string.
    pub open spec fn spec_from_mime(mime: Seq<char>) -> ContentType {
        Self::spec_lookup_mime(lowercase(mime))
    }

    /// Searches the MIME table for a key that is already normalised.
    pub fn lookup_mime(key: &str) -> (content_type: ContentType)
        ensures
            content_type == Self::spec_lookup_mime(key@),
    {
        if str_eq(key, "application/xhtml+xml") {
            ContentType::XHTML
        } else if str_eq(key, "application/xml") {
            ContentType::XML
        } else if str_eq(key, "text/html") {
            ContentType::HTML
        } else if str_eq(key, "application/pdf") {
            ContentType::PDF
        } else if str_eq(key, "application/epub+zip") {
            ContentType::EPUB_ZIP
        } else if str_eq(key, "application/zip") {
            ContentType::ZIP
        } else if str_eq(key, "application/vnd.comicbook+zip") {
            ContentType::COMIC_ZIP
        } else if str_eq(key, "application/vnd.rar") {
            ContentType::RAR
        } else if str_eq(key, "application/vnd.comicbook-rar") {
            ContentType::COMIC_RAR
        } else if str_eq(key, "image/png") {
            ContentType::PNG
        } else if str_eq(key, "image/jpeg") {
            ContentType::JPEG
        } else if str_eq(key, "image/webp") {
            ContentType::WEBP
        } else if str_eq(key, "image/avif") {
            ContentType::AVIF
        } else if str_eq(key, "image/gif") {
            ContentType::GIF
        } else if str_eq(key, "text/plain") {
            ContentType::TXT
        } else {
            ContentType::UNKNOWN
        }
    }
}

impl<'a> From<&'a str> for ContentType {
    /// Returns the content type that a MIME string names. The string may be in any
    /// letter case; one that names no member gives `UNKNOWN`. This is no parser of
    /// file paths or extensions.
    fn from(s: &'a str) -> (content_type: ContentType) {
        let key = normalize(s);
        ContentType::lookup_mime(key.as_str())
    }
}

impl<'a> FromSpecImpl<&'a str> for ContentType {
    open spec fn obeys_from_spec() -> bool {
        true
    }

    open spec fn from_spec(s: &'a str) -> ContentType {
        ContentType::spec_from_mime(s@)
    }
}

} // verus!
