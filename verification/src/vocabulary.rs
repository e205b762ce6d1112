//! The closed vocabulary of content types, with the canonical MIME string and file
//! extension of each member.

use vstd::prelude::*;
use vstd::string::StringExecFns;

verus! {

/// A content type that the application knows how to route. `UNKNOWN` stands for
/// everything outside the vocabulary and is the default.
#[allow(non_camel_case_types)]
#[derive(Debug, Clone, Copy, PartialEq, Eq, Structural)]
pub enum ContentType {
    XHTML,
    XML,
    HTML,
    PDF,
    EPUB_ZIP,
    ZIP,
    COMIC_ZIP,
    RAR,
    COMIC_RAR,
    PNG,
    JPEG,
    WEBP,
    AVIF,
    GIF,
    TXT,
    UNKNOWN,
}

impl Default for ContentType {
    fn default() -> (content_type: ContentType)
        ensures
            content_type == ContentType::UNKNOWN,
    {
        ContentType::UNKNOWN
    }
}

impl ContentType {
    /// The canonical MIME string of a member; `UNKNOWN` has the string `unknown`.
    pub open spec fn spec_mime_type(self) -> Seq<char> {
        match self {
            ContentType::XHTML => "application/xhtml+xml"@,
            ContentType::XML => "application/xml"@,
            ContentType::HTML => "text/html"@,
            ContentType::PDF => "application/pdf"@,
            ContentType::EPUB_ZIP => "application/epub+zip"@,
            ContentType::ZIP => "application/zip"@,
            ContentType::COMIC_ZIP => "application/vnd.comicbook+zip"@,
            ContentType::RAR => "application/vnd.rar"@,
            ContentType::COMIC_RAR => "application/vnd.comicbook-rar"@,
            ContentType::PNG => "image/png"@,
            ContentType::JPEG => "image/jpeg"@,
            ContentType::WEBP => "image/webp"@,
            ContentType::AVIF => "image/avif"@,
            ContentType::GIF => "image/gif"@,
            ContentType::TXT => "text/plain"@,
            ContentType::UNKNOWN => "unknown"@,
        }
    }

    /// The canonical file extension of a member, without a dot; `UNKNOWN` has none.
    pub open spec fn spec_extension(self) -> Seq<char> {
        match self {
            ContentType::XHTML => "xhtml"@,
            ContentType::XML => "xml"@,
            ContentType::HTML => "html"@,
            ContentType::PDF => "pdf"@,
            ContentType::EPUB_ZIP => "epub"@,
            ContentType::ZIP => "zip"@,
            ContentType::COMIC_ZIP => "cbz"@,
            ContentType::RAR => "rar"@,
            ContentType::COMIC_RAR => "cbr"@,
            ContentType::PNG => "png"@,
            ContentType::JPEG => "jpg"@,
            ContentType::WEBP => "webp"@,
            ContentType::AVIF => "avif"@,
            ContentType::GIF => "gif"@,
            ContentType::TXT => "txt"@,
            ContentType::UNKNOWN => ""@,
        }
    }

    /// The canonical MIME string, borrowed.
    pub fn mime_str(&self) -> (mime: &'static str)
        ensures
            mime@ == self.spec_mime_type(),
    {
        match self {
            ContentType::XHTML => "application/xhtml+xml",
            ContentType::XML => "application/xml",
            ContentType::HTML => "text/html",
            ContentType::PDF => "application/pdf",
            ContentType::EPUB_ZIP => "application/epub+zip",
            ContentType::ZIP => "application/zip",
            ContentType::COMIC_ZIP => "application/vnd.comicbook+zip",
            ContentType::RAR => "application/vnd.rar",
            ContentType::COMIC_RAR => "application/vnd.comicbook-rar",
            ContentType::PNG => "image/png",
            ContentType::JPEG => "image/jpeg",
            ContentType::WEBP => "image/webp",
            ContentType::AVIF => "image/avif",
            ContentType::GIF => "image/gif",
            ContentType::TXT => "text/plain",
            ContentType::UNKNOWN => "unknown",
        }
    }

    /// Returns the string representation of the MIME type.
    pub fn mime_type(&self) -> (mime: String)
        ensures
            mime@ == self.spec_mime_type(),
    {
        String::from_str(self.mime_str())
    }

    /// Returns the file extension of the content type. If the content type is
    /// unknown, then an empty string is returned.
    pub fn extension(&self) -> (extension: &'static str)
        ensures
            extension@ == self.spec_extension(),
    {
        match self {
            ContentType::XHTML => "xhtml",
            ContentType::XML => "xml",
            ContentType::HTML => "html",
            ContentType::PDF => "pdf",
            ContentType::EPUB_ZIP => "epub",
            ContentType::ZIP => "zip",
            ContentType::COMIC_ZIP => "cbz",
            ContentType::RAR => "rar",
            ContentType::COMIC_RAR => "cbr",
            ContentType::PNG => "png",
            ContentType::JPEG => "jpg",
            ContentType::WEBP => "webp",
            ContentType::AVIF => "avif",
            ContentType::GIF => "gif",
            ContentType::TXT => "txt",
            ContentType::UNKNOWN => "",
        }
    }
}

} // verus!
