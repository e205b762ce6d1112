//! The extension resolver: from a file extension, in any letter case, to a member of
//! the vocabulary.

use vstd::prelude::*;
use crate::text::{lowercase, normalize, str_eq};
use crate::vocabulary::ContentType;

verus! {

/// The members that a few extensions outside the main table stand for: `opf` and
/// `ncx` are XML. The table takes its key as handed over; the resolver hands it the
/// normalised extension.
pub open spec fn spec_temporary_content_workarounds(extension: Seq<char>) -> ContentType {
    if extension == "opf"@ || extension == "ncx"@ {
        ContentType::XML
    } else {
        ContentType::UNKNOWN
    }
}

/// Resolves the extensions that the main table does not list. The key is compared
/// as handed over, so a caller normalises it first.
pub fn temporary_content_workarounds(extension: &str) -> (content_type: ContentType)
    ensures
        content_type == spec_temporary_content_workarounds(extension@),
{
    if str_eq(extension, "opf") || str_eq(extension, "ncx") {
        return ContentType::XML;
    }
    ContentType::UNKNOWN
}

impl ContentType {
    /// The main extension table. Its keys are lowercase; `jpg` and `jpeg` both stand
    /// for JPEG.
    pub open spec fn spec_lookup_extension(key: Seq<char>) -> Option<ContentType> {
        if key == "xhtml"@ {
            Some(ContentType::XHTML)
        } else if key == "xml"@ {
            Some(ContentType::XML)
        } else if key == "html"@ {
            Some(ContentType::HTML)
        } else if key == "pdf"@ {
            Some(ContentType::PDF)
        } else if key == "epub"@ {
            Some(ContentType::EPUB_ZIP)
        } else if key == "zip"@ {
            Some(ContentType::ZIP)
        } else if key == "cbz"@ {
            Some(ContentType::COMIC_ZIP)
        } else if key == "rar"@ {
            Some(ContentType::RAR)
        } else if key == "cbr"@ {
            Some(ContentType::COMIC_RAR)
        } else if key == "png"@ {
            Some(ContentType::PNG)
        } else if key == "jpg"@ {
            Some(ContentType::JPEG)
        } else if key == "jpeg"@ {
            Some(ContentType::JPEG)
        } else if key == "webp"@ {
            Some(ContentType::WEBP)
        } else if key == "avif"@ {
            Some(ContentType::AVIF)
        } else if key == "gif"@ {
            Some(ContentType::GIF)
        } else if key == "txt"@ {
            Some(ContentType::TXT)
        } else {
            None
        }
    }

    /// The member that an extension resolves to. It depends on the normalised
    /// extension alone: the main table's entry for it, else what the workarounds
    /// say of it.
    pub open spec fn spec_from_extension(extension: Seq<char>) -> ContentType {
        match Self::spec_lookup_extension(lowercase(extension)) {
            Some(content_type) => content_type,
            None => spec_temporary_content_workarounds(lowercase(extension)),
        }
    }

    /// The extensions that are recognised, in their normalised form: the canonical
    /// extension of each member but `UNKNOWN`, and `jpeg`, `opf` and `ncx`.
    pub open spec fn spec_is_known_extension(key: Seq<char>) -> bool {
        ||| key == "xhtml"@
        ||| key == "xml"@
        ||| key == "html"@
        ||| key == "pdf"@
        ||| key == "epub"@
        ||| key == "zip"@
        ||| key == "cbz"@
        ||| key == "rar"@
        ||| key == "cbr"@
        ||| key == "png"@
        ||| key == "jpg"@
        ||| key == "jpeg"@
        ||| key == "webp"@
        ||| key == "avif"@
        ||| key == "gif"@
        ||| key == "txt"@
        ||| key == "opf"@
        ||| key == "ncx"@
    }

    /// Searches the main extension table for a key that is already normalised.
    pub fn lookup_extension(key: &str) -> (entry: Option<ContentType>)
        ensures
            entry == Self::spec_lookup_extension(key@),
    {
        if str_eq(key, "xhtml") {
            Some(ContentType::XHTML)
        } else if str_eq(key, "xml") {
            Some(ContentType::XML)
        } else if str_eq(key, "html") {
            Some(ContentType::HTML)
        } else if str_eq(key, "pdf") {
            Some(ContentType::PDF)
        } else if str_eq(key, "epub") {
            Some(ContentType::EPUB_ZIP)
        } else if str_eq(key, "zip") {
            Some(ContentType::ZIP)
        } else if str_eq(key, "cbz") {
            Some(ContentType::COMIC_ZIP)
        } else if str_eq(key, "rar") {
            Some(ContentType::RAR)
        } else if str_eq(key, "cbr") {
            Some(ContentType::COMIC_RAR)
        } else if str_eq(key, "png") {
            Some(ContentType::PNG)
        } else if str_eq(key, "jpg") {
            Some(ContentType::JPEG)
        } else if str_eq(key, "jpeg") {
            Some(ContentType::JPEG)
        } else if str_eq(key, "webp") {
            Some(ContentType::WEBP)
        } else if str_eq(key, "avif") {
            Some(ContentType::AVIF)
        } else if str_eq(key, "gif") {
            Some(ContentType::GIF)
        } else if str_eq(key, "txt") {
            Some(ContentType::TXT)
        } else {
            None
        }
    }

    /// Infer the MIME type of a file extension. The extension carries no leading
    /// dot and may be in any letter case, for the main table and for the
    /// workarounds alike; one that is not recognised gives `UNKNOWN`.
    pub fn from_extension(extension: &str) -> (content_type: ContentType)
        ensures
            content_type == Self::spec_from_extension(extension@),
            content_type != ContentType::UNKNOWN <==> Self::spec_is_known_extension(
                lowercase(extension@),
            ),
    {
        let key = normalize(extension);
        match Self::lookup_extension(key.as_str()) {
            Some(content_type) => content_type,
            None => temporary_content_workarounds(key.as_str()),
        }
    }
}

} // verus!
