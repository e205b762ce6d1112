//! Laws that relate the tables to one another, proved over the spec functions in
//! which the contracts of the library are written.

use vstd::prelude::*;
use crate::interop::ImageFormat;
use crate::text::{
    is_case_variant,
    is_lowercase_ascii,
    lemma_lowercase_of_case_variant,
    lemma_lowercase_of_lowercase_ascii,
    lowercase,
    shape,
};
use crate::vocabulary::ContentType;

verus! {

/// The canonical extension of every member is lowercase ASCII.
pub proof fn lemma_extensions_are_lowercase(content_type: ContentType)
    ensures
        is_lowercase_ascii(content_type.spec_extension()),
{
    reveal_strlit("xhtml");
    reveal_strlit("xml");
    reveal_strlit("html");
    reveal_strlit("pdf");
    reveal_strlit("epub");
    reveal_strlit("zip");
    reveal_strlit("cbz");
    reveal_strlit("rar");
    reveal_strlit("cbr");
    reveal_strlit("png");
    reveal_strlit("jpg");
    reveal_strlit("webp");
    reveal_strlit("avif");
    reveal_strlit("gif");
    reveal_strlit("txt");
    reveal_strlit("");
}

/// The canonical MIME string of every member is lowercase ASCII.
pub proof fn lemma_mime_strings_are_lowercase(content_type: ContentType)
    ensures
        is_lowercase_ascii(content_type.spec_mime_type()),
{
    reveal_strlit("application/xhtml+xml");
    reveal_strlit("application/xml");
    reveal_strlit("text/html");
    reveal_strlit("application/pdf");
    reveal_strlit("application/epub+zip");
    reveal_strlit("application/zip");
    reveal_strlit("application/vnd.comicbook+zip");
    reveal_strlit("application/vnd.rar");
    reveal_strlit("application/vnd.comicbook-rar");
    reveal_strlit("image/png");
    reveal_strlit("image/jpeg");
    reveal_strlit("image/webp");
    reveal_strlit("image/avif");
    reveal_strlit("image/gif");
    reveal_strlit("text/plain");
    reveal_strlit("unknown");
}

/// The shape of each key of the extension tables.
pub proof fn lemma_extension_shapes()
    ensures
        shape("xhtml"@) == (5nat, 'x', 'l'),
        shape("xml"@) == (3nat, 'x', 'l'),
        shape("html"@) == (4nat, 'h', 'l'),
        shape("pdf"@) == (3nat, 'p', 'f'),
        shape("epub"@) == (4nat, 'e', 'b'),
        shape("zip"@) == (3nat, 'z', 'p'),
        shape("cbz"@) == (3nat, 'c', 'z'),
        shape("rar"@) == (3nat, 'r', 'r'),
        shape("cbr"@) == (3nat, 'c', 'r'),
        shape("png"@) == (3nat, 'p', 'g'),
        shape("jpg"@) == (3nat, 'j', 'g'),
        shape("jpeg"@) == (4nat, 'j', 'g'),
        shape("webp"@) == (4nat, 'w', 'p'),
        shape("avif"@) == (4nat, 'a', 'f'),
        shape("gif"@) == (3nat, 'g', 'f'),
        shape("txt"@) == (3nat, 't', 't'),
        shape("opf"@) == (3nat, 'o', 'f'),
        shape("ncx"@) == (3nat, 'n', 'x'),
        ""@.len() == 0,
{
    reveal_strlit("xhtml");
    reveal_strlit("xml");
    reveal_strlit("html");
    reveal_strlit("pdf");
    reveal_strlit("epub");
    reveal_strlit("zip");
    reveal_strlit("cbz");
    reveal_strlit("rar");
    reveal_strlit("cbr");
    reveal_strlit("png");
    reveal_strlit("jpg");
    reveal_strlit("jpeg");
    reveal_strlit("webp");
    reveal_strlit("avif");
    reveal_strlit("gif");
    reveal_strlit("txt");
    reveal_strlit("opf");
    reveal_strlit("ncx");
    reveal_strlit("");
}

/// The shape of each canonical MIME string.
pub proof fn lemma_mime_shapes()
    ensures
        shape("application/xhtml+xml"@) == (21nat, 'a', 'l'),
        shape("application/xml"@) == (15nat, 'a', 'l'),
        shape("text/html"@) == (9nat, 't', 'l'),
        shape("application/pdf"@) == (15nat, 'a', 'f'),
        shape("application/epub+zip"@) == (20nat, 'a', 'p'),
        shape("application/zip"@) == (15nat, 'a', 'p'),
        shape("application/vnd.comicbook+zip"@) == (29nat, 'a', 'p'),
        shape("application/vnd.rar"@) == (19nat, 'a', 'r'),
        shape("application/vnd.comicbook-rar"@) == (29nat, 'a', 'r'),
        shape("image/png"@) == (9nat, 'i', 'g'),
        shape("image/jpeg"@) == (10nat, 'i', 'g'),
        shape("image/webp"@) == (10nat, 'i', 'p'),
        shape("image/avif"@) == (10nat, 'i', 'f'),
        shape("image/gif"@) == (9nat, 'i', 'f'),
        shape("text/plain"@) == (10nat, 't', 'n'),
        shape("unknown"@) == (7nat, 'u', 'n'),
{
    reveal_strlit("application/xhtml+xml");
    reveal_strlit("application/xml");
    reveal_strlit("text/html");
    reveal_strlit("application/pdf");
    reveal_strlit("application/epub+zip");
    reveal_strlit("application/zip");
    reveal_strlit("application/vnd.comicbook+zip");
    reveal_strlit("application/vnd.rar");
    reveal_strlit("application/vnd.comicbook-rar");
    reveal_strlit("image/png");
    reveal_strlit("image/jpeg");
    reveal_strlit("image/webp");
    reveal_strlit("image/avif");
    reveal_strlit("image/gif");
    reveal_strlit("text/plain");
    reveal_strlit("unknown");
}

/// Resolving the canonical extension of a member gives the member back, and with it
/// a member of the same MIME string. `jpeg`, the second extension of JPEG, is no
/// canonical extension and so no exception.
pub proof fn law_extension_round_trip(content_type: ContentType)
    requires
        content_type != ContentType::UNKNOWN,
    ensures
        ContentType::spec_from_extension(content_type.spec_extension()) == content_type,
        ContentType::spec_from_extension(content_type.spec_extension()).spec_mime_type()
            == content_type.spec_mime_type(),
{
    lemma_extensions_are_lowercase(content_type);
    lemma_lowercase_of_lowercase_ascii(content_type.spec_extension());
    lemma_extension_shapes();
}

/// Parsing the canonical MIME string of a member gives the member back.
pub proof fn law_mime_round_trip(content_type: ContentType)
    requires
        content_type != ContentType::UNKNOWN,
    ensures
        ContentType::spec_from_mime(content_type.spec_mime_type()) == content_type,
{
    lemma_mime_strings_are_lowercase(content_type);
    lemma_lowercase_of_lowercase_ascii(content_type.spec_mime_type());
    lemma_mime_shapes();
}

/// An extension that is the canonical extension of a member, or `jpeg` for JPEG,
/// written in any combination of upper and lower case, resolves to that member.
pub proof fn law_extension_in_any_case(written: Seq<char>, content_type: ContentType)
    requires
        content_type != ContentType::UNKNOWN,
        is_case_variant(written, content_type.spec_extension()) || (content_type
            == ContentType::JPEG && is_case_variant(written, "jpeg"@)),
    ensures
        ContentType::spec_from_extension(written) == content_type,
{
    lemma_extension_shapes();
    if is_case_variant(written, content_type.spec_extension()) {
        lemma_lowercase_of_case_variant(written, content_type.spec_extension());
    } else {
        lemma_lowercase_of_case_variant(written, "jpeg"@);
    }
}

/// `opf` and `ncx`, written in any combination of upper and lower case, resolve to
/// XML.
pub proof fn law_workaround_extensions(written: Seq<char>)
    requires
        is_case_variant(written, "opf"@) || is_case_variant(written, "ncx"@),
    ensures
        ContentType::spec_from_extension(written) == ContentType::XML,
{
    lemma_extension_shapes();
    if is_case_variant(written, "opf"@) {
        lemma_lowercase_of_case_variant(written, "opf"@);
    } else {
        lemma_lowercase_of_case_variant(written, "ncx"@);
    }
}

/// An extension resolves to a member other than `UNKNOWN` exactly when its
/// normalised form is one of the recognised extensions.
pub proof fn law_recognised_extensions(written: Seq<char>)
    ensures
        ContentType::spec_from_extension(written) != ContentType::UNKNOWN
            <==> ContentType::spec_is_known_extension(lowercase(written)),
{
}

/// An extension that is not recognised resolves to `UNKNOWN`: one whose normalised
/// form is the extension of no member, nor `jpeg`, `opf` or `ncx`.
pub proof fn law_unrecognised_extension(written: Seq<char>)
    requires
        forall|content_type: ContentType|
            content_type != ContentType::UNKNOWN ==> #[trigger] content_type.spec_extension()
                != lowercase(written),
        lowercase(written) != "jpeg"@,
        lowercase(written) != "opf"@,
        lowercase(written) != "ncx"@,
    ensures
        ContentType::spec_from_extension(written) == ContentType::UNKNOWN,
{
    let key = lowercase(written);
    assert(ContentType::spec_lookup_extension(key) is None) by {
        assert(ContentType::XHTML.spec_extension() != key);
        assert(ContentType::XML.spec_extension() != key);
        assert(ContentType::HTML.spec_extension() != key);
        assert(ContentType::PDF.spec_extension() != key);
        assert(ContentType::EPUB_ZIP.spec_extension() != key);
        assert(ContentType::ZIP.spec_extension() != key);
        assert(ContentType::COMIC_ZIP.spec_extension() != key);
        assert(ContentType::RAR.spec_extension() != key);
        assert(ContentType::COMIC_RAR.spec_extension() != key);
        assert(ContentType::PNG.spec_extension() != key);
        assert(ContentType::JPEG.spec_extension() != key);
        assert(ContentType::WEBP.spec_extension() != key);
        assert(ContentType::AVIF.spec_extension() != key);
        assert(ContentType::GIF.spec_extension() != key);
        assert(ContentType::TXT.spec_extension() != key);
    }
}

/// The empty extension resolves to `UNKNOWN`.
pub proof fn lemma_empty_extension()
    ensures
        ContentType::spec_from_extension(Seq::empty()) == ContentType::UNKNOWN,
{
    let empty = Seq::<char>::empty();
    lemma_extension_shapes();
    lemma_lowercase_of_lowercase_ascii(empty);
}

/// A MIME string that is the canonical MIME string of a member, written in any
/// combination of upper and lower case, stands for that member.
pub proof fn law_mime_in_any_case(written: Seq<char>, content_type: ContentType)
    requires
        content_type != ContentType::UNKNOWN,
        is_case_variant(written, content_type.spec_mime_type()),
    ensures
        ContentType::spec_from_mime(written) == content_type,
{
    lemma_mime_shapes();
    lemma_lowercase_of_case_variant(written, content_type.spec_mime_type());
}

/// A MIME string whose normalised form is the canonical MIME string of no member
/// stands for `UNKNOWN`.
pub proof fn law_unrecognised_mime(written: Seq<char>)
    requires
        forall|content_type: ContentType|
            content_type != ContentType::UNKNOWN ==> #[trigger] content_type.spec_mime_type()
                != lowercase(written),
    ensures
        ContentType::spec_from_mime(written) == ContentType::UNKNOWN,
{
    let key = lowercase(written);
    assert(ContentType::XHTML.spec_mime_type() != key);
    assert(ContentType::XML.spec_mime_type() != key);
    assert(ContentType::HTML.spec_mime_type() != key);
    assert(ContentType::PDF.spec_mime_type() != key);
    assert(ContentType::EPUB_ZIP.spec_mime_type() != key);
    assert(ContentType::ZIP.spec_mime_type() != key);
    assert(ContentType::COMIC_ZIP.spec_mime_type() != key);
    assert(ContentType::RAR.spec_mime_type() != key);
    assert(ContentType::COMIC_RAR.spec_mime_type() != key);
    assert(ContentType::PNG.spec_mime_type() != key);
    assert(ContentType::JPEG.spec_mime_type() != key);
    assert(ContentType::WEBP.spec_mime_type() != key);
    assert(ContentType::AVIF.spec_mime_type() != key);
    assert(ContentType::GIF.spec_mime_type() != key);
    assert(ContentType::TXT.spec_mime_type() != key);
}

/// The members that convert into an image format are the images, and converting an
/// image format into the vocabulary and back gives the format again.
pub proof fn law_image_formats(content_type: ContentType, format: ImageFormat)
    ensures
        content_type.spec_image_format() is Some <==> content_type.is_image(),
        content_type.spec_image_format() == Some(format) <==> format.spec_content_type()
            == content_type,
        format.spec_content_type().spec_image_format() == Some(format),
{
}

/// The images are the members whose MIME string begins with `image/`; the images
/// of an OPDS 1.2 feed are images, but WEBP and AVIF are not among them; and a
/// member belongs to at most one of the families image, ZIP, RAR and EPUB.
pub proof fn law_capabilities(content_type: ContentType)
    ensures
        content_type.is_image() <==> content_type.has_image_mime(),
        content_type.is_opds_legacy_image() ==> content_type.is_image(),
        !ContentType::WEBP.is_opds_legacy_image() && !ContentType::AVIF.is_opds_legacy_image(),
        !(content_type.is_image() && content_type.is_zip()),
        !(content_type.is_image() && content_type.is_rar()),
        !(content_type.is_image() && content_type.is_epub()),
        !(content_type.is_zip() && content_type.is_rar()),
        !(content_type.is_zip() && content_type.is_epub()),
        !(content_type.is_rar() && content_type.is_epub()),
        !ContentType::UNKNOWN.is_image(),
{
    content_type.lemma_image_members();
}

} // verus!
