//! Capability predicates: boolean queries over a member of the vocabulary.

use vstd::prelude::*;
use crate::vocabulary::ContentType;

verus! {

impl ContentType {
    /// Whether the canonical MIME string of the member begins with `image/`.
    pub open spec fn has_image_mime(self) -> bool {
        "image/"@.is_prefix_of(self.spec_mime_type())
    }

    /// The image formats: PNG, JPEG, WEBP, AVIF and GIF.
    pub open spec fn spec_is_image(&self) -> bool {
        *self == ContentType::PNG || *self == ContentType::JPEG || *self == ContentType::WEBP
            || *self == ContentType::AVIF || *self == ContentType::GIF
    }

    /// The image formats that an OPDS 1.2 feed may carry: PNG, JPEG and GIF.
    pub open spec fn spec_is_opds_legacy_image(&self) -> bool {
        *self == ContentType::PNG || *self == ContentType::JPEG || *self == ContentType::GIF
    }

    /// The ZIP family: ZIP and comic-book ZIP.
    pub open spec fn spec_is_zip(&self) -> bool {
        *self == ContentType::ZIP || *self == ContentType::COMIC_ZIP
    }

    /// The RAR family: RAR and comic-book RAR.
    pub open spec fn spec_is_rar(&self) -> bool {
        *self == ContentType::RAR || *self == ContentType::COMIC_RAR
    }

    /// The EPUB archive.
    pub open spec fn spec_is_epub(&self) -> bool {
        *self == ContentType::EPUB_ZIP
    }

    /// The members whose MIME string begins with `image/` are the five image
    /// formats and no others.
    pub proof fn lemma_image_members(self)
        ensures
            self.has_image_mime() <==> self.spec_is_image(),
    {
        reveal_strlit("image/");
        reveal_strlit("application/xhtml+xml");
        reveal_strlit("application/xml");
        reveal_strlit("text/html");
        reveal_strlit("application/pdf");
        reveal_strlit("application/epub+zip");
        reveal_strlit("application/zip");
        reveal_strlit("application/vnd.comicbook+zip");
        reveal_strlit("application/vnd.rar");
        reveal_strlit("application/vnd.comicbook-rar");
        reveal_strlit("image/png");
        reveal_strlit("image/jpeg");
        reveal_strlit("image/webp");
        reveal_strlit("image/avif");
        reveal_strlit("image/gif");
        reveal_strlit("text/plain");
        reveal_strlit("unknown");
        let mime = self.spec_mime_type();
        let prefix = "image/"@;
        if self.spec_is_image() {
            assert(mime.subrange(0, 6) =~= prefix);
        } else if prefix.is_prefix_of(mime) {
            assert(mime.subrange(0, 6)[0] == prefix[0]);
        }
    }

    /// Returns true if the content type is an image.
    #[verifier::when_used_as_spec(spec_is_image)]
    pub fn is_image(&self) -> (image: bool)
        ensures
            image == self.spec_is_image(),
            image == self.has_image_mime(),
    {
        proof {
            self.lemma_image_members();
        }
        matches!(
            self,
            ContentType::PNG | ContentType::JPEG | ContentType::WEBP | ContentType::AVIF
                | ContentType::GIF
        )
    }

    /// Returns true if the content type is one of the image formats that an OPDS 1.2
    /// feed may carry: PNG, JPEG and GIF.
    #[verifier::when_used_as_spec(spec_is_opds_legacy_image)]
    pub fn is_opds_legacy_image(&self) -> (legacy: bool)
        ensures
            legacy == self.spec_is_opds_legacy_image(),
    {
        matches!(self, ContentType::PNG | ContentType::JPEG | ContentType::GIF)
    }

    /// Returns true if the content type is a ZIP archive.
    #[verifier::when_used_as_spec(spec_is_zip)]
    pub fn is_zip(&self) -> (zip: bool)
        ensures
            zip == self.spec_is_zip(),
    {
        matches!(self, ContentType::ZIP | ContentType::COMIC_ZIP)
    }

    /// Returns true if the content type is a RAR archive.
    #[verifier::when_used_as_spec(spec_is_rar)]
    pub fn is_rar(&self) -> (rar: bool)
        ensures
            rar == self.spec_is_rar(),
    {
        matches!(self, ContentType::RAR | ContentType::COMIC_RAR)
    }

    /// Returns true if the content type is an EPUB archive.
    #[verifier::when_used_as_spec(spec_is_epub)]
    pub fn is_epub(&self) -> (epub: bool)
        ensures
            epub == self.spec_is_epub(),
    {
        matches!(self, ContentType::EPUB_ZIP)
    }
}

} // verus!
