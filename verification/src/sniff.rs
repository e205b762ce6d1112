//! The byte sniffer and the composite resolver: signature sniffing first, the file
//! extension as the fallback.

use vstd::prelude::*;
use vstd::layout::size_of;
use crate::laws::lemma_empty_extension;
use crate::vocabulary::ContentType;

verus! {

/// The MIME string that the `infer` crate reports for a buffer: that of the first of
/// its signatures which the leading bytes match, or nothing where none matches.
pub uninterp spec fn sniffed_mime(bytes: Seq<u8>) -> Option<Seq<char>>;

/// What sniffing gives on the machine at hand. The sniffer is asked only where a
/// `usize` has eight bytes; elsewhere nothing counts as sniffed.
pub open spec fn spec_sniff(bytes: Seq<u8>) -> Option<Seq<char>> {
    if size_of::<usize>() == 8 {
        sniffed_mime(bytes)
    } else {
        None
    }
}

/// Calls `infer::get` and takes the MIME string of the type it found. Trusted: the
/// outcome depends on the bytes alone, so it has a name; nothing more is claimed of
/// which buffers match which signature. It is for machines where a `usize` has
/// eight bytes: two of the crate's matchers add lengths that they read from the
/// buffer, and with a narrower `usize` such a sum can overflow, upon which the call
/// panics or does not return.
#[verifier::external_body]
fn infer_mime_from_bytes(bytes: &[u8]) -> (mime: Option<String>)
    requires
        size_of::<usize>() == 8,
    ensures
        match mime {
            Some(m) => sniffed_mime(bytes@) == Some(m@),
            None => sniffed_mime(bytes@) is None,
        },
{
    infer::get(bytes).map(|infer_type| infer_type.mime_type().to_string())
}

/// Sniffs a buffer where the machine allows it, and reports nothing sniffed where
/// it does not.
fn sniff(bytes: &[u8]) -> (mime: Option<String>)
    ensures
        match mime {
            Some(m) => spec_sniff(bytes@) == Some(m@),
            None => spec_sniff(bytes@) is None,
        },
{
    if core::mem::size_of::<usize>() == 8 {
        infer_mime_from_bytes(bytes)
    } else {
        None
    }
}

/// How a content type was arrived at: from a signature in the bytes, or, no
/// signature having matched, from the extension.
#[derive(Debug, Clone, Copy, PartialEq, Eq, Structural)]
pub enum Detection {
    Sniffed(ContentType),
    Fallback(ContentType),
}

impl Detection {
    /// The content type that was found, whichever way.
    pub open spec fn spec_content_type(self) -> ContentType {
        match self {
            Detection::Sniffed(content_type) => content_type,
            Detection::Fallback(content_type) => content_type,
        }
    }

    /// The content type that was found, whichever way.
    pub fn content_type(&self) -> (content_type: ContentType)
        ensures
            content_type == self.spec_content_type(),
    {
        match self {
            Detection::Sniffed(content_type) => *content_type,
            Detection::Fallback(content_type) => *content_type,
        }
    }

    /// Whether the extension had to decide.
    pub fn is_fallback(&self) -> (fallback: bool)
        ensures
            fallback == (*self is Fallback),
    {
        matches!(self, Detection::Fallback(_))
    }
}

impl ContentType {
    /// What sniffing alone gives: the member that the sniffed MIME string stands
    /// for, and `UNKNOWN` where nothing was sniffed.
    pub open spec fn spec_from_sniffed(sniffed: Option<Seq<char>>) -> ContentType {
        match sniffed {
            Some(mime) => Self::spec_from_mime(mime),
            None => ContentType::UNKNOWN,
        }
    }

    /// What sniffing with the extension as fallback gives. A sniffed MIME string
    /// decides alone, also where it stands for `UNKNOWN`; the extension is asked
    /// only where nothing was sniffed.
    pub open spec fn spec_detect(sniffed: Option<Seq<char>>, extension: Seq<char>) -> Detection {
        match sniffed {
            Some(mime) => Detection::Sniffed(Self::spec_from_mime(mime)),
            None => Detection::Fallback(Self::spec_from_extension(extension)),
        }
    }

    /// Maps the outcome of sniffing into the vocabulary.
    pub fn from_sniffed(sniffed: Option<&str>) -> (content_type: ContentType)
        ensures
            content_type == Self::spec_from_sniffed(
                match sniffed {
                    Some(mime) => Some(mime@),
                    None => None,
                },
            ),
    {
        match sniffed {
            Some(mime) => ContentType::from(mime),
            None => ContentType::UNKNOWN,
        }
    }

    /// Decides between the outcome of sniffing and the extension, and says which of
    /// the two decided.
    pub fn detect(sniffed: Option<&str>, extension: &str) -> (detection: Detection)
        ensures
            detection == Self::spec_detect(
                match sniffed {
                    Some(mime) => Some(mime@),
                    None => None,
                },
                extension@,
            ),
    {
        match sniffed {
            Some(mime) => Detection::Sniffed(ContentType::from(mime)),
            None => Detection::Fallback(ContentType::from_extension(extension)),
        }
    }

    /// Infer the MIME type of a buffer from its leading bytes. If no signature
    /// matches, the content type is `UNKNOWN`. On a machine whose `usize` has not
    /// eight bytes no buffer is sniffed, and none matches.
    pub fn from_bytes(bytes: &[u8]) -> (content_type: ContentType)
        ensures
            content_type == Self::spec_from_sniffed(spec_sniff(bytes@)),
    {
        match sniff(bytes) {
            Some(mime) => Self::from_sniffed(Some(mime.as_str())),
            None => Self::from_sniffed(None),
        }
    }

    /// Infer the MIME type of a buffer from its leading bytes, with the extension as
    /// fallback, and say whether the fallback was taken. On a machine whose `usize`
    /// has not eight bytes no buffer is sniffed, and the fallback is always taken.
    pub fn detect_with_fallback(bytes: &[u8], extension: &str) -> (detection: Detection)
        ensures
            detection == Self::spec_detect(spec_sniff(bytes@), extension@),
    {
        match sniff(bytes) {
            Some(mime) => Self::detect(Some(mime.as_str()), extension),
            None => Self::detect(None, extension),
        }
    }

    /// Infer the MIME type of a buffer from its leading bytes. If no signature
    /// matches, the extension is used to determine the content type.
    ///
    /// This function writes no log record. A caller that has to record a fallback,
    /// as operators expect of one, calls [`ContentType::detect_with_fallback`] and
    /// writes the record where it returns [`Detection::Fallback`].
    pub fn from_bytes_with_fallback(bytes: &[u8], extension: &str) -> (content_type: ContentType)
        ensures
            content_type == Self::spec_detect(spec_sniff(bytes@), extension@).spec_content_type(),
    {
        Self::detect_with_fallback(bytes, extension).content_type()
    }

    /// Resolves the content type of a file from what was learned at its path: the
    /// MIME string sniffed from the file's leading bytes, if the file could be read
    /// and a signature matched, and the path's extension, if it has one. A missing
    /// extension counts as the empty one.
    pub fn from_path(sniffed: Option<&str>, extension: Option<&str>) -> (content_type: ContentType)
        ensures
            content_type == Self::spec_detect(
                match sniffed {
                    Some(mime) => Some(mime@),
                    None => None,
                },
                match extension {
                    Some(e) => e@,
                    None => Seq::empty(),
                },
            ).spec_content_type(),
            sniffed is None && extension is None ==> content_type == ContentType::UNKNOWN,
    {
        let extension = match extension {
            Some(e) => e,
            None => "",
        };
        proof {
            reveal_strlit("");
            assert(""@ =~= Seq::<char>::empty());
            lemma_empty_extension();
        }
        Self::detect(sniffed, extension).content_type()
    }
}

} // verus!
