//! Character-level helpers shared by the lookup tables: exact string comparison and
//! the case normalisation that precedes every table lookup.

use vstd::prelude::*;
use vstd::utf8::{encode_utf8, encode_utf8_decode_utf8, is_ascii_chars};

verus! {

/// The lowercase form of one ASCII character: `'A'..='Z'` move to `'a'..='z'`,
/// every other character is left as it is.
pub open spec fn ascii_lowercase_char(c: char) -> char {
    if 'A' <= c && c <= 'Z' {
        ((c as u8 + 32) as u8) as char
    } else {
        c
    }
}

/// The character-by-character ASCII lowercase form of a string.
pub open spec fn ascii_lowercase(s: Seq<char>) -> Seq<char> {
    Seq::new(s.len(), |i: int| ascii_lowercase_char(s[i]))
}

/// A string that case normalisation leaves alone: ASCII only, no uppercase letter.
pub open spec fn is_lowercase_ascii(s: Seq<char>) -> bool {
    forall|i: int|
        #![trigger s[i]]
        0 <= i < s.len() ==> '\0' <= s[i] <= '\u{7f}' && !('A' <= s[i] && s[i] <= 'Z')
}

/// What `str::to_lowercase` returns for a string: its lowercase equivalent under
/// Unicode's case mapping.
pub uninterp spec fn unicode_lowercase(s: Seq<char>) -> Seq<char>;

/// The normalised form under which the tables are searched. On ASCII input it is
/// spelled out; elsewhere it is whatever Unicode's case mapping gives.
pub open spec fn lowercase(s: Seq<char>) -> Seq<char> {
    if is_ascii_chars(s) {
        ascii_lowercase(s)
    } else {
        unicode_lowercase(s)
    }
}

/// Calls `str::to_lowercase`. Trusted: the result is the lowercase equivalent of `s`
/// under Unicode's case mapping, which depends on the characters of `s` alone and so
/// has a name; and, that mapping sending `'A'..='Z'` to `'a'..='z'` and no other
/// ASCII character anywhere, for a string of ASCII characters only the result is the
/// string with each uppercase letter replaced by its lowercase letter.
#[verifier::external_body]
fn to_lowercase(s: &str) -> (lowered: String)
    ensures
        lowered@ == unicode_lowercase(s@),
        is_ascii_chars(s@) ==> lowered@ == ascii_lowercase(s@),
{
    s.to_lowercase()
}

/// The normalised form of `s`, as a new string.
pub(crate) fn normalize(s: &str) -> (lowered: String)
    ensures
        lowered@ == lowercase(s@),
{
    to_lowercase(s)
}

/// Normalisation leaves a lowercase ASCII string unchanged.
pub proof fn lemma_lowercase_of_lowercase_ascii(s: Seq<char>)
    requires
        is_lowercase_ascii(s),
    ensures
        lowercase(s) == s,
{
    assert(is_ascii_chars(s));
    assert(ascii_lowercase(s) =~= s);
}

/// `written` is `key` in some combination of upper and lower case ASCII letters.
pub open spec fn is_case_variant(written: Seq<char>, key: Seq<char>) -> bool {
    &&& written.len() == key.len()
    &&& forall|i: int|
        #![trigger written[i]]
        0 <= i < written.len() ==> '\0' <= written[i] <= '\u{7f}' && ascii_lowercase_char(
            written[i],
        ) == key[i]
}

/// Normalisation takes every case variant of a key to the key.
pub proof fn lemma_lowercase_of_case_variant(written: Seq<char>, key: Seq<char>)
    requires
        is_case_variant(written, key),
    ensures
        lowercase(written) == key,
{
    assert(is_ascii_chars(written));
    assert(ascii_lowercase(written) =~= key);
}

/// The length, first and last character of a string. These three tell the keys of
/// each table apart.
pub open spec fn shape(s: Seq<char>) -> (nat, char, char) {
    (s.len(), s.first(), s.last())
}

/// Whether two strings hold the same characters.
pub fn str_eq(a: &str, b: &str) -> (same: bool)
    ensures
        same == (a@ == b@),
{
    let x = a.as_bytes();
    let y = b.as_bytes();
    if x.len() != y.len() {
        return false;
    }
    let mut i: usize = 0;
    while i < x.len()
        invariant
            i <= x.len(),
            x.len() == y.len(),
            x@ == encode_utf8(a@),
            y@ == encode_utf8(b@),
            forall|j: int| 0 <= j < i ==> x@[j] == y@[j],
        decreases x.len() - i,
    {
        if x[i] != y[i] {
            return false;
        }
        i += 1;
    }
    proof {
        // The two encodings are the same bytes, and an encoding decodes to one string.
        assert(x@ =~= y@);
        encode_utf8_decode_utf8(a@);
        encode_utf8_decode_utf8(b@);
    }
    true
}

} // verus!
