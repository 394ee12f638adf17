//! Text operations: base64url, UTF-8, trimming, upper-casing and hexadecimal.
use vstd::prelude::*;

use crate::bytes::opt_bytes;
use base64ct::{Base64UrlUnpadded, Encoding};

verus! {

/// The unpadded base64url text of `bytes`.
pub uninterp spec fn base64url_encoded(bytes: Seq<u8>) -> Seq<char>;

/// The bytes that unpadded base64url `text` decodes to, or `None` when it is not
/// canonical unpadded base64url.
pub uninterp spec fn base64url_decoded(text: Seq<char>) -> Option<Seq<u8>>;

/// The text that `bytes` decode to as UTF-8, or `None` when they are not UTF-8.
pub uninterp spec fn utf8_text(bytes: Seq<u8>) -> Option<Seq<char>>;

/// A character with the Unicode property `White_Space`, as `char::is_whitespace`
/// tests it.
pub open spec fn is_white_space(c: char) -> bool {
    let u = c as u32;
    ||| 0x9 <= u <= 0xd
    ||| u == 0x20
    ||| u == 0x85
    ||| u == 0xa0
    ||| u == 0x1680
    ||| 0x2000 <= u <= 0x200a
    ||| u == 0x2028
    ||| u == 0x2029
    ||| u == 0x202f
    ||| u == 0x205f
    ||| u == 0x3000
}

/// `text` without its leading white space.
pub open spec fn trimmed_start(text: Seq<char>) -> Seq<char>
    decreases text.len(),
{
    if text.len() > 0 && is_white_space(text[0]) {
        trimmed_start(text.drop_first())
    } else {
        text
    }
}

/// `text` without its trailing white space.
pub open spec fn trimmed_end(text: Seq<char>) -> Seq<char>
    decreases text.len(),
{
    if text.len() > 0 && is_white_space(text.last()) {
        trimmed_end(text.drop_last())
    } else {
        text
    }
}

/// `text` without leading and trailing white space.
pub open spec fn trimmed(text: Seq<char>) -> Seq<char> {
    trimmed_end(trimmed_start(text))
}

/// `text` in upper case, by Unicode case mapping.
pub uninterp spec fn uppercased(text: Seq<char>) -> Seq<char>;

/// An ASCII letter or digit.
pub open spec fn is_ascii_alphanumeric(c: char) -> bool {
    ('a' <= c && c <= 'z') || ('A' <= c && c <= 'Z') || ('0' <= c && c <= '9')
}

/// The ASCII upper case of a letter or digit.
pub open spec fn ascii_upper(c: char) -> char {
    if 'a' <= c && c <= 'z' {
        ((c as u32) - 32) as char
    } else {
        c
    }
}

/// The upper-case hexadecimal digit of a value below 16.
pub open spec fn hex_digit_upper(v: u8) -> char {
    if v < 10 {
        ((v as u32) + 48) as char
    } else {
        ((v as u32) + 55) as char
    }
}

/// Two upper-case hexadecimal digits per byte, most significant first.
pub open spec fn hex_upper(bytes: Seq<u8>) -> Seq<char>
    decreases bytes.len(),
{
    if bytes.len() == 0 {
        Seq::empty()
    } else {
        hex_upper(bytes.drop_last()) + seq![
            hex_digit_upper(bytes.last() / 16),
            hex_digit_upper(bytes.last() % 16),
        ]
    }
}

/// `Base64UrlUnpadded::encode_string`; the result is the named
/// `base64url_encoded`.
#[verifier::external_body]
pub(crate) fn base64url_encode(bytes: &[u8]) -> (text: String)
    ensures
        text@ == base64url_encoded(bytes@),
{
    Base64UrlUnpadded::encode_string(bytes)
}

/// `Base64UrlUnpadded::decode_vec`; the result is the named `base64url_decoded`.
#[verifier::external_body]
pub(crate) fn base64url_decode(text: &str) -> (bytes: Option<Vec<u8>>)
    ensures
        opt_bytes(bytes) == base64url_decoded(text@),
{
    Base64UrlUnpadded::decode_vec(text).ok()
}

/// `core::str::from_utf8`; the result is the named `utf8_text`.
#[verifier::external_body]
pub(crate) fn utf8_decode(bytes: &[u8]) -> (text: Option<&str>)
    ensures
        match text {
            Some(t) => utf8_text(bytes@) == Some(t@),
            None => utf8_text(bytes@) is None,
        },
{
    core::str::from_utf8(bytes).ok()
}

/// `str::trim`: the text without leading and trailing `White_Space` characters.
#[verifier::external_body]
pub(crate) fn trim(text: &str) -> (out: &str)
    ensures
        out@ == trimmed(text@),
{
    text.trim()
}

/// `str::to_uppercase`; the result is the named `uppercased`, which on ASCII
/// letters and digits maps `a`..=`z` to `A`..=`Z` and keeps the rest.
#[verifier::external_body]
pub(crate) fn to_uppercase(text: &str) -> (out: String)
    ensures
        out@ == uppercased(text@),
        (forall|i: int| 0 <= i < text@.len() ==> is_ascii_alphanumeric(#[trigger] text@[i]))
            ==> out@ == text@.map_values(|c: char| ascii_upper(c)),
{
    text.to_uppercase()
}

/// `faster_hex::hex_string_upper`: two upper-case hexadecimal digits per byte.
/// It panics when the doubled length does not fit an allocation, which
/// `requires` rules out.
#[verifier::external_body]
pub(crate) fn hex_string_upper(bytes: &[u8]) -> (text: String)
    requires
        bytes@.len() * 2 <= isize::MAX,
    ensures
        text@ == hex_upper(bytes@),
{
    faster_hex::hex_string_upper(bytes)
}

/// `String::push`: appends one character.
#[verifier::external_body]
pub(crate) fn push_char(text: &mut String, c: char)
    ensures
        final(text)@ == old(text)@.push(c),
{
    text.push(c)
}

} // verus!
