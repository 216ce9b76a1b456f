use vstd::prelude::*;
use base64::engine::general_purpose::{STANDARD, URL_SAFE_NO_PAD};
use base64::Engine;
use crate::error::ToolError;

verus! {

/// The two base64 alphabets.
#[derive(Clone, Copy, Debug, PartialEq, Eq, Structural)]
pub enum Base64Format {
    /// `+` and `/`, padded with `=`.
    Standard,
    /// `-` and `_`, without padding.
    UrlSafe,
}

#[verifier::external_type_specification]
#[verifier::external_body]
pub struct ExDecodeError(base64::DecodeError);

/// The 64 symbols of the standard alphabet, by value.
pub open spec fn standard_alphabet() -> Seq<char> {
    seq!['A','B','C','D','E','F','G','H','I','J','K','L','M','N','O','P','Q','R','S','T','U','V','W','X','Y','Z',
        'a','b','c','d','e','f','g','h','i','j','k','l','m','n','o','p','q','r','s','t','u','v','w','x','y','z',
        '0','1','2','3','4','5','6','7','8','9', '+', '/']
}

/// The 64 symbols of the URL-safe alphabet, by value.
pub open spec fn url_safe_alphabet() -> Seq<char> {
    seq!['A','B','C','D','E','F','G','H','I','J','K','L','M','N','O','P','Q','R','S','T','U','V','W','X','Y','Z',
        'a','b','c','d','e','f','g','h','i','j','k','l','m','n','o','p','q','r','s','t','u','v','w','x','y','z',
        '0','1','2','3','4','5','6','7','8','9', '-', '_']
}

/// Base64 of `bytes` over the 64 symbols `alphabet`: each group of three bytes gives four
/// symbols of six bits each, high bits first; a last group of one or two bytes gives two or
/// three symbols, its missing bits zero, followed by `=` up to four symbols where `pad`.
pub open spec fn base64_of(bytes: Seq<u8>, alphabet: Seq<char>, pad: bool) -> Seq<char>
    decreases bytes.len(),
{
    if bytes.len() == 0 {
        Seq::empty()
    } else if bytes.len() == 1 {
        seq![alphabet[(bytes[0] >> 2u8) as int], alphabet[((bytes[0] & 3u8) << 4u8) as int]] + if pad {
            seq!['=', '=']
        } else {
            Seq::empty()
        }
    } else if bytes.len() == 2 {
        seq![
            alphabet[(bytes[0] >> 2u8) as int],
            alphabet[(((bytes[0] & 3u8) << 4u8) | (bytes[1] >> 4u8)) as int],
            alphabet[((bytes[1] & 15u8) << 2u8) as int],
        ] + if pad {
            seq!['=']
        } else {
            Seq::empty()
        }
    } else {
        seq![
            alphabet[(bytes[0] >> 2u8) as int],
            alphabet[(((bytes[0] & 3u8) << 4u8) | (bytes[1] >> 4u8)) as int],
            alphabet[(((bytes[1] & 15u8) << 2u8) | (bytes[2] >> 6u8)) as int],
            alphabet[(bytes[2] & 63u8) as int],
        ] + base64_of(bytes.subrange(3, bytes.len() as int), alphabet, pad)
    }
}

/// The padded standard-alphabet encoding of `bytes`.
pub open spec fn standard_text(bytes: Seq<u8>) -> Seq<char> {
    base64_of(bytes, standard_alphabet(), true)
}

/// The unpadded URL-safe encoding of `bytes`.
pub open spec fn url_safe_text(bytes: Seq<u8>) -> Seq<char> {
    base64_of(bytes, url_safe_alphabet(), false)
}

/// The encoding of `bytes` under `format`.
pub open spec fn encoded(bytes: Seq<u8>, format: Base64Format) -> Seq<char> {
    match format {
        Base64Format::Standard => standard_text(bytes),
        Base64Format::UrlSafe => url_safe_text(bytes),
    }
}

pub open spec fn is_alnum(c: char) -> bool {
    ('A' <= c && c <= 'Z') || ('a' <= c && c <= 'z') || ('0' <= c && c <= '9')
}

/// The characters that may occur in text of the standard alphabet (padding included).
pub open spec fn standard_char(c: char) -> bool {
    is_alnum(c) || c == '+' || c == '/' || c == '='
}

/// The characters that may occur in text of the URL-safe alphabet.
pub open spec fn url_safe_char(c: char) -> bool {
    is_alnum(c) || c == '-' || c == '_'
}

pub open spec fn alphabet_char(c: char, format: Base64Format) -> bool {
    match format {
        Base64Format::Standard => standard_char(c),
        Base64Format::UrlSafe => url_safe_char(c),
    }
}

/// `=` stands only in the last two places of `text`, and only where the text ends with it.
pub open spec fn padding_at_end(text: Seq<char>) -> bool {
    forall|i: int|
        0 <= i < text.len() && #[trigger] text[i] == '=' ==> i + 2 >= text.len() && text.last()
            == '='
}

/// Every character of `text` belongs to the alphabet of `format`, padding included.
pub open spec fn within_alphabet(text: Seq<char>, format: Base64Format) -> bool {
    &&& forall|i: int| 0 <= i < text.len() ==> alphabet_char(#[trigger] text[i], format)
    &&& format == Base64Format::Standard ==> padding_at_end(text)
}

/// Relies on `base64::engine::general_purpose::STANDARD.encode`: RFC 4648 base64 over
/// the standard alphabet, padded with `=`, which stands only at the end.
#[verifier::external_body]
fn standard_encode(bytes: &[u8]) -> (r: String)
    ensures
        r@ == standard_text(bytes@),
        forall|i: int| 0 <= i < r@.len() ==> standard_char(#[trigger] r@[i]),
        padding_at_end(r@),
{
    STANDARD.encode(bytes)
}

/// Relies on `base64::engine::general_purpose::URL_SAFE_NO_PAD.encode`: RFC 4648 base64
/// over the URL-safe alphabet, without padding.
#[verifier::external_body]
fn url_safe_encode(bytes: &[u8]) -> (r: String)
    ensures
        r@ == url_safe_text(bytes@),
        forall|i: int| 0 <= i < r@.len() ==> url_safe_char(#[trigger] r@[i]),
{
    URL_SAFE_NO_PAD.encode(bytes)
}

/// Relies on `base64::engine::general_purpose::STANDARD.decode`, whose configuration
/// requires canonical padding and zero trailing bits: it accepts exactly the texts that
/// `STANDARD.encode` produces, and gives back the bytes that were encoded. `=` before
/// another symbol, or more than two of it, is an invalid byte.
#[verifier::external_body]
fn standard_decode(text: &str) -> (r: Result<Vec<u8>, base64::DecodeError>)
    ensures
        r is Ok ==> standard_text(r->Ok_0@) == text@,
        r is Ok ==> forall|i: int| 0 <= i < text@.len() ==> standard_char(#[trigger] text@[i]),
        r is Ok ==> padding_at_end(text@),
        forall|b: Seq<u8>| standard_text(b) == text@ ==> (r is Ok && r->Ok_0@ == b),
{
    STANDARD.decode(text)
}

/// Relies on `base64::engine::general_purpose::URL_SAFE_NO_PAD.decode`, whose
/// configuration refuses padding and nonzero trailing bits: it accepts exactly the texts
/// that `URL_SAFE_NO_PAD.encode` produces, and gives back the bytes that were encoded.
#[verifier::external_body]
fn url_safe_decode(text: &str) -> (r: Result<Vec<u8>, base64::DecodeError>)
    ensures
        r is Ok ==> url_safe_text(r->Ok_0@) == text@,
        r is Ok ==> forall|i: int| 0 <= i < text@.len() ==> url_safe_char(#[trigger] text@[i]),
        forall|b: Seq<u8>| url_safe_text(b) == text@ ==> (r is Ok && r->Ok_0@ == b),
{
    URL_SAFE_NO_PAD.decode(text)
}

/// Encodes `bytes` as base64 text in the alphabet of `format`.
pub fn encode(bytes: &[u8], format: Base64Format) -> (r: String)
    ensures
        r@ == encoded(bytes@, format),
        within_alphabet(r@, format),
        bytes@.len() == 0 ==> r@.len() == 0,
{
    match format {
        Base64Format::Standard => standard_encode(bytes),
        Base64Format::UrlSafe => url_safe_encode(bytes),
    }
}

/// Decodes base64 `text` in the alphabet of `format`. Either the whole buffer comes
/// back, or `Encoding`.
pub fn decode(text: &str, format: Base64Format) -> (r: Result<Vec<u8>, ToolError>)
    ensures
        r is Ok <==> exists|b: Seq<u8>| encoded(b, format) == text@,
        r is Ok ==> encoded(r->Ok_0@, format) == text@,
        r is Err ==> r == Err::<Vec<u8>, ToolError>(ToolError::Encoding),
        // decoding an encoding gives back the encoded bytes
        forall|b: Seq<u8>| #[trigger] encoded(b, format) == text@ ==> (r is Ok && r->Ok_0@ == b),
        // a character outside the alphabet is rejected
        !within_alphabet(text@, format) ==> r is Err,
        text@.len() == 0 ==> (r is Ok && r->Ok_0@.len() == 0),
{
    proof {
        if text@.len() == 0 {
            assert(encoded(Seq::<u8>::empty(), format) =~= text@);
        }
    }
    let raw = match format {
        Base64Format::Standard => standard_decode(text),
        Base64Format::UrlSafe => url_safe_decode(text),
    };
    match raw {
        Ok(bytes) => {
            assert(encoded(bytes@, format) == text@);
            Ok(bytes)
        },
        Err(_) => Err(ToolError::Encoding),
    }
}

} // verus!
