//! Methods, status codes, URLs, bodies and Base64: what the crate relies on of
//! `http`, `url`, `bytes` and `base64`.

use base64::Engine;
use bytes::Bytes;
use http::{Method, StatusCode};
use url::{ParseError, Url};
use vstd::prelude::*;
use vstd::utf8::*;

verus! {

/// `http::Method`, a request method.
#[verifier::external_type_specification]
#[verifier::external_body]
pub struct ExMethod(http::Method);

/// `http::StatusCode`, the status of a response.
#[verifier::external_type_specification]
#[verifier::external_body]
pub struct ExStatusCode(http::StatusCode);

/// `url::Url`, a parsed URL.
#[verifier::external_type_specification]
#[verifier::external_body]
pub struct ExUrl(url::Url);

/// `url::ParseError`, why a text is no URL.
#[verifier::external_type_specification]
#[verifier::external_body]
pub struct ExParseError(url::ParseError);

/// `bytes::Bytes`, the bytes of a body.
#[verifier::external_type_specification]
#[verifier::external_body]
pub struct ExBytes(bytes::Bytes);

/// The text of a method, as `Method::as_str` gives it.
pub uninterp spec fn method_text(method: Method) -> Seq<char>;

/// The number of a status, as `StatusCode::as_u16` gives it.
pub uninterp spec fn status_number(status: StatusCode) -> u16;

/// What a body holds.
pub uninterp spec fn bytes_contents(bytes: Bytes) -> Seq<u8>;

/// What `Url::parse` makes of a text.
pub uninterp spec fn url_parsed(text: Seq<char>) -> Result<Url, ParseError>;

/// What `Url::join` makes of a reference on a base.
pub uninterp spec fn url_joined(base: Url, reference: Seq<char>) -> Result<Url, ParseError>;

/// The URL with one more query pair, as `query_pairs_mut().append_pair(..)`
/// leaves it.
pub uninterp spec fn url_with_pair(url: Url, key: Seq<char>, value: Seq<char>) -> Url;

/// The text of a URL, as `Url::as_str` gives it.
pub uninterp spec fn url_text(url: Url) -> Seq<char>;

/// The query of a URL, as `Url::query` gives it.
pub uninterp spec fn url_query(url: Url) -> Option<Seq<char>>;

/// The fragment of a URL, as `Url::fragment` gives it.
pub uninterp spec fn url_fragment(url: Url) -> Option<Seq<char>>;

/// What a `ParseError` displays as.
pub uninterp spec fn parse_error_text(e: ParseError) -> Seq<char>;

/// Bytes in Base64 with the standard alphabet and padding.
pub uninterp spec fn base64_text(bytes: Seq<u8>) -> Seq<char>;

/// The characters that Base64 text is made of.
pub open spec fn is_base64_char(c: char) -> bool {
    ||| '0' <= c <= '9'
    ||| 'a' <= c <= 'z'
    ||| 'A' <= c <= 'Z'
    ||| c == '+' || c == '/' || c == '='
}

/// The length of a URL in bytes.
pub open spec fn url_size(url: Url) -> nat {
    encode_utf8(url_text(url)).len()
}

/// The length in bytes of a URL without its fragment.
pub open spec fn base_size(url: Url) -> int {
    match url_fragment(url) {
        Some(fragment) => url_size(url) - 1 - encode_utf8(fragment).len(),
        None => url_size(url) as int,
    }
}

/// The byte takes one byte in a query: it stands for itself, or it is a space,
/// which is written as a plus sign.
pub open spec fn kept_byte(b: u8) -> bool {
    ||| b == ' ' as u8 || b == '*' as u8 || b == '-' as u8 || b == '.' as u8 || b == '_' as u8
    ||| '0' as u8 <= b <= '9' as u8
    ||| 'A' as u8 <= b <= 'Z' as u8
    ||| 'a' as u8 <= b <= 'z' as u8
}

/// How many bytes the bytes take in a query: one that is percent-encoded takes
/// three.
pub open spec fn escaped_size(bytes: Seq<u8>) -> nat
    decreases bytes.len(),
{
    if bytes.len() == 0 {
        0
    } else {
        escaped_size(bytes.drop_last()) + if kept_byte(bytes.last()) {
            1nat
        } else {
            3
        }
    }
}

/// How many bytes a query pair takes: key and value, and what is between them.
pub open spec fn pair_size(key: Seq<char>, value: Seq<char>) -> nat {
    escaped_size(encode_utf8(key)) + 1 + escaped_size(encode_utf8(value))
}

/// How many bytes set off the next query pair: none after a bare question mark.
pub open spec fn separator_size(url: Url) -> nat {
    if url_query(url) is Some && url_query(url)->0.len() == 0 {
        0
    } else {
        1
    }
}

/// `Method::from_bytes` on the bytes of `text`: accepts exactly the tokens, and
/// keeps them as they are.
#[verifier::external_body]
pub(crate) fn method_named(text: &str) -> (r: Option<Method>)
    ensures
        match r {
            Some(method) => crate::header::is_token(text@) && method_text(method) == text@,
            None => !crate::header::is_token(text@),
        },
{
    Method::from_bytes(text.as_bytes()).ok()
}

/// `Method::clone`: the same method.
pub assume_specification[ <Method as Clone>::clone ](method: &Method) -> (r: Method)
    ensures
        r == *method,
;

/// `StatusCode::as_u16`: its number, which has three digits.
pub assume_specification[ StatusCode::as_u16 ](status: &StatusCode) -> (n: u16)
    ensures
        n == status_number(*status),
        100 <= n <= 999,
;

/// `StatusCode::is_success`: the number is one of 200 to 299.
pub assume_specification[ StatusCode::is_success ](status: &StatusCode) -> (r: bool)
    ensures
        r == (200 <= status_number(*status) < 300),
;

/// `StatusCode::is_client_error`: the number is one of 400 to 499.
pub assume_specification[ StatusCode::is_client_error ](status: &StatusCode) -> (r: bool)
    ensures
        r == (400 <= status_number(*status) < 500),
;

/// `StatusCode::is_server_error`: the number is one of 500 to 599.
pub assume_specification[ StatusCode::is_server_error ](status: &StatusCode) -> (r: bool)
    ensures
        r == (500 <= status_number(*status) < 600),
;

/// `Url::parse`: a URL or the reason why there is none, which depends on the
/// text alone.
pub assume_specification[ Url::parse ](input: &str) -> (r: Result<Url, url::ParseError>)
    ensures
        r == url_parsed(input@),
;

/// `Url::join`: a URL or the reason why there is none, which depends on the base
/// and the text alone.
pub assume_specification[ Url::join ](base: &Url, input: &str) -> (r: Result<Url, url::ParseError>)
    ensures
        r == url_joined(*base, input@),
;

/// `Url::as_str`: the text of the URL.
pub assume_specification[ Url::as_str ](url: &Url) -> (r: &str)
    ensures
        r@ == url_text(*url),
;

/// `Url::clone`: the same URL.
pub assume_specification[ <Url as Clone>::clone ](url: &Url) -> (r: Url)
    ensures
        r == *url,
;

/// `Url::query`: what follows the question mark, up to the fragment.
pub assume_specification[ Url::query ](url: &Url) -> (r: Option<&str>)
    ensures
        match r {
            Some(text) => url_query(*url) == Some(text@),
            None => url_query(*url) is None,
        },
;

/// `Url::fragment`: what follows the number sign, to the end.
pub assume_specification[ Url::fragment ](url: &Url) -> (r: Option<&str>)
    ensures
        match r {
            Some(text) => url_fragment(*url) == Some(text@) && encode_utf8(text@).len() + 1
                <= url_size(*url),
            None => url_fragment(*url) is None,
        },
;

/// `Url::query_pairs_mut` and `append_pair` on what it returns: one more query
/// pair before the fragment. The outcome depends on the URL and the pair alone,
/// and is longer by the pair and what sets it off. It panics where a new query or
/// the fragment would not begin at a 32-bit offset.
#[verifier::external_body]
pub(crate) fn append_pair(url: &mut Url, key: &str, value: &str)
    requires
        url_query(*old(url)) is None ==> base_size(*old(url)) <= u32::MAX,
        url_fragment(*old(url)) is Some ==> base_size(*old(url)) + separator_size(*old(url))
            + pair_size(key@, value@) <= u32::MAX,
    ensures
        *final(url) == url_with_pair(*old(url), key@, value@),
        url_size(*final(url)) == url_size(*old(url)) + separator_size(*old(url)) + pair_size(
            key@,
            value@,
        ),
        url_fragment(*final(url)) == url_fragment(*old(url)),
        url_query(*final(url)) is Some,
        separator_size(*final(url)) == 1,
{
    url.query_pairs_mut().append_pair(key, value);
}

/// `ParseError::to_string`: its description, which depends on it alone.
#[verifier::external_body]
pub(crate) fn parse_error_string(e: &ParseError) -> (r: String)
    ensures
        r@ == parse_error_text(*e),
{
    e.to_string()
}

/// `Bytes::as_ref`: the bytes it holds.
#[verifier::external_body]
pub(crate) fn bytes_slice(bytes: &Bytes) -> (r: &[u8])
    ensures
        r@ == bytes_contents(*bytes),
{
    bytes.as_ref()
}

/// `base64::engine::general_purpose::STANDARD.encode`: the Base64 text of the
/// bytes, made of nothing but Base64 characters.
#[verifier::external_body]
pub(crate) fn base64_encode(bytes: &[u8]) -> (r: String)
    ensures
        r@ == base64_text(bytes@),
        forall|i: int| 0 <= i < r@.len() ==> is_base64_char(#[trigger] r@[i]),
{
    base64::engine::general_purpose::STANDARD.encode(bytes)
}

} // verus!
