//! The shape of every call to the library server, and what a call's reply
//! turns into. The transport itself (threads, the async runtime, the HTTP
//! client and the JSON encoding) belongs to the application.

pub mod structs;

use vstd::prelude::*;
use reqwest::header::{HeaderName, HeaderValue, InvalidHeaderName, InvalidHeaderValue};
use crate::constants::{HEADER_TOKEN, URL};
use crate::text::join;

verus! {

#[verifier::external_type_specification]
#[verifier::external_body]
pub struct ExHeaderName(HeaderName);

#[verifier::external_type_specification]
#[verifier::external_body]
pub struct ExHeaderValue(HeaderValue);

#[verifier::external_type_specification]
#[verifier::external_body]
pub struct ExInvalidHeaderName(InvalidHeaderName);

#[verifier::external_type_specification]
#[verifier::external_body]
pub struct ExInvalidHeaderValue(InvalidHeaderValue);

/// The HTTP methods the client uses.
#[derive(Clone, Copy, PartialEq, Eq, Structural, Debug)]
pub enum HttpMethod {
    Get,
    Post,
}

/// One call to the server: the method, the endpoint below the server's
/// address, the body to send as JSON (if any) and extra headers as
/// name/value pairs.
pub struct ApiCall<B> {
    pub method: HttpMethod,
    pub endpoint: String,
    pub body: Option<B>,
    pub headers: Vec<(String, String)>,
}

/// The body of an error reply.
pub struct ErrorResponse {
    pub error: String,
}

/// What came back from the transport for one call: it could not be sent
/// (with the transport's message), or a reply came with a success status
/// and its body decoded as the expected type (or the decoder's message), or
/// a reply came with another status and its body decoded as an error reply
/// (or the decoder's message).
pub enum Reply<T> {
    NotSent(String),
    Success(Result<T, String>),
    Failure(Result<ErrorResponse, String>),
}

/// The full address of an endpoint.
pub open spec fn url_of(endpoint: Seq<char>) -> Seq<char> {
    URL@ + endpoint
}

pub fn request_url(endpoint: &str) -> (u: String)
    ensures
        u@ == url_of(endpoint@),
{
    join(URL, endpoint)
}

/// The one header that authenticates a call with the session token.
pub fn token_headers(token: String) -> (h: Vec<(String, String)>)
    ensures
        h@.len() == 1,
        h@[0].0@ == HEADER_TOKEN@,
        h@[0].1 == token,
{
    let mut h: Vec<(String, String)> = Vec::new();
    h.push((String::from_str(HEADER_TOKEN), token));
    h
}

/// A character that HTTP allows in a header name (RFC 9110 `tchar`).
pub open spec fn is_token_char(c: char) -> bool {
    let n = c as u32;
    ||| 0x30 <= n <= 0x39
    ||| 0x41 <= n <= 0x5a
    ||| 0x61 <= n <= 0x7a
    ||| c == '!' || c == '#' || c == '$' || c == '%' || c == '&' || c == '\''
    ||| c == '*' || c == '+' || c == '-' || c == '.' || c == '^' || c == '_'
    ||| c == '`' || c == '|' || c == '~'
}

/// The names that `HeaderName::from_str` accepts: 1 to 65535 characters,
/// each a token character (upper case is accepted and folded to lower).
pub open spec fn valid_header_name(s: Seq<char>) -> bool {
    &&& 1 <= s.len() <= 65535
    &&& forall|i: int| 0 <= i < s.len() ==> is_token_char(#[trigger] s[i])
}

/// The values that `HeaderValue::from_str` accepts: no control character
/// other than the tab. Characters beyond ASCII are accepted, since every
/// byte of their UTF-8 form is at least 128.
pub open spec fn valid_header_value(s: Seq<char>) -> bool {
    forall|i: int|
        0 <= i < s.len() ==> {
            let n = #[trigger] s[i] as u32;
            n >= 128 || (32 <= n && n != 127) || n == 9
        }
}

/// The header name that `HeaderName::from_str` makes of a text (the text
/// folded to lower case); it depends on the text alone.
pub uninterp spec fn header_name_of(s: Seq<char>) -> HeaderName;

/// The header value that `HeaderValue::from_str` makes of a text (the
/// same bytes); it depends on the text alone.
pub uninterp spec fn header_value_of(s: Seq<char>) -> HeaderValue;

/// `HeaderName::from_str` of the http crate (re-exported by reqwest): it
/// succeeds exactly on the names described by `valid_header_name`, and
/// then gives the name `header_name_of` the text.
#[verifier::external_body]
fn parse_header_name(name: &str) -> (r: Result<HeaderName, InvalidHeaderName>)
    ensures
        r is Ok <==> valid_header_name(name@),
        r matches Ok(n) ==> n == header_name_of(name@),
{
    name.parse::<HeaderName>()
}

/// `HeaderValue::from_str` of the http crate: it succeeds exactly on the
/// values described by `valid_header_value`, and then gives the value
/// `header_value_of` the text.
#[verifier::external_body]
fn parse_header_value(value: &str) -> (r: Result<HeaderValue, InvalidHeaderValue>)
    ensures
        r is Ok <==> valid_header_value(value@),
        r matches Ok(v) ==> v == header_value_of(value@),
{
    value.parse::<HeaderValue>()
}

/// The text that the `Display` of `InvalidHeaderName` writes.
#[verifier::external_body]
fn invalid_header_name_text(e: &InvalidHeaderName) -> (s: String)
    ensures
        s@ == "invalid HTTP header name"@,
{
    e.to_string()
}

/// The text that the `Display` of `InvalidHeaderValue` writes.
#[verifier::external_body]
fn invalid_header_value_text(e: &InvalidHeaderValue) -> (s: String)
    ensures
        s@ == "failed to parse header value"@,
{
    e.to_string()
}

/// Why one header pair cannot be sent, if it cannot: the name is checked
/// before the value.
pub open spec fn header_pair_error(name: Seq<char>, value: Seq<char>) -> Option<Seq<char>> {
    if !valid_header_name(name) {
        Some("invalid HTTP header name"@)
    } else if !valid_header_value(value) {
        Some("failed to parse header value"@)
    } else {
        None
    }
}

/// The error of the first header pair that cannot be sent, if any.
pub open spec fn first_header_error(hs: Seq<(String, String)>) -> Option<Seq<char>>
    decreases hs.len(),
{
    if hs.len() == 0 {
        None
    } else {
        match header_pair_error(hs[0].0@, hs[0].1@) {
            Some(e) => Some(e),
            None => first_header_error(hs.drop_first()),
        }
    }
}

/// Turns name/value pairs into HTTP headers, in order, each name and value
/// parsed from its text. The first pair that HTTP does not allow stops the
/// work, and its error message is returned.
pub fn parse_headers(hs: &Vec<(String, String)>) -> (r: Result<
    Vec<(HeaderName, HeaderValue)>,
    String,
>)
    ensures
        match r {
            Ok(v) => {
                &&& first_header_error(hs@) is None
                &&& v@.len() == hs@.len()
                &&& forall|j: int|
                    0 <= j < hs@.len() ==> v@[j].0 == header_name_of(#[trigger] hs@[j].0@)
                        && v@[j].1 == header_value_of(hs@[j].1@)
            },
            Err(e) => first_header_error(hs@) == Some(e@),
        },
{
    let mut out: Vec<(HeaderName, HeaderValue)> = Vec::new();
    let mut i: usize = 0;
    assert(hs@.skip(0) =~= hs@);
    while i < hs.len()
        invariant
            i <= hs@.len(),
            out@.len() == i,
            forall|j: int|
                0 <= j < i ==> out@[j].0 == header_name_of(#[trigger] hs@[j].0@) && out@[j].1
                    == header_value_of(hs@[j].1@),
            first_header_error(hs@) == first_header_error(hs@.skip(i as int)),
        decreases hs@.len() - i,
    {
        assert(hs@.skip(i as int).drop_first() =~= hs@.skip(i + 1));
        assert(hs@.skip(i as int)[0] == hs@[i as int]);
        let name = match parse_header_name(hs[i].0.as_str()) {
            Ok(n) => n,
            Err(e) => {
                return Err(invalid_header_name_text(&e));
            },
        };
        let value = match parse_header_value(hs[i].1.as_str()) {
            Ok(v) => v,
            Err(e) => {
                return Err(invalid_header_value_text(&e));
            },
        };
        out.push((name, value));
        i = i + 1;
    }
    assert(hs@.skip(i as int).len() == 0);
    Ok(out)
}

/// The result a call hands to the screen that made it.
pub open spec fn reply_result<T>(reply: Reply<T>) -> Result<T, Seq<char>> {
    match reply {
        Reply::NotSent(e) => Err("Request failed: "@ + e@),
        Reply::Success(Ok(t)) => Ok(t),
        Reply::Success(Err(e)) => Err("Invalid response: "@ + e@),
        Reply::Failure(Ok(er)) => Err(er.error@),
        Reply::Failure(Err(e)) => Err("Error parsing error: "@ + e@),
    }
}

/// What a call's reply turns into: the decoded body on success, else a
/// message for the user.
pub fn api_result<T>(reply: Reply<T>) -> (r: Result<T, String>)
    ensures
        match (r, reply_result(reply)) {
            (Ok(a), Ok(b)) => a == b,
            (Err(a), Err(b)) => a@ == b,
            _ => false,
        },
{
    match reply {
        Reply::NotSent(e) => Err(join("Request failed: ", e.as_str())),
        Reply::Success(Ok(t)) => Ok(t),
        Reply::Success(Err(e)) => Err(join("Invalid response: ", e.as_str())),
        Reply::Failure(Ok(er)) => Err(er.error),
        Reply::Failure(Err(e)) => Err(join("Error parsing error: ", e.as_str())),
    }
}

/// The message sent back when the async runtime cannot start.
pub fn runtime_failure_message(e: &str) -> (m: String)
    ensures
        m@ == "Failed to start async runtime: "@ + e@,
{
    join("Failed to start async runtime: ", e)
}

/// A call to a full address, as the first screens of the client made
/// them: the method, the address, the JSON body (if any) and extra headers.
pub struct UrlCall<B> {
    pub method: HttpMethod,
    pub url: String,
    pub body: Option<B>,
    pub headers: Vec<(String, String)>,
}

/// The one header `name: Bearer <token>`.
pub fn bearer_headers(name: &str, token: &str) -> (h: Vec<(String, String)>)
    ensures
        h@.len() == 1,
        h@[0].0@ == name@,
        h@[0].1@ == "Bearer "@ + token@,
{
    let mut h: Vec<(String, String)> = Vec::new();
    h.push((String::from_str(name), join("Bearer ", token)));
    h
}

/// Whether `h` is the one header `name: Bearer <token>`.
pub open spec fn has_bearer_headers(h: Seq<(String, String)>, name: Seq<char>, token: Seq<char>) -> bool {
    h.len() == 1 && h[0].0@ == name && h[0].1@ == "Bearer "@ + token
}

/// What came back to the first screens for one call: it could not be
/// sent, or the status was not a success (with the reply's text), or the
/// body was decoded as the expected type (or the decoder's message).
pub enum LegacyReply<T> {
    NotSent(String),
    ErrorStatus(String),
    Decoded(Result<T, String>),
}

/// The result those screens make of a reply.
pub open spec fn legacy_result_spec<T>(reply: LegacyReply<T>) -> Result<T, Seq<char>> {
    match reply {
        LegacyReply::NotSent(e) => Err("Request failed: "@ + e@),
        LegacyReply::ErrorStatus(t) => Err("Error response: "@ + t@),
        LegacyReply::Decoded(Ok(v)) => Ok(v),
        LegacyReply::Decoded(Err(e)) => Err("Parse error: "@ + e@),
    }
}

pub fn legacy_result<T>(reply: LegacyReply<T>) -> (r: Result<T, String>)
    ensures
        match (r, legacy_result_spec(reply)) {
            (Ok(a), Ok(b)) => a == b,
            (Err(a), Err(b)) => a@ == b,
            _ => false,
        },
{
    match reply {
        LegacyReply::NotSent(e) => Err(join("Request failed: ", e.as_str())),
        LegacyReply::ErrorStatus(t) => Err(join("Error response: ", t.as_str())),
        LegacyReply::Decoded(Ok(v)) => Ok(v),
        LegacyReply::Decoded(Err(e)) => Err(join("Parse error: ", e.as_str())),
    }
}

} // verus!
