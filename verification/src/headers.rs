use vstd::prelude::*;
use vstd::string::StringExecFns;

use crate::error::PostcodeError;
use crate::numbers::spec_parse_u32;
use crate::numbers::parse_u32;

verus! {

#[verifier::external_type_specification]
#[verifier::external_body]
#[verifier::reject_recursive_types(T)]
pub struct ExHeaderMap<T>(http::HeaderMap<T>);

#[verifier::external_type_specification]
#[verifier::external_body]
pub struct ExHeaderValue(http::HeaderValue);

/// The bytes of the first value stored under a header name, `None` when the
/// map holds no value under that name.
pub uninterp spec fn header_bytes(m: http::HeaderMap, name: Seq<char>) -> Option<Seq<u8>>;

/// The bytes a header value holds.
pub uninterp spec fn header_value_bytes(v: http::HeaderValue) -> Seq<u8>;

/// A byte that `http` renders as text: visible ASCII, space or tab.
pub open spec fn visible_ascii(b: u8) -> bool {
    (32 <= b && b < 127) || b == 9
}

/// Every byte of the sequence is visible ASCII, space or tab.
pub open spec fn all_visible_ascii(bs: Seq<u8>) -> bool {
    forall|i: int| 0 <= i < bs.len() ==> visible_ascii(#[trigger] bs[i])
}

/// A visible-ASCII byte sequence read as characters.
pub open spec fn ascii_chars_of(bs: Seq<u8>) -> Seq<char> {
    bs.map_values(|b: u8| b as char)
}

/// Relies on `http::HeaderMap::get`: the first value stored under the name,
/// `None` when the map holds none.
#[verifier::external_body]
fn header_get<'a>(headers: &'a http::HeaderMap, name: &str) -> (r: Option<&'a http::HeaderValue>)
    ensures
        match r {
            Some(v) => header_bytes(*headers, name@) == Some(header_value_bytes(*v)),
            None => header_bytes(*headers, name@) is None,
        },
{
    headers.get(name)
}

/// Relies on `http::HeaderValue::to_str`: `Ok` exactly when every byte is
/// visible ASCII, space or tab, and then the text is those bytes as
/// characters.
#[verifier::external_body]
fn header_value_to_str<'a>(v: &'a http::HeaderValue) -> (r: Option<&'a str>)
    ensures
        r is Some <==> all_visible_ascii(header_value_bytes(*v)),
        r matches Some(s) ==> s@ == ascii_chars_of(header_value_bytes(*v)),
{
    v.to_str().ok()
}

/// The text of the header under `name`: `None` when the header is absent or
/// one of its bytes is not visible ASCII.
pub open spec fn header_text(m: http::HeaderMap, name: Seq<char>) -> Option<Seq<char>> {
    match header_bytes(m, name) {
        Some(bs) => if all_visible_ascii(bs) {
            Some(ascii_chars_of(bs))
        } else {
            None
        },
        None => None,
    }
}

/// What extracting an unsigned-integer header yields: the parsed value, or
/// the exact error message, one for an absent header and one for a value
/// that is not readable as a decimal integer.
pub open spec fn spec_header_u32(m: http::HeaderMap, name: Seq<char>) -> Result<u32, Seq<char>> {
    match header_bytes(m, name) {
        None => Err("API did not return API limits"@),
        Some(_) => match header_text(m, name) {
            Some(t) => match spec_parse_u32(t) {
                Some(n) => Ok(n),
                None => Err("Failed to parse API rate limit from header"@),
            },
            None => Err("Failed to parse API rate limit from header"@),
        },
    }
}

/// What extracting a textual header yields: its text, or the exact error
/// message for an absent header or a value that is not readable as text.
pub open spec fn spec_header_string(m: http::HeaderMap, name: Seq<char>) -> Result<
    Seq<char>,
    Seq<char>,
> {
    match header_bytes(m, name) {
        None => Err("API did not return API limits"@),
        Some(_) => match header_text(m, name) {
            Some(t) => Ok(t),
            None => Err("Failed to parse API reset frequency from header"@),
        },
    }
}

/// Reads a mandatory unsigned-integer usage-limit header.
pub fn extract_header_u32(headers: &http::HeaderMap, header_key: &str) -> (r: Result<
    u32,
    PostcodeError,
>)
    ensures
        match r {
            Ok(n) => spec_header_u32(*headers, header_key@) == Ok::<u32, Seq<char>>(n),
            Err(e) => (e matches PostcodeError::InvalidApiResponse(m) && spec_header_u32(
                *headers,
                header_key@,
            ) == Err::<u32, Seq<char>>(m@)),
        },
{
    let value = match header_get(headers, header_key) {
        Some(v) => v,
        None => {
            return Err(PostcodeError::InvalidApiResponse(String::from_str(
                "API did not return API limits",
            )));
        },
    };
    let text = match header_value_to_str(value) {
        Some(t) => t,
        None => {
            return Err(PostcodeError::InvalidApiResponse(String::from_str(
                "Failed to parse API rate limit from header",
            )));
        },
    };
    match parse_u32(text) {
        Some(n) => Ok(n),
        None => Err(PostcodeError::InvalidApiResponse(String::from_str(
            "Failed to parse API rate limit from header",
        ))),
    }
}

/// Reads a mandatory textual usage-limit header.
pub fn extract_header_string(headers: &http::HeaderMap, header_key: &str) -> (r: Result<
    String,
    PostcodeError,
>)
    ensures
        match r {
            Ok(t) => spec_header_string(*headers, header_key@) == Ok::<Seq<char>, Seq<char>>(t@),
            Err(e) => (e matches PostcodeError::InvalidApiResponse(m) && spec_header_string(
                *headers,
                header_key@,
            ) == Err::<Seq<char>, Seq<char>>(m@)),
        },
{
    let value = match header_get(headers, header_key) {
        Some(v) => v,
        None => {
            return Err(PostcodeError::InvalidApiResponse(String::from_str(
                "API did not return API limits",
            )));
        },
    };
    match header_value_to_str(value) {
        Some(t) => Ok(t.to_owned()),
        None => Err(PostcodeError::InvalidApiResponse(String::from_str(
            "Failed to parse API reset frequency from header",
        ))),
    }
}

/// Usage limits of the API, reported with the response to every request.
#[derive(Debug, Clone)]
pub struct ApiLimits {
    pub ratelimit_limit: u32,
    pub ratelimit_remaining: u32,
    pub api_limit: u32,
    pub api_remaining: u32,
    pub api_reset: String,
}

/// The five usage-limit fields as the mandatory headers give them, or the
/// exact message of the first header, in extraction order, that is absent or
/// unreadable.
pub open spec fn spec_api_limits(m: http::HeaderMap) -> Result<
    (u32, u32, u32, u32, Seq<char>),
    Seq<char>,
> {
    match spec_header_u32(m, "x-ratelimit-limit"@) {
        Err(e) => Err(e),
        Ok(rl) => match spec_header_u32(m, "x-ratelimit-remaining"@) {
            Err(e) => Err(e),
            Ok(rr) => match spec_header_u32(m, "x-api-limit"@) {
                Err(e) => Err(e),
                Ok(al) => match spec_header_u32(m, "x-api-remaining"@) {
                    Err(e) => Err(e),
                    Ok(ar) => match spec_header_string(m, "x-api-reset"@) {
                        Err(e) => Err(e),
                        Ok(reset) => Ok((rl, rr, al, ar, reset)),
                    },
                },
            },
        },
    }
}

/// Whether a limits value carries exactly the given fields.
pub open spec fn limits_match(l: ApiLimits, f: (u32, u32, u32, u32, Seq<char>)) -> bool {
    &&& l.ratelimit_limit == f.0
    &&& l.ratelimit_remaining == f.1
    &&& l.api_limit == f.2
    &&& l.api_remaining == f.3
    &&& l.api_reset@ == f.4
}

impl ApiLimits {
    /// Extracts the usage-limit snapshot from the five mandatory response
    /// headers; a header that is absent or unreadable fails with
    /// `InvalidApiResponse` naming which aspect failed.
    pub fn from_headers(headers: &http::HeaderMap) -> (r: Result<ApiLimits, PostcodeError>)
        ensures
            match r {
                Ok(l) => (spec_api_limits(*headers) matches Ok(f) && limits_match(l, f)),
                Err(e) => (e matches PostcodeError::InvalidApiResponse(m) && spec_api_limits(
                    *headers,
                ) == Err::<(u32, u32, u32, u32, Seq<char>), Seq<char>>(m@)),
            },
    {
        let ratelimit_limit = match extract_header_u32(headers, "x-ratelimit-limit") {
            Ok(n) => n,
            Err(e) => {
                return Err(e);
            },
        };
        let ratelimit_remaining = match extract_header_u32(headers, "x-ratelimit-remaining") {
            Ok(n) => n,
            Err(e) => {
                return Err(e);
            },
        };
        let api_limit = match extract_header_u32(headers, "x-api-limit") {
            Ok(n) => n,
            Err(e) => {
                return Err(e);
            },
        };
        let api_remaining = match extract_header_u32(headers, "x-api-remaining") {
            Ok(n) => n,
            Err(e) => {
                return Err(e);
            },
        };
        let api_reset = match extract_header_string(headers, "x-api-reset") {
            Ok(t) => t,
            Err(e) => {
                return Err(e);
            },
        };
        Ok(ApiLimits { ratelimit_limit, ratelimit_remaining, api_limit, api_remaining, api_reset })
    }
}

} // verus!
