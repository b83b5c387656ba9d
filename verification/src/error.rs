use vstd::prelude::*;

verus! {

/// Typed failures of a postcode lookup.
///
/// Not-found is deliberately absent: a lookup that finds no address is a
/// normal outcome, not an error.
#[derive(Debug, Clone, PartialEq)]
pub enum PostcodeError {
    /// The supplied postcode does not have the correct format: `1234AB` or
    /// `1234 AB` (with a single space). Carries a message echoing the input.
    InvalidInput(String),
    /// The API did not respond at all; carries the transport error text.
    NoApiResponse(String),
    /// The response headers or body could not be parsed into the expected
    /// shape; signals a contract break with the API, not caller error.
    InvalidApiResponse(String),
    /// The API asserted the inputs are invalid. Local validation should make
    /// this unreachable; it is kept as a defensive placeholder and is never
    /// constructed by the mapping logic.
    InvalidData(String),
    /// The API responded with status 429: usage limits exceeded.
    TooManyRequests(String),
    /// The API returned an unexpected status; carries the status code and the
    /// raw response body.
    OtherApiError(u16, String),
}

} // verus!
