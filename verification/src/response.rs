use vstd::prelude::*;
use vstd::string::StringExecFns;

use crate::body::Address;
use crate::body::ExtendedAddress;
use crate::body::body_fault_message;
use crate::body::spec_full_fault;
use crate::body::spec_simple_fault;
use crate::body::extended_matches;
use crate::body::json_wf;
use crate::body::map_full_body;
use crate::body::map_simple_body;
use crate::body::spec_full_fields;
use crate::body::spec_simple_fields;
use crate::error::PostcodeError;
use crate::headers::ApiLimits;
use crate::headers::limits_match;
use crate::headers::spec_api_limits;

verus! {

/// The fixed message carried by `TooManyRequests`.
pub open spec fn too_many_requests_message() -> Seq<char> {
    "API limits exceeded"@
}

/// Interprets one simple-lookup HTTP exchange.
///
/// Status dispatch: 200 is success and the body is mapped; 404 is the
/// explicit not-found outcome, not an error; 429 fails immediately with
/// `TooManyRequests` regardless of headers and body; any other status fails
/// with `OtherApiError` carrying the status and the raw body. On 200 and 404
/// the five usage-limit headers are mandatory and extracted unconditionally.
///
/// The returned address's postcode and house number always equal the
/// caller's input, whatever the body holds.
pub fn interpret_address_response(
    status: u16,
    headers: &http::HeaderMap,
    body: &str,
    postcode: &str,
    house_number: u32,
) -> (r: Result<(Option<Address>, ApiLimits), PostcodeError>)
    ensures
        match r {
            Ok((found, limits)) => {
                &&& (status == 200 || status == 404)
                &&& (spec_api_limits(*headers) matches Ok(f) && limits_match(limits, f))
                &&& (status == 404 ==> found is None)
                &&& (status == 200 ==> (found matches Some(a) && (spec_simple_fields(body@)
                    matches Some(f2) && (json_wf(body@) && a.street@ == f2.0 && a.city@ == f2.1
                    && a.postcode@ == postcode@ && a.house_number == house_number))))
            },
            Err(PostcodeError::TooManyRequests(m)) => status == 429 && m@
                == too_many_requests_message(),
            Err(PostcodeError::OtherApiError(code, b)) => {
                &&& status != 200 && status != 404 && status != 429
                &&& code == status
                &&& b@ == body@
            },
            Err(PostcodeError::InvalidApiResponse(m)) => {
                &&& (status == 200 || status == 404)
                &&& ((spec_api_limits(*headers) matches Err(em) && m@ == em) || (status == 200
                    && spec_api_limits(*headers) is Ok && (!json_wf(body@) || spec_simple_fields(
                    body@,
                ) is None) && body_fault_message(m@, body@, spec_simple_fault(body@))))
            },
            _ => false,
        },
{
    if status == 429 {
        return Err(PostcodeError::TooManyRequests(String::from_str("API limits exceeded")));
    }
    if status != 200 && status != 404 {
        return Err(PostcodeError::OtherApiError(status, body.to_owned()));
    }
    let limits = match ApiLimits::from_headers(headers) {
        Ok(l) => l,
        Err(e) => {
            return Err(e);
        },
    };
    if status == 200 {
        let address = match map_simple_body(body, postcode, house_number) {
            Ok(a) => a,
            Err(e) => {
                return Err(e);
            },
        };
        Ok((Some(address), limits))
    } else {
        Ok((None, limits))
    }
}

/// Interprets one full-lookup HTTP exchange. Status dispatch and header
/// extraction are as for the simple lookup; on 200 the body is mapped to an
/// extended address whose postcode and house number come from the body.
pub fn interpret_extended_address_response(
    status: u16,
    headers: &http::HeaderMap,
    body: &str,
) -> (r: Result<(Option<ExtendedAddress>, ApiLimits), PostcodeError>)
    ensures
        match r {
            Ok((found, limits)) => {
                &&& (status == 200 || status == 404)
                &&& (spec_api_limits(*headers) matches Ok(f) && limits_match(limits, f))
                &&& (status == 404 ==> found is None)
                &&& (status == 200 ==> (found matches Some(a) && (spec_full_fields(body@)
                    matches Some(f2) && (json_wf(body@) && extended_matches(a, f2)))))
            },
            Err(PostcodeError::TooManyRequests(m)) => status == 429 && m@
                == too_many_requests_message(),
            Err(PostcodeError::OtherApiError(code, b)) => {
                &&& status != 200 && status != 404 && status != 429
                &&& code == status
                &&& b@ == body@
            },
            Err(PostcodeError::InvalidApiResponse(m)) => {
                &&& (status == 200 || status == 404)
                &&& ((spec_api_limits(*headers) matches Err(em) && m@ == em) || (status == 200
                    && spec_api_limits(*headers) is Ok && (!json_wf(body@) || spec_full_fields(
                    body@,
                ) is None) && body_fault_message(m@, body@, spec_full_fault(body@))))
            },
            _ => false,
        },
{
    if status == 429 {
        return Err(PostcodeError::TooManyRequests(String::from_str("API limits exceeded")));
    }
    if status != 200 && status != 404 {
        return Err(PostcodeError::OtherApiError(status, body.to_owned()));
    }
    let limits = match ApiLimits::from_headers(headers) {
        Ok(l) => l,
        Err(e) => {
            return Err(e);
        },
    };
    if status == 200 {
        let address = match map_full_body(body) {
            Ok(a) => a,
            Err(e) => {
                return Err(e);
            },
        };
        Ok((Some(address), limits))
    } else {
        Ok((None, limits))
    }
}

} // verus!
