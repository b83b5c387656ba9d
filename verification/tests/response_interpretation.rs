use http::HeaderMap;
use http::HeaderName;
use http::HeaderValue;
use postcode_nl::interpret_address_response;
use postcode_nl::interpret_extended_address_response;
use postcode_nl::PostcodeError;

fn valid_headers() -> HeaderMap {
    let mut m = HeaderMap::new();
    m.insert(HeaderName::from_static("x-ratelimit-limit"), HeaderValue::from_static("600"));
    m.insert(HeaderName::from_static("x-ratelimit-remaining"), HeaderValue::from_static("599"));
    m.insert(HeaderName::from_static("x-api-limit"), HeaderValue::from_static("10000"));
    m.insert(HeaderName::from_static("x-api-remaining"), HeaderValue::from_static("9998"));
    m.insert(HeaderName::from_static("x-api-reset"), HeaderValue::from_static("every day"));
    m
}

#[test]
fn simple_success_fills_postcode_and_number_from_input() {
    let headers = valid_headers();
    let body = r#"{"street":"Main St","city":"Town"}"#;
    let (found, limits) =
        interpret_address_response(200, &headers, body, "1012RJ", 147).expect("must succeed");
    let address = found.expect("an address must be found");
    assert_eq!(address.street, "Main St");
    assert_eq!(address.city, "Town");
    assert_eq!(address.postcode, "1012RJ");
    assert_eq!(address.house_number, 147);
    assert_eq!(limits.ratelimit_limit, 600);
    assert_eq!(limits.ratelimit_remaining, 599);
    assert_eq!(limits.api_limit, 10000);
    assert_eq!(limits.api_remaining, 9998);
    assert_eq!(limits.api_reset, "every day");
}

#[test]
fn not_found_is_not_an_error_and_still_reports_limits() {
    let headers = valid_headers();
    let (found, limits) =
        interpret_address_response(404, &headers, "", "1012RJ", 147).expect("404 is no error");
    assert!(found.is_none());
    assert_eq!(limits.ratelimit_limit, 600);
    assert_eq!(limits.api_reset, "every day");
}

#[test]
fn too_many_requests_fails_regardless_of_body() {
    let headers = HeaderMap::new();
    let r = interpret_address_response(429, &headers, r#"{"street":"S","city":"C"}"#, "1012RJ", 1);
    assert_eq!(r.unwrap_err(), PostcodeError::TooManyRequests("API limits exceeded".to_string()));
}

#[test]
fn missing_reset_header_fails_even_with_good_body() {
    let mut headers = valid_headers();
    headers.remove("x-api-reset");
    let body = r#"{"street":"Main St","city":"Town"}"#;
    let r = interpret_address_response(200, &headers, body, "1012RJ", 147);
    assert_eq!(
        r.unwrap_err(),
        PostcodeError::InvalidApiResponse("API did not return API limits".to_string())
    );
}

#[test]
fn missing_numeric_header_fails() {
    let mut headers = valid_headers();
    headers.remove("x-api-remaining");
    let r = interpret_address_response(404, &headers, "", "1012RJ", 147);
    assert_eq!(
        r.unwrap_err(),
        PostcodeError::InvalidApiResponse("API did not return API limits".to_string())
    );
}

#[test]
fn non_numeric_header_fails_with_parse_message() {
    let mut headers = valid_headers();
    headers.insert(HeaderName::from_static("x-ratelimit-limit"), HeaderValue::from_static("soon"));
    let r = interpret_address_response(404, &headers, "", "1012RJ", 147);
    assert_eq!(
        r.unwrap_err(),
        PostcodeError::InvalidApiResponse("Failed to parse API rate limit from header".to_string())
    );
}

#[test]
fn non_text_header_fails_with_parse_message() {
    let mut headers = valid_headers();
    headers.insert(
        HeaderName::from_static("x-ratelimit-limit"),
        HeaderValue::from_bytes(&[0xFFu8, 0x31u8]).expect("opaque bytes are a legal header value"),
    );
    let r = interpret_address_response(404, &headers, "", "1012RJ", 147);
    assert_eq!(
        r.unwrap_err(),
        PostcodeError::InvalidApiResponse("Failed to parse API rate limit from header".to_string())
    );
}

#[test]
fn leading_zeros_in_header_value_parse() {
    let mut headers = valid_headers();
    headers.insert(HeaderName::from_static("x-api-limit"), HeaderValue::from_static("0600"));
    let (_, limits) =
        interpret_address_response(404, &headers, "", "1012RJ", 147).expect("must succeed");
    assert_eq!(limits.api_limit, 600);
}

#[test]
fn empty_header_value_fails_to_parse() {
    let mut headers = valid_headers();
    headers.insert(HeaderName::from_static("x-api-limit"), HeaderValue::from_static(""));
    let r = interpret_address_response(404, &headers, "", "1012RJ", 147);
    assert_eq!(
        r.unwrap_err(),
        PostcodeError::InvalidApiResponse("Failed to parse API rate limit from header".to_string())
    );
}

#[test]
fn plus_signed_header_value_parses() {
    let mut headers = valid_headers();
    headers.insert(HeaderName::from_static("x-api-limit"), HeaderValue::from_static("+10000"));
    let (_, limits) =
        interpret_address_response(404, &headers, "", "1012RJ", 147).expect("must succeed");
    assert_eq!(limits.api_limit, 10000);
}

#[test]
fn header_value_over_u32_max_fails() {
    let mut headers = valid_headers();
    headers.insert(
        HeaderName::from_static("x-api-limit"),
        HeaderValue::from_static("4294967296"),
    );
    let r = interpret_address_response(404, &headers, "", "1012RJ", 147);
    assert_eq!(
        r.unwrap_err(),
        PostcodeError::InvalidApiResponse("Failed to parse API rate limit from header".to_string())
    );
}

#[test]
fn other_status_reports_code_and_raw_body() {
    let headers = HeaderMap::new();
    let r = interpret_address_response(500, &headers, "oops", "1012RJ", 147);
    assert_eq!(r.unwrap_err(), PostcodeError::OtherApiError(500, "oops".to_string()));
}

#[test]
fn malformed_body_fails_with_wrapped_description() {
    let headers = valid_headers();
    let r = interpret_address_response(200, &headers, "{not json", "1012RJ", 147);
    match r.unwrap_err() {
        PostcodeError::InvalidApiResponse(m) => {
            assert!(m.starts_with("Failed to deserialize API response, "));
        }
        e => panic!("expected InvalidApiResponse, got {e:?}"),
    }
}

#[test]
fn body_missing_field_fails_naming_the_field() {
    let headers = valid_headers();
    let r = interpret_address_response(200, &headers, r#"{"street":"Main St"}"#, "1012RJ", 147);
    assert_eq!(
        r.unwrap_err(),
        PostcodeError::InvalidApiResponse(
            "Failed to deserialize API response, missing or invalid field `city`".to_string()
        )
    );
}

#[test]
fn body_field_of_wrong_type_fails_naming_the_field() {
    let headers = valid_headers();
    let r = interpret_address_response(
        200,
        &headers,
        r#"{"street":12,"city":"Town"}"#,
        "1012RJ",
        147,
    );
    assert_eq!(
        r.unwrap_err(),
        PostcodeError::InvalidApiResponse(
            "Failed to deserialize API response, missing or invalid field `street`".to_string()
        )
    );
}

#[test]
fn simple_result_never_takes_postcode_or_number_from_the_body() {
    let headers = valid_headers();
    let body = r#"{"street":"S","city":"C","postcode":"9999ZZ","number":1}"#;
    let (found, _) =
        interpret_address_response(200, &headers, body, "1012 RJ", 147).expect("must succeed");
    let address = found.expect("an address must be found");
    assert_eq!(address.postcode, "1012 RJ");
    assert_eq!(address.house_number, 147);
}

#[test]
fn full_success_takes_postcode_and_number_from_the_body() {
    let headers = valid_headers();
    let body = r#"{"postcode":"1012RJ","number":147,"street":"S","city":"C","municipality":"M","province":"P","geo":{"lat":52.3,"lon":4.9}}"#;
    let (found, limits) =
        interpret_extended_address_response(200, &headers, body).expect("must succeed");
    let address = found.expect("an address must be found");
    assert_eq!(address.postcode, "1012RJ");
    assert_eq!(address.house_number, 147);
    assert_eq!(address.street, "S");
    assert_eq!(address.city, "C");
    assert_eq!(address.municipality, "M");
    assert_eq!(address.province, "P");
    assert_eq!(address.coordinates.lat, "52.3");
    assert_eq!(address.coordinates.lon, "4.9");
    assert_eq!(limits.api_remaining, 9998);
}

#[test]
fn full_not_found_reports_limits() {
    let headers = valid_headers();
    let (found, limits) =
        interpret_extended_address_response(404, &headers, "").expect("404 is no error");
    assert!(found.is_none());
    assert_eq!(limits.ratelimit_remaining, 599);
}

#[test]
fn full_number_over_u32_max_fails() {
    let headers = valid_headers();
    let body = r#"{"postcode":"1012RJ","number":4294967296,"street":"S","city":"C","municipality":"M","province":"P","geo":{"lat":52.3,"lon":4.9}}"#;
    let r = interpret_extended_address_response(200, &headers, body);
    assert_eq!(
        r.unwrap_err(),
        PostcodeError::InvalidApiResponse(
            "Failed to deserialize API response, missing or invalid field `number`".to_string()
        )
    );
}

#[test]
fn full_missing_geo_fails() {
    let headers = valid_headers();
    let body = r#"{"postcode":"1012RJ","number":147,"street":"S","city":"C","municipality":"M","province":"P"}"#;
    let r = interpret_extended_address_response(200, &headers, body);
    assert_eq!(
        r.unwrap_err(),
        PostcodeError::InvalidApiResponse(
            "Failed to deserialize API response, missing or invalid field `lat`".to_string()
        )
    );
}

#[test]
fn full_429_fails_before_headers_are_read() {
    let headers = HeaderMap::new();
    let r = interpret_extended_address_response(429, &headers, "");
    assert_eq!(r.unwrap_err(), PostcodeError::TooManyRequests("API limits exceeded".to_string()));
}
