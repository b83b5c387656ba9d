use vstd::prelude::*;
use vstd::string::StringExecFns;

use crate::error::PostcodeError;

verus! {

/// Whether the body text is well-formed JSON, as `serde_json` decides it.
pub uninterp spec fn json_wf(body: Seq<char>) -> bool;

/// The string under `key` in the body's top-level JSON object; `None` when
/// the body does not parse, the top level is not an object, the key is
/// absent, or the field is not a string.
pub uninterp spec fn json_str_field(body: Seq<char>, key: Seq<char>) -> Option<Seq<char>>;

/// The unsigned integer under `key` in the body's top-level JSON object,
/// under the same conditions.
pub uninterp spec fn json_u64_field(body: Seq<char>, key: Seq<char>) -> Option<u64>;

/// The number under `key`, then `subkey`, of the body's top-level JSON
/// object, as the text `serde_json` renders it to; `None` when absent or not
/// a number.
pub uninterp spec fn json_number_text(body: Seq<char>, key: Seq<char>, subkey: Seq<char>) -> Option<
    Seq<char>,
>;

/// Relies on `serde_json::from_str::<Value>`: whether the body parses is a
/// function of the text alone; on failure the parse error's description
/// comes back.
#[verifier::external_body]
fn json_parse_error(body: &str) -> (r: Option<String>)
    ensures
        r is None <==> json_wf(body@),
{
    match serde_json::from_str::<serde_json::Value>(body) {
        Ok(_) => None,
        Err(e) => Some(e.to_string()),
    }
}

/// Relies on `serde_json::from_str::<Value>`, `Value::get` and
/// `Value::as_str`: the string field under the key, a function of the body
/// text and the key alone.
#[verifier::external_body]
fn json_get_str_field(body: &str, key: &str) -> (r: Option<String>)
    ensures
        match r {
            Some(s) => json_str_field(body@, key@) == Some(s@),
            None => json_str_field(body@, key@) is None,
        },
{
    let value = serde_json::from_str::<serde_json::Value>(body).ok()?;
    Some(value.get(key)?.as_str()?.to_string())
}

/// Relies on `serde_json::from_str::<Value>`, `Value::get` and
/// `Value::as_u64`: the unsigned integer field under the key, a function of
/// the body text and the key alone.
#[verifier::external_body]
fn json_get_u64_field(body: &str, key: &str) -> (r: Option<u64>)
    ensures
        r == json_u64_field(body@, key@),
{
    let value = serde_json::from_str::<serde_json::Value>(body).ok()?;
    value.get(key)?.as_u64()
}

/// Relies on `serde_json::from_str::<Value>`, `Value::get`,
/// `Value::as_number` and the `Display` of `serde_json::Number`: the number
/// under the two keys as `serde_json` renders it, a function of the body
/// text and the keys alone.
#[verifier::external_body]
fn json_get_number_text(body: &str, key: &str, subkey: &str) -> (r: Option<String>)
    ensures
        match r {
            Some(s) => json_number_text(body@, key@, subkey@) == Some(s@),
            None => json_number_text(body@, key@, subkey@) is None,
        },
{
    let value = serde_json::from_str::<serde_json::Value>(body).ok()?;
    Some(value.get(key)?.get(subkey)?.as_number()?.to_string())
}

/// An address found by a simple lookup. Postcode and house number are the
/// caller's validated input, never an API-returned field.
#[derive(Debug, Clone)]
pub struct Address {
    pub street: String,
    pub house_number: u32,
    pub postcode: String,
    pub city: String,
}

/// Coordinates of an address, each kept as the text of the number the API
/// returned.
#[derive(Debug, Clone)]
pub struct Coordinates {
    pub lat: String,
    pub lon: String,
}

/// An address found by a full lookup. Here postcode and house number do come
/// from the response body.
#[derive(Debug, Clone)]
pub struct ExtendedAddress {
    pub street: String,
    pub house_number: u32,
    pub postcode: String,
    pub city: String,
    pub municipality: String,
    pub province: String,
    pub coordinates: Coordinates,
}

/// The street and city a simple-lookup body carries, when it has the
/// expected shape.
pub open spec fn spec_simple_fields(body: Seq<char>) -> Option<(Seq<char>, Seq<char>)> {
    match (json_str_field(body, "street"@), json_str_field(body, "city"@)) {
        (Some(street), Some(city)) => Some((street, city)),
        _ => None,
    }
}

/// The fields a full-lookup body carries.
pub struct FullFields {
    pub postcode: Seq<char>,
    pub number: u32,
    pub street: Seq<char>,
    pub city: Seq<char>,
    pub municipality: Seq<char>,
    pub province: Seq<char>,
    pub lat: Seq<char>,
    pub lon: Seq<char>,
}

/// The fields a full-lookup body carries, when it has the expected shape:
/// postcode, street, city, municipality and province as strings, the house
/// number as an unsigned integer that fits in 32 bits, and a nested `geo`
/// object with numeric `lat` and `lon`.
pub open spec fn spec_full_fields(body: Seq<char>) -> Option<FullFields> {
    match (
        json_str_field(body, "postcode"@),
        json_u64_field(body, "number"@),
        json_str_field(body, "street"@),
        json_str_field(body, "city"@),
        json_str_field(body, "municipality"@),
        json_str_field(body, "province"@),
        json_number_text(body, "geo"@, "lat"@),
        json_number_text(body, "geo"@, "lon"@),
    ) {
        (
            Some(postcode),
            Some(number),
            Some(street),
            Some(city),
            Some(municipality),
            Some(province),
            Some(lat),
            Some(lon),
        ) => if number <= u32::MAX {
            Some(
                FullFields {
                    postcode,
                    number: number as u32,
                    street,
                    city,
                    municipality,
                    province,
                    lat,
                    lon,
                },
            )
        } else {
            None
        },
        _ => None,
    }
}

/// Whether an extended address carries exactly the given body fields.
pub open spec fn extended_matches(a: ExtendedAddress, f: FullFields) -> bool {
    &&& a.street@ == f.street
    &&& a.house_number == f.number
    &&& a.postcode@ == f.postcode
    &&& a.city@ == f.city
    &&& a.municipality@ == f.municipality
    &&& a.province@ == f.province
    &&& a.coordinates.lat@ == f.lat
    &&& a.coordinates.lon@ == f.lon
}

/// The prefix of every body-mapping failure message; a description of what
/// failed follows it.
pub open spec fn body_parse_message_prefix() -> Seq<char> {
    "Failed to deserialize API response, "@
}

/// The message for a body that parses as JSON but lacks the named field, or
/// holds it with the wrong type.
pub open spec fn field_fault_message(field: Seq<char>) -> Seq<char> {
    "Failed to deserialize API response, missing or invalid field `"@ + field + "`"@
}

/// The message for the first fault, in extraction order, of a simple-lookup
/// body that parses as JSON but does not have the expected shape.
pub open spec fn spec_simple_fault(body: Seq<char>) -> Seq<char> {
    if json_str_field(body, "street"@) is None {
        field_fault_message("street"@)
    } else {
        field_fault_message("city"@)
    }
}

/// The house number of a full-lookup body is an unsigned integer that fits
/// in 32 bits.
pub open spec fn full_number_ok(body: Seq<char>) -> bool {
    json_u64_field(body, "number"@) matches Some(n) && n <= u32::MAX
}

/// The message for the first fault, in extraction order, of a full-lookup
/// body that parses as JSON but does not have the expected shape.
pub open spec fn spec_full_fault(body: Seq<char>) -> Seq<char> {
    if json_str_field(body, "postcode"@) is None {
        field_fault_message("postcode"@)
    } else if !full_number_ok(body) {
        field_fault_message("number"@)
    } else if json_str_field(body, "street"@) is None {
        field_fault_message("street"@)
    } else if json_str_field(body, "city"@) is None {
        field_fault_message("city"@)
    } else if json_str_field(body, "municipality"@) is None {
        field_fault_message("municipality"@)
    } else if json_str_field(body, "province"@) is None {
        field_fault_message("province"@)
    } else if json_number_text(body, "geo"@, "lat"@) is None {
        field_fault_message("lat"@)
    } else {
        field_fault_message("lon"@)
    }
}

/// Whether `m` is the body-mapping failure message for `body`, given the
/// message owed when the body parses as JSON: that message exactly, or, for
/// a body that does not parse, the fixed prefix followed by the parse
/// error's description.
pub open spec fn body_fault_message(m: Seq<char>, body: Seq<char>, shape_fault: Seq<char>) -> bool {
    if json_wf(body) {
        m == shape_fault
    } else {
        m.len() >= body_parse_message_prefix().len() && m.subrange(
            0,
            body_parse_message_prefix().len() as int,
        ) == body_parse_message_prefix()
    }
}

fn field_fault_error(field: &str) -> (e: PostcodeError)
    ensures
        e matches PostcodeError::InvalidApiResponse(m) && m@ == field_fault_message(field@),
{
    let mut message = String::from_str(
        "Failed to deserialize API response, missing or invalid field `",
    );
    message.append(field);
    message.append("`");
    PostcodeError::InvalidApiResponse(message)
}

/// Maps a simple-lookup body to an address, back-filling postcode and house
/// number from the caller's input: the API does not echo them in this
/// variant. Fails with `InvalidApiResponse` when the body is not well-formed
/// JSON (wrapping the parse error's description) or lacks the expected
/// fields.
pub fn map_simple_body(body: &str, postcode: &str, house_number: u32) -> (r: Result<
    Address,
    PostcodeError,
>)
    ensures
        match r {
            Ok(a) => {
                &&& json_wf(body@)
                &&& spec_simple_fields(body@) matches Some(f) && a.street@ == f.0 && a.city@ == f.1
                &&& a.postcode@ == postcode@
                &&& a.house_number == house_number
            },
            Err(e) => {
                &&& e matches PostcodeError::InvalidApiResponse(m) && body_fault_message(
                    m@,
                    body@,
                    spec_simple_fault(body@),
                )
                &&& !json_wf(body@) || spec_simple_fields(body@) is None
            },
        },
{
    if let Some(description) = json_parse_error(body) {
        let message = String::from_str("Failed to deserialize API response, ").concat(
            description.as_str(),
        );
        proof {
            assert(message@.subrange(0, body_parse_message_prefix().len() as int)
                =~= body_parse_message_prefix());
        }
        return Err(PostcodeError::InvalidApiResponse(message));
    }
    let street = match json_get_str_field(body, "street") {
        Some(s) => s,
        None => {
            return Err(field_fault_error("street"));
        },
    };
    let city = match json_get_str_field(body, "city") {
        Some(c) => c,
        None => {
            return Err(field_fault_error("city"));
        },
    };
    Ok(Address { street, house_number, postcode: postcode.to_owned(), city })
}

/// Maps a full-lookup body to an extended address; postcode and house number
/// come from the body. Fails with `InvalidApiResponse` when the body is not
/// well-formed JSON (wrapping the parse error's description) or lacks the
/// expected fields.
pub fn map_full_body(body: &str) -> (r: Result<ExtendedAddress, PostcodeError>)
    ensures
        match r {
            Ok(a) => {
                &&& json_wf(body@)
                &&& spec_full_fields(body@) matches Some(f) && extended_matches(a, f)
            },
            Err(e) => {
                &&& e matches PostcodeError::InvalidApiResponse(m) && body_fault_message(
                    m@,
                    body@,
                    spec_full_fault(body@),
                )
                &&& !json_wf(body@) || spec_full_fields(body@) is None
            },
        },
{
    if let Some(description) = json_parse_error(body) {
        let message = String::from_str("Failed to deserialize API response, ").concat(
            description.as_str(),
        );
        proof {
            assert(message@.subrange(0, body_parse_message_prefix().len() as int)
                =~= body_parse_message_prefix());
        }
        return Err(PostcodeError::InvalidApiResponse(message));
    }
    let postcode = match json_get_str_field(body, "postcode") {
        Some(v) => v,
        None => {
            return Err(field_fault_error("postcode"));
        },
    };
    let number = match json_get_u64_field(body, "number") {
        Some(v) => v,
        None => {
            return Err(field_fault_error("number"));
        },
    };
    if number > 0xFFFF_FFFF {
        return Err(field_fault_error("number"));
    }
    let street = match json_get_str_field(body, "street") {
        Some(v) => v,
        None => {
            return Err(field_fault_error("street"));
        },
    };
    let city = match json_get_str_field(body, "city") {
        Some(v) => v,
        None => {
            return Err(field_fault_error("city"));
        },
    };
    let municipality = match json_get_str_field(body, "municipality") {
        Some(v) => v,
        None => {
            return Err(field_fault_error("municipality"));
        },
    };
    let province = match json_get_str_field(body, "province") {
        Some(v) => v,
        None => {
            return Err(field_fault_error("province"));
        },
    };
    let lat = match json_get_number_text(body, "geo", "lat") {
        Some(v) => v,
        None => {
            return Err(field_fault_error("lat"));
        },
    };
    let lon = match json_get_number_text(body, "geo", "lon") {
        Some(v) => v,
        None => {
            return Err(field_fault_error("lon"));
        },
    };
    Ok(
        ExtendedAddress {
            street,
            house_number: number as u32,
            postcode,
            city,
            municipality,
            province,
            coordinates: Coordinates { lat, lon },
        },
    )
}

} // verus!
