use vstd::prelude::*;
use vstd::string::StrSliceExecFns;
use vstd::string::StringExecFns;

use crate::error::PostcodeError;

verus! {

/// A decimal digit.
pub open spec fn is_digit(c: char) -> bool {
    '0' <= c && c <= '9'
}

/// A letter of the Latin alphabet, either case.
pub open spec fn is_letter(c: char) -> bool {
    ('a' <= c && c <= 'z') || ('A' <= c && c <= 'Z')
}

/// The accepted postcode shape: four digits, an optional single space, two
/// letters (either case), nothing more.
pub open spec fn is_valid_postcode(s: Seq<char>) -> bool {
    &&& (s.len() == 6 || s.len() == 7)
    &&& is_digit(s[0]) && is_digit(s[1]) && is_digit(s[2]) && is_digit(s[3])
    &&& (s.len() == 7 ==> s[4] == ' ')
    &&& is_letter(s[s.len() - 2]) && is_letter(s[s.len() - 1])
}

/// The message carried by `PostcodeError::InvalidInput`: it echoes the
/// offending input.
pub open spec fn invalid_postcode_message(s: Seq<char>) -> Seq<char> {
    "Postcodes should be formatted as `1234AB` or `1234 AB`, input: "@ + s
}

fn is_digit_at(s: &str, i: usize) -> (r: bool)
    requires
        i < s@.len(),
    ensures
        r == is_digit(s@[i as int]),
{
    let c = s.get_char(i);
    '0' <= c && c <= '9'
}

fn is_letter_at(s: &str, i: usize) -> (r: bool)
    requires
        i < s@.len(),
    ensures
        r == is_letter(s@[i as int]),
{
    let c = s.get_char(i);
    ('a' <= c && c <= 'z') || ('A' <= c && c <= 'Z')
}

/// Accepts exactly the postcodes of the shape `1234AB` or `1234 AB`; every
/// other input fails with `InvalidInput`, whose message echoes the input.
/// No network request is made for a rejected input.
pub fn validate_postcode(postcode: &str) -> (r: Result<(), PostcodeError>)
    ensures
        r is Ok <==> is_valid_postcode(postcode@),
        r matches Err(e) ==> (e matches PostcodeError::InvalidInput(m) && m@
            == invalid_postcode_message(postcode@)),
{
    let len = postcode.unicode_len();
    let ok = if len == 6 {
        is_digit_at(postcode, 0) && is_digit_at(postcode, 1) && is_digit_at(postcode, 2)
            && is_digit_at(postcode, 3) && is_letter_at(postcode, 4) && is_letter_at(postcode, 5)
    } else if len == 7 {
        is_digit_at(postcode, 0) && is_digit_at(postcode, 1) && is_digit_at(postcode, 2)
            && is_digit_at(postcode, 3) && postcode.get_char(4) == ' ' && is_letter_at(postcode, 5)
            && is_letter_at(postcode, 6)
    } else {
        false
    };
    if ok {
        Ok(())
    } else {
        let message = String::from_str(
            "Postcodes should be formatted as `1234AB` or `1234 AB`, input: ",
        ).concat(postcode);
        Err(PostcodeError::InvalidInput(message))
    }
}

} // verus!
