//! Typed client library for a Dutch postcode lookup API: postcode input
//! validation, HTTP status dispatch, usage-limit header extraction and
//! JSON body mapping into domain types.

pub mod body;
pub mod error;
pub mod headers;
pub mod numbers;
pub mod postcode;
pub mod response;

pub use body::Address;
pub use body::Coordinates;
pub use body::ExtendedAddress;
pub use error::PostcodeError;
pub use headers::ApiLimits;
pub use postcode::validate_postcode;
pub use response::interpret_address_response;
pub use response::interpret_extended_address_response;
