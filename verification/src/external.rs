//! Declarations of the types and functions of other crates that the library works with.
//!
//! `tungstenite::Error`, its `ProtocolError`, `std::io::ErrorKind` and `url::ParseError` are
//! declared with their variants visible, so that verified code matches on them. All other types
//! are opaque: the library only moves their values.

use vstd::prelude::*;
use tokio_tungstenite::tungstenite;

verus! {

#[verifier::external_type_specification]
pub struct ExTungsteniteError(tungstenite::Error);

#[verifier::external_type_specification]
pub struct ExProtocolError(tungstenite::error::ProtocolError);

#[verifier::external_type_specification]
#[verifier::external_body]
pub struct ExSubProtocolError(tungstenite::error::SubProtocolError);

#[verifier::external_type_specification]
#[verifier::external_body]
pub struct ExCapacityError(tungstenite::error::CapacityError);

#[verifier::external_type_specification]
#[verifier::external_body]
pub struct ExTlsError(tungstenite::error::TlsError);

#[verifier::external_type_specification]
#[verifier::external_body]
pub struct ExUrlError(tungstenite::error::UrlError);

#[verifier::external_type_specification]
#[verifier::external_body]
pub struct ExMessage(tungstenite::Message);

#[verifier::external_type_specification]
#[verifier::external_body]
pub struct ExData(tungstenite::protocol::frame::coding::Data);

#[verifier::external_type_specification]
#[verifier::external_body]
#[verifier::reject_recursive_types(Body)]
pub struct ExResponse<Body>(tungstenite::http::Response<Body>);

#[verifier::external_type_specification]
#[verifier::external_body]
pub struct ExHttpError(tungstenite::http::Error);

#[verifier::external_type_specification]
#[verifier::external_body]
pub struct ExHeaderName(tungstenite::http::HeaderName);

#[verifier::external_type_specification]
#[verifier::external_body]
pub struct ExHttparseError(httparse::Error);

#[verifier::external_type_specification]
#[verifier::external_body]
pub struct ExConnector(tokio_tungstenite::Connector);

#[verifier::external_type_specification]
#[verifier::external_body]
pub struct ExIoError(std::io::Error);

#[verifier::external_type_specification]
pub struct ExIoErrorKind(std::io::ErrorKind);

#[verifier::external_type_specification]
#[verifier::external_body]
pub struct ExUninitializedFieldError(derive_builder::UninitializedFieldError);

#[verifier::external_type_specification]
pub struct ExUrlParseError(url::ParseError);

/// The kind that an I/O error carries.
pub uninterp spec fn io_error_kind(error: std::io::Error) -> std::io::ErrorKind;

/// `std::io::Error::kind` returns the kind that belongs to the error. The result depends on the
/// error alone. Which kind an error has that was made from an operating system's code is left to
/// the standard library.
pub assume_specification[ std::io::Error::kind ](
    error: &std::io::Error,
) -> (kind: std::io::ErrorKind)
    ensures
        kind == io_error_kind(*error),
;

/// `Connector::clone` copies a connector: the copy is the same variant and shares the TLS settings
/// that the variant holds.
pub assume_specification[ <tokio_tungstenite::Connector as Clone>::clone ](
    connector: &tokio_tungstenite::Connector,
) -> (copy: tokio_tungstenite::Connector)
    ensures
        copy == *connector,
;

/// The name of the field that an `UninitializedFieldError` reports.
pub uninterp spec fn uninitialized_field_name(
    error: derive_builder::UninitializedFieldError,
) -> &'static str;

/// `UninitializedFieldError::field_name` returns the field name that the error was made with.
pub assume_specification[ derive_builder::UninitializedFieldError::field_name ](
    error: &derive_builder::UninitializedFieldError,
) -> (name: &'static str)
    ensures
        name == uninitialized_field_name(*error),
;

/// The description of a URL parse error.
pub open spec fn url_parse_error_text(error: url::ParseError) -> Seq<char> {
    match error {
        url::ParseError::EmptyHost => "empty host"@,
        url::ParseError::IdnaError => "invalid international domain name"@,
        url::ParseError::InvalidPort => "invalid port number"@,
        url::ParseError::InvalidIpv4Address => "invalid IPv4 address"@,
        url::ParseError::InvalidIpv6Address => "invalid IPv6 address"@,
        url::ParseError::InvalidDomainCharacter => "invalid domain character"@,
        url::ParseError::RelativeUrlWithoutBase => "relative URL without a base"@,
        url::ParseError::RelativeUrlWithCannotBeABaseBase =>
            "relative URL with a cannot-be-a-base base"@,
        url::ParseError::SetHostOnCannotBeABaseUrl =>
            "a cannot-be-a-base URL doesn’t have a host to set"@,
        // `Overflow`, the one variant that is left.
        _ => "URLs more than 4 GB are not supported"@,
    }
}

/// Writes a `url::ParseError` with its `Display`, which gives each variant a fixed description.
#[verifier::external_body]
pub(crate) fn describe_url_parse_error(error: &url::ParseError) -> (text: String)
    ensures
        text@ == url_parse_error_text(*error),
{
    error.to_string()
}

} // verus!
