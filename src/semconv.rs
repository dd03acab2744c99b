//! Attribute keys of the HTTP semantic conventions, as the conventions crate names them.
use opentelemetry_semantic_conventions::attribute;
use vstd::prelude::*;

verus! {

/// Relies on `opentelemetry_semantic_conventions::attribute::HTTP_REQUEST_METHOD`,
/// the key of the request method.
#[verifier::external_body]
pub(crate) fn http_request_method_key() -> (r: &'static str)
    ensures
        r@ == "http.request.method"@,
{
    attribute::HTTP_REQUEST_METHOD
}

/// Relies on `opentelemetry_semantic_conventions::attribute::HTTP_RESPONSE_STATUS_CODE`,
/// the key of the response status code.
#[verifier::external_body]
pub(crate) fn http_response_status_code_key() -> (r: &'static str)
    ensures
        r@ == "http.response.status_code"@,
{
    attribute::HTTP_RESPONSE_STATUS_CODE
}

/// Relies on `opentelemetry_semantic_conventions::attribute::NETWORK_PROTOCOL_NAME`,
/// the key of the protocol name.
#[verifier::external_body]
pub(crate) fn network_protocol_name_key() -> (r: &'static str)
    ensures
        r@ == "network.protocol.name"@,
{
    attribute::NETWORK_PROTOCOL_NAME
}

/// Relies on `opentelemetry_semantic_conventions::attribute::NETWORK_PROTOCOL_VERSION`,
/// the key of the protocol version.
#[verifier::external_body]
pub(crate) fn network_protocol_version_key() -> (r: &'static str)
    ensures
        r@ == "network.protocol.version"@,
{
    attribute::NETWORK_PROTOCOL_VERSION
}

/// Relies on `opentelemetry_semantic_conventions::attribute::URL_SCHEME`, the key of
/// the URL scheme.
#[verifier::external_body]
pub(crate) fn url_scheme_key() -> (r: &'static str)
    ensures
        r@ == "url.scheme"@,
{
    attribute::URL_SCHEME
}

/// Relies on `opentelemetry_semantic_conventions::attribute::HTTP_ROUTE`, the key of
/// the matched route.
#[verifier::external_body]
pub(crate) fn http_route_key() -> (r: &'static str)
    ensures
        r@ == "http.route"@,
{
    attribute::HTTP_ROUTE
}

/// Relies on `opentelemetry_semantic_conventions::attribute::SERVER_ADDRESS`, the key
/// of the server address.
#[verifier::external_body]
pub(crate) fn server_address_key() -> (r: &'static str)
    ensures
        r@ == "server.address"@,
{
    attribute::SERVER_ADDRESS
}

/// Relies on `opentelemetry_semantic_conventions::attribute::SERVER_PORT`, the key of
/// the server port.
#[verifier::external_body]
pub(crate) fn server_port_key() -> (r: &'static str)
    ensures
        r@ == "server.port"@,
{
    attribute::SERVER_PORT
}

} // verus!
