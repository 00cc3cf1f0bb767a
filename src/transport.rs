//! What the library takes from tonic and http, and what it relies on of each.
use tonic::metadata::AsciiMetadataValue;
use tonic::transport::{Certificate, Channel, ClientTlsConfig, Endpoint};
use vstd::prelude::*;
use vstd::string::StringSliceAdditionalSpecFns;

verus! {

#[verifier::external_type_specification]
#[verifier::external_body]
pub struct ExUri(http::Uri);

#[verifier::external_type_specification]
#[verifier::external_body]
pub struct ExEndpoint(tonic::transport::Endpoint);

#[verifier::external_type_specification]
#[verifier::external_body]
pub struct ExTransportError(tonic::transport::Error);

#[verifier::external_type_specification]
#[verifier::external_body]
pub struct ExInvalidMetadataValue(tonic::metadata::errors::InvalidMetadataValue);

#[verifier::external_type_specification]
#[verifier::external_body]
pub struct ExStatus(tonic::Status);

#[verifier::external_type_specification]
#[verifier::external_body]
#[verifier::reject_recursive_types(T)]
pub struct ExRequest<T>(tonic::Request<T>);

/// A credential in wire form: one ASCII metadata value of tonic. tonic bounds
/// the value type's parameter by a trait that it keeps private, so the value
/// type cannot be declared itself; it is held here, opaque, and spoken of by
/// `token_bytes`.
#[verifier::external_body]
#[derive(Debug)]
pub struct MetadataToken {
    value: AsciiMetadataValue,
}

/// The bytes that a metadata token carries on the wire.
pub uninterp spec fn token_bytes(t: MetadataToken) -> Seq<u8>;

/// The entries of a request's metadata: for each key, the bytes of each value
/// held under it, in order, as they go on the wire.
pub uninterp spec fn metadata_entries(r: tonic::Request<()>) -> Map<Seq<char>, Seq<Seq<u8>>>;

/// What the URI parser of http answers for a text: `None` when it accepts the
/// text as a URI, else the description of the error.
pub uninterp spec fn uri_error_of(s: Seq<char>) -> Option<Seq<char>>;

/// Whether tonic accepts TLS settings made of this CA certificate (PEM) and
/// this expected server name.
pub uninterp spec fn tls_accepted(ca_certificate: Seq<u8>, domain: Seq<char>) -> bool;

/// A character that a metadata value may hold: tab, or any character from the
/// space on but DEL. Every byte of a character above ASCII is 128 or more,
/// which a header value admits.
pub open spec fn is_metadata_char(c: char) -> bool {
    c == '\t' || (c as u32 >= 32 && c as u32 != 127)
}

/// A text that tonic accepts as an ASCII metadata value.
pub open spec fn is_metadata_text(s: Seq<char>) -> bool {
    forall|i: int| 0 <= i < s.len() ==> is_metadata_char(#[trigger] s[i])
}

/// A key under which metadata can be inserted without a panic: a non-empty run
/// of at most 64 lower-case ASCII letters. Such a key is a valid header name
/// and never ends in `-bin`, the mark of a binary key.
pub open spec fn is_metadata_key(k: Seq<char>) -> bool {
    0 < k.len() <= 64 && forall|i: int| 0 <= i < k.len() ==> 'a' <= #[trigger] k[i] <= 'z'
}

/// Relies on `http::Uri::from_str`, whose verdict depends on the text alone,
/// and on the `Display` of its error. The empty text is rejected.
#[verifier::external_body]
pub(crate) fn parse_uri(s: &str) -> (r: Result<http::Uri, String>)
    ensures
        r is Ok <==> uri_error_of(s@) is None,
        r matches Err(e) ==> uri_error_of(s@) == Some(e@),
        s@.len() == 0 ==> r is Err,
{
    match <http::Uri as std::str::FromStr>::from_str(s) {
        Ok(uri) => Ok(uri),
        Err(e) => Err(e.to_string()),
    }
}

/// Relies on `Channel::builder`, which makes an endpoint for a URI and cannot fail.
#[verifier::external_body]
pub(crate) fn endpoint_for(uri: http::Uri) -> (r: Endpoint) {
    Channel::builder(uri)
}

/// Relies on `Endpoint::tls_config` with the CA certificate and the domain
/// name set: it fails when tonic cannot read the certificate or the name, which
/// depends on those two alone.
#[verifier::external_body]
pub(crate) fn with_tls(endpoint: Endpoint, ca_certificate: &[u8], domain: &str) -> (r: Result<
    Endpoint,
    tonic::transport::Error,
>)
    ensures
        r is Ok <==> tls_accepted(ca_certificate@, domain@),
{
    let settings = ClientTlsConfig::new()
        .ca_certificate(Certificate::from_pem(ca_certificate))
        .domain_name(domain);
    endpoint.tls_config(settings)
}

/// Relies on `AsciiMetadataValue::from_str`: it accepts a text whose bytes are
/// all tab or at least 32 and not 127, and keeps those bytes.
#[verifier::external_body]
pub(crate) fn metadata_token(s: &str) -> (r: Result<MetadataToken, tonic::metadata::errors::InvalidMetadataValue>)
    ensures
        r is Ok <==> is_metadata_text(s@),
        r matches Ok(t) ==> token_bytes(t) == s.spec_bytes(),
{
    match <AsciiMetadataValue as std::str::FromStr>::from_str(s) {
        Ok(value) => Ok(MetadataToken { value }),
        Err(e) => Err(e),
    }
}

/// Relies on the `Clone` of tonic's metadata values, which copies the bytes.
#[verifier::external_body]
pub(crate) fn clone_token(t: &MetadataToken) -> (r: MetadataToken)
    ensures
        token_bytes(r) == token_bytes(*t),
{
    MetadataToken { value: t.value.clone() }
}

/// Relies on `MetadataMap::keys_len` on the request's metadata: the number of
/// distinct keys.
#[verifier::external_body]
pub(crate) fn metadata_key_count(request: &tonic::Request<()>) -> (r: usize)
    ensures
        r == metadata_entries(*request).dom().len(),
{
    request.metadata().keys_len()
}

/// Relies on `MetadataMap::insert` on the request's metadata: an ASCII entry
/// replaces every value held under its key. It panics on a key that is not a
/// valid ASCII key, and when the table of http's `HeaderMap` would grow past
/// its maximum, which cannot happen below 4096 keys; `requires` leaves both out.
#[verifier::external_body]
pub(crate) fn insert_metadata(request: &mut tonic::Request<()>, key: &'static str, token: MetadataToken)
    requires
        is_metadata_key(key@),
        metadata_entries(*old(request)).dom().len() < 4096,
    ensures
        metadata_entries(*final(request)) == metadata_entries(*old(request)).insert(key@, seq![token_bytes(token)]),
        metadata_entries(*final(request)).dom().len() <= metadata_entries(*old(request)).dom().len() + 1,
{
    request.metadata_mut().insert(key, token.value);
}

} // verus!
