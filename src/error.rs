//! The errors of the library.
use vstd::prelude::*;

verus! {

/// Why building a client or a call failed.
#[derive(Debug)]
pub enum GinmiError {
    /// The TLS settings were refused, or the connection could not be made.
    TransportError(tonic::transport::Error),
    /// The target is not a URI; holds the parser's description.
    InvalidUriError(String),
    /// A credential holds a character that metadata cannot carry.
    InvalidHeaderValue(tonic::metadata::errors::InvalidMetadataValue),
    /// The device or the transport failed a call.
    GrpcError(tonic::Status),
}

} // verus!
