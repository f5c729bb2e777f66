//! Types representing the errors that can be returned.

use crate::metadata::{InvalidMetadataError, MetadataError};
use vstd::prelude::*;

verus! {

/// An RPC error. Since the transport is any that the caller brings, the error is
/// the message that the transport gave.
#[derive(Clone, Debug, PartialEq, Eq)]
pub struct RpcError(pub String);

/// The errors of the library. A failure outside the library (a codec, the
/// transport, a JSON parser) is held by its message.
#[derive(Clone, Debug, PartialEq, Eq)]
pub enum Error {
    /// Codec error: a response body could not be decoded.
    Codec(String),
    /// Rpc error.
    Rpc(RpcError),
    /// Serde serialization error
    Serialization(String),
    /// Extrinsic validity error
    Invalid(String),
    /// Invalid metadata error
    InvalidMetadata(InvalidMetadataError),
    /// Metadata error
    Metadata(MetadataError),
    /// Error decoding into a dynamic value.
    DecodeValue(String),
    /// Error encoding from a dynamic value.
    EncodeValue(String),
    /// Other error.
    Other(String),
}

impl From<String> for Error {
    fn from(error: String) -> (out: Error) {
        Error::Other(error)
    }
}

impl vstd::std_specs::convert::FromSpecImpl<String> for Error {
    open spec fn obeys_from_spec() -> bool {
        true
    }

    open spec fn from_spec(error: String) -> Error {
        Error::Other(error)
    }
}

impl From<RpcError> for Error {
    fn from(error: RpcError) -> (out: Error) {
        Error::Rpc(error)
    }
}

impl vstd::std_specs::convert::FromSpecImpl<RpcError> for Error {
    open spec fn obeys_from_spec() -> bool {
        true
    }

    open spec fn from_spec(error: RpcError) -> Error {
        Error::Rpc(error)
    }
}

impl From<InvalidMetadataError> for Error {
    fn from(error: InvalidMetadataError) -> (out: Error) {
        Error::InvalidMetadata(error)
    }
}

impl vstd::std_specs::convert::FromSpecImpl<InvalidMetadataError> for Error {
    open spec fn obeys_from_spec() -> bool {
        true
    }

    open spec fn from_spec(error: InvalidMetadataError) -> Error {
        Error::InvalidMetadata(error)
    }
}

impl From<MetadataError> for Error {
    fn from(error: MetadataError) -> (out: Error) {
        Error::Metadata(error)
    }
}

impl vstd::std_specs::convert::FromSpecImpl<MetadataError> for Error {
    open spec fn obeys_from_spec() -> bool {
        true
    }

    open spec fn from_spec(error: MetadataError) -> Error {
        Error::Metadata(error)
    }
}

} // verus!
