//! Error taxonomy of the reconciler.

use vstd::prelude::*;

verus! {

/// Why an operation failed.
///
/// `TransportError` covers network-level failures, `DecodeError` a response
/// body that did not match the expected schema, `ProtocolError` a
/// device-authorization flow that ended without a usable token,
/// `UnresolvableContent` a search response with no usable identifier, and
/// `ConfigurationError` a required setting that was absent at startup.
pub enum Error {
    TransportError(String),
    DecodeError(String),
    ProtocolError(String),
    UnresolvableContent,
    ConfigurationError(String),
}

impl Clone for Error {
    fn clone(&self) -> (r: Self)
        ensures
            r == *self,
    {
        match self {
            Error::TransportError(m) => Error::TransportError(m.clone()),
            Error::DecodeError(m) => Error::DecodeError(m.clone()),
            Error::ProtocolError(m) => Error::ProtocolError(m.clone()),
            Error::UnresolvableContent => Error::UnresolvableContent,
            Error::ConfigurationError(m) => Error::ConfigurationError(m.clone()),
        }
    }
}

} // verus!
