//! The error taxonomy of the engine: conversion failures at the HTTP
//! boundary, and wrapped failures of the storage backend, the client
//! adapter, and the policy evaluator.

use vstd::prelude::*;

verus! {

/// An error surfaced by the engine.
#[derive(Debug)]
pub enum Error {
    /// An HTTP version outside the supported set was met at a conversion
    /// boundary.
    BadVersion,
    /// An invalid header name or value was met at a conversion boundary.
    BadHeader,
    /// The underlying store failed; carries its message.
    StorageFailure(String),
    /// The network or the client adapter failed; carries its message.
    AdapterFailure(String),
    /// The policy helper signalled an inconsistency; carries its message.
    PolicyFailure(String),
}

impl Error {
    /// The human-readable message for this error.
    pub open spec fn spec_message(&self) -> Seq<char> {
        match self {
            Error::BadVersion => "Unknown HTTP version"@,
            Error::BadHeader => "Error parsing header value"@,
            Error::StorageFailure(m) => "Storage error: "@ + m@,
            Error::AdapterFailure(m) => "Adapter error: "@ + m@,
            Error::PolicyFailure(m) => "Policy error: "@ + m@,
        }
    }

    /// Renders the human-readable message for this error.
    pub fn message(&self) -> (r: String)
        ensures
            r@ == self.spec_message(),
    {
        match self {
            Error::BadVersion => "Unknown HTTP version".to_owned(),
            Error::BadHeader => "Error parsing header value".to_owned(),
            Error::StorageFailure(m) => "Storage error: ".to_owned().concat(m.as_str()),
            Error::AdapterFailure(m) => "Adapter error: ".to_owned().concat(m.as_str()),
            Error::PolicyFailure(m) => "Policy error: ".to_owned().concat(m.as_str()),
        }
    }
}

} // verus!
