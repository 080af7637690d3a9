//! The library's one failure type: a closed union of everything that can go
//! wrong while planning a request, carrying it out, or reading its answer.

use vstd::prelude::*;
use vstd::string::StringExecFns;

verus! {

/// Every failure a bridge can surface, unified into one type. The message
/// carried by a variant is the text of the underlying failure; validation
/// failures of the library itself carry nothing.
#[derive(Clone, Debug, PartialEq, Eq)]
pub enum Error {
    /// A local input/output failure, such as reading a response body.
    Io(String),
    /// A response body that does not decode as the expected schema.
    Json(String),
    /// A failure constructing the secure-transport connector of the
    /// asynchronous bridge's client.
    TlsSetup(String),
    /// A failure surfaced by the underlying HTTP engine while building or
    /// carrying out a request.
    TransportError(String),
    /// More files in one upload than [`crate::constants::MAX_FILES`] allows.
    /// No request is sent when this is returned.
    TooManyFiles,
    /// A request target that does not parse as a URI. No request is sent
    /// when this is returned.
    InvalidUri(String),
}

impl Error {
    /// What [`Error::message`] returns for each variant.
    pub open spec fn spec_message(&self) -> Seq<char> {
        match *self {
            Error::Io(m) => m@,
            Error::Json(m) => m@,
            Error::TlsSetup(m) => m@,
            Error::TransportError(m) => m@,
            Error::TooManyFiles => "Too many files to upload"@,
            Error::InvalidUri(m) => m@,
        }
    }

    /// A short description of the failure: the carried message, or a fixed
    /// text for the validation failure that carries none.
    pub fn message(&self) -> (r: String)
        ensures
            r@ == self.spec_message(),
    {
        match self {
            Error::Io(m) => m.clone(),
            Error::Json(m) => m.clone(),
            Error::TlsSetup(m) => m.clone(),
            Error::TransportError(m) => m.clone(),
            Error::TooManyFiles => String::from_str("Too many files to upload"),
            Error::InvalidUri(m) => m.clone(),
        }
    }
}

} // verus!
