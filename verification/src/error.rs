//! The error taxonomy of the server core.

use vstd::prelude::*;

verus! {

/// Every way a connection or the process setup can fail.
///
/// Parser-level errors (`InvalidRequest`, `InvalidUnicode`) are client-caused
/// and recovered per connection; `StreamReadFailed` / `StreamWriteFailed` are
/// transport-level and abort a single connection; the remaining variants are
/// startup-level and abort the process. Variants that wrap a failure of an
/// outside component carry that failure's rendered message.
#[derive(Debug)]
pub enum TaurusError {
    InvalidConfig(String),
    NoIdentity(String),
    InvalidCertificate(String),
    InvalidRequest(String),
    InvalidUnicode,
    BindFailed(String),
    StreamReadFailed(String),
    StreamWriteFailed(String),
}

pub type TaurusResult<T> = Result<T, TaurusError>;

/// The human-readable description of `e`, as the operator sees it logged.
pub open spec fn error_text(e: TaurusError) -> Seq<char> {
    match e {
        TaurusError::InvalidConfig(m) => "failed to read configuration file: "@ + m@,
        TaurusError::NoIdentity(m) => "failed to open identity file: "@ + m@,
        TaurusError::InvalidCertificate(m) => "failed parse certificate: "@ + m@,
        TaurusError::InvalidRequest(m) => "invalid request: "@ + m@,
        TaurusError::InvalidUnicode => "invalid Unicode character in the input"@,
        TaurusError::BindFailed(m) => "failed to bind: "@ + m@,
        TaurusError::StreamReadFailed(_m) => "could not read the stream"@,
        TaurusError::StreamWriteFailed(_m) => "could not write to the stream"@,
    }
}

impl TaurusError {
    /// Render the error for the log.
    pub fn message(&self) -> (r: String)
        ensures
            r@ == error_text(*self),
    {
        match self {
            TaurusError::InvalidConfig(m) => String::from_str(
                "failed to read configuration file: ",
            ).concat(m.as_str()),
            TaurusError::NoIdentity(m) => String::from_str("failed to open identity file: ")
                .concat(m.as_str()),
            TaurusError::InvalidCertificate(m) => String::from_str("failed parse certificate: ")
                .concat(m.as_str()),
            TaurusError::InvalidRequest(m) => String::from_str("invalid request: ").concat(
                m.as_str(),
            ),
            TaurusError::InvalidUnicode => String::from_str(
                "invalid Unicode character in the input",
            ),
            TaurusError::BindFailed(m) => String::from_str("failed to bind: ").concat(m.as_str()),
            TaurusError::StreamReadFailed(_m) => String::from_str("could not read the stream"),
            TaurusError::StreamWriteFailed(_m) => String::from_str("could not write to the stream"),
        }
    }
}

} // verus!
