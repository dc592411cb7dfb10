//! The reporting layer's error type and its mapping onto HTTP responses.
//!
//! The HTTP framework itself stays outside the verified core; what stands
//! here is the decision it delegates: which failure becomes which kind of
//! response, carrying which structured payload.

use vstd::prelude::*;
use vstd::string::StringExecFns;

use crate::outside::purl_error_text;

verus! {

/// The failures the reporting layer can be handed: a system failure,
/// already rendered by the transactional core, or a malformed package URL
/// from a caller.
#[derive(Debug)]
pub enum Error {
    System(String),
    Purl(packageurl::Error),
}

/// The structured payload of an error response: a short stable tag for the
/// kind of failure, and the human-readable message.
#[derive(Clone, Debug)]
pub struct ErrorInformation {
    pub error_type: String,
    pub message: String,
}

impl ErrorInformation {
    /// Builds the payload from its two parts, verbatim.
    pub fn new(error_type: &str, message: &str) -> (info: ErrorInformation)
        ensures
            info.error_type@ == error_type@,
            info.message@ == message@,
    {
        ErrorInformation { error_type: String::from_str(error_type), message: String::from_str(
            message,
        ) }
    }
}

/// Which response a failure maps to: system failures are the server's
/// fault, malformed input is the caller's.
#[derive(Clone, Copy, Debug, PartialEq, Eq, Structural)]
pub enum ResponseKind {
    InternalServerError,
    BadRequest,
}

impl Error {
    /// Decides the response for this failure: a system failure becomes an
    /// internal-server-error response tagged `System` and carrying the
    /// system's message verbatim; a package-URL failure becomes a
    /// bad-request response tagged `InvalidPurlSyntax`, carrying the parse
    /// error's own rendered text.
    pub fn error_response(&self) -> (r: (ResponseKind, ErrorInformation))
        ensures
            self matches Error::System(msg) ==> r.0 is InternalServerError
                && r.1.error_type@ == "System"@ && r.1.message@ == msg@,
            self matches Error::Purl(err) ==> r.0 is BadRequest
                && r.1.error_type@ == "InvalidPurlSyntax"@
                && r.1.message@ == crate::outside::purl_error_text_of(*err),
    {
        match self {
            Error::System(msg) => (
                ResponseKind::InternalServerError,
                ErrorInformation::new("System", msg.as_str()),
            ),
            Error::Purl(err) => {
                let detail = purl_error_text(err);
                (ResponseKind::BadRequest, ErrorInformation::new("InvalidPurlSyntax", detail.as_str()))
            },
        }
    }
}

impl From<String> for Error {
    /// Wraps a rendered system failure, as the reporting layer's `?` does.
    fn from(inner: String) -> (r: Self) {
        Error::System(inner)
    }
}

impl vstd::std_specs::convert::FromSpecImpl<String> for Error {
    open spec fn obeys_from_spec() -> bool {
        true
    }

    open spec fn from_spec(t: String) -> Self {
        Error::System(t)
    }
}

impl From<packageurl::Error> for Error {
    /// Wraps a package-URL parse failure.
    fn from(inner: packageurl::Error) -> (r: Self) {
        Error::Purl(inner)
    }
}

impl vstd::std_specs::convert::FromSpecImpl<packageurl::Error> for Error {
    open spec fn obeys_from_spec() -> bool {
        true
    }

    open spec fn from_spec(t: packageurl::Error) -> Self {
        Error::Purl(t)
    }
}

} // verus!
