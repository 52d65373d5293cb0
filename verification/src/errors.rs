//! The closed set of failure kinds that every operation of this client
//! reports.

use vstd::prelude::*;

verus! {

/// Context carried by a transport-level failure, enough to report the
/// failing URL and, when the server answered at all, its status code.
#[derive(Debug)]
pub struct TransportError {
    /// The URL of the failing request.
    pub url: String,
    /// The HTTP status code, when a response arrived.
    pub status: Option<u16>,
    /// The underlying failure's message, kept for diagnostics.
    pub detail: String,
}

/// Every failure this client reports. No retries happen behind any of
/// these: each is surfaced immediately to the caller.
#[derive(Debug)]
pub enum PaperlessError {
    /// The server returned an unexpected number of status records for a
    /// single task id: zero where exactly one was expected.
    TooManyTasks,
    /// The builder was invoked without both a base URL and a credential;
    /// reported before any network activity.
    IncompleteConfig,
    /// A name-based lookup matched no stored correspondent.
    UnknownCorrespondent,
    /// A failure from the underlying HTTP layer: connection failure,
    /// non-2xx status, or body decode failure.
    Api(TransportError),
    /// A local filesystem failure while reading a file to upload.
    Io(String),
}

} // verus!
