//! Requests, outcomes and their classification.
//!
//! A request is a plain value: method, target URI, headers and body. The
//! HTTP call itself is outside work; what this module owns is the shape of
//! a request and the rule that turns the call's outcome into the result
//! delivered to the submitter: status 200 yields the buffered body, any
//! other status yields `HttpError` with the status preserved verbatim and
//! the body left unread, and a transport-level failure yields
//! `TransportError`.

use vstd::prelude::*;

use crate::dispatch::Dispatcher;

verus! {

/// The single status code that counts as success.
pub const OK_STATUS: u16 = 200;

/// An HTTP method.
#[derive(Clone, Copy, Debug, PartialEq, Eq, Structural)]
pub enum Method {
    Get,
    Head,
    Post,
    Put,
    Delete,
}

/// An HTTP request, immutable once submitted: ownership moves to the queue
/// entry at enqueue time.
#[derive(Debug, Clone)]
pub struct Request {
    pub method: Method,
    pub uri: String,
    pub headers: Vec<(String, String)>,
    pub body: Vec<u8>,
}

/// Errors delivered to the submitting caller through its result channel,
/// never thrown across the dispatch loop boundary.
#[derive(Debug, Clone, PartialEq, Eq)]
pub enum Error {
    /// The server responded, but not with the success status; the status
    /// code is preserved verbatim.
    HttpError(u16),
    /// The underlying client or network layer failed (connection, TLS
    /// handshake, I/O); the cause is preserved for diagnostics.
    TransportError(String),
    /// The request was constructed with a malformed target.
    InvalidUri(String),
    /// Building the TLS connector failed; fatal to starting the
    /// dispatcher, distinct from any per-request error.
    TlsConfigError(String),
}

/// What a resolved entry delivers: the full response body on success, or
/// the error that classified the outcome.
pub type DispatchResult = Result<Vec<u8>, Error>;

/// What the HTTP call eventually resolves to: a response with its status
/// and (already buffered) body, or a transport-level failure.
#[derive(Debug, Clone, PartialEq, Eq)]
pub enum HttpOutcome {
    Response { status: u16, body: Vec<u8> },
    TransportFailure { cause: String },
}

/// Whether a status code passes the success check.
pub open spec fn status_result(status: u16) -> Result<(), Error> {
    if status == 200 {
        Ok(())
    } else {
        Err(Error::HttpError(status))
    }
}

/// The result delivered for a given outcome of the HTTP call: the body for
/// a 200 response, `HttpError` for any other status (the body is not
/// read), `TransportError` for a failure below HTTP.
pub open spec fn outcome_result(outcome: HttpOutcome) -> DispatchResult {
    match outcome {
        HttpOutcome::Response { status, body } => if status == 200 {
            Ok(body)
        } else {
            Err(Error::HttpError(status))
        },
        HttpOutcome::TransportFailure { cause } => Err(Error::TransportError(cause)),
    }
}

/// The success check made on a response's status before its body is read:
/// exactly status 200 passes, any other status is rejected with
/// `HttpError` carrying that status.
pub fn check_status(status: u16) -> (r: Result<(), Error>)
    ensures
        r == status_result(status),
        r is Ok <==> status == 200,
{
    if status == OK_STATUS {
        Ok(())
    } else {
        Err(Error::HttpError(status))
    }
}

/// Classify the outcome of one HTTP call into the result delivered to the
/// submitter. The body is used only when the status check passed.
pub fn outcome_to_result(outcome: HttpOutcome) -> (r: DispatchResult)
    ensures
        r == outcome_result(outcome),
{
    match outcome {
        HttpOutcome::Response { status, body } => {
            match check_status(status) {
                Ok(()) => Ok(body),
                Err(e) => Err(e),
            }
        },
        HttpOutcome::TransportFailure { cause } => Err(Error::TransportError(cause)),
    }
}

/// Build a GET request for the given target, with no headers and an empty
/// body.
pub fn create_get_request(uri: String) -> (r: Request)
    ensures
        r.method == Method::Get,
        r.uri == uri,
        r.headers@ == Seq::<(String, String)>::empty(),
        r.body@ == Seq::<u8>::empty(),
{
    Request { method: Method::Get, uri, headers: Vec::new(), body: Vec::new() }
}

/// Startup of the HTTPS client: the TLS connector is built by an outside
/// collaborator, and its outcome decides everything. If it failed, the
/// dispatcher never starts and the error is `TlsConfigError` with the
/// cause preserved; if it succeeded, a fresh dispatcher — empty queue, no
/// channels handed out yet — is ready to accept submissions.
pub fn create_https_client(connector: Result<(), String>) -> (r: Result<Dispatcher, Error>)
    ensures
        connector matches Err(cause) ==> r == Err::<Dispatcher, Error>(Error::TlsConfigError(
            cause,
        )),
        connector is Ok ==> (r matches Ok(d) && d.wf() && d@.queue.len() == 0 && d@.channels.len()
            == 0 && !d@.closed),
{
    match connector {
        Ok(()) => Ok(Dispatcher::new()),
        Err(cause) => Err(Error::TlsConfigError(cause)),
    }
}

} // verus!
