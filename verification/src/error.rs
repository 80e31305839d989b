//! Error taxonomy shared by every component, and the classification of
//! data-store responses into it.
//!
//! Each facade failure is classified exactly once, at the call site that
//! produced it; a caller receives exactly one mapped error per operation,
//! never a partial success alongside an error.

use vstd::prelude::*;

verus! {

/// Message attached to an error that rejects an absent or malformed payload.
pub const INVALID_PAYLOAD: &'static str = "INVALID PAYLOAD";

/// Message attached to an unclassified upstream failure.
pub const UNKNOWN: &'static str = "AN ERROR HAS OCCURED";

/// Message attached when a row that must be unique already exists.
pub const ALREADY_EXISTS: &'static str = "ITEM ALREADY EXISTS";

/// Message attached when a required argument is missing.
pub const MISSING_ARGUMENT: &'static str = "EXPECTED ARGUMENT MISSING";

/// Message attached when the upstream reports an exhausted quota.
pub const TOO_MANY_REQUESTS: &'static str = "TOO MANY REQUESTS";

/// Message attached when a referenced row does not exist.
pub const ITEM_DOESNT_EXIST: &'static str = "ITEM DOESN'T EXIST";

/// Message attached when a sign-in payload lacks a credential field.
pub const MISSING_CREDENTIALS: &'static str = "Missing email or password";

/// The kinds of error an operation can surface.
///
/// `ResourceExhausted` covers both an upstream quota signal and a
/// duplicate-account signal: the identity provider reports the two with
/// the statuses this crate maps to the same kind, an ambiguity inherited
/// from that wire contract and kept here.
#[derive(Clone, Copy, PartialEq, Eq, Structural, Debug)]
pub enum ErrorKind {
    /// Missing, empty or malformed payload or required field.
    InvalidArgument,
    /// A row the caller asked for by id is absent.
    NotFound,
    /// A row that must be unique already exists.
    AlreadyExists,
    /// A referenced entity is absent, or a state transition is illegal.
    FailedPrecondition,
    /// Upstream quota or duplicate-account signal.
    ResourceExhausted,
    /// Unclassified internal failure.
    Internal,
    /// Any other unclassified upstream failure.
    Unknown,
}

/// The error document the data store attaches to a failed call.
#[derive(Clone, Debug)]
pub struct DatabaseErrorMessage {
    pub message: String,
    pub code: String,
    pub details: String,
    pub hint: String,
}

/// A data-store failure: the HTTP status it answered with, and its
/// structured error document.
#[derive(Clone, Debug)]
pub struct DatabaseErrorResponse {
    pub response_status: u16,
    pub error: DatabaseErrorMessage,
}

/// A classified error, carrying the raw upstream error document as
/// diagnostic metadata when a facade call produced it.
#[derive(Clone, Debug)]
pub struct ServiceError {
    pub kind: ErrorKind,
    pub message: String,
    pub upstream: Option<DatabaseErrorResponse>,
}

impl ServiceError {
    /// An error with no upstream diagnostic attached.
    pub fn new(kind: ErrorKind, msg: &str) -> (e: ServiceError)
        ensures
            e.kind == kind,
            e.message@ == msg@,
            e.upstream is None,
    {
        ServiceError { kind, message: msg.to_owned(), upstream: None }
    }
}

/// How a data-store status is classified: `None` means success.
///
/// The store answers 200/201/204 on success; 400 marks a malformed
/// request, 409 a conflict with a precondition inside an atomic
/// procedure, 422 and 429 an exhausted resource; anything else is
/// unclassified.
pub open spec fn status_kind(status: u16) -> Option<ErrorKind> {
    if status == 200 || status == 201 || status == 204 {
        None
    } else if status == 400 {
        Some(ErrorKind::InvalidArgument)
    } else if status == 409 {
        Some(ErrorKind::FailedPrecondition)
    } else if status == 422 || status == 429 {
        Some(ErrorKind::ResourceExhausted)
    } else {
        Some(ErrorKind::Unknown)
    }
}

/// Whether a data-store status reports success.
pub fn status_is_success(status: u16) -> (r: bool)
    ensures
        r == (status_kind(status) is None),
{
    status == 200 || status == 201 || status == 204
}

/// Classifies a failed data-store response, attaching the raw error
/// document as diagnostic metadata.
pub fn classify_facade_failure(status: u16, body: DatabaseErrorResponse) -> (e: ServiceError)
    requires
        status_kind(status) is Some,
    ensures
        Some(e.kind) == status_kind(status),
        e.upstream == Some(body),
        e.message@ == (if e.kind == ErrorKind::InvalidArgument {
            INVALID_PAYLOAD@
        } else if e.kind == ErrorKind::ResourceExhausted {
            TOO_MANY_REQUESTS@
        } else {
            UNKNOWN@
        }),
{
    let msg: &str = if status == 400 {
        INVALID_PAYLOAD
    } else if status == 422 || status == 429 {
        TOO_MANY_REQUESTS
    } else {
        UNKNOWN
    };
    let kind = if status == 400 {
        ErrorKind::InvalidArgument
    } else if status == 409 {
        ErrorKind::FailedPrecondition
    } else if status == 422 || status == 429 {
        ErrorKind::ResourceExhausted
    } else {
        ErrorKind::Unknown
    };
    ServiceError { kind, message: msg.to_owned(), upstream: Some(body) }
}

} // verus!
