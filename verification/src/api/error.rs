//! The failures that reach the HTTP layer, and the status each one is
//! answered with.

use vstd::prelude::*;

verus! {

/// The kinds of failure.
#[derive(Clone, Copy, Debug, PartialEq, Eq, Structural)]
pub enum ErrorKind {
    /// The name is not in the discovery list, or the path is not on disk.
    NotFound,
    /// The backend could not be started on the model.
    Load,
    /// The backend failed during a generation.
    Infer,
    /// The chat template and the conversation do not fit.
    Render,
    /// A lock was left broken by a caller that failed while it held it.
    Lock,
}

/// A failure with the message of whatever failed, unchanged.
#[derive(Debug, Clone, PartialEq, Eq)]
pub struct GatewayError {
    pub kind: ErrorKind,
    pub message: String,
}

/// The status of a reply that went well.
pub const STATUS_OK: u16 = 200;

/// The status of a request that cannot be served as it stands.
pub const STATUS_BAD_REQUEST: u16 = 400;

/// The status of a failure on the server's side.
pub const STATUS_INTERNAL_ERROR: u16 = 500;

/// Whether the kind is the requester's fault: a name that is not known, or
/// a conversation that the template cannot take.
pub open spec fn is_client_error(kind: ErrorKind) -> bool {
    kind == ErrorKind::NotFound || kind == ErrorKind::Render
}

/// The HTTP status that a failure is answered with.
pub open spec fn status_of(kind: ErrorKind) -> u16 {
    if is_client_error(kind) {
        400
    } else {
        500
    }
}

/// The HTTP status that a failure is answered with.
pub fn status_code(kind: ErrorKind) -> (status: u16)
    ensures
        status == status_of(kind),
{
    match kind {
        ErrorKind::NotFound => STATUS_BAD_REQUEST,
        ErrorKind::Render => STATUS_BAD_REQUEST,
        ErrorKind::Load => STATUS_INTERNAL_ERROR,
        ErrorKind::Infer => STATUS_INTERNAL_ERROR,
        ErrorKind::Lock => STATUS_INTERNAL_ERROR,
    }
}

/// What became of the work that a request asked for.
#[derive(Debug, Clone, PartialEq, Eq)]
pub enum Outcome {
    /// The whole generated text.
    Text(String),
    /// The failure that ended the work.
    Failed(GatewayError),
}

} // verus!
