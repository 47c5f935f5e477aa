//! Which turn failures are retried with the current model before falling
//! back to another one.

use vstd::prelude::*;

verus! {

/// The kinds of failure a turn can report.
#[derive(Clone, Copy, PartialEq, Eq, Structural, Debug)]
pub enum CodexErrorKind {
    InvalidRequest,
    UnexpectedStatus,
    ContextWindowExceeded,
    UsageLimitReached,
    ServerOverloaded,
    InternalServerError,
    RetryLimit,
    /// Any other failure.
    Other,
}

/// Whether a failure of this kind may be specific to the model, so that the
/// turn may succeed with a different one.
pub open spec fn is_model_specific(kind: CodexErrorKind) -> bool {
    kind != CodexErrorKind::Other
}

/// Retries failures that may be model-specific and succeed with a different model.
pub fn should_retry_with_current_model(kind: CodexErrorKind) -> (r: bool)
    ensures
        r == is_model_specific(kind),
{
    match kind {
        CodexErrorKind::InvalidRequest
        | CodexErrorKind::UnexpectedStatus
        | CodexErrorKind::ContextWindowExceeded
        | CodexErrorKind::UsageLimitReached
        | CodexErrorKind::ServerOverloaded
        | CodexErrorKind::InternalServerError
        | CodexErrorKind::RetryLimit => true,
        CodexErrorKind::Other => false,
    }
}

} // verus!
