use vstd::prelude::*;

verus! {

/// Coarse category of a refused or failed operation.
///
/// `InvalidInput` marks a malformed argument the caller can fix locally;
/// `SecurityViolation` marks input excluded by policy; `RateLimitExceeded`
/// is transient; `PermissionDenied` means elevation is required; `Generic`
/// carries an opaque downstream failure; `AuthExhausted` means no usable
/// Discord credential was found; `CancellationRequested` reports a user
/// abort of a long-running operation.
#[derive(Clone, Copy, Debug, PartialEq, Eq, Structural)]
pub enum ErrorKind {
    InvalidInput,
    SecurityViolation,
    RateLimitExceeded,
    PermissionDenied,
    Generic,
    AuthExhausted,
    CancellationRequested,
}

/// An error surfaced to the caller: a category plus one human-readable line.
#[derive(Clone, Debug)]
pub struct TweakError {
    pub kind: ErrorKind,
    pub message: String,
}

impl TweakError {
    /// Build an error of the given category.
    pub fn new(kind: ErrorKind, message: String) -> (e: TweakError)
        ensures
            e.kind == kind,
            e.message@ == message@,
    {
        TweakError { kind, message }
    }

    /// The human-readable text of this error.
    pub fn message_text(&self) -> (m: String)
        ensures
            m@ == self.message@,
    {
        self.message.clone()
    }
}

} // verus!
