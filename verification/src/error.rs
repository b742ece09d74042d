//! Failures surfaced by the attestation and key-provider halves.

use vstd::prelude::*;

verus! {

/// What went wrong, without the cause.
#[derive(Clone, Copy, Debug, PartialEq, Eq, Structural)]
pub enum ErrorKind {
    /// The hardware device is absent or could not be opened.
    DeviceUnavailable,
    /// The control call failed, or reported a token length outside the buffer.
    IoctlFailure,
    /// The requested TEE has no attester in this build.
    UnsupportedTee,
    /// Key material could not be obtained.
    KeyMaterialFailure,
    /// The crypto engine failed.
    EncryptionFailure,
    /// The key broker rejected the key or could not be reached.
    RegistrationFailure,
    /// A record could not be encoded.
    SerializationFailure,
}

/// A failure with the operation's underlying cause.
#[derive(Clone, Debug, PartialEq, Eq)]
pub struct AgentError {
    pub kind: ErrorKind,
    pub cause: String,
}

/// Mathematical value of an [`AgentError`].
pub struct ErrorView {
    pub kind: ErrorKind,
    pub cause: Seq<char>,
}

impl View for AgentError {
    type V = ErrorView;

    open spec fn view(&self) -> ErrorView {
        ErrorView { kind: self.kind, cause: self.cause@ }
    }
}

impl AgentError {
    /// A failure of `kind` caused by `cause`.
    pub fn new(kind: ErrorKind, cause: String) -> (e: AgentError)
        ensures
            e@ == (ErrorView { kind, cause: cause@ }),
    {
        AgentError { kind, cause }
    }

    /// A failure of `kind` with a fixed description as its cause.
    pub fn with_message(kind: ErrorKind, message: &str) -> (e: AgentError)
        ensures
            e@ == (ErrorView { kind, cause: message@ }),
    {
        AgentError { kind, cause: message.to_owned() }
    }
}

} // verus!
