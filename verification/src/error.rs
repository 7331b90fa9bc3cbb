use vstd::prelude::*;

verus! {

/// Everything that can go wrong in the session engine and the
/// request/streaming pipeline. Errors surface unchanged to the caller:
/// there is no retry or local recovery anywhere in this library.
#[derive(Debug, PartialEq, Eq)]
pub enum ChatError {
    /// The token budget was violated; no network call may be made.
    ExceedsLimit { estimated: u64, limit: u64 },
    /// Connection-level failure, surfaced with the transport's message.
    TransportError(String),
    /// The API responded with a structured error message.
    ApiError(String),
    /// The response had an unexpected shape.
    MalformedResponse,
    /// The stream handler failed to deliver a fragment or the terminal
    /// notification.
    IoError,
    /// Clearing the bound role was rejected while conversation budget remains.
    RoleChangeRejected,
    /// No selectable role carries the requested name.
    UnknownRole,
    /// A settings command did not have the `<key> <value>` shape.
    InvalidCommand,
    /// The settings key may not be unset.
    NotAllowed,
    /// The settings key is not recognized.
    UnknownKey,
    /// The settings value could not be parsed for its key.
    InvalidValue,
}

} // verus!
