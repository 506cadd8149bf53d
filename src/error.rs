use vstd::prelude::*;

verus! {

/// The ways a step of the protocol can fail.
#[derive(Debug, Clone, Copy, PartialEq, Eq, Structural)]
pub enum ApiError {
    /// A required setting is absent or empty, or an endpoint could not be formed.
    Config,
    /// The request never got an answer (connection or network failure).
    Transport,
    /// A token endpoint answered with a status other than 200.
    Auth(u16),
    /// The activities endpoint answered with a status other than 200.
    Fetch(u16),
    /// The body did not have the expected shape.
    Decode,
}

/// What the service did with one request, as the caller observed it.
///
/// `body` is the decoded body: `None` when it did not match the expected
/// shape (or was not read because the status was not 200).
#[derive(Debug)]
pub enum Reply<T> {
    /// No answer came: the transport failed.
    Failed,
    /// An answer came with this status and, where it could be decoded, this body.
    Answered { status: u16, body: Option<T> },
}

/// The status of a successful answer.
pub const STATUS_OK: u16 = 200;

} // verus!
