use vstd::prelude::*;

verus! {

/// The ways in which keeping a session alive can fail.
#[derive(Debug, Clone, Copy, PartialEq, Eq, Structural)]
pub enum SessionError {
    /// No session record is stored yet.
    NotFound,
    /// The stored session record cannot be read back into its shape.
    Storage,
    /// A network or I/O failure.
    Transport,
    /// A remote reply lacks a field or has the wrong shape.
    ProtocolViolation,
    /// The login challenge expired before it was approved.
    AuthExpired,
    /// The configured public key cannot be decoded or is not a valid key.
    BadKey,
    /// The remote side answered the refresh confirmation with a non-zero code.
    Rejected,
}

} // verus!
