use vstd::prelude::*;

verus! {

/// The fatal conditions that can end a recognition session. They are kept
/// distinct so a caller can decide whether opening a fresh session (with a
/// fresh token or connection) is worth attempting.
#[derive(Clone, Copy, Debug, PartialEq, Eq, Structural)]
pub enum SessionError {
    /// The key material could not be used to produce a signed token.
    Signing,
    /// The session could not be established (network or TLS failure).
    Connect,
    /// The audio origin failed while the session was streaming.
    SourceRead,
    /// The transport failed after the session was established.
    Transport,
}

impl SessionError {
    /// A short name for the condition, for callers that report it.
    pub fn describe(&self) -> (r: &'static str)
        ensures
            r@ == (match *self {
                SessionError::Signing => "signing error"@,
                SessionError::Connect => "connect error"@,
                SessionError::SourceRead => "source read error"@,
                SessionError::Transport => "transport error"@,
            }),
    {
        match self {
            SessionError::Signing => "signing error",
            SessionError::Connect => "connect error",
            SessionError::SourceRead => "source read error",
            SessionError::Transport => "transport error",
        }
    }
}

} // verus!
