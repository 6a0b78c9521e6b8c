use vstd::prelude::*;

use crate::errors::SessionError;

verus! {

/// Where one session stands, from idle to closed, with a distinguished
/// failure state reachable from any phase.
#[derive(Clone, Copy, Debug, PartialEq, Eq, Structural)]
pub enum SessionPhase {
    /// Nothing done yet; the token comes next.
    Idle,
    /// The token is issued; the session can be opened.
    TokenIssued,
    /// The bidirectional session is open, the token attached as a bearer
    /// credential; streaming starts next.
    StreamOpen,
    /// Both flows run: outbound production and inbound consumption.
    Streaming,
    /// The session ended: outbound completed, a no-input timeout fired, or
    /// the remote side closed the inbound stream.
    Closed,
    /// The session failed, with the distinguishable fatal condition.
    Failed(SessionError),
}

/// What the driving loop reports to the orchestrator.
#[derive(Clone, Copy, Debug, PartialEq, Eq, Structural)]
pub enum SessionEvent {
    /// The token issuer produced a token.
    TokenReady,
    /// The key material could not be turned into a token.
    TokenRejected,
    /// The transport session is established and the credential attached.
    ChannelOpened,
    /// Establishing the transport session failed (connection, TLS, auth).
    ChannelFailed,
    /// Both the outbound and the inbound flow are running.
    StreamingStarted,
    /// The outbound stream completed naturally: source exhausted, no
    /// keep-alive configured.
    OutboundFinished,
    /// The consumer decided on a no-input timeout.
    NoInputTimeout,
    /// The remote side closed the inbound stream.
    RemoteClosed,
    /// The transport failed mid-stream (for instance, the server rejected an
    /// expired token).
    TransportFailed,
    /// The audio source failed mid-stream.
    SourceFailed,
}

/// What the driving loop must do after an event is absorbed.
#[derive(Clone, Copy, Debug, PartialEq, Eq, Structural)]
pub enum OrchestratorAction {
    /// Nothing beyond following the new phase.
    Proceed,
    /// Actively cancel the outbound production flow: a no-input timeout
    /// fired while streaming.
    CancelOutbound,
}

/// The transition table: which phase one event leads to. An event that does
/// not belong to the current phase leaves it unchanged; the two terminal
/// phases absorb everything.
pub open spec fn next_phase(p: SessionPhase, ev: SessionEvent) -> SessionPhase {
    match (p, ev) {
        (SessionPhase::Idle, SessionEvent::TokenReady) => SessionPhase::TokenIssued,
        (SessionPhase::Idle, SessionEvent::TokenRejected) => SessionPhase::Failed(
            SessionError::Signing,
        ),
        (SessionPhase::TokenIssued, SessionEvent::ChannelOpened) => SessionPhase::StreamOpen,
        (SessionPhase::TokenIssued, SessionEvent::ChannelFailed) => SessionPhase::Failed(
            SessionError::Connect,
        ),
        (SessionPhase::StreamOpen, SessionEvent::StreamingStarted) => SessionPhase::Streaming,
        (SessionPhase::Streaming, SessionEvent::OutboundFinished) => SessionPhase::Closed,
        (SessionPhase::Streaming, SessionEvent::NoInputTimeout) => SessionPhase::Closed,
        (SessionPhase::Streaming, SessionEvent::RemoteClosed) => SessionPhase::Closed,
        (SessionPhase::Streaming, SessionEvent::TransportFailed) => SessionPhase::Failed(
            SessionError::Transport,
        ),
        (SessionPhase::Streaming, SessionEvent::SourceFailed) => SessionPhase::Failed(
            SessionError::SourceRead,
        ),
        (q, _) => q,
    }
}

/// The action for one event: a no-input timeout while streaming makes the
/// orchestrator cancel the outbound flow; every other event just follows the
/// transition.
pub open spec fn action_for(p: SessionPhase, ev: SessionEvent) -> OrchestratorAction {
    if p is Streaming && ev is NoInputTimeout {
        OrchestratorAction::CancelOutbound
    } else {
        OrchestratorAction::Proceed
    }
}

/// Ties the components together: one state machine the driving loop feeds
/// with events — token issued, session opened, flows running, either side
/// done — and which answers with the next phase and what to do. The driver
/// releases the transport on every path into `Closed` or `Failed`.
#[derive(Clone, Copy, Debug, PartialEq, Eq, Structural)]
pub struct SessionOrchestrator {
    pub phase: SessionPhase,
}

impl SessionOrchestrator {
    /// A fresh session, idle.
    pub fn new() -> (s: SessionOrchestrator)
        ensures
            s.phase is Idle,
    {
        SessionOrchestrator { phase: SessionPhase::Idle }
    }

    /// Absorbs one event, moving to the next phase and telling the driver
    /// what to do.
    pub fn on_event(&mut self, ev: SessionEvent) -> (a: OrchestratorAction)
        ensures
            final(self).phase == next_phase(old(self).phase, ev),
            a == action_for(old(self).phase, ev),
    {
        let next = match (self.phase, ev) {
            (SessionPhase::Idle, SessionEvent::TokenReady) => SessionPhase::TokenIssued,
            (SessionPhase::Idle, SessionEvent::TokenRejected) => SessionPhase::Failed(
                SessionError::Signing,
            ),
            (SessionPhase::TokenIssued, SessionEvent::ChannelOpened) => SessionPhase::StreamOpen,
            (SessionPhase::TokenIssued, SessionEvent::ChannelFailed) => SessionPhase::Failed(
                SessionError::Connect,
            ),
            (SessionPhase::StreamOpen, SessionEvent::StreamingStarted) => SessionPhase::Streaming,
            (SessionPhase::Streaming, SessionEvent::OutboundFinished) => SessionPhase::Closed,
            (SessionPhase::Streaming, SessionEvent::NoInputTimeout) => SessionPhase::Closed,
            (SessionPhase::Streaming, SessionEvent::RemoteClosed) => SessionPhase::Closed,
            (SessionPhase::Streaming, SessionEvent::TransportFailed) => SessionPhase::Failed(
                SessionError::Transport,
            ),
            (SessionPhase::Streaming, SessionEvent::SourceFailed) => SessionPhase::Failed(
                SessionError::SourceRead,
            ),
            (q, _) => q,
        };
        let cancel = match (self.phase, ev) {
            (SessionPhase::Streaming, SessionEvent::NoInputTimeout) => true,
            _ => false,
        };
        self.phase = next;
        if cancel {
            OrchestratorAction::CancelOutbound
        } else {
            OrchestratorAction::Proceed
        }
    }

    /// Whether the session is over, successfully or not — the point at which
    /// the driver must release the transport.
    pub fn is_terminal(&self) -> (b: bool)
        ensures
            b == (self.phase is Closed || self.phase is Failed),
    {
        match self.phase {
            SessionPhase::Closed => true,
            SessionPhase::Failed(_) => true,
            _ => false,
        }
    }
}

/// Law: a terminal phase absorbs every event — once the session is closed or
/// failed, no event revives it.
pub proof fn lemma_terminal_absorbs(p: SessionPhase, ev: SessionEvent)
    requires
        p is Closed || p is Failed,
    ensures
        next_phase(p, ev) == p,
{
}

} // verus!
