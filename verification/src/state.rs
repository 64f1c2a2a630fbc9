//! The life of a session, as a state machine.
//!
//! A session starts `Connecting` and is `Open` once the far end has announced
//! it. Sending an update makes it `Updating` until the far end confirms the
//! update; after that, and whenever audio is sent, it is `Streaming`. When
//! the last sender is gone it is `Closing`, and a close from either side or a
//! failure of the connection makes it `Closed`, which it stays.

use crate::event::{
    InputEvent, InputEventKind, InputEventKindModel, ReceivedEvent, ReceivedEventKind,
    ReceivedKindModel, SessionEvent, SessionEventModel,
};
use vstd::prelude::*;

verus! {

/// Where a session stands.
#[derive(Debug, Clone, Copy, PartialEq, Eq, Structural)]
pub enum SessionState {
    /// The connection is up; the far end has not announced the session yet.
    Connecting,
    /// The session is announced and nothing is in flight.
    Open,
    /// An update was sent and is not confirmed yet.
    Updating,
    /// Audio flows, under a configuration that the far end has confirmed.
    Streaming,
    /// No sender is left; what is queued is still sent.
    Closing,
    /// The connection is gone. Nothing is sent or received any more.
    Closed,
}

/// Why an event may not be sent now.
#[derive(Debug, Clone, Copy, PartialEq, Eq, Structural)]
pub enum NotAllowed {
    /// The far end has not announced the session yet.
    NotOpen,
    /// An update is in flight; its confirmation has to come first.
    UpdatePending,
    /// The session is closing or closed.
    Ended,
}

/// What a session can be told, apart from the events themselves.
#[derive(Debug, Clone, Copy, PartialEq, Eq, Structural)]
pub enum Signal {
    /// The last sender of input events is gone.
    SenderClosed,
    /// Either side has closed the connection.
    Closed,
    /// The connection has failed.
    TransportError,
}

impl SessionState {
    /// The state after an event has come in. `SessionCreated` opens a
    /// connecting session and `SessionUpdated` ends an update; everything else
    /// leaves the state as it is.
    pub open spec fn after_received(self, event: ReceivedKindModel) -> SessionState {
        match (self, event) {
            (
                SessionState::Connecting,
                ReceivedKindModel::Session(SessionEventModel::SessionCreated { .. }),
            ) => SessionState::Open,
            (
                SessionState::Updating,
                ReceivedKindModel::Session(SessionEventModel::SessionUpdated { .. }),
            ) => SessionState::Streaming,
            _ => self,
        }
    }

    /// The state after an event has been sent, or the reason why it may not
    /// be sent. Events go out only while the session is `Open` or `Streaming`.
    pub open spec fn after_sent(self, event: InputEventKindModel) -> Result<SessionState, NotAllowed> {
        match self {
            SessionState::Connecting => Err(NotAllowed::NotOpen),
            SessionState::Updating => Err(NotAllowed::UpdatePending),
            SessionState::Closing | SessionState::Closed => Err(NotAllowed::Ended),
            SessionState::Open | SessionState::Streaming => match event {
                InputEventKindModel::UpdateSession { .. } => Ok(SessionState::Updating),
                _ => Ok(SessionState::Streaming),
            },
        }
    }

    /// The state after a signal. A close and a failure end the session from
    /// any state; the loss of the senders starts the closing of a session
    /// that has not ended.
    pub open spec fn after_signal(self, signal: Signal) -> SessionState {
        match signal {
            Signal::Closed | Signal::TransportError => SessionState::Closed,
            Signal::SenderClosed => match self {
                SessionState::Closed => SessionState::Closed,
                _ => SessionState::Closing,
            },
        }
    }

    /// The state of a session whose connection has just come up.
    pub fn new() -> (r: Self)
        ensures
            r == SessionState::Connecting,
    {
        SessionState::Connecting
    }

    /// Whether the connection is gone.
    pub fn is_closed(&self) -> (r: bool)
        ensures
            r == (*self == SessionState::Closed),
    {
        match self {
            SessionState::Closed => true,
            _ => false,
        }
    }

    /// Whether input events may be sent.
    pub fn may_send(&self) -> (r: bool)
        ensures
            r == (*self == SessionState::Open || *self == SessionState::Streaming),
    {
        match self {
            SessionState::Open | SessionState::Streaming => true,
            _ => false,
        }
    }

    /// Takes note of an event that has come in.
    pub fn on_received(self, event: &ReceivedEvent) -> (r: SessionState)
        ensures
            r == self.after_received(event@.data),
    {
        match (self, event.kind()) {
            (
                SessionState::Connecting,
                ReceivedEventKind::Session(SessionEvent::SessionCreated { .. }),
            ) => SessionState::Open,
            (
                SessionState::Updating,
                ReceivedEventKind::Session(SessionEvent::SessionUpdated { .. }),
            ) => SessionState::Streaming,
            _ => self,
        }
    }

    /// Decides whether an event may be sent now and, if so, what the state is
    /// once it is sent.
    pub fn on_send(self, event: &InputEvent) -> (r: Result<SessionState, NotAllowed>)
        ensures
            r == self.after_sent(event@.data),
    {
        match self {
            SessionState::Connecting => Err(NotAllowed::NotOpen),
            SessionState::Updating => Err(NotAllowed::UpdatePending),
            SessionState::Closing | SessionState::Closed => Err(NotAllowed::Ended),
            SessionState::Open | SessionState::Streaming => match event.kind() {
                InputEventKind::UpdateSession { .. } => Ok(SessionState::Updating),
                _ => Ok(SessionState::Streaming),
            },
        }
    }

    /// Takes note of a signal.
    pub fn on_signal(self, signal: Signal) -> (r: SessionState)
        ensures
            r == self.after_signal(signal),
    {
        match signal {
            Signal::Closed | Signal::TransportError => SessionState::Closed,
            Signal::SenderClosed => match self {
                SessionState::Closed => SessionState::Closed,
                _ => SessionState::Closing,
            },
        }
    }
}

/// `Closed` is final: no event that comes in and no signal leads out of it,
/// and nothing may be sent from it.
pub proof fn lemma_closed_is_final(
    received: ReceivedKindModel,
    sent: InputEventKindModel,
    signal: Signal,
)
    ensures
        SessionState::Closed.after_received(received) == SessionState::Closed,
        SessionState::Closed.after_signal(signal) == SessionState::Closed,
        SessionState::Closed.after_sent(sent) is Err,
{
}

/// A close and a failure of the connection end the session from any state.
pub proof fn lemma_close_ends_any_state(state: SessionState)
    ensures
        state.after_signal(Signal::Closed) == SessionState::Closed,
        state.after_signal(Signal::TransportError) == SessionState::Closed,
{
}

/// Audio is taken only by a session that is `Open` or `Streaming`, and an
/// update sent from there stays pending until `SessionUpdated` comes in.
pub proof fn lemma_update_waits_for_confirmation(
    state: SessionState,
    session: crate::session::SessionModel,
    confirmed: crate::session::SessionModel,
    audio: Seq<char>,
)
    requires
        state == SessionState::Open || state == SessionState::Streaming,
    ensures
        state.after_sent(InputEventKindModel::UpdateSession { session }) == Ok::<
            SessionState,
            NotAllowed,
        >(SessionState::Updating),
        SessionState::Updating.after_sent(InputEventKindModel::AppendAudioInput { audio }) is Err,
        SessionState::Updating.after_received(
            ReceivedKindModel::Session(SessionEventModel::SessionUpdated { session: confirmed }),
        ) == SessionState::Streaming,
{
}

} // verus!
