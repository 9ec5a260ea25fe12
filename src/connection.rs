use vstd::prelude::*;

use crate::display::{encode_pixels, Display};

verus! {

/// Identity presented to the display service during the handshake.
#[derive(Clone, Debug, PartialEq, Eq)]
pub struct Authentication {
    pub username: String,
    pub token: String,
}

impl Authentication {
    pub fn new(username: &str, token: &str) -> (r: Authentication)
        ensures
            r.username@ == username@,
            r.token@ == token@,
    {
        Authentication { username: username.to_string(), token: token.to_string() }
    }
}

/// Where a connection stands in its life.
#[derive(Clone, Copy, Debug, PartialEq, Eq, Structural)]
pub enum ConnState {
    Unauthenticated,
    Authenticating,
    Authenticated,
    Closed,
}

/// Failures of connection operations.
#[derive(Clone, Copy, Debug, PartialEq, Eq, Structural)]
pub enum ConnectionError {
    /// The peer rejected the handshake, or answered it with nonsense.
    AuthError,
    /// The operation is not allowed in the connection's current state.
    StateError,
    /// The transport failed or is closed.
    TransportError,
}

/// What came back while awaiting the handshake's acknowledgment.
#[derive(Clone, Copy, Debug, PartialEq, Eq, Structural)]
pub enum HandshakeReply {
    Accepted,
    Rejected,
    Malformed,
    TransportFailed,
}

/// An input event sent by the device; carried through without interpretation.
#[derive(Clone, Copy, Debug, PartialEq, Eq, Structural)]
pub enum InputEvent {
    /// A tap at a pixel coordinate.
    Tap { x: usize, y: usize },
    /// A key going down or up.
    Key { code: u32, down: bool },
    /// A status notification of the device.
    Status { code: u32 },
}

/// The protocol state of one connection: its life stage and whether input
/// events were requested. The transport itself is driven by the caller, which
/// asks this value before each operation.
#[derive(Clone, Copy, Debug, PartialEq, Eq, Structural)]
pub struct Connection {
    pub state: ConnState,
    pub subscribed: bool,
}

/// Result of a frame send in state `s`, before any transport failure.
pub open spec fn send_outcome(s: ConnState) -> Result<(), ConnectionError> {
    match s {
        ConnState::Authenticated => Ok(()),
        ConnState::Closed => Err(ConnectionError::TransportError),
        _ => Err(ConnectionError::StateError),
    }
}

/// Result of an event-stream request in state `s`.
pub open spec fn subscribe_outcome(s: ConnState) -> Result<(), ConnectionError> {
    match s {
        ConnState::Authenticated => Ok(()),
        _ => Err(ConnectionError::StateError),
    }
}

/// State and result after the handshake reply `reply` arrives in state `s`.
pub open spec fn handshake_step(s: ConnState, reply: HandshakeReply) -> (ConnState, Result<(), ConnectionError>) {
    if s != ConnState::Authenticating {
        (s, Err(ConnectionError::StateError))
    } else {
        match reply {
            HandshakeReply::Accepted => (ConnState::Authenticated, Ok(())),
            HandshakeReply::TransportFailed => (ConnState::Closed, Err(ConnectionError::TransportError)),
            _ => (ConnState::Closed, Err(ConnectionError::AuthError)),
        }
    }
}

impl Connection {
    /// Subscription is only meaningful while authenticated.
    pub open spec fn wf(&self) -> bool {
        self.subscribed ==> self.state == ConnState::Authenticated
    }

    /// A connection on which nothing has happened yet.
    pub fn new() -> (r: Connection)
        ensures
            r.state == ConnState::Unauthenticated,
            !r.subscribed,
            r.wf(),
    {
        Connection { state: ConnState::Unauthenticated, subscribed: false }
    }

    /// The transport is open and the credentials are about to be sent.
    pub fn start_handshake(&mut self) -> (r: Result<(), ConnectionError>)
        requires
            old(self).wf(),
        ensures
            final(self).wf(),
            old(self).state == ConnState::Unauthenticated <==> r is Ok,
            r is Ok ==> final(self).state == ConnState::Authenticating && !final(self).subscribed,
            r matches Err(e) ==> e == ConnectionError::StateError && *final(self) == *old(self),
    {
        if self.state == ConnState::Unauthenticated {
            self.state = ConnState::Authenticating;
            Ok(())
        } else {
            Err(ConnectionError::StateError)
        }
    }

    /// The peer's answer to the handshake arrived.
    pub fn finish_handshake(&mut self, reply: HandshakeReply) -> (r: Result<(), ConnectionError>)
        requires
            old(self).wf(),
        ensures
            final(self).wf(),
            (final(self).state, r) == handshake_step(old(self).state, reply),
            final(self).subscribed == old(self).subscribed,
    {
        if self.state != ConnState::Authenticating {
            return Err(ConnectionError::StateError);
        }
        match reply {
            HandshakeReply::Accepted => {
                self.state = ConnState::Authenticated;
                Ok(())
            },
            HandshakeReply::TransportFailed => {
                self.state = ConnState::Closed;
                Err(ConnectionError::TransportError)
            },
            _ => {
                self.state = ConnState::Closed;
                Err(ConnectionError::AuthError)
            },
        }
    }

    /// Asks for input events. On success, says whether the subscription
    /// request still has to be sent: it is sent once, later calls do nothing.
    pub fn request_event_stream(&mut self) -> (r: Result<bool, ConnectionError>)
        requires
            old(self).wf(),
        ensures
            final(self).wf(),
            final(self).state == old(self).state,
            r is Ok <==> subscribe_outcome(old(self).state) is Ok,
            r matches Err(e) ==> subscribe_outcome(old(self).state) == Err::<(), ConnectionError>(e)
                && *final(self) == *old(self),
            r matches Ok(send) ==> send == !old(self).subscribed && final(self).subscribed,
    {
        if self.state != ConnState::Authenticated {
            return Err(ConnectionError::StateError);
        }
        let send = !self.subscribed;
        self.subscribed = true;
        Ok(send)
    }

    /// The payload to write for `frame`, if the connection may send now.
    pub fn send_frame<const ROWS: usize, const COLS: usize>(&self, frame: &Display<ROWS, COLS>) -> (r: Result<Vec<u8>, ConnectionError>)
        requires
            frame.wf(),
        ensures
            r is Ok <==> send_outcome(self.state) is Ok,
            r matches Ok(bytes) ==> bytes@ == encode_pixels(frame@),
            r matches Err(e) ==> send_outcome(self.state) == Err::<(), ConnectionError>(e),
    {
        match self.state {
            ConnState::Authenticated => Ok(frame.encode()),
            ConnState::Closed => Err(ConnectionError::TransportError),
            _ => Err(ConnectionError::StateError),
        }
    }

    /// Whether input events may still arrive; once closed, a receive ends.
    pub fn can_receive(&self) -> (r: bool)
        ensures
            r == (self.state != ConnState::Closed),
    {
        self.state != ConnState::Closed
    }

    /// The transport failed or was closed: every later operation fails.
    pub fn close(&mut self)
        ensures
            final(self).state == ConnState::Closed,
            !final(self).subscribed,
            final(self).wf(),
    {
        self.state = ConnState::Closed;
        self.subscribed = false;
    }
}

/// Before the handshake has succeeded, neither a frame nor an event
/// subscription can go out: both fail with a state error.
pub proof fn lemma_handshake_gating(s: ConnState)
    requires
        s == ConnState::Unauthenticated || s == ConnState::Authenticating,
    ensures
        send_outcome(s) == Err::<(), ConnectionError>(ConnectionError::StateError),
        subscribe_outcome(s) == Err::<(), ConnectionError>(ConnectionError::StateError),
{
}

} // verus!
