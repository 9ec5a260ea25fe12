use lighthouse_client::{
    Action, Authentication, Color, ConnState, Connection, ConnectionError, Display, Event, HandOff,
    HandshakeReply, InputEvent, Multiplexer, Source,
};

fn authenticated() -> Connection {
    let mut c = Connection::new();
    c.start_handshake().unwrap();
    c.finish_handshake(HandshakeReply::Accepted).unwrap();
    c
}

#[test]
fn credentials_are_kept() {
    let a = Authentication::new("alice", "SECRET-REDACTED");
    assert_eq!(a.username, "alice");
    assert_eq!(a.token, "SECRET-REDACTED");
}

#[test]
fn send_and_subscribe_need_handshake() {
    let frame = Display::<2, 2>::fill(Color::new(1, 1, 1));
    let mut c = Connection::new();
    assert_eq!(c.send_frame(&frame).err(), Some(ConnectionError::StateError));
    assert_eq!(c.request_event_stream(), Err(ConnectionError::StateError));
    c.start_handshake().unwrap();
    assert_eq!(c.state, ConnState::Authenticating);
    assert_eq!(c.send_frame(&frame).err(), Some(ConnectionError::StateError));
    assert_eq!(c.request_event_stream(), Err(ConnectionError::StateError));
}

#[test]
fn accepted_handshake_allows_sending() {
    let frame = Display::<2, 2>::fill(Color::new(255, 0, 0));
    let c = authenticated();
    assert_eq!(c.state, ConnState::Authenticated);
    assert_eq!(c.send_frame(&frame).unwrap(), frame.encode());
}

#[test]
fn rejected_handshake_closes() {
    let mut c = Connection::new();
    c.start_handshake().unwrap();
    assert_eq!(c.finish_handshake(HandshakeReply::Rejected), Err(ConnectionError::AuthError));
    assert_eq!(c.state, ConnState::Closed);
    let mut c = Connection::new();
    c.start_handshake().unwrap();
    assert_eq!(c.finish_handshake(HandshakeReply::Malformed), Err(ConnectionError::AuthError));
    assert_eq!(c.state, ConnState::Closed);
}

#[test]
fn transport_failure_in_handshake_closes() {
    let mut c = Connection::new();
    c.start_handshake().unwrap();
    assert_eq!(c.finish_handshake(HandshakeReply::TransportFailed), Err(ConnectionError::TransportError));
    assert_eq!(c.state, ConnState::Closed);
    assert!(!c.can_receive());
}

#[test]
fn handshake_out_of_order_is_a_state_error() {
    let mut c = Connection::new();
    assert_eq!(c.finish_handshake(HandshakeReply::Accepted), Err(ConnectionError::StateError));
    assert_eq!(c.state, ConnState::Unauthenticated);
    let mut c = authenticated();
    assert_eq!(c.start_handshake(), Err(ConnectionError::StateError));
}

#[test]
fn subscription_is_idempotent() {
    let mut c = authenticated();
    assert_eq!(c.request_event_stream(), Ok(true));
    assert!(c.subscribed);
    assert_eq!(c.request_event_stream(), Ok(false));
}

#[test]
fn closed_connection_refuses_work() {
    let frame = Display::<2, 2>::fill(Color::new(0, 0, 0));
    let mut c = authenticated();
    c.request_event_stream().unwrap();
    c.close();
    assert_eq!(c.send_frame(&frame).err(), Some(ConnectionError::TransportError));
    assert_eq!(c.request_event_stream(), Err(ConnectionError::StateError));
    assert!(!c.subscribed);
    assert!(!c.can_receive());
}

#[test]
fn remote_event_is_not_starved() {
    let mut m = Multiplexer::new();
    let mut remote_pending = true;
    let mut delivered_at = None;
    for step in 0..10 {
        let picked = m.pick(true, remote_pending);
        if picked == Some(Source::Remote) {
            remote_pending = false;
            delivered_at = Some(step);
        }
    }
    assert!(delivered_at.unwrap() <= 1);
}

#[test]
fn sources_alternate_when_both_ready() {
    let mut m = Multiplexer::new();
    assert_eq!(m.pick(true, true), Some(Source::Local));
    assert_eq!(m.pick(true, true), Some(Source::Remote));
    assert_eq!(m.pick(true, true), Some(Source::Local));
    assert_eq!(m.pick(false, true), Some(Source::Remote));
    assert_eq!(m.pick(true, false), Some(Source::Local));
    assert_eq!(m.pick(false, false), None);
}

#[test]
fn events_are_dispatched() {
    let mut m = Multiplexer::new();
    let tap = InputEvent::Tap { x: 3, y: 4 };
    assert_eq!(m.handle::<u8, InputEvent>(Event::Frame(7)), Action::Transmit(7));
    assert_eq!(m.handle::<u8, InputEvent>(Event::Input(tap)), Action::Deliver(tap));
    assert_eq!(m.handle::<u8, InputEvent>(Event::SendFailed), Action::Fail(ConnectionError::TransportError));
    assert!(m.stopped);
    assert_eq!(m.handle::<u8, InputEvent>(Event::Frame(8)), Action::Shutdown);
}

#[test]
fn end_of_either_source_stops() {
    let mut m = Multiplexer::new();
    assert_eq!(m.handle::<u8, InputEvent>(Event::LocalEnded), Action::Shutdown);
    assert!(m.stopped);
    let mut m = Multiplexer::new();
    assert_eq!(m.handle::<u8, InputEvent>(Event::RemoteClosed), Action::Shutdown);
    assert!(m.stopped);
}

#[test]
fn hand_off_keeps_order_and_pushes_back() {
    let mut q: HandOff<u32> = HandOff::new();
    assert!(!q.is_full());
    assert_eq!(q.offer(1), Ok(()));
    assert_eq!(q.offer(2), Err(2));
    assert!(q.is_full());
    assert_eq!(q.take(), Some(1));
    assert_eq!(q.offer(2), Ok(()));
    assert_eq!(q.take(), Some(2));
    assert_eq!(q.take(), None);
}
