use retry_listener::handler::{ConnectionHandler, HandlerAction, HandlerEvent, HandlerState};
use retry_listener::server::default_response;

#[test]
fn empty_read_closes_without_write() {
    let mut h = ConnectionHandler::new(default_response());
    assert_eq!(h.state, HandlerState::Reading);
    let action = h.step(HandlerEvent::ReadEof);
    assert_eq!(action, HandlerAction::Release);
    assert_eq!(h.state, HandlerState::Closed);
    assert!(h.is_closed());
}

#[test]
fn read_error_closes_without_write() {
    let mut h = ConnectionHandler::new(default_response());
    let action = h.step(HandlerEvent::ReadFailed);
    assert_eq!(action, HandlerAction::Release);
    assert!(h.is_closed());
}

#[test]
fn nonempty_read_demands_one_full_response() {
    let mut h = ConnectionHandler::new(default_response());
    let action = h.step(HandlerEvent::ReadData(7));
    assert_eq!(action, HandlerAction::SendResponse);
    assert_eq!(h.state, HandlerState::Responding);
    assert_eq!(h.response(), "Whats up?\n");
}

#[test]
fn successful_write_loops_back_to_reading() {
    let mut h = ConnectionHandler::new(default_response());
    h.step(HandlerEvent::ReadData(3));
    let action = h.step(HandlerEvent::WriteOk);
    assert_eq!(action, HandlerAction::AwaitRead);
    assert_eq!(h.state, HandlerState::Reading);
}

#[test]
fn failed_write_closes() {
    let mut h = ConnectionHandler::new(default_response());
    h.step(HandlerEvent::ReadData(3));
    let action = h.step(HandlerEvent::WriteFailed);
    assert_eq!(action, HandlerAction::Release);
    assert!(h.is_closed());
}

#[test]
fn ping_then_close_scenario() {
    // a client sends "ping" (4 bytes), receives the full fixed message,
    // then closes; the handler releases the connection without error
    let mut h = ConnectionHandler::new(default_response());
    let a1 = h.step(HandlerEvent::ReadData(4));
    assert_eq!(a1, HandlerAction::SendResponse);
    assert_eq!(h.response(), "Whats up?\n");
    let a2 = h.step(HandlerEvent::WriteOk);
    assert_eq!(a2, HandlerAction::AwaitRead);
    let a3 = h.step(HandlerEvent::ReadEof);
    assert_eq!(a3, HandlerAction::Release);
    assert_eq!(h.state, HandlerState::Closed);
}

#[test]
fn response_survives_many_rounds_unchanged() {
    let mut h = ConnectionHandler::new(default_response());
    for _ in 0..5 {
        assert_eq!(h.step(HandlerEvent::ReadData(1)), HandlerAction::SendResponse);
        assert_eq!(h.response(), "Whats up?\n");
        assert_eq!(h.step(HandlerEvent::WriteOk), HandlerAction::AwaitRead);
    }
    assert_eq!(h.state, HandlerState::Reading);
}

#[test]
fn interleaved_handlers_do_not_interfere() {
    // a failure on one connection leaves the other mid-conversation, untouched
    let mut a = ConnectionHandler::new(default_response());
    let mut b = ConnectionHandler::new(default_response());
    a.step(HandlerEvent::ReadData(2));
    b.step(HandlerEvent::ReadData(9));
    a.step(HandlerEvent::WriteFailed);
    assert!(a.is_closed());
    assert_eq!(b.state, HandlerState::Responding);
    b.step(HandlerEvent::WriteOk);
    assert_eq!(b.state, HandlerState::Reading);
    assert!(a.is_closed());
}
