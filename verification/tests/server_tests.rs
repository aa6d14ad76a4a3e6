use retry_listener::server::{default_response, ErrorKind, Server, ServerError};

#[test]
fn new_stores_the_configuration() {
    let s = Server::new("127.0.0.1:8080".to_string(), 64, 5, 1);
    assert_eq!(s.address, "127.0.0.1:8080");
    assert_eq!(s.max_retries, 64);
    assert_eq!(s.max_delay, 5);
    assert_eq!(s.initial_delay, 1);
}

#[test]
fn bind_error_keeps_the_message() {
    let e = ServerError::new("Failed to bind after multiple attempts");
    assert_eq!(e.kind, ErrorKind::BindFatal);
    assert_eq!(e.message(), "Failed to bind after multiple attempts");
}

#[test]
fn errors_carry_their_kind() {
    let e = ServerError::with_kind(ErrorKind::AcceptFatal, "accept failed");
    assert_eq!(e.kind, ErrorKind::AcceptFatal);
    assert_eq!(e.message(), "accept failed");
    let e = ServerError::with_kind(ErrorKind::ConnectionIo, "read failed");
    assert_eq!(e.kind, ErrorKind::ConnectionIo);
}

#[test]
fn default_response_is_the_fixed_message() {
    assert_eq!(default_response(), "Whats up?\n");
    assert_eq!(default_response().as_bytes().len(), 10);
}
