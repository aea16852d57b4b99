use redis_to_websocket::websocket::{acceptor_step, AcceptorAction, AcceptorEvent, WebSocketHandler};

#[test]
fn addr_joins_host_and_port() {
    let h = WebSocketHandler::new("localhost", 8888);
    assert_eq!(h.addr(), "localhost:8888");
}

#[test]
fn addr_renders_port_zero() {
    let h = WebSocketHandler::new("0.0.0.0", 0);
    assert_eq!(h.addr(), "0.0.0.0:0");
}

#[test]
fn addr_renders_a_negative_port_with_its_sign() {
    let h = WebSocketHandler::new("h", -1);
    assert_eq!(h.addr(), "h:-1");
    let h = WebSocketHandler::new("h", i32::MIN);
    assert_eq!(h.addr(), "h:-2147483648");
    let h = WebSocketHandler::new("h", i32::MAX);
    assert_eq!(h.addr(), "h:2147483647");
}

#[test]
fn bind_failure_ends_only_the_acceptor_task() {
    assert_eq!(acceptor_step(&AcceptorEvent::BindFailed), AcceptorAction::Exit);
}

#[test]
fn handshake_failure_keeps_accepting() {
    assert_eq!(acceptor_step(&AcceptorEvent::HandshakeFailed), AcceptorAction::Continue);
}

#[test]
fn accepted_connection_is_inserted() {
    assert_eq!(acceptor_step(&AcceptorEvent::Accepted), AcceptorAction::Insert);
}
