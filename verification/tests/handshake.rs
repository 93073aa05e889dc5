use std::io;

use abstract_ws_tungstenite::handshake::{
    ClientHandshake, Event, Step, ServerHandshake, TlsClientHandshake, TlsServerHandshake,
};
use abstract_ws_tungstenite::{ConnectError, ListenError, TlsConnectError, TlsListenError, WsError};

fn io_error(msg: &str) -> io::Error {
    io::Error::new(io::ErrorKind::Other, msg.to_string())
}

#[test]
fn client_opens_after_transport_and_upgrade() {
    let mut h = ClientHandshake::new();
    assert!(matches!(h.step::<u8>(Event::Begin), Step::OpenTransport));
    assert!(matches!(h.step::<u8>(Event::Transport(Ok(()))), Step::Upgrade));
    assert!(matches!(h.step::<u8>(Event::Upgrade(Ok(()))), Step::Open));
}

#[test]
fn client_transport_failure_is_a_connect_error() {
    let mut h = ClientHandshake::new();
    assert!(matches!(h.step::<u8>(Event::Begin), Step::OpenTransport));
    assert!(matches!(h.step::<u8>(Event::Transport(Err(7))), Step::Fail(ConnectError::Connect(7))));
}

#[test]
fn client_upgrade_failure_is_a_ws_error() {
    let mut h = ClientHandshake::new();
    h.step::<u8>(Event::Begin);
    h.step::<u8>(Event::Transport(Ok(())));
    let s = h.step::<u8>(Event::Upgrade(Err(WsError::ConnectionClosed)));
    assert!(matches!(s, Step::Fail(ConnectError::Ws(WsError::ConnectionClosed))));
}

#[test]
fn tls_client_without_domain_fails_before_connecting() {
    let mut h = TlsClientHandshake::new(None);
    assert!(matches!(h.step::<u8>(Event::Begin), Step::Fail(TlsConnectError::NoDomain)));
}

#[test]
fn tls_client_opens_after_transport_tls_and_upgrade() {
    let mut h = TlsClientHandshake::new(Some("example.com".to_string()));
    assert!(matches!(h.step::<u8>(Event::Begin), Step::OpenTransport));
    let s = h.step::<u8>(Event::Transport(Ok(())));
    assert!(matches!(s, Step::StartTls(Some(ref d)) if d == "example.com"));
    assert!(matches!(h.step::<u8>(Event::Tls(Ok(()))), Step::Upgrade));
    assert!(matches!(h.step::<u8>(Event::Upgrade(Ok(()))), Step::Open));
}

#[test]
fn tls_client_transport_failure_is_wrapped_twice() {
    let mut h = TlsClientHandshake::new(Some("a.b".to_string()));
    h.step::<u8>(Event::Begin);
    let s = h.step::<u8>(Event::Transport(Err(3)));
    assert!(matches!(s, Step::Fail(TlsConnectError::Connect(ConnectError::Connect(3)))));
}

#[test]
fn tls_client_tls_failure_is_a_tls_error() {
    let mut h = TlsClientHandshake::new(Some("a.b".to_string()));
    h.step::<u8>(Event::Begin);
    h.step::<u8>(Event::Transport(Ok(())));
    let s = h.step::<u8>(Event::Tls(Err(io_error("handshake failed"))));
    match s {
        Step::Fail(TlsConnectError::Tls(e)) => assert_eq!(e.to_string(), "handshake failed"),
        _ => panic!("expected a TLS error"),
    }
}

#[test]
fn tls_client_upgrade_failure_is_a_ws_connect_error() {
    let mut h = TlsClientHandshake::new(Some("a.b".to_string()));
    h.step::<u8>(Event::Begin);
    h.step::<u8>(Event::Transport(Ok(())));
    h.step::<u8>(Event::Tls(Ok(())));
    let s = h.step::<u8>(Event::Upgrade(Err(WsError::Utf8)));
    assert!(matches!(s, Step::Fail(TlsConnectError::Connect(ConnectError::Ws(WsError::Utf8)))));
}

#[test]
fn server_opens_after_accept_and_upgrade() {
    let mut h = ServerHandshake::new();
    assert!(matches!(h.step::<u8>(Event::Transport(Ok(()))), Step::Upgrade));
    assert!(matches!(h.step::<u8>(Event::Upgrade(Ok(()))), Step::Open));
}

#[test]
fn server_accept_failure_is_a_listen_error() {
    let mut h = ServerHandshake::new();
    assert!(matches!(h.step::<u8>(Event::Transport(Err(5))), Step::Fail(ListenError::Listen(5))));
}

#[test]
fn server_upgrade_failure_is_a_ws_error() {
    let mut h = ServerHandshake::new();
    h.step::<u8>(Event::Transport(Ok(())));
    let s = h.step::<u8>(Event::Upgrade(Err(WsError::AttackAttempt)));
    assert!(matches!(s, Step::Fail(ListenError::Ws(WsError::AttackAttempt))));
}

#[test]
fn tls_server_opens_after_accept_tls_and_upgrade() {
    let mut h = TlsServerHandshake::new();
    assert!(matches!(h.step::<u8>(Event::Transport(Ok(()))), Step::StartTls(None)));
    assert!(matches!(h.step::<u8>(Event::Tls(Ok(()))), Step::Upgrade));
    assert!(matches!(h.step::<u8>(Event::Upgrade(Ok(()))), Step::Open));
}

#[test]
fn tls_server_failures_name_their_layer() {
    let mut h = TlsServerHandshake::new();
    let s = h.step::<u8>(Event::Transport(Err(1)));
    assert!(matches!(s, Step::Fail(TlsListenError::Listen(ListenError::Listen(1)))));

    let mut h = TlsServerHandshake::new();
    h.step::<u8>(Event::Transport(Ok(())));
    let s = h.step::<u8>(Event::Tls(Err(io_error("bad certificate"))));
    assert!(matches!(s, Step::Fail(TlsListenError::Tls(_))));

    let mut h = TlsServerHandshake::new();
    h.step::<u8>(Event::Transport(Ok(())));
    h.step::<u8>(Event::Tls(Ok(())));
    let s = h.step::<u8>(Event::Upgrade(Err(WsError::ConnectionClosed)));
    assert!(matches!(s, Step::Fail(TlsListenError::Listen(ListenError::Ws(WsError::ConnectionClosed)))));
}
