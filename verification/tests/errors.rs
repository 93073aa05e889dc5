use abstract_ws_tungstenite::{ConnectError, ListenError, WsError};

#[test]
fn ws_error_converts_to_connect_error_ws() {
    let e: ConnectError<std::io::Error> = ConnectError::from(WsError::ConnectionClosed);
    assert!(matches!(e, ConnectError::Ws(WsError::ConnectionClosed)));
}

#[test]
fn ws_error_converts_to_listen_error_ws() {
    let e: ListenError<std::io::Error> = ListenError::from(WsError::AlreadyClosed);
    assert!(matches!(e, ListenError::Ws(WsError::AlreadyClosed)));
}
