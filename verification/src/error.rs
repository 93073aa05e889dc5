//! The errors of connecting and of accepting connections.

use vstd::prelude::*;

pub use tungstenite::error::Error as WsError;

verus! {

/// The WebSocket protocol error of tungstenite, carried through unchanged.
#[verifier::external_type_specification]
#[verifier::external_body]
pub struct ExWsError(tungstenite::error::Error);

/// The I/O error of a TLS handshake, carried through unchanged.
#[verifier::external_type_specification]
#[verifier::external_body]
pub struct ExIoError(std::io::Error);

/// Failure of a client connection: the WebSocket upgrade failed, or the
/// transport could not be connected.
#[derive(Debug)]
pub enum ConnectError<T> {
    Ws(WsError),
    Connect(T),
}

/// Failure of a TLS client connection.
#[derive(Debug)]
pub enum TlsConnectError<T> {
    /// The URL names no domain to authenticate the server against.
    NoDomain,
    Connect(ConnectError<T>),
    Tls(std::io::Error),
}

/// Failure of accepting a connection: the WebSocket upgrade failed, or the
/// listener reported an error.
#[derive(Debug)]
pub enum ListenError<T> {
    Ws(WsError),
    Listen(T),
}

/// Failure of accepting a TLS connection.
#[derive(Debug)]
pub enum TlsListenError<T> {
    Listen(ListenError<T>),
    Tls(std::io::Error),
}

impl<T> From<WsError> for ConnectError<T> {
    fn from(item: WsError) -> Self {
        ConnectError::Ws(item)
    }
}

impl<T> vstd::std_specs::convert::FromSpecImpl<WsError> for ConnectError<T> {
    open spec fn obeys_from_spec() -> bool {
        true
    }

    open spec fn from_spec(item: WsError) -> Self {
        ConnectError::Ws(item)
    }
}

impl<T> From<WsError> for ListenError<T> {
    fn from(item: WsError) -> Self {
        ListenError::Ws(item)
    }
}

impl<T> vstd::std_specs::convert::FromSpecImpl<WsError> for ListenError<T> {
    open spec fn obeys_from_spec() -> bool {
        true
    }

    open spec fn from_spec(item: WsError) -> Self {
        ListenError::Ws(item)
    }
}

} // verus!
