//! WebSocket sockets, providers and servers over tungstenite: the verified core.
//!
//! The library models what the adapter decides: which frames reach the reader,
//! which frame carries what is written, the default port of a WebSocket scheme,
//! the address a connection goes to, and the order of the layers of a handshake
//! (transport, TLS, WebSocket upgrade) with the error that each failure becomes.

pub mod address;
pub mod error;
pub mod frame;
pub mod handshake;
pub mod provider;

pub use error::{ConnectError, ListenError, TlsConnectError, TlsListenError, WsError};
pub use provider::{Provider, Server, TlsProvider, TlsServer};
pub use rustls::{ClientConfig, ServerConfig};
