use std::sync::Arc;

use abstract_ws_tungstenite::{ClientConfig, Provider, Server, ServerConfig, TlsProvider, TlsServer};

#[test]
fn tls_provider_keeps_its_configuration() {
    let config = Arc::new(ClientConfig::new());
    let provider: TlsProvider<u8> = TlsProvider::new(config.clone());
    assert!(Arc::ptr_eq(provider.config(), &config));
}

#[test]
fn default_tls_provider_has_a_fresh_configuration() {
    let a: TlsProvider<u8> = TlsProvider::default();
    let b: TlsProvider<u8> = TlsProvider::default();
    assert!(!Arc::ptr_eq(a.config(), b.config()));
    assert!(a.config().alpn_protocols.is_empty());
}

#[test]
fn tls_server_keeps_its_configuration() {
    let config = Arc::new(ServerConfig::new(rustls::NoClientAuth::new()));
    let server: TlsServer<u8> = TlsServer::new(config.clone());
    assert!(Arc::ptr_eq(server.config(), &config));
}

#[test]
fn plain_provider_and_server_are_made() {
    let _p: Provider<u8> = Provider::new();
    let _s: Server<u8> = Server::new();
}
