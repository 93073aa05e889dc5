//! The providers of client sockets and the servers of accepted sockets, plain
//! and over TLS, with the TLS configuration each one uses.

use core::marker::PhantomData;
use std::sync::Arc;

use vstd::prelude::*;

verus! {

/// The TLS configuration of a client, as rustls holds it.
#[verifier::external_type_specification]
#[verifier::external_body]
pub struct ExClientConfig(rustls::ClientConfig);

/// The TLS configuration of a server, as rustls holds it.
#[verifier::external_type_specification]
#[verifier::external_body]
pub struct ExServerConfig(rustls::ServerConfig);

/// Calls `rustls::ClientConfig::default`. The configuration it returns (rustls's
/// default cipher suites, no root certificates, no ALPN protocols, no client
/// authentication) is opaque here: nothing about it is stated.
#[verifier::external_body]
fn default_client_config() -> rustls::ClientConfig {
    rustls::ClientConfig::default()
}

/// Provides plain WebSocket client sockets over the native sockets `T`.
pub struct Provider<T>(PhantomData<T>);

impl<T> Provider<T> {
    /// The one value of a provider, which holds no state.
    pub closed spec fn stateless() -> Self {
        Provider(PhantomData)
    }

    /// The provider; it holds no state.
    pub fn new() -> (p: Self)
        ensures
            p == Self::stateless(),
    {
        Provider(PhantomData)
    }
}

/// Provides TLS WebSocket client sockets over the native sockets `T`, with a
/// client configuration.
pub struct TlsProvider<T>(Arc<rustls::ClientConfig>, PhantomData<T>);

impl<T> View for TlsProvider<T> {
    /// The configuration the provider connects with.
    type V = Arc<rustls::ClientConfig>;

    closed spec fn view(&self) -> Arc<rustls::ClientConfig> {
        self.0
    }
}

impl<T> TlsProvider<T> {
    /// A provider that connects with the given configuration.
    pub fn new(config: Arc<rustls::ClientConfig>) -> (p: Self)
        ensures
            p@ == config,
    {
        TlsProvider(config, PhantomData)
    }

    /// The configuration the provider connects with.
    pub fn config(&self) -> (c: &Arc<rustls::ClientConfig>)
        ensures
            *c == self@,
    {
        &self.0
    }
}

impl<T> Default for TlsProvider<T> {
    /// A provider that connects with rustls's default client configuration.
    fn default() -> Self {
        TlsProvider(Arc::new(default_client_config()), PhantomData)
    }
}

/// Serves plain WebSocket connections accepted by the native listener `T`.
pub struct Server<T>(PhantomData<T>);

impl<T> Server<T> {
    /// The one value of a server, which holds no state.
    pub closed spec fn stateless() -> Self {
        Server(PhantomData)
    }

    /// The server; it holds no state.
    pub fn new() -> (s: Self)
        ensures
            s == Self::stateless(),
    {
        Server(PhantomData)
    }
}

/// Serves TLS WebSocket connections accepted by the native listener `T`,
/// with a server configuration.
pub struct TlsServer<T>(Arc<rustls::ServerConfig>, PhantomData<T>);

impl<T> View for TlsServer<T> {
    /// The configuration the server accepts with.
    type V = Arc<rustls::ServerConfig>;

    closed spec fn view(&self) -> Arc<rustls::ServerConfig> {
        self.0
    }
}

impl<T> TlsServer<T> {
    /// A server that accepts with the given configuration.
    pub fn new(config: Arc<rustls::ServerConfig>) -> (s: Self)
        ensures
            s@ == config,
    {
        TlsServer(config, PhantomData)
    }

    /// The configuration the server accepts with.
    pub fn config(&self) -> (c: &Arc<rustls::ServerConfig>)
        ensures
            *c == self@,
    {
        &self.0
    }
}

} // verus!
