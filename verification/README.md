# abstract-ws-tungstenite

WebSocket client sockets, providers and servers over tungstenite, for native
sockets of async-std and smol, plain or over TLS (async-tls / rustls).

- `src/` is the verified library: the frames a socket reads and writes
  (`frame`), the default port of a WebSocket scheme and the address a
  connection goes to (`address`), the handshakes as state machines that hand
  out each layer to perform and turn each failure into the error of its layer
  (`handshake`), the error types (`error`), and the providers and servers with
  their TLS configuration (`provider`).
- `app/` is the asynchronous side: the native socket and listener traits and
  their async-std and smol backends, the tokio compatibility layer, the
  sockets' `Stream` and `Sink` impls, the loops that drive the handshakes,
  and the error types with `Display` and `std::error::Error`.
- `tests/` exercises the library on concrete values.
