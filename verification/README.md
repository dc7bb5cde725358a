# better-socks

Asynchronous SOCKS5 client for Tokio: CONNECT, BIND and UDP ASSOCIATE
(RFC 1928) with username/password authentication (RFC 1929, cleartext).

The protocol is written in Verus and verified:

- `src/wire.rs` — the address encoding (ATYP, DST.ADDR, DST.PORT) shared by
  requests, replies and UDP datagrams, and the proof that it reads back what
  it writes.
- `src/udp.rs` — the UDP relay datagram codec (`Socks5UdpCodec`), its
  round-trip laws, and the decisions of the relay stream.
- `src/tcp.rs` — the handshake messages and the checks of the proxy's
  replies, and `Socks5Stream`.
- `src/buffer.rs` — the contracts of the `bytes` buffers that the codec uses.
- `src/error.rs` — the error type.

`app/` holds what does I/O: resolving and connecting to the proxy, driving
the handshake over a socket, and `Socks5UdpFramed`, the stream and sink of
datagrams over a UDP socket with the `tokio_util` codec traits.
