use better_socks::udp::{
    control_read_step, relay_socket_addr, ControlRead, RelayPollStep, Socks5UdpCodec,
    Socks5UdpMessage,
};
use better_socks::{Error, SocketAddr, TargetAddr};
use bytes::{Bytes, BytesMut};

const IPV6_LOCALHOST: [u8; 16] = [0, 0, 0, 0, 0, 0, 0, 0, 0, 0, 0, 0, 0, 0, 0, 1];

fn roundtrip(addr: TargetAddr<'static>, payload: &[u8]) -> Socks5UdpMessage {
    let mut codec = Socks5UdpCodec::new();
    let mut buf = BytesMut::new();
    codec
        .encode((Bytes::copy_from_slice(payload), addr), &mut buf)
        .expect("encode");
    codec.decode(&mut buf).expect("decode").expect("frame")
}

#[test]
fn roundtrip_ipv4() {
    let addr = TargetAddr::Ip(SocketAddr::V4 { ip: [1, 2, 3, 4], port: 9050 });
    let msg = roundtrip(addr.clone(), b"hello");
    assert_eq!(msg.atyp, 0x01);
    assert_eq!(msg.frag, 0);
    assert_eq!(msg.dst_addr, addr);
    assert_eq!(&msg.data[..], b"hello");
}

#[test]
fn roundtrip_ipv6() {
    let addr = TargetAddr::Ip(SocketAddr::V6 { ip: IPV6_LOCALHOST, port: 1080 });
    let msg = roundtrip(addr.clone(), b"v6");
    assert_eq!(msg.atyp, 0x04);
    assert_eq!(msg.dst_addr, addr);
    assert_eq!(&msg.data[..], b"v6");
}

#[test]
fn roundtrip_domain() {
    let addr = TargetAddr::Domain("example.com".into(), 80);
    let msg = roundtrip(addr.clone(), b"hi");
    assert_eq!(msg.atyp, 0x03);
    assert_eq!(msg.dst_addr, addr);
    assert_eq!(&msg.data[..], b"hi");
}

#[test]
fn empty_payload_is_valid() {
    let addr = TargetAddr::Ip(SocketAddr::V4 { ip: [8, 8, 8, 8], port: 53 });
    let msg = roundtrip(addr.clone(), b"");
    assert_eq!(msg.dst_addr, addr);
    assert!(msg.data.is_empty());
}

#[test]
fn short_domain_does_not_panic() {
    // A domain name shorter than the two port bytes must still decode.
    let addr = TargetAddr::Domain("ab".into(), 443);
    let msg = roundtrip(addr.clone(), b"x");
    assert_eq!(msg.dst_addr, addr);
}

#[test]
fn truncated_datagram_is_error() {
    let mut codec = Socks5UdpCodec::new();
    let mut buf = BytesMut::from(&b"\x00\x00\x00"[..]);
    assert!(codec.decode(&mut buf).is_err());

    let mut buf = BytesMut::from(&b"\x00\x00\x00\x01\x01\x02\x03\x04\x00"[..]);
    assert!(codec.decode(&mut buf).is_err());
}

#[test]
fn empty_buffer_is_incomplete() {
    let mut codec = Socks5UdpCodec::new();
    let mut buf = BytesMut::new();
    assert!(codec.decode(&mut buf).unwrap().is_none());
}

#[test]
fn nonzero_frag_is_error() {
    let mut codec = Socks5UdpCodec::new();
    let mut buf = BytesMut::new();
    buf.extend_from_slice(&[0, 0, 1, 1, 1, 2, 3, 4, 0, 53, b'x']);
    assert!(matches!(codec.decode(&mut buf), Err(Error::FragmentationNotSupported)));
}

#[test]
fn overlong_domain_encode_fails() {
    let mut codec = Socks5UdpCodec::new();
    let mut buf = BytesMut::new();
    let domain = "a".repeat(256);
    let addr = TargetAddr::Domain(domain.into(), 80);
    assert!(codec.encode((Bytes::new(), addr), &mut buf).is_err());
}

// Exact wire bytes of the encoder.

#[test]
fn encode_ipv4_exact_bytes() {
    let mut codec = Socks5UdpCodec::new();
    let mut buf = BytesMut::from(&b"stale bytes"[..]);
    let addr = TargetAddr::Ip(SocketAddr::V4 { ip: [1, 2, 3, 4], port: 9050 });
    codec.encode((Bytes::from_static(b"hi"), addr), &mut buf).unwrap();
    assert_eq!(&buf[..], &[0, 0, 0, 1, 1, 2, 3, 4, 0x23, 0x5a, b'h', b'i'][..]);
}

#[test]
fn encode_ipv6_exact_bytes() {
    let mut codec = Socks5UdpCodec::new();
    let mut buf = BytesMut::new();
    let addr = TargetAddr::Ip(SocketAddr::V6 { ip: IPV6_LOCALHOST, port: 1080 });
    codec.encode((Bytes::from_static(b"z"), addr), &mut buf).unwrap();
    let mut expected = vec![0u8, 0, 0, 4];
    expected.extend_from_slice(&IPV6_LOCALHOST);
    expected.extend_from_slice(&[0x04, 0x38, b'z']);
    assert_eq!(&buf[..], &expected[..]);
}

#[test]
fn encode_domain_exact_bytes() {
    let mut codec = Socks5UdpCodec::new();
    let mut buf = BytesMut::new();
    let addr = TargetAddr::Domain("ab".into(), 443);
    codec.encode((Bytes::from_static(b"x"), addr), &mut buf).unwrap();
    assert_eq!(&buf[..], &[0, 0, 0, 3, 2, b'a', b'b', 0x01, 0xbb, b'x'][..]);
}

#[test]
fn encode_non_ascii_domain_counts_utf8_bytes() {
    let mut codec = Socks5UdpCodec::new();
    let mut buf = BytesMut::new();
    let addr = TargetAddr::Domain("é".into(), 1);
    codec.encode((Bytes::new(), addr.clone()), &mut buf).unwrap();
    assert_eq!(&buf[..], &[0, 0, 0, 3, 2, 0xc3, 0xa9, 0, 1][..]);
    let msg = codec.decode(&mut buf).unwrap().unwrap();
    assert_eq!(msg.dst_addr, addr);
}

#[test]
fn domain_of_255_bytes_is_accepted() {
    let addr = TargetAddr::Domain("b".repeat(255).into(), 7);
    let msg = roundtrip(addr.clone(), b"p");
    assert_eq!(msg.dst_addr, addr);
}

#[test]
fn overlong_domain_leaves_buffer_unchanged() {
    let mut codec = Socks5UdpCodec::new();
    let mut buf = BytesMut::from(&b"kept"[..]);
    let addr = TargetAddr::Domain("a".repeat(256).into(), 80);
    let res = codec.encode((Bytes::new(), addr), &mut buf);
    assert!(matches!(res, Err(Error::InvalidTargetAddress("overlong domain"))));
    assert_eq!(&buf[..], b"kept");
}

// The decoder's errors, each on an input that gives it.

fn decode_err(bytes: &[u8]) -> (Error, BytesMut) {
    let mut codec = Socks5UdpCodec::new();
    let mut buf = BytesMut::from(bytes);
    let err = codec.decode(&mut buf).unwrap_err();
    (err, buf)
}

#[test]
fn short_header_is_error() {
    let (err, buf) = decode_err(b"\x00\x00\x00");
    assert!(matches!(err, Error::InvalidTargetAddress("UDP datagram shorter than SOCKS5 header")));
    assert_eq!(&buf[..], b"\x00\x00\x00");
}

#[test]
fn nonzero_reserved_byte_is_error() {
    let (err, _) = decode_err(&[0, 1, 0, 1, 1, 2, 3, 4, 0, 53]);
    assert!(matches!(err, Error::InvalidReservedByte));
    let (err, _) = decode_err(&[1, 0, 0, 1, 1, 2, 3, 4, 0, 53]);
    assert!(matches!(err, Error::InvalidReservedByte));
}

#[test]
fn unknown_address_type_is_error() {
    let (err, _) = decode_err(&[0, 0, 0, 2, 1, 2, 3, 4, 0, 53]);
    assert!(matches!(err, Error::UnknownAddressType));
}

#[test]
fn truncated_ipv4_message() {
    let (err, buf) = decode_err(&[0, 0, 0, 1, 1, 2, 3, 4, 0]);
    assert!(matches!(err, Error::InvalidTargetAddress("truncated IPv4 UDP datagram")));
    assert_eq!(buf.len(), 9);
}

#[test]
fn truncated_ipv6_message() {
    let (err, _) = decode_err(&[0, 0, 0, 4, 0, 0, 0, 0, 0, 0, 0, 0, 0, 0, 0, 0, 0, 0, 0, 1, 0]);
    assert!(matches!(err, Error::InvalidTargetAddress("truncated IPv6 UDP datagram")));
}

#[test]
fn truncated_domain_messages() {
    let (err, _) = decode_err(&[0, 0, 0, 3]);
    assert!(matches!(err, Error::InvalidTargetAddress("truncated domain UDP datagram")));
    let (err, _) = decode_err(&[0, 0, 0, 3, 3, b'a', b'b', b'c', 0]);
    assert!(matches!(err, Error::InvalidTargetAddress("truncated domain UDP datagram")));
}

#[test]
fn invalid_utf8_domain_is_error() {
    let (err, _) = decode_err(&[0, 0, 0, 3, 1, 0xff, 0, 80]);
    assert!(matches!(err, Error::InvalidTargetAddress("not a valid UTF-8 string")));
}

#[test]
fn decode_takes_whole_datagram() {
    let mut codec = Socks5UdpCodec::new();
    let mut buf = BytesMut::from(&[0u8, 0, 0, 1, 10, 0, 0, 1, 0x1f, 0x90, 9, 8, 7][..]);
    let msg = codec.decode(&mut buf).unwrap().unwrap();
    assert!(buf.is_empty());
    assert_eq!(msg.rsv, [0, 0]);
    assert_eq!(msg.dst_addr, TargetAddr::Ip(SocketAddr::V4 { ip: [10, 0, 0, 1], port: 8080 }));
    assert_eq!(&msg.data[..], &[9, 8, 7][..]);
}

#[test]
fn header_only_datagram_has_empty_payload() {
    let mut codec = Socks5UdpCodec::new();
    let mut buf = BytesMut::from(&[0u8, 0, 0, 3, 1, b'h', 0, 53][..]);
    let msg = codec.decode(&mut buf).unwrap().unwrap();
    assert_eq!(msg.dst_addr, TargetAddr::Domain("h".into(), 53));
    assert!(msg.data.is_empty());
}

#[test]
fn new_message_is_empty_to_unspecified_address() {
    let msg = Socks5UdpMessage::new();
    assert_eq!(msg.rsv, [0, 0]);
    assert_eq!(msg.frag, 0);
    assert_eq!(msg.atyp, 0);
    assert_eq!(msg.dst_addr, TargetAddr::Ip(SocketAddr::V4 { ip: [0, 0, 0, 0], port: 0 }));
    assert!(msg.data.is_empty());
    let msg = Socks5UdpMessage::default();
    assert!(msg.data.is_empty());
}

#[test]
fn relay_address_must_be_ip() {
    let ip = SocketAddr::V4 { ip: [127, 0, 0, 1], port: 1080 };
    assert_eq!(relay_socket_addr(TargetAddr::Ip(ip)).unwrap(), ip);
    let err = relay_socket_addr(TargetAddr::Domain("proxy.local".into(), 1080)).unwrap_err();
    assert!(matches!(
        err,
        Error::InvalidTargetAddress("UDP ASSOCIATE bind address must be an IP address")
    ));
}

#[test]
fn control_connection_steps() {
    assert_eq!(control_read_step(ControlRead::Failed), RelayPollStep::YieldError);
    assert_eq!(control_read_step(ControlRead::Filled(0)), RelayPollStep::End);
    assert_eq!(control_read_step(ControlRead::Filled(3)), RelayPollStep::Wait);
    assert_eq!(control_read_step(ControlRead::Pending), RelayPollStep::Wait);
}
