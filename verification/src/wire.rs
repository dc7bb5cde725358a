//! The SOCKS5 address encoding (RFC 1928, section 5), shared by requests,
//! replies and UDP datagrams: ATYP, then DST.ADDR and DST.PORT.
//!
//! ```text
//! +------+----------+----------+
//! | ATYP | DST.ADDR | DST.PORT |
//! +------+----------+----------+
//! |  1   | Variable |    2     |
//! +------+----------+----------+
//! ```
use crate::{Error, SocketAddr, TargetAddr, TargetAddrView};
use std::borrow::Cow;
use std::string::FromUtf8Error;
use vstd::prelude::*;
use vstd::slice::slice_to_vec;
use vstd::utf8::*;

verus! {

/// The error of std's `String::from_utf8`, carried through unchanged.
#[verifier::external_type_specification]
#[verifier::external_body]
pub struct ExFromUtf8Error(FromUtf8Error);

/// `String::from_utf8` succeeds exactly on valid UTF-8, as std documents,
/// and then gives the string that those bytes encode.
pub assume_specification[ String::from_utf8 ](vec: Vec<u8>) -> (res: std::result::Result<String, FromUtf8Error>)
    ensures
        res is Ok <==> valid_utf8(vec@),
        res matches Ok(s) ==> s@ == decode_utf8(vec@),
;

/// The port whose big-endian bytes are `hi` and `lo`.
pub open spec fn be_u16(hi: u8, lo: u8) -> u16 {
    (hi * 256 + lo) as u16
}

/// The two big-endian bytes of a port.
pub open spec fn u16_be(n: u16) -> Seq<u8> {
    seq![(n / 256) as u8, (n % 256) as u8]
}

/// The ATYP byte of an address: 1 for IPv4, 3 for a domain name, 4 for IPv6.
pub open spec fn atyp_of(addr: TargetAddrView) -> u8 {
    match addr {
        TargetAddrView::V4(_, _) => 1,
        TargetAddrView::V6(_, _) => 4,
        TargetAddrView::Domain(_, _) => 3,
    }
}

/// DST.ADDR and DST.PORT: the octets of an IP address, or a domain name's
/// length byte and UTF-8 bytes; then the port, big-endian.
pub open spec fn addr_port_bytes(addr: TargetAddrView) -> Seq<u8> {
    match addr {
        TargetAddrView::V4(ip, port) => ip + u16_be(port),
        TargetAddrView::V6(ip, port) => ip + u16_be(port),
        TargetAddrView::Domain(name, port) => seq![encode_utf8(name).len() as u8] + encode_utf8(
            name,
        ) + u16_be(port),
    }
}

/// An address can be encoded: a domain name takes at most 255 bytes of
/// UTF-8, the most its length byte can count.
pub open spec fn encodable(addr: TargetAddrView) -> bool {
    match addr {
        TargetAddrView::Domain(name, _) => encode_utf8(name).len() <= 255,
        _ => true,
    }
}

/// The address whose ATYP is byte 3 of a message of at least 4 bytes, with
/// the length of the message up to the end of its port; or why there is
/// none.
pub open spec fn decode_addr(buf: Seq<u8>) -> Result<(TargetAddrView, int), Error> {
    let atyp = buf[3];
    if atyp == 1 {
        if buf.len() < 10 {
            Err(Error::InvalidTargetAddress("truncated IPv4 UDP datagram"))
        } else {
            Ok((TargetAddrView::V4(buf.subrange(4, 8), be_u16(buf[8], buf[9])), 10))
        }
    } else if atyp == 4 {
        if buf.len() < 22 {
            Err(Error::InvalidTargetAddress("truncated IPv6 UDP datagram"))
        } else {
            Ok((TargetAddrView::V6(buf.subrange(4, 20), be_u16(buf[20], buf[21])), 22))
        }
    } else if atyp == 3 {
        if buf.len() < 5 {
            Err(Error::InvalidTargetAddress("truncated domain UDP datagram"))
        } else {
            let n = buf[4] as int;
            if buf.len() < 7 + n {
                Err(Error::InvalidTargetAddress("truncated domain UDP datagram"))
            } else if !valid_utf8(buf.subrange(5, 5 + n)) {
                Err(Error::InvalidTargetAddress("not a valid UTF-8 string"))
            } else {
                Ok(
                    (
                        TargetAddrView::Domain(
                            decode_utf8(buf.subrange(5, 5 + n)),
                            be_u16(buf[5 + n], buf[6 + n]),
                        ),
                        7 + n,
                    ),
                )
            }
        }
    } else {
        Err(Error::UnknownAddressType)
    }
}

/// A port survives its two big-endian bytes.
pub proof fn lemma_port_bytes_roundtrip(port: u16)
    ensures
        u16_be(port).len() == 2,
        be_u16(u16_be(port)[0], u16_be(port)[1]) == port,
{
}

/// Two bytes survive the port they encode.
pub proof fn lemma_port_value_roundtrip(hi: u8, lo: u8)
    ensures
        u16_be(be_u16(hi, lo)) == seq![hi, lo],
{
    assert(u16_be(be_u16(hi, lo)) =~= seq![hi, lo]);
}

/// An encoded address reads back as itself, whatever the three bytes before
/// its ATYP and whatever follows its port: the address encoding is
/// self-delimiting and loses nothing.
pub proof fn lemma_addr_roundtrip(head: Seq<u8>, addr: TargetAddrView, rest: Seq<u8>)
    requires
        head.len() == 3,
        addr.wf(),
        encodable(addr),
    ensures
        decode_addr(head + seq![atyp_of(addr)] + addr_port_bytes(addr) + rest) == Ok::<
            (TargetAddrView, int),
            Error,
        >((addr, 4 + addr_port_bytes(addr).len() as int)),
{
    broadcast use encode_utf8_valid_utf8, encode_utf8_decode_utf8;

    let msg = head + seq![atyp_of(addr)] + addr_port_bytes(addr) + rest;
    match addr {
        TargetAddrView::V4(ip, port) => {
            lemma_port_bytes_roundtrip(port);
            assert(msg.subrange(4, 8) =~= ip);
        },
        TargetAddrView::V6(ip, port) => {
            lemma_port_bytes_roundtrip(port);
            assert(msg.subrange(4, 20) =~= ip);
        },
        TargetAddrView::Domain(name, port) => {
            lemma_port_bytes_roundtrip(port);
            let bytes = encode_utf8(name);
            let n = bytes.len() as int;
            assert(msg[4] == n as u8);
            assert(msg.subrange(5, 5 + n) =~= bytes);
            assert(msg[5 + n] == u16_be(port)[0]);
            assert(msg[6 + n] == u16_be(port)[1]);
        },
    }
}

/// Reads the address whose ATYP is byte 3 of `b`; gives it with the length
/// of the message up to the end of its port.
pub fn read_addr(b: &[u8]) -> (res: Result<(TargetAddr<'static>, usize), Error>)
    requires
        b@.len() >= 4,
    ensures
        match res {
            Ok((addr, len)) => decode_addr(b@) == Ok::<(TargetAddrView, int), Error>(
                (addr@, len as int),
            ),
            Err(e) => decode_addr(b@) == Err::<(TargetAddrView, int), Error>(e),
        },
{
    match b[3] {
        0x01 => {
            if b.len() < 10 {
                return Err(Error::InvalidTargetAddress("truncated IPv4 UDP datagram"));
            }
            let ip: [u8; 4] = [b[4], b[5], b[6], b[7]];
            let port: u16 = (b[8] as u16) * 256 + (b[9] as u16);
            assert(ip@ =~= b@.subrange(4, 8));
            Ok((TargetAddr::Ip(SocketAddr::V4 { ip, port }), 10))
        },
        0x04 => {
            if b.len() < 22 {
                return Err(Error::InvalidTargetAddress("truncated IPv6 UDP datagram"));
            }
            let ip: [u8; 16] = [
                b[4],
                b[5],
                b[6],
                b[7],
                b[8],
                b[9],
                b[10],
                b[11],
                b[12],
                b[13],
                b[14],
                b[15],
                b[16],
                b[17],
                b[18],
                b[19],
            ];
            let port: u16 = (b[20] as u16) * 256 + (b[21] as u16);
            assert(ip@ =~= b@.subrange(4, 20));
            Ok((TargetAddr::Ip(SocketAddr::V6 { ip, port }), 22))
        },
        0x03 => {
            if b.len() < 5 {
                return Err(Error::InvalidTargetAddress("truncated domain UDP datagram"));
            }
            let len = b[4] as usize;
            let header_len = 5 + len + 2;
            if b.len() < header_len {
                return Err(Error::InvalidTargetAddress("truncated domain UDP datagram"));
            }
            let domain = match String::from_utf8(slice_to_vec(&b[5..5 + len])) {
                Ok(domain) => domain,
                Err(_) => {
                    return Err(Error::InvalidTargetAddress("not a valid UTF-8 string"));
                },
            };
            let port: u16 = (b[5 + len] as u16) * 256 + (b[5 + len + 1] as u16);
            Ok((TargetAddr::Domain(Cow::Owned(domain), port), header_len))
        },
        _ => Err(Error::UnknownAddressType),
    }
}

/// Appends ATYP, DST.ADDR and DST.PORT of `addr` to `out`. A domain name of
/// more than 255 bytes is rejected and leaves `out` as it was.
pub fn write_addr(addr: &TargetAddr<'_>, out: &mut Vec<u8>) -> (res: Result<(), Error>)
    ensures
        encodable(addr@) ==> res is Ok && final(out)@ == old(out)@ + seq![atyp_of(addr@)]
            + addr_port_bytes(addr@),
        !encodable(addr@) ==> res == Err::<(), Error>(Error::InvalidTargetAddress("overlong domain"))
            && final(out)@ == old(out)@,
{
    let ghost start = out@;
    match addr {
        TargetAddr::Ip(SocketAddr::V4 { ip, port }) => {
            out.push(0x01);
            out.extend_from_slice(ip.as_slice());
            out.push((*port / 256) as u8);
            out.push((*port % 256) as u8);
        },
        TargetAddr::Ip(SocketAddr::V6 { ip, port }) => {
            out.push(0x04);
            out.extend_from_slice(ip.as_slice());
            out.push((*port / 256) as u8);
            out.push((*port % 256) as u8);
        },
        TargetAddr::Domain(domain, port) => {
            let name: &str = match domain {
                Cow::Borrowed(name) => name,
                Cow::Owned(name) => name.as_str(),
            };
            let name_bytes = name.as_bytes();
            let domain_len = name_bytes.len();
            if domain_len > 255 {
                return Err(Error::InvalidTargetAddress("overlong domain"));
            }
            out.push(0x03);
            out.push(domain_len as u8);
            out.extend_from_slice(name_bytes);
            out.push((*port / 256) as u8);
            out.push((*port % 256) as u8);
        },
    }
    assert(out@ =~= start + seq![atyp_of(addr@)] + addr_port_bytes(addr@));
    Ok(())
}

} // verus!
