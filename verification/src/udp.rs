//! The SOCKS5 UDP relay datagram (RFC 1928, section 7): its codec, and the
//! decisions of the relay stream.
//!
//! ```text
//! +----+------+------+----------+----------+----------+
//! |RSV | FRAG | ATYP | DST.ADDR | DST.PORT |   DATA   |
//! +----+------+------+----------+----------+----------+
//! | 2  |  1   |  1   | Variable |    2     | Variable |
//! +----+------+------+----------+----------+----------+
//! ```
use crate::buffer::{bytes_mut_view, bytes_view};
use crate::wire::{
    addr_port_bytes, atyp_of, decode_addr, encodable, lemma_addr_roundtrip,
    lemma_port_value_roundtrip, read_addr, write_addr,
};
use crate::{Error, SocketAddr, TargetAddr, TargetAddrView};
use bytes::{BufMut, Bytes, BytesMut};
use std::ops::Deref;
use vstd::prelude::*;
use vstd::utf8::*;

verus! {

/// A SOCKS5 UDP datagram, as it travels between the client and the relay.
#[derive(Debug)]
pub struct Socks5UdpMessage {
    pub rsv: [u8; 2],
    pub frag: u8,
    pub atyp: u8,
    pub dst_addr: TargetAddr<'static>,
    pub data: BytesMut,
}

/// What a datagram stands for: its fields, and the bytes of its payload.
pub struct Socks5UdpMessageView {
    pub rsv: Seq<u8>,
    pub frag: u8,
    pub atyp: u8,
    pub dst_addr: TargetAddrView,
    pub data: Seq<u8>,
}

impl View for Socks5UdpMessage {
    type V = Socks5UdpMessageView;

    open spec fn view(&self) -> Socks5UdpMessageView {
        Socks5UdpMessageView {
            rsv: self.rsv@,
            frag: self.frag,
            atyp: self.atyp,
            dst_addr: self.dst_addr@,
            data: bytes_mut_view(self.data),
        }
    }
}

/// Encodes and decodes SOCKS5 UDP datagrams.
#[derive(Clone, Debug, Eq, PartialEq, Ord, PartialOrd, Hash, Default)]
pub struct Socks5UdpCodec;

/// The datagram that carries `data` to `addr`: RSV and FRAG zero, then
/// ATYP, DST.ADDR, DST.PORT and the payload.
pub open spec fn udp_frame(addr: TargetAddrView, data: Seq<u8>) -> Seq<u8> {
    seq![0u8, 0u8, 0u8, atyp_of(addr)] + addr_port_bytes(addr) + data
}

/// What decoding a whole received datagram gives: nothing for an empty
/// buffer, the message it carries, or the error that rejects it.
pub open spec fn decode_frame(buf: Seq<u8>) -> Result<Option<Socks5UdpMessageView>, Error> {
    if buf.len() == 0 {
        Ok(None)
    } else if buf.len() < 4 {
        Err(Error::InvalidTargetAddress("UDP datagram shorter than SOCKS5 header"))
    } else if buf[0] != 0 || buf[1] != 0 {
        Err(Error::InvalidReservedByte)
    } else if buf[2] != 0 {
        Err(Error::FragmentationNotSupported)
    } else {
        match decode_addr(buf) {
            Ok((addr, header_len)) => Ok(
                Some(
                    Socks5UdpMessageView {
                        rsv: seq![0u8, 0u8],
                        frag: 0,
                        atyp: buf[3],
                        dst_addr: addr,
                        data: buf.skip(header_len),
                    },
                ),
            ),
            Err(e) => Err(e),
        }
    }
}

/// A decode result, with the message taken by its view.
pub open spec fn decode_result_view(res: Result<Option<Socks5UdpMessage>, Error>) -> Result<
    Option<Socks5UdpMessageView>,
    Error,
> {
    match res {
        Ok(Some(msg)) => Ok(Some(msg@)),
        Ok(None) => Ok(None),
        Err(e) => Err(e),
    }
}

/// The message that `Socks5UdpMessage::new` makes.
pub open spec fn default_message_view() -> Socks5UdpMessageView {
    Socks5UdpMessageView {
        rsv: seq![0u8, 0u8],
        frag: 0,
        atyp: 0,
        dst_addr: TargetAddrView::V4(seq![0u8, 0u8, 0u8, 0u8], 0),
        data: Seq::empty(),
    }
}

/// The address to send datagrams to for a UDP association: the address
/// that the proxy bound for it, which must be an IP address.
pub fn relay_socket_addr(addr: TargetAddr<'_>) -> (res: Result<SocketAddr, Error>)
    ensures
        match addr {
            TargetAddr::Ip(a) => res == Ok::<SocketAddr, Error>(a),
            TargetAddr::Domain(_, _) => res == Err::<SocketAddr, Error>(
                Error::InvalidTargetAddress("UDP ASSOCIATE bind address must be an IP address"),
            ),
        },
{
    match addr {
        TargetAddr::Ip(addr) => Ok(addr),
        TargetAddr::Domain(_, _) => Err(
            Error::InvalidTargetAddress("UDP ASSOCIATE bind address must be an IP address"),
        ),
    }
}

/// What a poll of the TCP control connection of a UDP association gave.
pub enum ControlRead {
    /// The read failed.
    Failed,
    /// The read completed, having filled this many bytes.
    Filled(usize),
    /// The read is not ready yet.
    Pending,
}

/// What the relay stream does after polling its control connection, when no
/// datagram was ready.
#[derive(Debug, PartialEq, Eq)]
pub enum RelayPollStep {
    /// Yield the read error.
    YieldError,
    /// End the stream: end of file on the control connection means that the
    /// association is gone.
    End,
    /// Keep waiting for a datagram; data on the control connection is
    /// ignored.
    Wait,
}

/// Decides what the relay stream does after polling its control
/// connection.
pub fn control_read_step(read: ControlRead) -> (step: RelayPollStep)
    ensures
        match read {
            ControlRead::Failed => step == RelayPollStep::YieldError,
            ControlRead::Filled(n) => if n == 0 {
                step == RelayPollStep::End
            } else {
                step == RelayPollStep::Wait
            },
            ControlRead::Pending => step == RelayPollStep::Wait,
        },
{
    match read {
        ControlRead::Failed => RelayPollStep::YieldError,
        ControlRead::Filled(n) => if n == 0 {
            RelayPollStep::End
        } else {
            RelayPollStep::Wait
        },
        ControlRead::Pending => RelayPollStep::Wait,
    }
}

/// Decoding the datagram that carries `data` to `addr` gives back that
/// address and payload, with RSV and FRAG zero and the address's ATYP: what
/// the codec sends, it reads back.
pub proof fn lemma_encode_decode_roundtrip(addr: TargetAddrView, data: Seq<u8>)
    requires
        addr.wf(),
        encodable(addr),
    ensures
        decode_frame(udp_frame(addr, data)) == Ok::<Option<Socks5UdpMessageView>, Error>(
            Some(
                Socks5UdpMessageView {
                    rsv: seq![0u8, 0u8],
                    frag: 0,
                    atyp: atyp_of(addr),
                    dst_addr: addr,
                    data,
                },
            ),
        ),
{
    let frame = udp_frame(addr, data);
    lemma_addr_roundtrip(seq![0u8, 0u8, 0u8], addr, data);
    assert(seq![0u8, 0u8, 0u8] + seq![atyp_of(addr)] + addr_port_bytes(addr) + data =~= frame);
    assert(frame.skip(4 + addr_port_bytes(addr).len() as int) =~= data);
}

/// A datagram that decodes is exactly the one that encoding its message
/// produces, and its address can be encoded: decoding loses nothing.
pub proof fn lemma_decode_encode_roundtrip(buf: Seq<u8>)
    requires
        decode_frame(buf) is Ok,
        decode_frame(buf).unwrap() is Some,
    ensures
        ({
            let msg = decode_frame(buf).unwrap().unwrap();
            &&& msg.dst_addr.wf()
            &&& encodable(msg.dst_addr)
            &&& msg.atyp == atyp_of(msg.dst_addr)
            &&& udp_frame(msg.dst_addr, msg.data) == buf
        }),
{
    let msg = decode_frame(buf).unwrap().unwrap();
    let atyp = buf[3];
    if atyp == 1 {
        lemma_port_value_roundtrip(buf[8], buf[9]);
        assert(udp_frame(msg.dst_addr, msg.data) =~= buf);
    } else if atyp == 4 {
        lemma_port_value_roundtrip(buf[20], buf[21]);
        assert(udp_frame(msg.dst_addr, msg.data) =~= buf);
    } else {
        let n = buf[4] as int;
        let name_bytes = buf.subrange(5, 5 + n);
        decode_utf8_encode_utf8(name_bytes);
        lemma_port_value_roundtrip(buf[5 + n], buf[6 + n]);
        assert(udp_frame(msg.dst_addr, msg.data) =~= buf);
    }
}

/// What a datagram's header decides: an empty buffer is no datagram yet and
/// any other is one; a datagram decodes only with RSV and FRAG zero; with
/// RSV zero and a fragment number, it is refused as a fragment; with RSV not
/// zero, it is refused for that; and a message's payload is what follows its
/// address, byte for byte.
pub proof fn lemma_decode_header_law(buf: Seq<u8>)
    ensures
        decode_frame(buf) == Ok::<Option<Socks5UdpMessageView>, Error>(None) <==> buf.len() == 0,
        decode_frame(buf) matches Ok(Some(msg)) ==> {
            &&& buf.len() >= 4
            &&& buf[0] == 0 && buf[1] == 0 && buf[2] == 0
            &&& msg.rsv == seq![0u8, 0u8] && msg.frag == 0 && msg.atyp == buf[3]
            &&& buf == seq![0u8, 0u8, 0u8, buf[3]] + addr_port_bytes(msg.dst_addr) + msg.data
        },
        buf.len() >= 4 && (buf[0] != 0 || buf[1] != 0) ==> decode_frame(buf) == Err::<
            Option<Socks5UdpMessageView>,
            Error,
        >(Error::InvalidReservedByte),
        buf.len() >= 4 && buf[0] == 0 && buf[1] == 0 && buf[2] != 0 ==> decode_frame(buf)
            == Err::<Option<Socks5UdpMessageView>, Error>(Error::FragmentationNotSupported),
        buf.len() >= 4 && buf[0] == 0 && buf[1] == 0 && buf[2] == 0 && buf[3] != 1 && buf[3] != 3
            && buf[3] != 4 ==> decode_frame(buf) == Err::<Option<Socks5UdpMessageView>, Error>(
            Error::UnknownAddressType,
        ),
{
    if decode_frame(buf) is Ok && decode_frame(buf).unwrap() is Some {
        lemma_decode_encode_roundtrip(buf);
    }
}

impl Socks5UdpCodec {
    pub fn new() -> (codec: Self)
        ensures
            codec == Socks5UdpCodec,
    {
        Self {  }
    }
}

impl Default for Socks5UdpMessage {
    fn default() -> (msg: Self)
        ensures
            msg@ == default_message_view(),
    {
        Self::new()
    }
}

impl Socks5UdpMessage {
    /// An empty message to 0.0.0.0:0.
    pub fn new() -> (msg: Self)
        ensures
            msg@ == default_message_view(),
    {
        let msg = Self {
            rsv: [0u8; 2],
            frag: 0u8,
            atyp: 0u8,
            dst_addr: TargetAddr::Ip(SocketAddr::V4 { ip: [0, 0, 0, 0], port: 0 }),
            data: BytesMut::new(),
        };
        assert(msg@.rsv =~= seq![0u8, 0u8]);
        assert(msg.dst_addr@ == TargetAddrView::V4(seq![0u8, 0u8, 0u8, 0u8], 0)) by {
            assert([0u8, 0u8, 0u8, 0u8]@ =~= seq![0u8, 0u8, 0u8, 0u8]);
        }
        msg
    }
}

impl Socks5UdpCodec {
    /// Decodes one whole datagram from `buf`.
    ///
    /// An empty buffer gives `Ok(None)` and stays as it is. A datagram that
    /// decodes gives its message, and the buffer is left empty. A datagram
    /// that is rejected gives the error that `decode_frame` names, and the
    /// buffer stays as it is.
    pub fn decode(&mut self, buf: &mut BytesMut) -> (res: Result<Option<Socks5UdpMessage>, Error>)
        ensures
            *final(self) == *old(self),
            decode_result_view(res) == decode_frame(bytes_mut_view(*old(buf))),
            res matches Ok(Some(_)) ==> bytes_mut_view(*final(buf)) == Seq::<u8>::empty(),
            !(res matches Ok(Some(_))) ==> bytes_mut_view(*final(buf)) == bytes_mut_view(*old(buf)),
    {
        let ghost old_buf = bytes_mut_view(*buf);
        if buf.is_empty() {
            return Ok(None);
        }
        // RSV(2) + FRAG(1) + ATYP(1). The relay socket delivers a whole
        // datagram, so a short buffer is a truncated packet rather than a
        // partial frame.
        if buf.len() < 4 {
            return Err(Error::InvalidTargetAddress("UDP datagram shorter than SOCKS5 header"));
        }
        let b: &[u8] = BytesMut::deref(buf);
        let mut msg = Socks5UdpMessage::new();
        msg.rsv = [b[0], b[1]];
        if msg.rsv[0] != 0 || msg.rsv[1] != 0 {
            return Err(Error::InvalidReservedByte);
        }
        msg.frag = b[2];
        if msg.frag != 0 {
            return Err(Error::FragmentationNotSupported);
        }
        msg.atyp = b[3];
        let (dst_addr, header_len) = read_addr(b)?;
        msg.dst_addr = dst_addr;
        msg.data = buf.split_off(header_len);
        buf.clear();
        assert(msg@.rsv =~= seq![0u8, 0u8]);
        Ok(Some(msg))
    }

    /// Encodes `data` for `addr` into `buf`, replacing what it held.
    ///
    /// A domain name longer than 255 bytes of UTF-8 is rejected and leaves
    /// `buf` as it was; any other address succeeds.
    pub fn encode(&mut self, item: (Bytes, TargetAddr<'static>), buf: &mut BytesMut) -> (res: Result<(), Error>)
        requires
            bytes_view(item.0).len() + 262 <= isize::MAX / 4,
        ensures
            *final(self) == *old(self),
            encodable(item.1@) ==> res is Ok && bytes_mut_view(*final(buf)) == udp_frame(
                item.1@,
                bytes_view(item.0),
            ),
            !encodable(item.1@) ==> res == Err::<(), Error>(
                Error::InvalidTargetAddress("overlong domain"),
            ) && bytes_mut_view(*final(buf)) == bytes_mut_view(*old(buf)),
    {
        let (data, addr) = item;
        let ghost addr_view = addr@;
        let mut header: Vec<u8> = Vec::new();
        header.push(0u8);
        header.push(0u8);
        header.push(0u8);
        write_addr(&addr, &mut header)?;
        assert(header@ =~= seq![0u8, 0u8, 0u8, atyp_of(addr_view)] + addr_port_bytes(addr_view));
        buf.clear();
        buf.put_slice(header.as_slice());
        buf.put_slice(Bytes::deref(&data));
        Ok(())
    }
}

} // verus!
