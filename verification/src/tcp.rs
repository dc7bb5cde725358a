//! The TCP side of SOCKS5 (RFC 1928) with username/password authentication
//! (RFC 1929): the messages a client sends, what it makes of the replies,
//! and the stream it ends with.
use crate::wire::{
    addr_port_bytes, atyp_of, decode_addr, encodable, lemma_addr_roundtrip, read_addr, write_addr,
};
use crate::{Authentication, Error, TargetAddr, TargetAddrView};
use std::borrow::Cow;
use std::ops::{Deref, DerefMut};
use vstd::prelude::*;
use vstd::string::StringSliceAdditionalSpecFns;

verus! {

/// The SOCKS5 commands.
#[derive(Clone, Copy, Debug, PartialEq, Eq)]
pub enum Command {
    Connect,
    Bind,
    Associate,
}

impl Command {
    /// The CMD byte of the command.
    pub open spec fn spec_code(self) -> u8 {
        match self {
            Command::Connect => 0x01,
            Command::Bind => 0x02,
            Command::Associate => 0x03,
        }
    }

    /// The CMD byte of the command.
    pub fn code(self) -> (code: u8)
        ensures
            code == self.spec_code(),
    {
        match self {
            Command::Connect => 0x01,
            Command::Bind => 0x02,
            Command::Associate => 0x03,
        }
    }
}

/// Why the credentials cannot be sent, if they cannot: RFC 1929 gives the
/// username 1 to 255 bytes and the password up to 255 (an empty password is
/// allowed).
pub open spec fn auth_error(auth: Authentication) -> Option<Error> {
    match auth {
        Authentication::Password { username, password } => if !(1 <= username.spec_bytes().len()
            <= 255) {
            Some(Error::InvalidAuthValues("username length should between 1 to 255"))
        } else if password.spec_bytes().len() > 255 {
            Some(Error::InvalidAuthValues("password length should between 0 to 255"))
        } else {
            None
        },
        Authentication::NoAuth => None,
    }
}

/// Checks that the credentials can be sent.
pub fn validate_auth(auth: &Authentication<'_>) -> (res: Result<(), Error>)
    ensures
        match auth_error(*auth) {
            Some(e) => res == Err::<(), Error>(e),
            None => res is Ok,
        },
{
    match auth {
        Authentication::Password { username, password } => {
            let username_len = username.as_bytes().len();
            if !(1 <= username_len && username_len <= 255) {
                return Err(Error::InvalidAuthValues("username length should between 1 to 255"));
            }
            let password_len = password.as_bytes().len();
            if password_len > 255 {
                return Err(Error::InvalidAuthValues("password length should between 0 to 255"));
            }
        },
        Authentication::NoAuth => {},
    }
    Ok(())
}

/// The method selection message: version 5, then the methods offered (no
/// authentication, and username/password when there are credentials).
pub open spec fn method_selection_bytes(auth: Authentication) -> Seq<u8> {
    match auth {
        Authentication::Password { .. } => seq![0x05u8, 2, 0x00, 0x02],
        Authentication::NoAuth => seq![0x05u8, 1, 0x00],
    }
}

/// Builds the method selection message.
pub fn method_selection_request(auth: &Authentication<'_>) -> (req: Vec<u8>)
    ensures
        req@ == method_selection_bytes(*auth),
{
    let mut req: Vec<u8> = Vec::new();
    req.push(0x05);
    match auth {
        Authentication::NoAuth => {
            req.push(1);
            req.push(0x00);
        },
        Authentication::Password { .. } => {
            req.push(2);
            req.push(0x00);
            req.push(0x02);
        },
    }
    assert(req@ =~= method_selection_bytes(*auth));
    req
}

/// What the client does after the proxy chose a method.
#[derive(Debug, PartialEq, Eq)]
pub enum AuthStep {
    /// Nothing: no authentication is needed.
    Done,
    /// Authenticate with username and password.
    Password,
}

/// What the proxy's choice of method (version, method) means for the
/// client.
pub open spec fn method_selection_result(reply: Seq<u8>, auth: Authentication) -> Result<
    AuthStep,
    Error,
> {
    if reply[0] != 0x05 {
        Err(Error::InvalidResponseVersion)
    } else if reply[1] == 0x00 {
        Ok(AuthStep::Done)
    } else if reply[1] == 0x02 {
        match auth {
            Authentication::Password { .. } => Ok(AuthStep::Password),
            Authentication::NoAuth => Err(Error::AuthorizationRequired),
        }
    } else if reply[1] == 0xff {
        Err(Error::NoAcceptableAuthMethods)
    } else {
        Err(Error::UnknownAuthMethod)
    }
}

/// Reads the proxy's choice of method.
pub fn method_selection_reply(reply: &[u8], auth: &Authentication<'_>) -> (res: Result<
    AuthStep,
    Error,
>)
    requires
        reply@.len() == 2,
    ensures
        res == method_selection_result(reply@, *auth),
{
    if reply[0] != 0x05 {
        return Err(Error::InvalidResponseVersion);
    }
    match reply[1] {
        0x00 => Ok(AuthStep::Done),
        0x02 => match auth {
            Authentication::Password { .. } => Ok(AuthStep::Password),
            Authentication::NoAuth => Err(Error::AuthorizationRequired),
        },
        0xff => Err(Error::NoAcceptableAuthMethods),
        _ => Err(Error::UnknownAuthMethod),
    }
}

/// The username/password request: version 1, then each of the two with its
/// length byte first.
pub open spec fn password_request_bytes(username: Seq<u8>, password: Seq<u8>) -> Seq<u8> {
    seq![0x01u8, username.len() as u8] + username + seq![password.len() as u8] + password
}

/// Builds the username/password request.
pub fn password_request(username: &str, password: &str) -> (req: Vec<u8>)
    requires
        1 <= username.spec_bytes().len() <= 255,
        password.spec_bytes().len() <= 255,
    ensures
        req@ == password_request_bytes(username.spec_bytes(), password.spec_bytes()),
{
    let username = username.as_bytes();
    let password = password.as_bytes();
    let mut req: Vec<u8> = Vec::new();
    req.push(0x01);
    req.push(username.len() as u8);
    req.extend_from_slice(username);
    req.push(password.len() as u8);
    req.extend_from_slice(password);
    assert(req@ =~= password_request_bytes(username@, password@));
    req
}

/// What the reply (version, status) to the username/password request means:
/// status 0 is success, any other is a failure that carries it.
pub open spec fn password_reply_result(reply: Seq<u8>) -> Result<(), Error> {
    if reply[0] != 0x01 {
        Err(Error::InvalidResponseVersion)
    } else if reply[1] != 0x00 {
        Err(Error::PasswordAuthFailure(reply[1]))
    } else {
        Ok(())
    }
}

/// Reads the reply to the username/password request.
pub fn password_reply(reply: &[u8]) -> (res: Result<(), Error>)
    requires
        reply@.len() == 2,
    ensures
        res == password_reply_result(reply@),
{
    if reply[0] != 0x01 {
        return Err(Error::InvalidResponseVersion);
    }
    if reply[1] != 0x00 {
        return Err(Error::PasswordAuthFailure(reply[1]));
    }
    Ok(())
}

/// The request for a command: version 5, CMD, RSV zero, then the address.
pub open spec fn command_request_bytes(cmd: Command, target: TargetAddrView) -> Seq<u8> {
    seq![0x05u8, cmd.spec_code(), 0x00, atyp_of(target)] + addr_port_bytes(target)
}

/// Builds the request for a command; a domain name of more than 255 bytes is
/// rejected.
pub fn command_request(cmd: Command, target: &TargetAddr<'_>) -> (res: Result<Vec<u8>, Error>)
    ensures
        encodable(target@) ==> (res matches Ok(req) && req@ == command_request_bytes(cmd, target@)),
        !encodable(target@) ==> res == Err::<Vec<u8>, Error>(
            Error::InvalidTargetAddress("overlong domain"),
        ),
{
    let mut req: Vec<u8> = Vec::new();
    req.push(0x05);
    req.push(cmd.code());
    req.push(0x00);
    write_addr(target, &mut req)?;
    assert(req@ =~= command_request_bytes(cmd, target@));
    Ok(req)
}

/// The error that a reply code (REP) stands for; none for success.
pub open spec fn reply_code_error(rep: u8) -> Option<Error> {
    if rep == 0x00 {
        None
    } else if rep == 0x01 {
        Some(Error::GeneralSocksServerFailure)
    } else if rep == 0x02 {
        Some(Error::ConnectionNotAllowedByRuleset)
    } else if rep == 0x03 {
        Some(Error::NetworkUnreachable)
    } else if rep == 0x04 {
        Some(Error::HostUnreachable)
    } else if rep == 0x05 {
        Some(Error::ConnectionRefused)
    } else if rep == 0x06 {
        Some(Error::TtlExpired)
    } else if rep == 0x07 {
        Some(Error::CommandNotSupported)
    } else if rep == 0x08 {
        Some(Error::AddressTypeNotSupported)
    } else {
        Some(Error::UnknownError)
    }
}

/// What the first four bytes of a reply (VER, REP, RSV, ATYP) say about it,
/// before its address: the version must be 5, RSV zero, REP success.
pub open spec fn reply_head_result(reply: Seq<u8>) -> Result<(), Error> {
    if reply[0] != 0x05 {
        Err(Error::InvalidResponseVersion)
    } else if reply[2] != 0x00 {
        Err(Error::InvalidReservedByte)
    } else {
        match reply_code_error(reply[1]) {
            Some(e) => Err(e),
            None => Ok(()),
        }
    }
}

/// How many bytes the reply whose first bytes are `prefix` (at least four)
/// must be read to: 10 with an IPv4 address, 22 with IPv6; with a domain
/// name, 5 until its length byte is read, then 7 and that length.
pub open spec fn reply_needs(prefix: Seq<u8>) -> Result<int, Error> {
    match reply_head_result(prefix) {
        Err(e) => Err(e),
        Ok(()) => if prefix[3] == 0x01 {
            Ok(10)
        } else if prefix[3] == 0x04 {
            Ok(22)
        } else if prefix[3] == 0x03 {
            if prefix.len() < 5 {
                Ok(5)
            } else {
                Ok(7 + prefix[4] as int)
            }
        } else {
            Err(Error::UnknownAddressType)
        },
    }
}

/// The length that a reply must be read to, given its first bytes.
pub fn reply_len(prefix: &[u8]) -> (res: Result<usize, Error>)
    requires
        prefix@.len() >= 4,
    ensures
        match res {
            Ok(n) => reply_needs(prefix@) == Ok::<int, Error>(n as int),
            Err(e) => reply_needs(prefix@) == Err::<int, Error>(e),
        },
{
    reply_head(prefix)?;
    match prefix[3] {
        0x01 => Ok(10),
        0x04 => Ok(22),
        0x03 => if prefix.len() < 5 {
            Ok(5)
        } else {
            Ok(7 + prefix[4] as usize)
        },
        _ => Err(Error::UnknownAddressType),
    }
}

/// Checks the first four bytes of a reply.
fn reply_head(reply: &[u8]) -> (res: Result<(), Error>)
    requires
        reply@.len() >= 4,
    ensures
        res == reply_head_result(reply@),
{
    if reply[0] != 0x05 {
        return Err(Error::InvalidResponseVersion);
    }
    if reply[2] != 0x00 {
        return Err(Error::InvalidReservedByte);
    }
    match reply[1] {
        0x00 => Ok(()),
        0x01 => Err(Error::GeneralSocksServerFailure),
        0x02 => Err(Error::ConnectionNotAllowedByRuleset),
        0x03 => Err(Error::NetworkUnreachable),
        0x04 => Err(Error::HostUnreachable),
        0x05 => Err(Error::ConnectionRefused),
        0x06 => Err(Error::TtlExpired),
        0x07 => Err(Error::CommandNotSupported),
        0x08 => Err(Error::AddressTypeNotSupported),
        _ => Err(Error::UnknownError),
    }
}

/// What a whole reply says: the address that the proxy bound (or connected
/// from), or why the request failed.
pub open spec fn decode_reply(reply: Seq<u8>) -> Result<TargetAddrView, Error> {
    match reply_head_result(reply) {
        Err(e) => Err(e),
        Ok(()) => match decode_addr(reply) {
            Ok((addr, _)) => Ok(addr),
            Err(e) => Err(e),
        },
    }
}

/// Reads a whole reply.
pub fn read_reply(reply: &[u8]) -> (res: Result<TargetAddr<'static>, Error>)
    requires
        reply@.len() >= 4,
    ensures
        match res {
            Ok(addr) => decode_reply(reply@) == Ok::<TargetAddrView, Error>(addr@),
            Err(e) => decode_reply(reply@) == Err::<TargetAddrView, Error>(e),
        },
{
    reply_head(reply)?;
    let (addr, _) = read_addr(reply)?;
    Ok(addr)
}

/// The successful reply that reports `addr`: version 5, REP and RSV zero,
/// then the address.
pub open spec fn success_reply_bytes(addr: TargetAddrView) -> Seq<u8> {
    seq![0x05u8, 0x00, 0x00, atyp_of(addr)] + addr_port_bytes(addr)
}

/// A successful reply is read to its exact end and gives back the address
/// it reports: from the first four bytes on, `reply_needs` asks for no byte
/// before those already read and none past the reply, and from the fifth on
/// it asks for exactly the whole reply.
pub proof fn lemma_reply_roundtrip(addr: TargetAddrView)
    requires
        addr.wf(),
        encodable(addr),
    ensures
        decode_reply(success_reply_bytes(addr)) == Ok::<TargetAddrView, Error>(addr),
        forall|k: int|
            4 <= k <= success_reply_bytes(addr).len() ==> (#[trigger] reply_needs(
                success_reply_bytes(addr).take(k),
            ) matches Ok(n) && k <= n <= success_reply_bytes(addr).len() && (k >= 5 ==> n
                == success_reply_bytes(addr).len())),
{
    let reply = success_reply_bytes(addr);
    lemma_addr_roundtrip(seq![0x05u8, 0x00, 0x00], addr, Seq::empty());
    assert(seq![0x05u8, 0x00, 0x00] + seq![atyp_of(addr)] + addr_port_bytes(addr) + Seq::<
        u8,
    >::empty() =~= reply);
    assert forall|k: int| 4 <= k <= reply.len() implies (#[trigger] reply_needs(
        reply.take(k),
    ) matches Ok(n) && k <= n <= reply.len() && (k >= 5 ==> n == reply.len())) by {
        let prefix = reply.take(k);
        assert(prefix[0] == 0x05 && prefix[1] == 0x00 && prefix[2] == 0x00);
        assert(prefix[3] == atyp_of(addr));
        match addr {
            TargetAddrView::Domain(name, _) => {
                if k >= 5 {
                    assert(prefix[4] == reply[4]);
                }
            },
            _ => {},
        }
    }
}

/// A proxy reads the address of a command request with the same decoder:
/// the request carries the target it was built for.
pub proof fn lemma_request_carries_target(cmd: Command, target: TargetAddrView)
    requires
        target.wf(),
        encodable(target),
    ensures
        decode_addr(command_request_bytes(cmd, target)) == Ok::<(TargetAddrView, int), Error>(
            (target, command_request_bytes(cmd, target).len() as int),
        ),
{
    lemma_addr_roundtrip(seq![0x05u8, cmd.spec_code(), 0x00], target, Seq::empty());
    assert(seq![0x05u8, cmd.spec_code(), 0x00] + seq![atyp_of(target)] + addr_port_bytes(target)
        + Seq::<u8>::empty() =~= command_request_bytes(cmd, target));
}

/// The proxy's choice of method decides the next step only as RFC 1928
/// says: "no acceptable methods" (0xFF) is an error whatever was offered;
/// the client goes on without authentication only when the proxy chose
/// method 0x00, and authenticates only when it chose 0x02 and credentials
/// were offered; a reply of another version is rejected.
pub proof fn lemma_method_selection_law(reply: Seq<u8>, auth: Authentication)
    requires
        reply.len() == 2,
    ensures
        reply[0] == 0x05 && reply[1] == 0xff ==> method_selection_result(reply, auth) == Err::<
            AuthStep,
            Error,
        >(Error::NoAcceptableAuthMethods),
        reply[0] != 0x05 ==> method_selection_result(reply, auth) == Err::<AuthStep, Error>(
            Error::InvalidResponseVersion,
        ),
        method_selection_result(reply, auth) == Ok::<AuthStep, Error>(AuthStep::Done) <==> (
        reply[0] == 0x05 && reply[1] == 0x00),
        method_selection_result(reply, auth) == Ok::<AuthStep, Error>(AuthStep::Password) <==> (
        reply[0] == 0x05 && reply[1] == 0x02 && auth is Password),
        method_selection_result(reply, auth) is Ok ==> reply[1] == 0x00 || reply[1] == 0x02,
{
}

/// The username/password reply is a success exactly when it is version 1
/// with status 0; with version 1, any other status is a failure that carries
/// that status.
pub proof fn lemma_password_reply_law(reply: Seq<u8>)
    requires
        reply.len() == 2,
    ensures
        password_reply_result(reply) is Ok <==> (reply[0] == 0x01 && reply[1] == 0x00),
        reply[0] == 0x01 && reply[1] != 0x00 ==> password_reply_result(reply) == Err::<(), Error>(
            Error::PasswordAuthFailure(reply[1]),
        ),
        reply[0] != 0x01 ==> password_reply_result(reply) == Err::<(), Error>(
            Error::InvalidResponseVersion,
        ),
{
}

/// Every command request is a SOCKS5 request: version 5, the command's
/// code (CONNECT 1, BIND 2, UDP ASSOCIATE 3), a zero reserved byte, then the
/// address; the version and the reserved byte do not depend on the command.
pub proof fn lemma_command_request_law(cmd: Command, target: TargetAddrView)
    ensures
        command_request_bytes(cmd, target).len() == 4 + addr_port_bytes(target).len(),
        command_request_bytes(cmd, target)[0] == 0x05,
        command_request_bytes(cmd, target)[1] == match cmd {
            Command::Connect => 0x01u8,
            Command::Bind => 0x02u8,
            Command::Associate => 0x03u8,
        },
        command_request_bytes(cmd, target)[2] == 0x00,
        command_request_bytes(cmd, target)[3] == atyp_of(target),
        command_request_bytes(cmd, target).skip(4) == addr_port_bytes(target),
{
    assert(command_request_bytes(cmd, target).skip(4) =~= addr_port_bytes(target));
}

/// A reply gives an address only when it reports success: version 5, REP
/// 0x00 and RSV zero. With version 5 and RSV zero, every other REP is the
/// error RFC 1928 gives it, and a code it does not define is an unknown
/// error; no failed request is read as bound to an address, and the reply's
/// length is not asked for either.
pub proof fn lemma_reply_code_law(reply: Seq<u8>)
    requires
        reply.len() >= 4,
    ensures
        decode_reply(reply) is Ok ==> reply[0] == 0x05 && reply[1] == 0x00 && reply[2] == 0x00,
        reply_needs(reply) is Ok ==> reply[0] == 0x05 && reply[1] == 0x00 && reply[2] == 0x00,
        reply[0] == 0x05 && reply[2] == 0x00 && reply[1] != 0x00 ==> {
            let e = if reply[1] == 0x01 {
                Error::GeneralSocksServerFailure
            } else if reply[1] == 0x02 {
                Error::ConnectionNotAllowedByRuleset
            } else if reply[1] == 0x03 {
                Error::NetworkUnreachable
            } else if reply[1] == 0x04 {
                Error::HostUnreachable
            } else if reply[1] == 0x05 {
                Error::ConnectionRefused
            } else if reply[1] == 0x06 {
                Error::TtlExpired
            } else if reply[1] == 0x07 {
                Error::CommandNotSupported
            } else if reply[1] == 0x08 {
                Error::AddressTypeNotSupported
            } else {
                Error::UnknownError
            };
            &&& decode_reply(reply) == Err::<TargetAddrView, Error>(e)
            &&& reply_needs(reply) == Err::<int, Error>(e)
        },
        reply[0] != 0x05 ==> decode_reply(reply) == Err::<TargetAddrView, Error>(
            Error::InvalidResponseVersion,
        ),
{
}

/// Credentials are accepted exactly when the username has 1 to 255 bytes
/// and the password at most 255 (possibly none), the two bounds independent
/// of each other; without credentials there is nothing to check.
pub proof fn lemma_auth_bounds_law(auth: Authentication)
    ensures
        auth is NoAuth ==> auth_error(auth) is None,
        auth matches Authentication::Password { username, password } ==> (auth_error(auth) is None
            <==> (1 <= username.spec_bytes().len() <= 255 && password.spec_bytes().len() <= 255)),
        auth matches Authentication::Password { username, password } ==> (!(1
            <= username.spec_bytes().len() <= 255) ==> auth_error(auth) == Some(
            Error::InvalidAuthValues("username length should between 1 to 255"),
        )),
        auth matches Authentication::Password { username, password } ==> (1
            <= username.spec_bytes().len() <= 255 && password.spec_bytes().len() > 255
            ==> auth_error(auth) == Some(
            Error::InvalidAuthValues("password length should between 0 to 255"),
        )),
{
}

/// The greeting is a SOCKS5 method selection: version 5, then the number of
/// methods and exactly that many methods; "no authentication" is always
/// offered, and username/password exactly when there are credentials.
pub proof fn lemma_method_selection_request_law(auth: Authentication)
    ensures
        method_selection_bytes(auth)[0] == 0x05,
        method_selection_bytes(auth).len() == 2 + method_selection_bytes(auth)[1],
        method_selection_bytes(auth).skip(2).contains(0x00u8),
        method_selection_bytes(auth).skip(2).contains(0x02u8) <==> auth is Password,
{
    let m = method_selection_bytes(auth);
    assert(m.skip(2)[0] == 0x00u8);
    match auth {
        Authentication::Password { .. } => {
            assert(m.skip(2)[1] == 0x02u8);
        },
        Authentication::NoAuth => {
            assert(m.skip(2) =~= seq![0x00u8]);
        },
    }
}

/// The username/password request is version 1, then the username and the
/// password, each after a byte that gives its length: a proxy reads back
/// both exactly.
pub proof fn lemma_password_request_law(username: Seq<u8>, password: Seq<u8>)
    requires
        1 <= username.len() <= 255,
        password.len() <= 255,
    ensures
        ({
            let req = password_request_bytes(username, password);
            let ulen = req[1] as int;
            &&& req[0] == 0x01
            &&& ulen == username.len()
            &&& req.subrange(2, 2 + ulen) == username
            &&& req[2 + ulen] as int == password.len()
            &&& req.skip(3 + ulen) == password
        }),
{
    let req = password_request_bytes(username, password);
    assert(req.subrange(2, 2 + username.len() as int) =~= username);
    assert(req.skip(3 + username.len() as int) =~= password);
}

/// The error a connection attempt ends with when no proxy address was left
/// to try: the last I/O error, if one was met, else that the proxy server is
/// unreachable.
pub fn proxy_unreachable_error(last: Option<std::io::Error>) -> (e: Error)
    ensures
        match last {
            Some(io) => e == Error::Io(io),
            None => e == Error::ProxyServerUnreachable,
        },
{
    match last {
        Some(io) => Error::Io(io),
        None => Error::ProxyServerUnreachable,
    }
}

/// A SOCKS5 client.
///
/// For convenience, it can be dereferenced to its inner socket.
#[derive(Debug)]
pub struct Socks5Stream<S> {
    socket: S,
    target: TargetAddr<'static>,
}

impl<S> Socks5Stream<S> {
    pub closed spec fn spec_socket(&self) -> S {
        self.socket
    }

    pub closed spec fn spec_target(&self) -> TargetAddr<'static> {
        self.target
    }

    /// A stream over `socket`, connected through the proxy to `target`.
    pub fn new(socket: S, target: TargetAddr<'static>) -> (stream: Self)
        ensures
            stream.spec_socket() == socket,
            stream.spec_target() == target,
    {
        Socks5Stream { socket, target }
    }

    /// Consumes the stream and gives back the socket.
    pub fn into_inner(self) -> (socket: S)
        ensures
            socket == self.spec_socket(),
    {
        self.socket
    }

    /// The target address that the proxy server connects to (for BIND and
    /// ASSOCIATE, the address it bound).
    pub fn target_addr(&self) -> (addr: TargetAddr<'_>)
        ensures
            addr@ == self.spec_target()@,
    {
        match &self.target {
            TargetAddr::Ip(addr) => TargetAddr::Ip(*addr),
            TargetAddr::Domain(domain, port) => {
                let domain: &str = match domain {
                    Cow::Borrowed(d) => d,
                    Cow::Owned(d) => d.as_str(),
                };
                TargetAddr::Domain(Cow::Borrowed(domain), *port)
            },
        }
    }
}

impl<S> Deref for Socks5Stream<S> {
    type Target = S;

    fn deref(&self) -> (socket: &Self::Target)
        ensures
            *socket == self.spec_socket(),
    {
        &self.socket
    }
}

impl<S> DerefMut for Socks5Stream<S> {
    fn deref_mut(&mut self) -> (socket: &mut Self::Target)
        ensures
            *socket == old(self).spec_socket(),
            final(self).spec_socket() == *final(socket),
            final(self).spec_target() == old(self).spec_target(),
    {
        &mut self.socket
    }
}

} // verus!
