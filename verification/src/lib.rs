//! Asynchronous SOCKS5 client: the wire formats and decisions of the
//! protocol, verified.
//!
//! Username/password authentication (RFC 1929) is sent in cleartext to the
//! proxy. There is no TLS-to-proxy transport in this crate.

pub mod buffer;
pub mod error;
pub mod tcp;
pub mod udp;
pub mod wire;

pub use error::Error;

use std::borrow::Cow;
use vstd::prelude::*;

verus! {

/// The result type of the library.
pub type Result<T> = std::result::Result<T, Error>;

/// A socket address: an IP address, given by its octets in network order,
/// and a port.
#[allow(inconsistent_fields)]
#[derive(Clone, Copy, Debug, PartialEq, Eq, Hash)]
pub enum SocketAddr {
    V4 { ip: [u8; 4], port: u16 },
    V6 { ip: [u8; 16], port: u16 },
}

/// A description of a connection target: an IP address or a domain name,
/// with a port.
#[derive(Debug, PartialEq, Eq, Hash)]
pub enum TargetAddr<'a> {
    /// Connect to an IP address.
    Ip(SocketAddr),
    /// Connect to a fully qualified domain name.
    Domain(Cow<'a, str>, u16),
}

/// What a target address stands for: the octets of an IP address, or the
/// characters of a domain name, and the port.
pub enum TargetAddrView {
    V4(Seq<u8>, u16),
    V6(Seq<u8>, u16),
    Domain(Seq<char>, u16),
}

/// Authentication methods
#[derive(Debug)]
pub enum Authentication<'a> {
    /// Username and password (RFC 1929), sent in cleartext.
    Password { username: &'a str, password: &'a str },
    /// No authentication.
    NoAuth,
}

impl<'a> Authentication<'a> {
    /// The method number that SOCKS5 gives this authentication.
    pub open spec fn spec_id(&self) -> u8 {
        match self {
            Authentication::Password { .. } => 0x02,
            Authentication::NoAuth => 0x00,
        }
    }

    /// The method number that SOCKS5 gives this authentication.
    pub fn id(&self) -> (id: u8)
        ensures
            id == self.spec_id(),
    {
        match self {
            Authentication::Password { .. } => 0x02,
            Authentication::NoAuth => 0x00,
        }
    }
}

impl View for SocketAddr {
    type V = TargetAddrView;

    open spec fn view(&self) -> TargetAddrView {
        match *self {
            SocketAddr::V4 { ip, port } => TargetAddrView::V4(ip@, port),
            SocketAddr::V6 { ip, port } => TargetAddrView::V6(ip@, port),
        }
    }
}

impl<'a> View for TargetAddr<'a> {
    type V = TargetAddrView;

    open spec fn view(&self) -> TargetAddrView {
        match self {
            TargetAddr::Ip(addr) => addr@,
            TargetAddr::Domain(domain, port) => TargetAddrView::Domain(domain@, *port),
        }
    }
}

impl<'a> Clone for TargetAddr<'a> {
    fn clone(&self) -> (res: Self)
        ensures
            res@ == self@,
    {
        match self {
            TargetAddr::Ip(addr) => TargetAddr::Ip(*addr),
            TargetAddr::Domain(Cow::Borrowed(domain), port) => TargetAddr::Domain(
                Cow::Borrowed(*domain),
                *port,
            ),
            TargetAddr::Domain(Cow::Owned(domain), port) => TargetAddr::Domain(
                Cow::Owned(domain.clone()),
                *port,
            ),
        }
    }
}

impl TargetAddrView {
    /// The octets of an IP address have the length of their family.
    pub open spec fn wf(self) -> bool {
        match self {
            TargetAddrView::V4(ip, _) => ip.len() == 4,
            TargetAddrView::V6(ip, _) => ip.len() == 16,
            TargetAddrView::Domain(_, _) => true,
        }
    }
}

} // verus!
