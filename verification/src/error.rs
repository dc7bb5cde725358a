use vstd::prelude::*;

verus! {

/// The I/O error of std, carried through unchanged.
#[verifier::external_type_specification]
#[verifier::external_body]
pub struct ExIoError(std::io::Error);

/// Error type of the library.
#[derive(Debug)]
pub enum Error {
    /// Failure caused by an IO error.
    Io(std::io::Error),
    /// Failure when parsing a `String`.
    ParseError(std::string::ParseError),
    /// Failure due to invalid target address. It contains the detailed error
    /// message.
    InvalidTargetAddress(&'static str),
    /// Proxy server unreachable.
    ProxyServerUnreachable,
    /// Proxy server returns an invalid version number.
    InvalidResponseVersion,
    /// No acceptable auth methods
    NoAcceptableAuthMethods,
    /// Unknown auth method
    UnknownAuthMethod,
    /// General SOCKS server failure
    GeneralSocksServerFailure,
    /// Connection not allowed by ruleset
    ConnectionNotAllowedByRuleset,
    /// Network unreachable
    NetworkUnreachable,
    /// Host unreachable
    HostUnreachable,
    /// Connection refused
    ConnectionRefused,
    /// TTL expired
    TtlExpired,
    /// Command not supported
    CommandNotSupported,
    /// Address type not supported
    AddressTypeNotSupported,
    /// A reply code that SOCKS5 does not define
    UnknownError,
    /// Invalid username or password. It contains the detailed error message.
    InvalidAuthValues(&'static str),
    /// The proxy server asks for authentication that was not offered.
    AuthorizationRequired,
    /// The proxy server rejected the username and password, with this status.
    PasswordAuthFailure(u8),
    /// The reserved bytes of a SOCKS5 header are not zero.
    InvalidReservedByte,
    /// The address type of a SOCKS5 header is not one that SOCKS5 defines.
    UnknownAddressType,
    /// A UDP datagram is a fragment, which this client does not reassemble.
    FragmentationNotSupported,
}

} // verus!
