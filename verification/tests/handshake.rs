use better_socks::tcp::{
    command_request, method_selection_reply, method_selection_request, password_reply,
    password_request, proxy_unreachable_error, read_reply, reply_len, validate_auth, AuthStep,
    Command, Socks5Stream,
};
use better_socks::{Authentication, Error, SocketAddr, TargetAddr};

#[test]
fn method_selection_messages() {
    assert_eq!(method_selection_request(&Authentication::NoAuth), vec![5, 1, 0]);
    let auth = Authentication::Password { username: "u", password: "p" };
    assert_eq!(method_selection_request(&auth), vec![5, 2, 0, 2]);
    assert_eq!(Authentication::NoAuth.id(), 0);
    assert_eq!(auth.id(), 2);
}

#[test]
fn method_selection_replies() {
    let none = Authentication::NoAuth;
    let pass = Authentication::Password { username: "u", password: "p" };
    assert_eq!(method_selection_reply(&[5, 0], &none).unwrap(), AuthStep::Done);
    assert_eq!(method_selection_reply(&[5, 0], &pass).unwrap(), AuthStep::Done);
    assert_eq!(method_selection_reply(&[5, 2], &pass).unwrap(), AuthStep::Password);
    assert!(matches!(method_selection_reply(&[5, 2], &none), Err(Error::AuthorizationRequired)));
    assert!(matches!(method_selection_reply(&[5, 0xff], &pass), Err(Error::NoAcceptableAuthMethods)));
    assert!(matches!(method_selection_reply(&[5, 1], &pass), Err(Error::UnknownAuthMethod)));
    assert!(matches!(method_selection_reply(&[4, 0], &none), Err(Error::InvalidResponseVersion)));
}

#[test]
fn credentials_are_checked() {
    assert!(validate_auth(&Authentication::NoAuth).is_ok());
    assert!(validate_auth(&Authentication::Password { username: "user", password: "" }).is_ok());
    let long = "x".repeat(256);
    assert!(matches!(
        validate_auth(&Authentication::Password { username: "", password: "p" }),
        Err(Error::InvalidAuthValues("username length should between 1 to 255"))
    ));
    assert!(matches!(
        validate_auth(&Authentication::Password { username: &long, password: "p" }),
        Err(Error::InvalidAuthValues("username length should between 1 to 255"))
    ));
    assert!(matches!(
        validate_auth(&Authentication::Password { username: "u", password: &long }),
        Err(Error::InvalidAuthValues("password length should between 0 to 255"))
    ));
    let max = "y".repeat(255);
    assert!(validate_auth(&Authentication::Password { username: &max, password: &max }).is_ok());
}

#[test]
fn password_messages() {
    assert_eq!(password_request("ab", "xyz"), vec![1, 2, b'a', b'b', 3, b'x', b'y', b'z']);
    assert_eq!(password_request("u", ""), vec![1, 1, b'u', 0]);
    assert!(password_reply(&[1, 0]).is_ok());
    assert!(matches!(password_reply(&[1, 7]), Err(Error::PasswordAuthFailure(7))));
    assert!(matches!(password_reply(&[5, 0]), Err(Error::InvalidResponseVersion)));
}

#[test]
fn command_requests() {
    let v4 = TargetAddr::Ip(SocketAddr::V4 { ip: [192, 168, 0, 10], port: 5353 });
    assert_eq!(
        command_request(Command::Associate, &v4).unwrap(),
        vec![5, 3, 0, 1, 192, 168, 0, 10, 0x14, 0xe9]
    );
    let domain = TargetAddr::Domain("a.io".into(), 80);
    assert_eq!(
        command_request(Command::Connect, &domain).unwrap(),
        vec![5, 1, 0, 3, 4, b'a', b'.', b'i', b'o', 0, 80]
    );
    assert_eq!(command_request(Command::Bind, &v4).unwrap()[1], 2);
    let long = TargetAddr::Domain("a".repeat(256).into(), 80);
    assert!(matches!(
        command_request(Command::Connect, &long),
        Err(Error::InvalidTargetAddress("overlong domain"))
    ));
}

#[test]
fn reply_lengths() {
    assert_eq!(reply_len(&[5, 0, 0, 1]).unwrap(), 10);
    assert_eq!(reply_len(&[5, 0, 0, 4]).unwrap(), 22);
    assert_eq!(reply_len(&[5, 0, 0, 3]).unwrap(), 5);
    assert_eq!(reply_len(&[5, 0, 0, 3, 9]).unwrap(), 16);
    assert!(matches!(reply_len(&[5, 0, 0, 2]), Err(Error::UnknownAddressType)));
    assert!(matches!(reply_len(&[4, 0, 0, 1]), Err(Error::InvalidResponseVersion)));
    assert!(matches!(reply_len(&[5, 0, 1, 1]), Err(Error::InvalidReservedByte)));
}

#[test]
fn reply_codes() {
    let reply = |code: u8| reply_len(&[5, code, 0, 1]);
    assert!(matches!(reply(1), Err(Error::GeneralSocksServerFailure)));
    assert!(matches!(reply(2), Err(Error::ConnectionNotAllowedByRuleset)));
    assert!(matches!(reply(3), Err(Error::NetworkUnreachable)));
    assert!(matches!(reply(4), Err(Error::HostUnreachable)));
    assert!(matches!(reply(5), Err(Error::ConnectionRefused)));
    assert!(matches!(reply(6), Err(Error::TtlExpired)));
    assert!(matches!(reply(7), Err(Error::CommandNotSupported)));
    assert!(matches!(reply(8), Err(Error::AddressTypeNotSupported)));
    assert!(matches!(reply(9), Err(Error::UnknownError)));
    assert!(matches!(reply(0xff), Err(Error::UnknownError)));
}

#[test]
fn replies_give_bound_address() {
    let addr = read_reply(&[5, 0, 0, 1, 127, 0, 0, 1, 0x04, 0x38]).unwrap();
    assert_eq!(addr, TargetAddr::Ip(SocketAddr::V4 { ip: [127, 0, 0, 1], port: 1080 }));
    let addr = read_reply(&[5, 0, 0, 3, 2, b'h', b'k', 0, 22]).unwrap();
    assert_eq!(addr, TargetAddr::Domain("hk".into(), 22));
    assert!(matches!(read_reply(&[5, 5, 0, 1, 0, 0, 0, 0, 0, 0]), Err(Error::ConnectionRefused)));
}

#[test]
fn unreachable_proxy_error() {
    assert!(matches!(proxy_unreachable_error(None), Error::ProxyServerUnreachable));
    let io = std::io::Error::new(std::io::ErrorKind::ConnectionRefused, "refused");
    match proxy_unreachable_error(Some(io)) {
        Error::Io(e) => assert_eq!(e.kind(), std::io::ErrorKind::ConnectionRefused),
        other => panic!("unexpected error {:?}", other),
    }
}

#[test]
fn stream_keeps_socket_and_target() {
    let target = TargetAddr::Domain("example.org".into(), 443);
    let mut stream = Socks5Stream::new(7u32, target.clone());
    assert_eq!(*stream, 7);
    *stream += 1;
    assert_eq!(stream.target_addr(), target);
    assert_eq!(stream.into_inner(), 8);
}

#[test]
fn target_addr_clone_is_equal() {
    let owned = TargetAddr::Domain(String::from("x.y").into(), 1);
    assert_eq!(owned.clone(), owned);
    let ip = TargetAddr::Ip(SocketAddr::V6 { ip: [1; 16], port: 9 });
    assert_eq!(ip.clone(), ip);
}
