use cft_proxy::socks5::{
    be16, AddrType, Method, MethodNegotiation, MethodSelectionMessage, Reply, RequestCommand,
    Socks5Error, SocksReply, SocksRequest,
};

fn greeting(methods: Vec<Method>) -> Vec<u8> {
    let mut out = Vec::new();
    MethodNegotiation { methods }.send(&mut out);
    out
}

#[test]
fn greeting_round_trip_no_auth() {
    let bytes = greeting(vec![Method::NoAuth]);
    assert_eq!(bytes, vec![0x05, 0x01, 0x00]);
    let (g, n) = MethodNegotiation::parse(&bytes).unwrap();
    assert_eq!(g.methods, vec![Method::NoAuth]);
    assert_eq!(n, 3);
}

#[test]
fn greeting_parse_stops_at_its_end() {
    let (g, n) = MethodNegotiation::parse(&[5, 2, 2, 0xff, 5, 1]).unwrap();
    assert_eq!(g.methods, vec![Method::UserPass, Method::NoAcceptable]);
    assert_eq!(n, 4);
}

#[test]
fn greeting_with_no_methods() {
    let (g, n) = MethodNegotiation::parse(&[5, 0]).unwrap();
    assert!(g.methods.is_empty());
    assert_eq!(n, 2);
}

#[test]
fn greeting_bad_version_fails() {
    assert_eq!(
        MethodNegotiation::parse(&[4, 1, 0]).unwrap_err(),
        Socks5Error::UnsupportedVersion(4)
    );
    assert_eq!(
        MethodNegotiation::parse(&[0, 0]).unwrap_err(),
        Socks5Error::UnsupportedVersion(0)
    );
}

#[test]
fn greeting_incomplete_says_how_much() {
    assert_eq!(MethodNegotiation::parse(&[]).unwrap_err(), Socks5Error::Incomplete(2));
    assert_eq!(MethodNegotiation::parse(&[5]).unwrap_err(), Socks5Error::Incomplete(2));
    assert_eq!(MethodNegotiation::parse(&[5, 3, 0]).unwrap_err(), Socks5Error::Incomplete(5));
}

#[test]
fn greeting_unknown_method_is_rejected() {
    assert_eq!(
        MethodNegotiation::parse(&[5, 3, 0, 7, 9]).unwrap_err(),
        Socks5Error::InvalidMethod(7)
    );
}

#[test]
fn select_without_no_auth_is_unsupported() {
    let g = MethodNegotiation { methods: vec![Method::Gssapi, Method::UserPass] };
    assert_eq!(g.select_method(), Err(Socks5Error::AuthUnsupported));
    let empty = MethodNegotiation { methods: vec![] };
    assert_eq!(empty.select_method(), Err(Socks5Error::AuthUnsupported));
}

#[test]
fn select_picks_no_auth_when_offered() {
    let g = MethodNegotiation { methods: vec![Method::UserPass, Method::NoAuth] };
    assert_eq!(g.select_method(), Ok(Method::NoAuth));
}

#[test]
fn selection_message_bytes() {
    let mut out = vec![0xaa];
    MethodSelectionMessage { method: Method::NoAuth }.send(&mut out);
    assert_eq!(out, vec![0xaa, 0x05, 0x00]);
    let mut out = Vec::new();
    MethodSelectionMessage { method: Method::NoAcceptable }.send(&mut out);
    assert_eq!(out, vec![0x05, 0xff]);
}

#[test]
fn codes_convert_both_ways() {
    for m in [Method::NoAuth, Method::Gssapi, Method::UserPass, Method::NoAcceptable] {
        assert_eq!(Method::from_code(m.code()), Some(m));
    }
    assert_eq!(Method::from_code(3), None);
    assert_eq!(RequestCommand::from_code(0x03), Some(RequestCommand::UdpAssociate));
    assert_eq!(RequestCommand::from_code(0x00), None);
    assert_eq!(AddrType::from_code(0x04), Some(AddrType::IPv6));
    assert_eq!(AddrType::from_code(0x02), None);
    assert_eq!(Reply::AddressTypeNotSupported.code(), 0x08);
}

#[test]
fn be16_is_big_endian() {
    assert_eq!(be16(0x01, 0xbb), 443);
    assert_eq!(be16(0xff, 0xff), 65535);
    assert_eq!(be16(0x00, 0x50), 80);
}

#[test]
fn request_ipv4_round_trip() {
    let req = SocksRequest {
        command: RequestCommand::Connect,
        addr_type: AddrType::IPv4,
        dest_addr: vec![127, 0, 0, 1],
        dest_port: 80,
    };
    let mut bytes = Vec::new();
    req.send(&mut bytes);
    assert_eq!(bytes, vec![0x05, 0x01, 0x00, 0x01, 0x7f, 0x00, 0x00, 0x01, 0x00, 0x50]);
    let (parsed, n) = SocksRequest::parse(&bytes).unwrap();
    assert_eq!(parsed.command, RequestCommand::Connect);
    assert_eq!(parsed.addr_type, AddrType::IPv4);
    assert_eq!(parsed.dest_addr, vec![127, 0, 0, 1]);
    assert_eq!(parsed.dest_port, 80);
    assert_eq!(n, 10);
}

#[test]
fn request_domain_round_trip() {
    let req = SocksRequest {
        command: RequestCommand::Connect,
        addr_type: AddrType::DomainName,
        dest_addr: b"example.com".to_vec(),
        dest_port: 443,
    };
    let mut bytes = Vec::new();
    req.send(&mut bytes);
    assert_eq!(bytes.len(), 4 + 1 + 11 + 2);
    assert_eq!(bytes[4], 11);
    bytes.extend_from_slice(&[1, 2, 3]);
    let (parsed, n) = SocksRequest::parse(&bytes).unwrap();
    assert_eq!(parsed.addr_type, AddrType::DomainName);
    assert_eq!(String::from_utf8(parsed.dest_addr).unwrap(), "example.com");
    assert_eq!(parsed.dest_port, 443);
    assert_eq!(n, 18);
}

#[test]
fn request_empty_domain_is_accepted() {
    let (parsed, n) = SocksRequest::parse(&[5, 1, 0, 3, 0, 0x1f, 0x90]).unwrap();
    assert!(parsed.dest_addr.is_empty());
    assert_eq!(parsed.dest_port, 8080);
    assert_eq!(n, 7);
}

#[test]
fn request_domain_must_be_text() {
    let bytes = [5, 1, 0, 3, 2, 0xc3, 0x28, 0, 80];
    assert_eq!(SocksRequest::parse(&bytes).unwrap_err(), Socks5Error::InvalidDomainName);
    let (frame, n) = SocksRequest::parse_frame(&bytes).unwrap();
    assert_eq!(frame.dest_addr, vec![0xc3, 0x28]);
    assert_eq!(n, 9);
}

#[test]
fn request_reserved_byte_is_ignored() {
    let (parsed, _) = SocksRequest::parse(&[5, 2, 0x77, 1, 10, 0, 0, 1, 0, 22]).unwrap();
    assert_eq!(parsed.command, RequestCommand::Bind);
    assert_eq!(parsed.dest_port, 22);
}

#[test]
fn request_errors() {
    assert_eq!(
        SocksRequest::parse(&[4, 1, 0, 1]).unwrap_err(),
        Socks5Error::UnsupportedVersion(4)
    );
    assert_eq!(
        SocksRequest::parse(&[5, 4, 0, 1]).unwrap_err(),
        Socks5Error::InvalidCommand(4)
    );
    assert_eq!(
        SocksRequest::parse(&[5, 1, 0, 2]).unwrap_err(),
        Socks5Error::InvalidAddrType(2)
    );
    assert_eq!(
        SocksRequest::parse(&[5, 1, 0, 4]).unwrap_err(),
        Socks5Error::UnsupportedAddrType(AddrType::IPv6)
    );
}

#[test]
fn request_incomplete_says_how_much() {
    assert_eq!(SocksRequest::parse(&[5, 1, 0]).unwrap_err(), Socks5Error::Incomplete(4));
    assert_eq!(
        SocksRequest::parse(&[5, 1, 0, 1, 127, 0]).unwrap_err(),
        Socks5Error::Incomplete(10)
    );
    assert_eq!(SocksRequest::parse(&[5, 1, 0, 3]).unwrap_err(), Socks5Error::Incomplete(5));
    assert_eq!(
        SocksRequest::parse(&[5, 1, 0, 3, 11, b'e', b'x']).unwrap_err(),
        Socks5Error::Incomplete(18)
    );
}

#[test]
fn success_reply_is_ten_bytes() {
    let reply = SocksReply::success();
    let mut out = Vec::new();
    reply.send(&mut out);
    assert_eq!(out, vec![0x05, 0x00, 0x00, 0x01, 0x00, 0x00, 0x00, 0x00, 0x00, 0x00]);
}

#[test]
fn reply_encodes_every_field() {
    let reply = SocksReply {
        reply: Reply::HostUnreachable,
        addr_type: AddrType::IPv4,
        bind_addr: vec![10, 0, 0, 7],
        bind_port: 0x1f90,
    };
    let mut out = Vec::new();
    reply.send(&mut out);
    assert_eq!(out, vec![0x05, 0x04, 0x00, 0x01, 10, 0, 0, 7, 0x1f, 0x90]);
}

#[test]
fn greeting_largest_size_round_trip() {
    let methods = vec![Method::Gssapi; 255];
    let bytes = greeting(methods.clone());
    assert_eq!(bytes.len(), 257);
    assert_eq!(MethodNegotiation::parse(&bytes[..200]).unwrap_err(), Socks5Error::Incomplete(257));
    let (g, n) = MethodNegotiation::parse(&bytes).unwrap();
    assert_eq!(g.methods, methods);
    assert_eq!(n, 257);
}

#[test]
fn accept_frame_refuses_only_non_text_domains() {
    let domain = SocksRequest {
        command: RequestCommand::Connect,
        addr_type: AddrType::DomainName,
        dest_addr: vec![0xff],
        dest_port: 1,
    };
    assert_eq!(domain.accept_frame(8, false).unwrap_err(), Socks5Error::InvalidDomainName);
    let ipv4 = SocksRequest {
        command: RequestCommand::Bind,
        addr_type: AddrType::IPv4,
        dest_addr: vec![1, 2, 3, 4],
        dest_port: 2,
    };
    let (q, n) = ipv4.accept_frame(10, false).unwrap();
    assert_eq!(q.dest_addr, vec![1, 2, 3, 4]);
    assert_eq!(n, 10);
}
