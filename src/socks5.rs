//! The SOCKS5 wire codec: the method-negotiation handshake, connection
//! requests and replies.
//!
//! Parsers work on the bytes received so far. A parser that needs more bytes
//! says how many it needs in all (`Socks5Error::Incomplete`), and it asks only
//! for bytes that belong to the message, so a reader that fetches exactly that
//! many never reads past the message. Encoders append the message to an
//! output buffer.

use vstd::prelude::*;

verus! {

/// The protocol version byte, in every greeting, request and reply.
pub const SOCKS_VERSION: u8 = 5;

/// An authentication method code.
#[derive(Clone, Copy, Debug, PartialEq, Eq, Structural)]
pub enum Method {
    NoAuth,
    Gssapi,
    UserPass,
    NoAcceptable,
}

/// The wire code of a method.
pub open spec fn method_code(m: Method) -> u8 {
    match m {
        Method::NoAuth => 0x00,
        Method::Gssapi => 0x01,
        Method::UserPass => 0x02,
        Method::NoAcceptable => 0xff,
    }
}

/// The method that a wire code stands for, if any.
pub open spec fn method_of_code(b: u8) -> Option<Method> {
    if b == 0x00 {
        Some(Method::NoAuth)
    } else if b == 0x01 {
        Some(Method::Gssapi)
    } else if b == 0x02 {
        Some(Method::UserPass)
    } else if b == 0xff {
        Some(Method::NoAcceptable)
    } else {
        None
    }
}

impl Method {
    /// The method that `b` codes for, if any.
    pub fn from_code(b: u8) -> (r: Option<Method>)
        ensures
            r == method_of_code(b),
    {
        if b == 0x00 {
            Some(Method::NoAuth)
        } else if b == 0x01 {
            Some(Method::Gssapi)
        } else if b == 0x02 {
            Some(Method::UserPass)
        } else if b == 0xff {
            Some(Method::NoAcceptable)
        } else {
            None
        }
    }

    /// The wire code of this method.
    pub fn code(self) -> (r: u8)
        ensures
            r == method_code(self),
    {
        match self {
            Method::NoAuth => 0x00,
            Method::Gssapi => 0x01,
            Method::UserPass => 0x02,
            Method::NoAcceptable => 0xff,
        }
    }
}

/// The command of a connection request.
#[derive(Clone, Copy, Debug, PartialEq, Eq, Structural)]
pub enum RequestCommand {
    Connect,
    Bind,
    UdpAssociate,
}

/// The wire code of a command.
pub open spec fn command_code(c: RequestCommand) -> u8 {
    match c {
        RequestCommand::Connect => 0x01,
        RequestCommand::Bind => 0x02,
        RequestCommand::UdpAssociate => 0x03,
    }
}

/// The command that a wire code stands for, if any.
pub open spec fn command_of_code(b: u8) -> Option<RequestCommand> {
    if b == 0x01 {
        Some(RequestCommand::Connect)
    } else if b == 0x02 {
        Some(RequestCommand::Bind)
    } else if b == 0x03 {
        Some(RequestCommand::UdpAssociate)
    } else {
        None
    }
}

impl RequestCommand {
    /// The command that `b` codes for, if any.
    pub fn from_code(b: u8) -> (r: Option<RequestCommand>)
        ensures
            r == command_of_code(b),
    {
        if b == 0x01 {
            Some(RequestCommand::Connect)
        } else if b == 0x02 {
            Some(RequestCommand::Bind)
        } else if b == 0x03 {
            Some(RequestCommand::UdpAssociate)
        } else {
            None
        }
    }

    /// The wire code of this command.
    pub fn code(self) -> (r: u8)
        ensures
            r == command_code(self),
    {
        match self {
            RequestCommand::Connect => 0x01,
            RequestCommand::Bind => 0x02,
            RequestCommand::UdpAssociate => 0x03,
        }
    }
}

/// The kind of an address field.
#[derive(Clone, Copy, Debug, PartialEq, Eq, Structural)]
pub enum AddrType {
    IPv4,
    DomainName,
    IPv6,
}

/// The wire code of an address type.
pub open spec fn addr_type_code(a: AddrType) -> u8 {
    match a {
        AddrType::IPv4 => 0x01,
        AddrType::DomainName => 0x03,
        AddrType::IPv6 => 0x04,
    }
}

/// The address type that a wire code stands for, if any.
pub open spec fn addr_type_of_code(b: u8) -> Option<AddrType> {
    if b == 0x01 {
        Some(AddrType::IPv4)
    } else if b == 0x03 {
        Some(AddrType::DomainName)
    } else if b == 0x04 {
        Some(AddrType::IPv6)
    } else {
        None
    }
}

impl AddrType {
    /// The address type that `b` codes for, if any.
    pub fn from_code(b: u8) -> (r: Option<AddrType>)
        ensures
            r == addr_type_of_code(b),
    {
        if b == 0x01 {
            Some(AddrType::IPv4)
        } else if b == 0x03 {
            Some(AddrType::DomainName)
        } else if b == 0x04 {
            Some(AddrType::IPv6)
        } else {
            None
        }
    }

    /// The wire code of this address type.
    pub fn code(self) -> (r: u8)
        ensures
            r == addr_type_code(self),
    {
        match self {
            AddrType::IPv4 => 0x01,
            AddrType::DomainName => 0x03,
            AddrType::IPv6 => 0x04,
        }
    }
}

/// The status code of a reply.
#[derive(Clone, Copy, Debug, PartialEq, Eq, Structural)]
pub enum Reply {
    Succeeded,
    GeneralFailure,
    ConnectionNotAllowed,
    NetworkUnreachable,
    HostUnreachable,
    ConnectionRefused,
    TtlExpired,
    CommandNotSupported,
    AddressTypeNotSupported,
}

/// The wire code of a reply status.
pub open spec fn reply_code(r: Reply) -> u8 {
    match r {
        Reply::Succeeded => 0x00,
        Reply::GeneralFailure => 0x01,
        Reply::ConnectionNotAllowed => 0x02,
        Reply::NetworkUnreachable => 0x03,
        Reply::HostUnreachable => 0x04,
        Reply::ConnectionRefused => 0x05,
        Reply::TtlExpired => 0x06,
        Reply::CommandNotSupported => 0x07,
        Reply::AddressTypeNotSupported => 0x08,
    }
}

impl Reply {
    /// The wire code of this status.
    pub fn code(self) -> (r: u8)
        ensures
            r == reply_code(self),
    {
        match self {
            Reply::Succeeded => 0x00,
            Reply::GeneralFailure => 0x01,
            Reply::ConnectionNotAllowed => 0x02,
            Reply::NetworkUnreachable => 0x03,
            Reply::HostUnreachable => 0x04,
            Reply::ConnectionRefused => 0x05,
            Reply::TtlExpired => 0x06,
            Reply::CommandNotSupported => 0x07,
            Reply::AddressTypeNotSupported => 0x08,
        }
    }
}

/// Why a message could not be parsed, or a handshake not completed.
#[derive(Clone, Copy, Debug, PartialEq, Eq, Structural)]
pub enum Socks5Error {
    /// The bytes so far are a valid start, and the message needs this many
    /// bytes in all.
    Incomplete(usize),
    /// The version byte is not 5.
    UnsupportedVersion(u8),
    /// A method byte codes for no known method.
    InvalidMethod(u8),
    /// The command byte codes for no known command.
    InvalidCommand(u8),
    /// The address type byte codes for no known address type.
    InvalidAddrType(u8),
    /// A known address type that requests may not use.
    UnsupportedAddrType(AddrType),
    /// A domain name that is not UTF-8 text.
    InvalidDomainName,
    /// The client offered no method that this proxy accepts.
    AuthUnsupported,
}

/// The method codes of a greeting all code for known methods.
pub open spec fn all_methods_known(codes: Seq<u8>) -> bool {
    forall|i: int| 0 <= i < codes.len() ==> method_of_code(#[trigger] codes[i]) is Some
}

/// `k` is the position of the first method code that codes for no method.
pub open spec fn is_first_unknown_method(codes: Seq<u8>, k: int) -> bool {
    &&& 0 <= k < codes.len()
    &&& method_of_code(codes[k]) is None
    &&& forall|j: int| 0 <= j < k ==> method_of_code(#[trigger] codes[j]) is Some
}

/// The methods that known method codes stand for.
pub open spec fn decode_methods(codes: Seq<u8>) -> Seq<Method> {
    codes.map_values(|b: u8| method_of_code(b)->0)
}

/// The wire codes of a sequence of methods.
pub open spec fn encode_methods(ms: Seq<Method>) -> Seq<u8> {
    ms.map_values(|m: Method| method_code(m))
}

/// What a greeting parse makes of the bytes `s` received so far: the offered
/// methods and the length of the greeting, or why there is none.
pub open spec fn spec_parse_greeting(s: Seq<u8>) -> Result<(Seq<Method>, int), Socks5Error> {
    if s.len() < 2 {
        Err(Socks5Error::Incomplete(2))
    } else if s[0] != SOCKS_VERSION {
        Err(Socks5Error::UnsupportedVersion(s[0]))
    } else {
        let end = 2 + s[1];
        if s.len() < end {
            Err(Socks5Error::Incomplete(end as usize))
        } else {
            let codes = s.subrange(2, end);
            if all_methods_known(codes) {
                Ok((decode_methods(codes), end))
            } else {
                let k = choose|k: int| is_first_unknown_method(codes, k);
                Err(Socks5Error::InvalidMethod(codes[k]))
            }
        }
    }
}

/// The wire form of a greeting that offers `ms`.
pub open spec fn greeting_bytes(ms: Seq<Method>) -> Seq<u8> {
    seq![SOCKS_VERSION, ms.len() as u8] + encode_methods(ms)
}

/// The client's method-negotiation greeting.
#[derive(Debug)]
pub struct MethodNegotiation {
    pub methods: Vec<Method>,
}

impl View for MethodNegotiation {
    type V = Seq<Method>;

    open spec fn view(&self) -> Seq<Method> {
        self.methods@
    }
}

/// The spec-level outcome of a greeting parse.
pub open spec fn greeting_outcome(r: Result<(MethodNegotiation, usize), Socks5Error>) -> Result<
    (Seq<Method>, int),
    Socks5Error,
> {
    match r {
        Ok((g, k)) => Ok((g@, k as int)),
        Err(e) => Err(e),
    }
}

impl MethodNegotiation {
    /// Parses a greeting from the start of `input`: version, method count,
    /// then that many method codes. Returns the greeting and its length.
    pub fn parse(input: &[u8]) -> (r: Result<(MethodNegotiation, usize), Socks5Error>)
        ensures
            greeting_outcome(r) == spec_parse_greeting(input@),
    {
        if input.len() < 2 {
            return Err(Socks5Error::Incomplete(2));
        }
        if input[0] != SOCKS_VERSION {
            return Err(Socks5Error::UnsupportedVersion(input[0]));
        }
        let n = input[1] as usize;
        let end: usize = 2 + n;
        if input.len() < end {
            return Err(Socks5Error::Incomplete(end));
        }
        let ghost codes = input@.subrange(2, end as int);
        let mut methods: Vec<Method> = Vec::with_capacity(n);
        let mut i: usize = 0;
        while i < n
            invariant
                input@[0] == SOCKS_VERSION,
                n == input@[1],
                end == 2 + n,
                end <= input@.len(),
                codes == input@.subrange(2, end as int),
                i <= n,
                methods@ == decode_methods(codes.subrange(0, i as int)),
                forall|j: int| 0 <= j < i ==> method_of_code(#[trigger] codes[j]) is Some,
            decreases n - i,
        {
            match Method::from_code(input[2 + i]) {
                Some(m) => {
                    methods.push(m);
                    i += 1;
                    assert(decode_methods(codes.subrange(0, i as int)) =~= decode_methods(
                        codes.subrange(0, i - 1),
                    ).push(m));
                },
                None => {
                    proof {
                        assert(codes[i as int] == input@[2 + i]);
                        assert(is_first_unknown_method(codes, i as int));
                        assert(!all_methods_known(codes));
                        let k = choose|k: int| is_first_unknown_method(codes, k);
                        assert(k == i as int) by {
                            if k < i {
                                assert(method_of_code(codes[k]) is Some);
                            }
                            if k > i {
                                assert(method_of_code(codes[i as int]) is Some);
                            }
                        }
                        assert(spec_parse_greeting(input@) == Err::<(Seq<Method>, int), Socks5Error>(
                            Socks5Error::InvalidMethod(codes[k]),
                        ));
                    }
                    return Err(Socks5Error::InvalidMethod(input[2 + i]));
                },
            }
        }
        assert(codes.subrange(0, n as int) =~= codes);
        Ok((MethodNegotiation { methods }, end))
    }

    /// Appends the wire form of this greeting to `out`.
    pub fn send(&self, out: &mut Vec<u8>)
        requires
            self@.len() <= 255,
        ensures
            final(out)@ == old(out)@ + greeting_bytes(self@),
    {
        out.push(SOCKS_VERSION);
        out.push(self.methods.len() as u8);
        let mut i: usize = 0;
        while i < self.methods.len()
            invariant
                i <= self@.len(),
                out@ == old(out)@ + seq![SOCKS_VERSION, self@.len() as u8] + encode_methods(
                    self@.subrange(0, i as int),
                ),
            decreases self@.len() - i,
        {
            out.push(self.methods[i].code());
            i += 1;
            assert(encode_methods(self@.subrange(0, i as int)) =~= encode_methods(
                self@.subrange(0, i - 1),
            ).push(method_code(self@[i - 1])));
        }
        assert(self@.subrange(0, self@.len() as int) =~= self@);
        assert(out@ =~= old(out)@ + greeting_bytes(self@));
    }

    /// Picks the method to use: no authentication, the only one this proxy
    /// speaks, if the client offers it.
    pub fn select_method(&self) -> (r: Result<Method, Socks5Error>)
        ensures
            self@.contains(Method::NoAuth) ==> r == Ok::<Method, Socks5Error>(Method::NoAuth),
            !self@.contains(Method::NoAuth) ==> r == Err::<Method, Socks5Error>(
                Socks5Error::AuthUnsupported,
            ),
    {
        let mut i: usize = 0;
        while i < self.methods.len()
            invariant
                i <= self@.len(),
                forall|j: int| 0 <= j < i ==> self@[j] != Method::NoAuth,
            decreases self@.len() - i,
        {
            if self.methods[i] == Method::NoAuth {
                assert(self@[i as int] == Method::NoAuth);
                return Ok(Method::NoAuth);
            }
            i += 1;
        }
        Err(Socks5Error::AuthUnsupported)
    }
}

/// Parsing an encoded greeting, with any bytes after it, gives back the
/// offered methods and the greeting's length.
pub proof fn lemma_greeting_round_trip(ms: Seq<Method>, rest: Seq<u8>)
    requires
        ms.len() <= 255,
    ensures
        spec_parse_greeting(greeting_bytes(ms) + rest) == Ok::<(Seq<Method>, int), Socks5Error>(
            (ms, 2 + ms.len() as int),
        ),
{
    let s = greeting_bytes(ms) + rest;
    let end = 2 + ms.len() as int;
    let codes = s.subrange(2, end);
    assert(codes =~= encode_methods(ms));
    assert(all_methods_known(codes));
    assert(decode_methods(codes) =~= ms);
}

/// A greeting whose version byte is not 5 never parses.
pub proof fn lemma_greeting_bad_version(s: Seq<u8>)
    requires
        s.len() > 0,
        s[0] != SOCKS_VERSION,
    ensures
        spec_parse_greeting(s) is Err,
        s.len() >= 2 ==> spec_parse_greeting(s) == Err::<(Seq<Method>, int), Socks5Error>(
            Socks5Error::UnsupportedVersion(s[0]),
        ),
{
}

/// The server's choice of method, sent in answer to the greeting.
#[derive(Clone, Copy, Debug, PartialEq, Eq, Structural)]
pub struct MethodSelectionMessage {
    pub method: Method,
}

/// The wire form of a method selection.
pub open spec fn selection_bytes(m: Method) -> Seq<u8> {
    seq![SOCKS_VERSION, method_code(m)]
}

impl MethodSelectionMessage {
    /// Appends the wire form of this selection to `out`.
    pub fn send(&self, out: &mut Vec<u8>)
        ensures
            final(out)@ == old(out)@ + selection_bytes(self.method),
    {
        out.push(SOCKS_VERSION);
        out.push(self.method.code());
        assert(final(out)@ =~= old(out)@ + selection_bytes(self.method));
    }
}

/// The 16-bit number that two bytes give in big-endian order.
pub open spec fn spec_be16(hi: u8, lo: u8) -> u16 {
    (hi as int * 256 + lo as int) as u16
}

/// The two big-endian bytes of a 16-bit number.
pub open spec fn port_bytes(p: u16) -> Seq<u8> {
    seq![(p / 256) as u8, (p % 256) as u8]
}

/// Reads a 16-bit number from two big-endian bytes.
pub fn be16(hi: u8, lo: u8) -> (r: u16)
    ensures
        r == spec_be16(hi, lo),
{
    (hi as u16) * 256 + (lo as u16)
}

/// Appends the two big-endian bytes of `p` to `out`.
fn push_be16(out: &mut Vec<u8>, p: u16)
    ensures
        final(out)@ == old(out)@ + port_bytes(p),
{
    out.push((p / 256) as u8);
    out.push((p % 256) as u8);
    assert(final(out)@ =~= old(out)@ + port_bytes(p));
}

/// Appends the bytes of `src` to `out`.
fn push_all(out: &mut Vec<u8>, src: &[u8])
    ensures
        final(out)@ == old(out)@ + src@,
{
    let mut i: usize = 0;
    while i < src.len()
        invariant
            i <= src@.len(),
            out@ == old(out)@ + src@.subrange(0, i as int),
        decreases src@.len() - i,
    {
        out.push(src[i]);
        i += 1;
        assert(src@.subrange(0, i as int) =~= src@.subrange(0, i - 1).push(src@[i - 1]));
    }
    assert(src@.subrange(0, src@.len() as int) =~= src@);
}

/// A copy of `input[start..end]`.
fn copy_range(input: &[u8], start: usize, end: usize) -> (r: Vec<u8>)
    requires
        start <= end <= input@.len(),
    ensures
        r@ == input@.subrange(start as int, end as int),
{
    let mut out: Vec<u8> = Vec::with_capacity(end - start);
    let mut i: usize = start;
    while i < end
        invariant
            start <= i <= end <= input@.len(),
            out@ == input@.subrange(start as int, i as int),
        decreases end - i,
    {
        out.push(input[i]);
        i += 1;
        assert(input@.subrange(start as int, i as int) =~= input@.subrange(
            start as int,
            i - 1,
        ).push(input@[i - 1]));
    }
    out
}

/// Whether the bytes are well-formed UTF-8 text.
pub uninterp spec fn utf8_valid(b: Seq<u8>) -> bool;

/// Relies on `std::str::from_utf8`, which succeeds exactly on well-formed
/// UTF-8; the empty byte string is the empty text.
#[verifier::external_body]
fn is_utf8(b: &[u8]) -> (r: bool)
    ensures
        r == utf8_valid(b@),
        b@.len() == 0 ==> r,
{
    std::str::from_utf8(b).is_ok()
}

/// A connection request as a mathematical value.
pub ghost struct RequestView {
    pub command: RequestCommand,
    pub addr_type: AddrType,
    pub dest_addr: Seq<u8>,
    pub dest_port: u16,
}

/// A request that can be put on the wire: four address bytes for IPv4, a
/// name of at most 255 bytes for a domain.
pub open spec fn request_well_formed(r: RequestView) -> bool {
    ||| r.addr_type == AddrType::IPv4 && r.dest_addr.len() == 4
    ||| r.addr_type == AddrType::DomainName && r.dest_addr.len() <= 255
}

/// The address field of a request on the wire.
pub open spec fn address_bytes(a: AddrType, addr: Seq<u8>) -> Seq<u8> {
    if a == AddrType::DomainName {
        seq![addr.len() as u8] + addr
    } else {
        addr
    }
}

/// The wire form of a request; the reserved byte is zero.
pub open spec fn request_bytes(r: RequestView) -> Seq<u8> {
    seq![SOCKS_VERSION, command_code(r.command), 0u8, addr_type_code(r.addr_type)] + address_bytes(
        r.addr_type,
        r.dest_addr,
    ) + port_bytes(r.dest_port)
}

/// What a request parse makes of the bytes `s` received so far, before the
/// domain name is checked to be text: the request and its length, or why
/// there is none. The reserved byte is ignored.
pub open spec fn spec_parse_request_frame(s: Seq<u8>) -> Result<(RequestView, int), Socks5Error> {
    if s.len() < 4 {
        Err(Socks5Error::Incomplete(4))
    } else if s[0] != SOCKS_VERSION {
        Err(Socks5Error::UnsupportedVersion(s[0]))
    } else if command_of_code(s[1]) is None {
        Err(Socks5Error::InvalidCommand(s[1]))
    } else if addr_type_of_code(s[3]) is None {
        Err(Socks5Error::InvalidAddrType(s[3]))
    } else {
        let command = command_of_code(s[1])->0;
        let addr_type = addr_type_of_code(s[3])->0;
        if addr_type == AddrType::IPv4 {
            if s.len() < 10 {
                Err(Socks5Error::Incomplete(10))
            } else {
                Ok(
                    (
                        RequestView {
                            command,
                            addr_type,
                            dest_addr: s.subrange(4, 8),
                            dest_port: spec_be16(s[8], s[9]),
                        },
                        10,
                    ),
                )
            }
        } else if addr_type == AddrType::DomainName {
            if s.len() < 5 {
                Err(Socks5Error::Incomplete(5))
            } else {
                let n = s[4] as int;
                if s.len() < 7 + n {
                    Err(Socks5Error::Incomplete((7 + n) as usize))
                } else {
                    Ok(
                        (
                            RequestView {
                                command,
                                addr_type,
                                dest_addr: s.subrange(5, 5 + n),
                                dest_port: spec_be16(s[5 + n], s[6 + n]),
                            },
                            7 + n,
                        ),
                    )
                }
            }
        } else {
            Err(Socks5Error::UnsupportedAddrType(addr_type))
        }
    }
}

/// A domain name is acceptable when it is UTF-8 text; the empty name is.
pub open spec fn domain_text_ok(name: Seq<u8>) -> bool {
    name.len() == 0 || utf8_valid(name)
}

/// What a request parse makes of the bytes `s` received so far: as the frame
/// parse, and a domain name that is not UTF-8 text is refused.
pub open spec fn spec_parse_request(s: Seq<u8>) -> Result<(RequestView, int), Socks5Error> {
    match spec_parse_request_frame(s) {
        Ok((req, k)) => {
            if req.addr_type == AddrType::DomainName && !domain_text_ok(req.dest_addr) {
                Err(Socks5Error::InvalidDomainName)
            } else {
                Ok((req, k))
            }
        },
        Err(e) => Err(e),
    }
}

/// A connection request: command, destination address and port.
#[derive(Debug)]
pub struct SocksRequest {
    pub command: RequestCommand,
    pub addr_type: AddrType,
    pub dest_addr: Vec<u8>,
    pub dest_port: u16,
}

impl View for SocksRequest {
    type V = RequestView;

    open spec fn view(&self) -> RequestView {
        RequestView {
            command: self.command,
            addr_type: self.addr_type,
            dest_addr: self.dest_addr@,
            dest_port: self.dest_port,
        }
    }
}

/// The spec-level outcome of a request parse.
pub open spec fn request_outcome(r: Result<(SocksRequest, usize), Socks5Error>) -> Result<
    (RequestView, int),
    Socks5Error,
> {
    match r {
        Ok((q, k)) => Ok((q@, k as int)),
        Err(e) => Err(e),
    }
}

impl SocksRequest {
    /// Parses the frame of a request from the start of `input`: version,
    /// command, reserved byte, address type, address and big-endian port.
    /// Returns the request and its length. The domain name is not checked to
    /// be text here.
    pub fn parse_frame(input: &[u8]) -> (r: Result<(SocksRequest, usize), Socks5Error>)
        ensures
            request_outcome(r) == spec_parse_request_frame(input@),
    {
        if input.len() < 4 {
            return Err(Socks5Error::Incomplete(4));
        }
        if input[0] != SOCKS_VERSION {
            return Err(Socks5Error::UnsupportedVersion(input[0]));
        }
        let command = match RequestCommand::from_code(input[1]) {
            Some(c) => c,
            None => {
                return Err(Socks5Error::InvalidCommand(input[1]));
            },
        };
        let addr_type = match AddrType::from_code(input[3]) {
            Some(a) => a,
            None => {
                return Err(Socks5Error::InvalidAddrType(input[3]));
            },
        };
        match addr_type {
            AddrType::IPv4 => {
                if input.len() < 10 {
                    return Err(Socks5Error::Incomplete(10));
                }
                let dest_addr = copy_range(input, 4, 8);
                let dest_port = be16(input[8], input[9]);
                Ok((SocksRequest { command, addr_type, dest_addr, dest_port }, 10))
            },
            AddrType::DomainName => {
                if input.len() < 5 {
                    return Err(Socks5Error::Incomplete(5));
                }
                let n = input[4] as usize;
                let end: usize = 7 + n;
                if input.len() < end {
                    return Err(Socks5Error::Incomplete(end));
                }
                let dest_addr = copy_range(input, 5, 5 + n);
                let dest_port = be16(input[5 + n], input[6 + n]);
                Ok((SocksRequest { command, addr_type, dest_addr, dest_port }, end))
            },
            AddrType::IPv6 => Err(Socks5Error::UnsupportedAddrType(AddrType::IPv6)),
        }
    }

    /// Completes the parse of a request frame of length `len`, given whether
    /// its domain name is UTF-8 text: a domain name that is not is refused.
    pub fn accept_frame(self, len: usize, name_is_text: bool) -> (r: Result<
        (SocksRequest, usize),
        Socks5Error,
    >)
        ensures
            self.addr_type == AddrType::DomainName && !name_is_text ==> r == Err::<
                (SocksRequest, usize),
                Socks5Error,
            >(Socks5Error::InvalidDomainName),
            !(self.addr_type == AddrType::DomainName && !name_is_text) ==> (r matches Ok((q, k)) && q
                == self && k == len),
    {
        if self.addr_type == AddrType::DomainName && !name_is_text {
            Err(Socks5Error::InvalidDomainName)
        } else {
            Ok((self, len))
        }
    }

    /// Parses a request from the start of `input`, as `parse_frame` does, and
    /// refuses a domain name that is not UTF-8 text.
    pub fn parse(input: &[u8]) -> (r: Result<(SocksRequest, usize), Socks5Error>)
        ensures
            request_outcome(r) == spec_parse_request(input@),
    {
        match Self::parse_frame(input) {
            Ok((req, k)) => {
                let name_is_text = req.addr_type != AddrType::DomainName || is_utf8(
                    req.dest_addr.as_slice(),
                );
                req.accept_frame(k, name_is_text)
            },
            Err(e) => Err(e),
        }
    }

    /// Appends the wire form of this request to `out`.
    pub fn send(&self, out: &mut Vec<u8>)
        requires
            request_well_formed(self@),
        ensures
            final(out)@ == old(out)@ + request_bytes(self@),
    {
        out.push(SOCKS_VERSION);
        out.push(self.command.code());
        out.push(0u8);
        out.push(self.addr_type.code());
        if self.addr_type == AddrType::DomainName {
            out.push(self.dest_addr.len() as u8);
        }
        push_all(out, self.dest_addr.as_slice());
        push_be16(out, self.dest_port);
        assert(final(out)@ =~= old(out)@ + request_bytes(self@));
    }
}

/// Both bytes of a port read back as the port.
pub proof fn lemma_port_round_trip(p: u16)
    ensures
        port_bytes(p).len() == 2,
        spec_be16(port_bytes(p)[0], port_bytes(p)[1]) == p,
{
}

/// Parsing the wire form of a well-formed request, with any bytes after it,
/// gives back the request and its length.
pub proof fn lemma_request_frame_round_trip(r: RequestView, rest: Seq<u8>)
    requires
        request_well_formed(r),
    ensures
        spec_parse_request_frame(request_bytes(r) + rest) == Ok::<(RequestView, int), Socks5Error>(
            (r, request_bytes(r).len() as int),
        ),
{
    let s = request_bytes(r) + rest;
    lemma_port_round_trip(r.dest_port);
    if r.addr_type == AddrType::IPv4 {
        assert(s.subrange(4, 8) =~= r.dest_addr);
        assert(s[8] == port_bytes(r.dest_port)[0]);
        assert(s[9] == port_bytes(r.dest_port)[1]);
    } else {
        let n = r.dest_addr.len() as int;
        assert(s[4] == n as u8);
        assert(s.subrange(5, 5 + n) =~= r.dest_addr);
        assert(s[5 + n] == port_bytes(r.dest_port)[0]);
        assert(s[6 + n] == port_bytes(r.dest_port)[1]);
    }
}

/// Parsing the wire form of a well-formed request whose domain name, if any,
/// is UTF-8 text gives back the request and its length.
pub proof fn lemma_request_round_trip(r: RequestView, rest: Seq<u8>)
    requires
        request_well_formed(r),
        r.addr_type == AddrType::DomainName ==> domain_text_ok(r.dest_addr),
    ensures
        spec_parse_request(request_bytes(r) + rest) == Ok::<(RequestView, int), Socks5Error>(
            (r, request_bytes(r).len() as int),
        ),
{
    lemma_request_frame_round_trip(r, rest);
}

/// A request whose version byte is not 5 never parses.
pub proof fn lemma_request_bad_version(s: Seq<u8>)
    requires
        s.len() > 0,
        s[0] != SOCKS_VERSION,
    ensures
        spec_parse_request(s) is Err,
{
}

/// A reply as a mathematical value.
pub ghost struct ReplyView {
    pub reply: Reply,
    pub addr_type: AddrType,
    pub bind_addr: Seq<u8>,
    pub bind_port: u16,
}

/// The wire form of a reply: version, status, reserved zero, address type,
/// the raw bound address and the big-endian bound port.
pub open spec fn reply_bytes(r: ReplyView) -> Seq<u8> {
    seq![SOCKS_VERSION, reply_code(r.reply), 0u8, addr_type_code(r.addr_type)] + r.bind_addr
        + port_bytes(r.bind_port)
}

/// The reply that reports a successful connect: IPv4 0.0.0.0, port 0.
pub open spec fn success_reply() -> ReplyView {
    ReplyView {
        reply: Reply::Succeeded,
        addr_type: AddrType::IPv4,
        bind_addr: seq![0u8, 0u8, 0u8, 0u8],
        bind_port: 0,
    }
}

/// The reply to a connection request.
#[derive(Debug)]
pub struct SocksReply {
    pub reply: Reply,
    pub addr_type: AddrType,
    pub bind_addr: Vec<u8>,
    pub bind_port: u16,
}

impl View for SocksReply {
    type V = ReplyView;

    open spec fn view(&self) -> ReplyView {
        ReplyView {
            reply: self.reply,
            addr_type: self.addr_type,
            bind_addr: self.bind_addr@,
            bind_port: self.bind_port,
        }
    }
}

impl SocksReply {
    /// Appends the wire form of this reply to `out`.
    pub fn send(&self, out: &mut Vec<u8>)
        ensures
            final(out)@ == old(out)@ + reply_bytes(self@),
    {
        out.push(SOCKS_VERSION);
        out.push(self.reply.code());
        out.push(0u8);
        out.push(self.addr_type.code());
        push_all(out, self.bind_addr.as_slice());
        push_be16(out, self.bind_port);
        assert(final(out)@ =~= old(out)@ + reply_bytes(self@));
    }

    /// The reply sent once the destination is connected. It reports the
    /// unspecified IPv4 address and port 0, not the real local endpoint.
    pub fn success() -> (r: SocksReply)
        ensures
            r@ == success_reply(),
    {
        let r = SocksReply {
            reply: Reply::Succeeded,
            addr_type: AddrType::IPv4,
            bind_addr: vec![0u8, 0u8, 0u8, 0u8],
            bind_port: 0,
        };
        assert(r.bind_addr@ =~= seq![0u8, 0u8, 0u8, 0u8]);
        r
    }
}

/// The success reply is ten bytes on the wire: `05 00 00 01` and six zeros.
pub proof fn lemma_success_reply_bytes()
    ensures
        reply_bytes(success_reply()) == seq![5u8, 0u8, 0u8, 1u8, 0u8, 0u8, 0u8, 0u8, 0u8, 0u8],
{
    assert(reply_bytes(success_reply()) =~= seq![5u8, 0u8, 0u8, 1u8, 0u8, 0u8, 0u8, 0u8, 0u8, 0u8]);
}

} // verus!
