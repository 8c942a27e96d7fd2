//! The per-connection protocol state machine of the proxy server.
//!
//! The session decides; its driver does the I/O. The driver keeps a buffer of
//! the bytes received from the client, hands it to [`Session::on_input`] and
//! performs the action that comes back: read more, drop the bytes of a parsed
//! message and write a reply, resolve and connect to a destination (reporting
//! the outcome to [`Session::on_connect`]), relay, or close.

use crate::socks5::{
    reply_bytes, selection_bytes, spec_parse_greeting, spec_parse_request, success_reply, Method,
    MethodNegotiation, MethodSelectionMessage, RequestCommand, Socks5Error, SocksReply,
    SocksRequest,
};
use vstd::prelude::*;

verus! {

/// Where a session stands in the protocol.
#[derive(Clone, Copy, Debug, PartialEq, Eq, Structural)]
pub enum SessionState {
    /// Waiting for the client's greeting.
    Start,
    /// The method is selected; waiting for a request.
    AwaitRequest,
    /// A connect request is being served: its destination is being resolved
    /// and connected to.
    Connecting,
    /// Bytes are being relayed between the client and the destination.
    Relaying,
    /// The connection is to be torn down; nothing more happens on it.
    Closed,
}

/// What the driver of a session is to do next.
#[derive(Debug)]
pub enum SessionAction {
    /// Read until the input buffer holds this many bytes, then hand it in
    /// again. If the client closes first, the session ends.
    NeedMore(usize),
    /// Drop the first `consumed` bytes of the input buffer and write `bytes`
    /// to the client.
    Reply { consumed: usize, bytes: Vec<u8> },
    /// Drop the first `consumed` bytes of the input buffer: the request is
    /// not served and gets no answer.
    Skip { consumed: usize },
    /// Drop the first `consumed` bytes of the input buffer, then resolve and
    /// connect to the destination of `request`.
    Connect { consumed: usize, request: SocksRequest },
    /// Write `reply` to the client, then relay in both directions until the
    /// relay ends.
    Relay { reply: Vec<u8> },
    /// Tear the connection down without a word.
    Close,
}

/// The protocol state of one client connection.
pub struct Session {
    state: SessionState,
}

impl View for Session {
    type V = SessionState;

    closed spec fn view(&self) -> SessionState {
        self.state
    }
}

impl Session {
    /// A session for a freshly accepted connection.
    pub fn new() -> (r: Session)
        ensures
            r@ == SessionState::Start,
    {
        Session { state: SessionState::Start }
    }

    /// Where the session stands.
    pub fn state(&self) -> (r: SessionState)
        ensures
            r == self@,
    {
        self.state
    }

    /// Handles the bytes received so far and not yet consumed. In a state
    /// that waits for no input, the session closes.
    pub fn on_input(&mut self, buf: &[u8]) -> (r: SessionAction)
        ensures
            old(self)@ == SessionState::Start ==> match spec_parse_greeting(buf@) {
                Err(Socks5Error::Incomplete(n)) => r == SessionAction::NeedMore(n) && final(self)@
                    == SessionState::Start,
                Err(_) => r is Close && final(self)@ == SessionState::Closed,
                Ok((ms, k)) => if ms.contains(Method::NoAuth) {
                    &&& r matches SessionAction::Reply { consumed, bytes } && consumed == k
                        && bytes@ == selection_bytes(Method::NoAuth)
                    &&& final(self)@ == SessionState::AwaitRequest
                } else {
                    r is Close && final(self)@ == SessionState::Closed
                },
            },
            old(self)@ == SessionState::AwaitRequest ==> match spec_parse_request(buf@) {
                Err(Socks5Error::Incomplete(n)) => r == SessionAction::NeedMore(n) && final(self)@
                    == SessionState::AwaitRequest,
                Err(_) => r is Close && final(self)@ == SessionState::Closed,
                Ok((q, k)) => if q.command == RequestCommand::Connect {
                    &&& r matches SessionAction::Connect { consumed, request } && consumed == k
                        && request@ == q
                    &&& final(self)@ == SessionState::Connecting
                } else {
                    r == SessionAction::Skip { consumed: k as usize } && final(self)@
                        == SessionState::AwaitRequest
                },
            },
            old(self)@ != SessionState::Start && old(self)@ != SessionState::AwaitRequest ==> (r
                is Close && final(self)@ == SessionState::Closed),
    {
        match self.state {
            SessionState::Start => self.on_greeting(buf),
            SessionState::AwaitRequest => self.on_request(buf),
            _ => {
                self.state = SessionState::Closed;
                SessionAction::Close
            },
        }
    }

    fn on_greeting(&mut self, buf: &[u8]) -> (r: SessionAction)
        requires
            old(self)@ == SessionState::Start,
        ensures
            match spec_parse_greeting(buf@) {
                Err(Socks5Error::Incomplete(n)) => r == SessionAction::NeedMore(n) && final(self)@
                    == SessionState::Start,
                Err(_) => r is Close && final(self)@ == SessionState::Closed,
                Ok((ms, k)) => if ms.contains(Method::NoAuth) {
                    &&& r matches SessionAction::Reply { consumed, bytes } && consumed == k
                        && bytes@ == selection_bytes(Method::NoAuth)
                    &&& final(self)@ == SessionState::AwaitRequest
                } else {
                    r is Close && final(self)@ == SessionState::Closed
                },
            },
    {
        match MethodNegotiation::parse(buf) {
            Err(Socks5Error::Incomplete(n)) => SessionAction::NeedMore(n),
            Err(_) => {
                self.state = SessionState::Closed;
                SessionAction::Close
            },
            Ok((greeting, consumed)) => match greeting.select_method() {
                Ok(method) => {
                    let mut bytes: Vec<u8> = Vec::new();
                    MethodSelectionMessage { method }.send(&mut bytes);
                    self.state = SessionState::AwaitRequest;
                    SessionAction::Reply { consumed, bytes }
                },
                Err(_) => {
                    self.state = SessionState::Closed;
                    SessionAction::Close
                },
            },
        }
    }

    fn on_request(&mut self, buf: &[u8]) -> (r: SessionAction)
        requires
            old(self)@ == SessionState::AwaitRequest,
        ensures
            match spec_parse_request(buf@) {
                Err(Socks5Error::Incomplete(n)) => r == SessionAction::NeedMore(n) && final(self)@
                    == SessionState::AwaitRequest,
                Err(_) => r is Close && final(self)@ == SessionState::Closed,
                Ok((q, k)) => if q.command == RequestCommand::Connect {
                    &&& r matches SessionAction::Connect { consumed, request } && consumed == k
                        && request@ == q
                    &&& final(self)@ == SessionState::Connecting
                } else {
                    r == SessionAction::Skip { consumed: k as usize } && final(self)@
                        == SessionState::AwaitRequest
                },
            },
    {
        match SocksRequest::parse(buf) {
            Err(Socks5Error::Incomplete(n)) => SessionAction::NeedMore(n),
            Err(_) => {
                self.state = SessionState::Closed;
                SessionAction::Close
            },
            Ok((request, consumed)) => match request.command {
                RequestCommand::Connect => {
                    self.state = SessionState::Connecting;
                    SessionAction::Connect { consumed, request }
                },
                _ => SessionAction::Skip { consumed },
            },
        }
    }

    /// Handles the outcome of resolving and connecting to the destination:
    /// on success the client gets the success reply and the relay starts;
    /// on failure the session closes without a reply.
    pub fn on_connect(&mut self, connected: bool) -> (r: SessionAction)
        ensures
            old(self)@ == SessionState::Connecting && connected ==> {
                &&& r matches SessionAction::Relay { reply } && reply@ == reply_bytes(
                    success_reply(),
                )
                &&& final(self)@ == SessionState::Relaying
            },
            !(old(self)@ == SessionState::Connecting && connected) ==> (r is Close && final(self)@
                == SessionState::Closed),
    {
        if self.state == SessionState::Connecting && connected {
            let mut reply: Vec<u8> = Vec::new();
            SocksReply::success().send(&mut reply);
            self.state = SessionState::Relaying;
            SessionAction::Relay { reply }
        } else {
            self.state = SessionState::Closed;
            SessionAction::Close
        }
    }

    /// Ends the session, as when the relay completes or aborts.
    pub fn close(&mut self)
        ensures
            final(self)@ == SessionState::Closed,
    {
        self.state = SessionState::Closed;
    }
}

} // verus!
