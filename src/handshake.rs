use vstd::prelude::*;
use crate::codec::{Header, VERSION_REQUEST};
use crate::opcode::Opcode;

verus! {

/// Why a negotiation failed.
#[derive(Debug, Clone, Copy, PartialEq, Eq, Structural)]
pub enum HandshakeError {
    /// The server answered with an Error frame.
    ServerError,
    /// The server kept challenging past the round limit.
    AuthExhausted,
    /// The server sent a message kind that the current state does not expect.
    ProtocolViolation(Opcode),
}

#[derive(Debug, Clone, Copy, PartialEq, Eq, Structural)]
pub enum HandshakeState {
    Connecting,
    AwaitingReady,
    AwaitingAuthResponse,
    AwaitingAuthSuccess,
    Ready,
    Failed(HandshakeError),
}

/// What the driver of the connection must do next.
#[derive(Debug, Clone, Copy, PartialEq, Eq, Structural)]
pub enum Action {
    /// Nothing; keep reading.
    Wait,
    /// Ask the authenticator for a response body and send it as AuthResponse.
    Authenticate,
    /// Negotiation is over: the connection is open for requests.
    Done,
    /// Negotiation failed: close the connection.
    Fail(HandshakeError),
}

/// Negotiation of one connection, from Startup to Ready.
pub struct Handshake {
    state: HandshakeState,
    stream: i16,
    rounds: u32,
    max_rounds: u32,
}

/// The state, challenge count and action after a response with opcode `op`.
pub open spec fn next_spec(s: HandshakeState, rounds: u32, max_rounds: u32, op: Opcode) -> (
    HandshakeState,
    u32,
    Action,
) {
    let fail = |e: HandshakeError| (HandshakeState::Failed(e), rounds, Action::Fail(e));
    match s {
        HandshakeState::AwaitingReady => match op {
            Opcode::Ready => (HandshakeState::Ready, rounds, Action::Done),
            Opcode::Authenticate => (HandshakeState::AwaitingAuthResponse, rounds, Action::Authenticate),
            Opcode::Error => fail(HandshakeError::ServerError),
            _ => fail(HandshakeError::ProtocolViolation(op)),
        },
        HandshakeState::AwaitingAuthSuccess => match op {
            Opcode::AuthSuccess => (HandshakeState::Ready, rounds, Action::Done),
            Opcode::AuthChallenge => if rounds >= max_rounds {
                fail(HandshakeError::AuthExhausted)
            } else {
                (HandshakeState::AwaitingAuthResponse, (rounds + 1) as u32, Action::Authenticate)
            },
            Opcode::Error => fail(HandshakeError::ServerError),
            _ => fail(HandshakeError::ProtocolViolation(op)),
        },
        HandshakeState::Connecting | HandshakeState::AwaitingAuthResponse => fail(
            HandshakeError::ProtocolViolation(op),
        ),
        HandshakeState::Ready | HandshakeState::Failed(_) => (s, rounds, Action::Wait),
    }
}

/// A negotiation request header on `stream`.
pub open spec fn negotiation_header(op: Opcode, stream: i16, length: u32) -> Header {
    Header { version: VERSION_REQUEST, flags: 0, stream, opcode: op, length }
}

impl Handshake {
    pub closed spec fn state(&self) -> HandshakeState {
        self.state
    }

    /// Challenges answered so far.
    pub closed spec fn rounds(&self) -> u32 {
        self.rounds
    }

    pub closed spec fn max_rounds(&self) -> u32 {
        self.max_rounds
    }

    /// The stream that every negotiation frame uses.
    pub closed spec fn stream(&self) -> i16 {
        self.stream
    }

    /// A negotiation on `stream` that allows at most `max_rounds` challenges.
    pub fn new(max_rounds: u32, stream: i16) -> (r: Handshake)
        requires
            stream >= 0,
        ensures
            r.state() == HandshakeState::Connecting,
            r.rounds() == 0,
            r.max_rounds() == max_rounds,
            r.stream() == stream,
    {
        Handshake { state: HandshakeState::Connecting, stream, rounds: 0, max_rounds }
    }

    pub fn negotiation_stream(&self) -> (r: i16)
        ensures
            r == self.stream(),
    {
        self.stream
    }

    pub fn current(&self) -> (r: HandshakeState)
        ensures
            r == self.state(),
    {
        self.state
    }

    pub fn is_ready(&self) -> (r: bool)
        ensures
            r == (self.state() == HandshakeState::Ready),
    {
        self.state == HandshakeState::Ready
    }

    /// Begins negotiation: gives the Startup header for a body of
    /// `body_len` bytes and waits for Ready. Outside `Connecting` it gives
    /// nothing and changes nothing.
    pub fn start(&mut self, body_len: u32) -> (r: Option<Header>)
        ensures
            old(self).state() == HandshakeState::Connecting ==> r == Some(
                negotiation_header(Opcode::Startup, old(self).stream(), body_len),
            ) && final(self).state() == HandshakeState::AwaitingReady,
            old(self).state() != HandshakeState::Connecting ==> r is None && final(self).state()
                == old(self).state(),
            final(self).rounds() == old(self).rounds(),
            final(self).max_rounds() == old(self).max_rounds(),
            final(self).stream() == old(self).stream(),
    {
        if self.state == HandshakeState::Connecting {
            self.state = HandshakeState::AwaitingReady;
            Some(
                Header {
                    version: VERSION_REQUEST,
                    flags: 0,
                    stream: self.stream,
                    opcode: Opcode::Startup,
                    length: body_len,
                },
            )
        } else {
            None
        }
    }

    /// Records that the authenticator's answer is being sent: gives the
    /// AuthResponse header for a body of `body_len` bytes and waits for
    /// AuthSuccess or another challenge. Outside `AwaitingAuthResponse` it
    /// gives nothing and changes nothing.
    pub fn send_auth_response(&mut self, body_len: u32) -> (r: Option<Header>)
        ensures
            old(self).state() == HandshakeState::AwaitingAuthResponse ==> r == Some(
                negotiation_header(Opcode::AuthResponse, old(self).stream(), body_len),
            ) && final(self).state() == HandshakeState::AwaitingAuthSuccess,
            old(self).state() != HandshakeState::AwaitingAuthResponse ==> r is None
                && final(self).state() == old(self).state(),
            final(self).rounds() == old(self).rounds(),
            final(self).max_rounds() == old(self).max_rounds(),
            final(self).stream() == old(self).stream(),
    {
        if self.state == HandshakeState::AwaitingAuthResponse {
            self.state = HandshakeState::AwaitingAuthSuccess;
            Some(
                Header {
                    version: VERSION_REQUEST,
                    flags: 0,
                    stream: self.stream,
                    opcode: Opcode::AuthResponse,
                    length: body_len,
                },
            )
        } else {
            None
        }
    }

    /// Takes the server's response of kind `op` and moves on.
    pub fn on_response(&mut self, op: Opcode) -> (r: Action)
        ensures
            ({
                let (s, n, a) = next_spec(old(self).state(), old(self).rounds(), old(self).max_rounds(), op);
                final(self).state() == s && final(self).rounds() == n && r == a
            }),
            final(self).max_rounds() == old(self).max_rounds(),
            final(self).stream() == old(self).stream(),
    {
        match self.state {
            HandshakeState::AwaitingReady => match op {
                Opcode::Ready => {
                    self.state = HandshakeState::Ready;
                    Action::Done
                },
                Opcode::Authenticate => {
                    self.state = HandshakeState::AwaitingAuthResponse;
                    Action::Authenticate
                },
                Opcode::Error => self.fail(HandshakeError::ServerError),
                _ => self.fail(HandshakeError::ProtocolViolation(op)),
            },
            HandshakeState::AwaitingAuthSuccess => match op {
                Opcode::AuthSuccess => {
                    self.state = HandshakeState::Ready;
                    Action::Done
                },
                Opcode::AuthChallenge => {
                    if self.rounds >= self.max_rounds {
                        self.fail(HandshakeError::AuthExhausted)
                    } else {
                        self.rounds = self.rounds + 1;
                        self.state = HandshakeState::AwaitingAuthResponse;
                        Action::Authenticate
                    }
                },
                Opcode::Error => self.fail(HandshakeError::ServerError),
                _ => self.fail(HandshakeError::ProtocolViolation(op)),
            },
            HandshakeState::Connecting | HandshakeState::AwaitingAuthResponse => self.fail(
                HandshakeError::ProtocolViolation(op),
            ),
            HandshakeState::Ready | HandshakeState::Failed(_) => Action::Wait,
        }
    }

    fn fail(&mut self, e: HandshakeError) -> (r: Action)
        ensures
            final(self).state() == HandshakeState::Failed(e),
            final(self).rounds() == old(self).rounds(),
            final(self).max_rounds() == old(self).max_rounds(),
            final(self).stream() == old(self).stream(),
            r == Action::Fail(e),
    {
        self.state = HandshakeState::Failed(e);
        Action::Fail(e)
    }
}

} // verus!
