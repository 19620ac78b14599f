use vstd::prelude::*;
use crate::codec::{Frame, Header, VERSION_REQUEST};
use crate::handshake::{Action, Handshake, HandshakeError, HandshakeState, negotiation_header, next_spec};
use crate::mux::{Dispatch, MuxError, StreamMultiplexer, Ticket, Slot, MAX_STREAMS};
use crate::opcode::Opcode;

verus! {

#[derive(Debug, Clone, Copy, PartialEq, Eq, Structural)]
pub enum ConnState {
    Connecting,
    Negotiating,
    Ready,
    Closing,
    Closed,
}

#[derive(Debug, Clone, Copy, PartialEq, Eq, Structural)]
pub enum ConnError {
    /// Requests wait until negotiation is over.
    NotReady,
    /// The multiplexer refused.
    Mux(MuxError),
}

/// The end of a connection: why it ended and the requests it failed.
#[derive(Debug, Clone)]
pub struct Teardown {
    pub error: MuxError,
    pub failed: Vec<Ticket>,
}

/// What a frame received during negotiation led to.
#[derive(Debug, Clone)]
pub enum Negotiation {
    /// A server-pushed event, for the event channel; negotiation is unchanged.
    Event(Frame),
    /// The handshake moved on; the driver performs the action.
    Step(Action),
    /// The server answered with an Error frame, whose body (error code and
    /// message) is carried here; the connection is closed.
    Refused(Vec<u8>),
}

/// One logical connection: negotiation, then multiplexed requests.
pub struct Connection {
    state: ConnState,
    handshake: Handshake,
    mux: StreamMultiplexer,
}

/// A general-purpose request header.
pub open spec fn request_header(stream: i16, op: Opcode, length: u32) -> Header {
    Header { version: VERSION_REQUEST, flags: 0, stream, opcode: op, length }
}

impl Connection {
    pub closed spec fn state(&self) -> ConnState {
        self.state
    }

    pub closed spec fn mux(&self) -> StreamMultiplexer {
        self.mux
    }

    pub closed spec fn handshake(&self) -> Handshake {
        self.handshake
    }

    pub open spec fn wf(&self) -> bool {
        self.mux().wf()
    }

    /// A connection with a pool of `max_streams` streams that negotiates on
    /// `negotiation_stream` and allows at most `max_rounds` authentication
    /// challenges.
    pub fn new(max_streams: u16, max_rounds: u32, negotiation_stream: i16) -> (r: Connection)
        requires
            max_streams <= MAX_STREAMS,
            negotiation_stream >= 0,
        ensures
            r.wf(),
            r.state() == ConnState::Connecting,
            r.handshake().state() == HandshakeState::Connecting,
            r.handshake().rounds() == 0,
            r.handshake().max_rounds() == max_rounds,
            r.handshake().stream() == negotiation_stream,
            r.mux().slots() == Seq::new(max_streams as nat, |_i: int| Slot::Free),
    {
        Connection {
            state: ConnState::Connecting,
            handshake: Handshake::new(max_rounds, negotiation_stream),
            mux: StreamMultiplexer::new(max_streams),
        }
    }

    pub fn current(&self) -> (r: ConnState)
        ensures
            r == self.state(),
    {
        self.state
    }

    /// Starts negotiation: the Startup header to send, for a body of
    /// `body_len` bytes. Only a fresh connection starts.
    pub fn begin(&mut self, body_len: u32) -> (r: Option<Header>)
        requires
            old(self).wf(),
        ensures
            final(self).wf(),
            final(self).mux() == old(self).mux(),
            final(self).handshake().rounds() == old(self).handshake().rounds(),
            final(self).handshake().max_rounds() == old(self).handshake().max_rounds(),
            final(self).handshake().stream() == old(self).handshake().stream(),
            old(self).state() == ConnState::Connecting && old(self).handshake().state()
                == HandshakeState::Connecting ==> r == Some(
                negotiation_header(Opcode::Startup, old(self).handshake().stream(), body_len),
            ) && final(self).state() == ConnState::Negotiating && final(self).handshake().state()
                == HandshakeState::AwaitingReady,
            !(old(self).state() == ConnState::Connecting && old(self).handshake().state()
                == HandshakeState::Connecting) ==> r is None && final(self).state() == old(
                self,
            ).state() && final(self).handshake().state() == old(self).handshake().state(),
    {
        if self.state != ConnState::Connecting {
            return None;
        }
        let r = self.handshake.start(body_len);
        if r.is_some() {
            self.state = ConnState::Negotiating;
        }
        r
    }

    /// The header of the AuthResponse whose body of `body_len` bytes the
    /// authenticator produced.
    pub fn answer_challenge(&mut self, body_len: u32) -> (r: Option<Header>)
        requires
            old(self).wf(),
        ensures
            final(self).wf(),
            final(self).mux() == old(self).mux(),
            final(self).state() == old(self).state(),
            final(self).handshake().rounds() == old(self).handshake().rounds(),
            final(self).handshake().max_rounds() == old(self).handshake().max_rounds(),
            final(self).handshake().stream() == old(self).handshake().stream(),
            old(self).state() == ConnState::Negotiating && old(self).handshake().state()
                == HandshakeState::AwaitingAuthResponse ==> r == Some(
                negotiation_header(Opcode::AuthResponse, old(self).handshake().stream(), body_len),
            ) && final(self).handshake().state() == HandshakeState::AwaitingAuthSuccess,
            !(old(self).state() == ConnState::Negotiating && old(self).handshake().state()
                == HandshakeState::AwaitingAuthResponse) ==> r is None && final(self).handshake().state()
                == old(self).handshake().state(),
    {
        if self.state != ConnState::Negotiating {
            return None;
        }
        self.handshake.send_auth_response(body_len)
    }

    /// Takes a frame received while negotiating. Events go to the event
    /// channel and change nothing. Any other frame must come on the
    /// negotiation stream: one on another stream is unsolicited and closes
    /// the connection. On that stream the handshake takes the frame's kind;
    /// on `Done` the connection is ready, on failure it is closed, and a
    /// server Error hands back the frame's body.
    pub fn on_negotiation(&mut self, frame: Frame) -> (r: Result<Negotiation, Teardown>)
        requires
            old(self).wf(),
        ensures
            final(self).wf(),
            final(self).handshake().max_rounds() == old(self).handshake().max_rounds(),
            final(self).handshake().stream() == old(self).handshake().stream(),
            ({
                let s = frame.header.stream;
                let op = frame.header.opcode;
                let hs = old(self).handshake();
                let (next_state, next_rounds, action) = next_spec(hs.state(), hs.rounds(), hs.max_rounds(), op);
                if old(self).state() != ConnState::Negotiating {
                    r matches Ok(Negotiation::Step(a)) && a == Action::Wait
                        && final(self).state() == old(self).state()
                        && final(self).mux() == old(self).mux()
                        && final(self).handshake() == old(self).handshake()
                } else if crate::mux::is_event(s, op) {
                    r matches Ok(Negotiation::Event(f)) && f == frame
                        && final(self).state() == old(self).state()
                        && final(self).mux() == old(self).mux()
                        && final(self).handshake() == old(self).handshake()
                } else if s != hs.stream() {
                    &&& r matches Err(td) && td.error == MuxError::UnsolicitedResponse(s)
                        && (forall|t: Ticket| td.failed@.contains(t) <==> old(self).mux().holds(t))
                        && td.failed@.no_duplicates()
                    &&& final(self).state() == ConnState::Closed
                    &&& final(self).handshake() == old(self).handshake()
                } else {
                    &&& final(self).mux() == old(self).mux()
                    &&& final(self).handshake().state() == next_state
                    &&& final(self).handshake().rounds() == next_rounds
                    &&& action == Action::Fail(HandshakeError::ServerError) ==> (r matches Ok(
                        Negotiation::Refused(b),
                    ) && b@ == frame.body@)
                    &&& action != Action::Fail(HandshakeError::ServerError) ==> r == Ok::<
                        Negotiation,
                        Teardown,
                    >(Negotiation::Step(action))
                    &&& final(self).state() == match action {
                        Action::Done => ConnState::Ready,
                        Action::Fail(_) => ConnState::Closed,
                        _ => ConnState::Negotiating,
                    }
                }
            }),
    {
        if self.state != ConnState::Negotiating {
            return Ok(Negotiation::Step(Action::Wait));
        }
        let s = frame.header.stream;
        if s == crate::mux::EVENT_STREAM || frame.header.opcode == Opcode::Event {
            return Ok(Negotiation::Event(frame));
        }
        if s != self.handshake.negotiation_stream() {
            let failed = self.close();
            return Err(Teardown { error: MuxError::UnsolicitedResponse(s), failed });
        }
        let a = self.handshake.on_response(frame.header.opcode);
        match a {
            Action::Done => {
                self.state = ConnState::Ready;
                Ok(Negotiation::Step(a))
            },
            Action::Fail(HandshakeError::ServerError) => {
                self.state = ConnState::Closed;
                Ok(Negotiation::Refused(frame.body))
            },
            Action::Fail(_) => {
                self.state = ConnState::Closed;
                Ok(Negotiation::Step(a))
            },
            _ => Ok(Negotiation::Step(a)),
        }
    }

    /// Reserves a stream for a request of kind `op` with a body of
    /// `body_len` bytes, registers it as pending, and gives its ticket and
    /// the header to write.
    pub fn start_request(&mut self, op: Opcode, body_len: u32) -> (r: Result<(Ticket, Header), ConnError>)
        requires
            old(self).wf(),
        ensures
            final(self).wf(),
            final(self).state() == old(self).state(),
            old(self).state() != ConnState::Ready ==> r == Err::<(Ticket, Header), ConnError>(
                ConnError::NotReady,
            ) && *final(self) == *old(self),
            old(self).state() == ConnState::Ready ==> match r {
                Ok((t, h)) => {
                    &&& old(self).mux().is_lowest_free(t.stream as int)
                    &&& t.generation == old(self).mux().next_generation()
                    &&& h == request_header(t.stream, op, body_len)
                    &&& final(self).mux().slots() == old(self).mux().slots().update(
                        t.stream as int,
                        Slot::Pending(t.generation),
                    )
                    &&& final(self).mux().holds(t)
                },
                Err(e) => {
                    &&& final(self).mux().slots() == old(self).mux().slots()
                    &&& (e == ConnError::Mux(MuxError::Busy) && forall|j: int|
                        0 <= j < old(self).mux().slots().len() ==> old(self).mux().slots()[j]
                            != Slot::Free) || (e == ConnError::Mux(MuxError::GenerationsExhausted)
                        && old(self).mux().next_generation() == u64::MAX)
                },
            },
    {
        if self.state != ConnState::Ready {
            return Err(ConnError::NotReady);
        }
        let id = match self.mux.allocate_stream() {
            Ok(id) => id,
            Err(e) => return Err(ConnError::Mux(e)),
        };
        match self.mux.register_pending(id) {
            Ok(t) => Ok(
                (
                    t,
                    Header {
                        version: VERSION_REQUEST,
                        flags: 0,
                        stream: t.stream,
                        opcode: op,
                        length: body_len,
                    },
                ),
            ),
            Err(e) => {
                self.mux.cancel_reservation(id);
                Err(ConnError::Mux(e))
            },
        }
    }

    /// Gives up waiting on `t`; its stream is free again. A late response
    /// on that stream is then unsolicited.
    pub fn cancel(&mut self, t: Ticket) -> (r: bool)
        requires
            old(self).wf(),
        ensures
            final(self).wf(),
            final(self).state() == old(self).state(),
            r == old(self).mux().holds(t),
            r ==> final(self).mux().slots() == old(self).mux().slots().update(
                t.stream as int,
                Slot::Free,
            ),
            !r ==> final(self).mux().slots() == old(self).mux().slots(),
    {
        self.mux.cancel(t)
    }

    /// Routes an inbound frame of an open connection. A response that no
    /// request waits on closes the connection and fails every pending
    /// request.
    pub fn on_inbound(&mut self, frame: Frame) -> (r: Result<Dispatch, Teardown>)
        requires
            old(self).wf(),
        ensures
            final(self).wf(),
            match r {
                Ok(d) => final(self).state() == old(self).state(),
                Err(td) => {
                    let s = frame.header.stream;
                    &&& !crate::mux::is_event(s, frame.header.opcode)
                    &&& !(0 <= s < old(self).mux().slots().len() && old(self).mux().slots()[s as int] is Pending)
                    &&& td.error == MuxError::UnsolicitedResponse(s)
                    &&& final(self).state() == ConnState::Closed
                    &&& forall|t: Ticket| td.failed@.contains(t) <==> old(self).mux().holds(t)
                    &&& td.failed@.no_duplicates()
                },
            },
            crate::mux::is_event(frame.header.stream, frame.header.opcode) ==> (r matches Ok(
                Dispatch::Event(f),
            ) && f == frame),
            r matches Ok(Dispatch::Event(f)) ==> f == frame && crate::mux::is_event(
                frame.header.stream,
                frame.header.opcode,
            ) && final(self).mux().slots() == old(self).mux().slots(),
            r matches Ok(Dispatch::Deliver(t, f)) ==> f == frame && old(self).mux().holds(t)
                && t.stream == frame.header.stream && final(self).mux().slots() == old(
                self,
            ).mux().slots().update(t.stream as int, Slot::Free),
    {
        match self.mux.dispatch_inbound(frame) {
            Ok(d) => Ok(d),
            Err(e) => {
                let failed = self.close();
                Err(Teardown { error: e, failed })
            },
        }
    }

    /// Closes the connection: every pending request is failed, each once,
    /// and the pool is freed.
    pub fn close(&mut self) -> (r: Vec<Ticket>)
        requires
            old(self).wf(),
        ensures
            final(self).wf(),
            final(self).state() == ConnState::Closed,
            final(self).handshake() == old(self).handshake(),
            final(self).mux().slots() == Seq::new(old(self).mux().slots().len(), |_i: int| Slot::Free),
            forall|t: Ticket| r@.contains(t) <==> old(self).mux().holds(t),
            r@.no_duplicates(),
    {
        self.state = ConnState::Closing;
        let failed = self.mux.fail_all_pending();
        self.state = ConnState::Closed;
        failed
    }
}

} // verus!
