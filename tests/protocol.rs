use cql_frame::codec::{decode_header, encode_frame, encode_header, Frame, Header};
use cql_frame::connection::{ConnError, ConnState, Connection, Negotiation};
use cql_frame::handshake::{Action, Handshake, HandshakeError, HandshakeState};
use cql_frame::mux::{Dispatch, MuxError, StreamMultiplexer, Ticket};
use cql_frame::opcode::{DecodeError, Opcode};
use cql_frame::reader::{FrameReader, ReadError};

const ALL: [Opcode; 16] = [
    Opcode::Error,
    Opcode::Startup,
    Opcode::Ready,
    Opcode::Authenticate,
    Opcode::Options,
    Opcode::Supported,
    Opcode::Query,
    Opcode::Result,
    Opcode::Prepare,
    Opcode::Execute,
    Opcode::Register,
    Opcode::Event,
    Opcode::Batch,
    Opcode::AuthChallenge,
    Opcode::AuthResponse,
    Opcode::AuthSuccess,
];

fn header(stream: i16, opcode: Opcode, length: u32) -> Header {
    Header { version: 0x84, flags: 0, stream, opcode, length }
}

fn frame(stream: i16, opcode: Opcode, body: Vec<u8>) -> Frame {
    Frame { header: header(stream, opcode, body.len() as u32), body }
}

#[test]
fn startup_header_bytes() {
    let h = Header { version: 0x04, flags: 0x00, stream: 7, opcode: Opcode::Startup, length: 0 };
    assert_eq!(encode_header(&h), vec![0x04, 0x00, 0x00, 0x07, 0x01, 0x00, 0x00, 0x00, 0x00]);
}

#[test]
fn header_bytes_big_endian_and_negative_stream() {
    let h = Header { version: 0x84, flags: 0x0A, stream: -1, opcode: Opcode::Event, length: 0x01020304 };
    assert_eq!(encode_header(&h), vec![0x84, 0x0A, 0xFF, 0xFF, 0x0C, 0x01, 0x02, 0x03, 0x04]);
}

#[test]
fn header_round_trip_samples() {
    for &op in ALL.iter() {
        for &stream in [-32768i16, -1, 0, 7, 256, 32767].iter() {
            for &version in [0x04u8, 0x84].iter() {
                let h = Header { version, flags: 0x0F, stream, opcode: op, length: 0xDEADBEEF };
                assert_eq!(decode_header(&encode_header(&h)), Ok(h));
            }
        }
    }
}

#[test]
fn decode_ignores_bytes_past_header() {
    let b = [0x84u8, 0, 0, 3, 0x08, 0, 0, 0, 2, 0xAA, 0xBB];
    assert_eq!(decode_header(&b), Ok(header(3, Opcode::Result, 2)));
}

#[test]
fn decode_errors() {
    assert_eq!(decode_header(&[0x84, 0, 0, 1]), Err(DecodeError::Truncated));
    assert_eq!(decode_header(&[0x03, 0, 0, 1, 0x02, 0, 0, 0, 0]), Err(DecodeError::UnsupportedVersion(0x03)));
    assert_eq!(decode_header(&[0x84, 0, 0, 1, 0x04, 0, 0, 0, 0]), Err(DecodeError::UnknownOpcode(0x04)));
    assert_eq!(decode_header(&[0x84, 0, 0, 1, 0x11, 0, 0, 0, 0]), Err(DecodeError::UnknownOpcode(0x11)));
}

#[test]
fn opcode_wire_values() {
    let expected: [u8; 16] = [0, 1, 2, 3, 5, 6, 7, 8, 9, 0x0A, 0x0B, 0x0C, 0x0D, 0x0E, 0x0F, 0x10];
    for (op, b) in ALL.iter().zip(expected.iter()) {
        assert_eq!(op.to_wire(), *b);
        assert_eq!(Opcode::from_wire(*b), Ok(*op));
    }
}

#[test]
fn opcode_unknown_bytes() {
    for b in 0u16..=255 {
        let b = b as u8;
        let known = b <= 0x10 && b != 0x04;
        match Opcode::from_wire(b) {
            Ok(op) => {
                assert!(known);
                assert_eq!(op.to_wire(), b);
            }
            Err(e) => {
                assert!(!known);
                assert_eq!(e, DecodeError::UnknownOpcode(b));
            }
        }
    }
}

#[test]
fn encode_frame_appends_body() {
    let f = frame(2, Opcode::Query, vec![9, 8, 7]);
    assert_eq!(encode_frame(&f), vec![0x84, 0, 0, 2, 0x07, 0, 0, 0, 3, 9, 8, 7]);
}

fn read_all(chunks: &[&[u8]]) -> Vec<(Header, Vec<u8>)> {
    let mut r = FrameReader::new();
    let mut out = Vec::new();
    for c in chunks {
        r.feed(c);
        while let Some(f) = r.next_frame().unwrap() {
            out.push((f.header, f.body));
        }
    }
    assert_eq!(r.finish(), Ok(()));
    out
}

#[test]
fn partial_reads_give_same_frames() {
    let mut wire = encode_frame(&frame(1, Opcode::Result, vec![1, 2, 3, 4, 5]));
    wire.extend(encode_frame(&frame(-1, Opcode::Event, vec![])));
    wire.extend(encode_frame(&frame(2, Opcode::Ready, vec![6])));
    let whole = read_all(&[&wire]);
    assert_eq!(whole.len(), 3);
    assert_eq!(whole[0], (header(1, Opcode::Result, 5), vec![1, 2, 3, 4, 5]));
    assert_eq!(whole[1], (header(-1, Opcode::Event, 0), vec![]));
    let bytes: Vec<&[u8]> = wire.chunks(1).collect();
    assert_eq!(read_all(&bytes), whole);
    let threes: Vec<&[u8]> = wire.chunks(3).collect();
    assert_eq!(read_all(&threes), whole);
}

#[test]
fn reader_waits_for_body_and_reports_truncation() {
    let wire = encode_frame(&frame(4, Opcode::Result, vec![1, 2, 3]));
    let mut r = FrameReader::new();
    r.feed(&wire[..10]);
    assert!(r.next_frame().unwrap().is_none());
    assert_eq!(r.buffered_len(), 10);
    assert_eq!(r.finish(), Err(ReadError::IoTruncated));
    r.feed(&wire[10..]);
    let f = r.next_frame().unwrap().unwrap();
    assert_eq!(f.body, vec![1, 2, 3]);
    assert_eq!(r.buffered_len(), 0);
}

#[test]
fn reader_reports_bad_header() {
    let mut r = FrameReader::new();
    r.feed(&[0x84, 0, 0, 1, 0x04, 0, 0, 0, 0]);
    assert_eq!(r.next_frame().unwrap_err(), DecodeError::UnknownOpcode(0x04));
    assert_eq!(r.buffered_len(), 9);
}

#[test]
fn allocate_lowest_free_and_busy() {
    let mut m = StreamMultiplexer::new(3);
    assert_eq!(m.capacity(), 3);
    assert_eq!(m.allocate_stream(), Ok(0));
    assert_eq!(m.allocate_stream(), Ok(1));
    assert_eq!(m.allocate_stream(), Ok(2));
    assert_eq!(m.allocate_stream(), Err(MuxError::Busy));
    let t1 = m.register_pending(1).unwrap();
    assert!(m.cancel(t1));
    assert_eq!(m.allocate_stream(), Ok(1));
}

#[test]
fn stream_ids_never_shared() {
    let mut m = StreamMultiplexer::new(4);
    let mut live: Vec<Ticket> = Vec::new();
    for round in 0..20 {
        if round % 3 == 2 {
            let t = live.remove(0);
            assert!(m.cancel(t));
        } else if let Ok(id) = m.allocate_stream() {
            let t = m.register_pending(id).unwrap();
            assert!(live.iter().all(|u| u.stream != t.stream && u.generation != t.generation));
            live.push(t);
        }
    }
}

#[test]
fn register_errors() {
    let mut m = StreamMultiplexer::new(2);
    assert_eq!(m.register_pending(-1), Err(MuxError::InvalidStream));
    assert_eq!(m.register_pending(2), Err(MuxError::InvalidStream));
    let t = m.register_pending(0).unwrap();
    assert_eq!(t, Ticket { stream: 0, generation: 0 });
    assert_eq!(m.register_pending(0), Err(MuxError::AlreadyPending));
}

#[test]
fn stale_ticket_cancel_is_noop() {
    let mut m = StreamMultiplexer::new(1);
    let id = m.allocate_stream().unwrap();
    let old = m.register_pending(id).unwrap();
    assert!(m.cancel(old));
    let id = m.allocate_stream().unwrap();
    let new = m.register_pending(id).unwrap();
    assert_eq!(new.stream, old.stream);
    assert!(!m.cancel(old));
    assert_eq!(m.allocate_stream(), Err(MuxError::Busy));
    assert!(m.cancel(new));
}

#[test]
fn fail_all_pending_completes_each_once() {
    let mut m = StreamMultiplexer::new(5);
    let mut registered = Vec::new();
    for _ in 0..4 {
        let id = m.allocate_stream().unwrap();
        registered.push(m.register_pending(id).unwrap());
    }
    assert!(m.cancel(registered[1]));
    let kept: Vec<Ticket> = vec![registered[0], registered[2], registered[3]];
    let failed = m.fail_all_pending();
    assert_eq!(failed, kept);
    assert!(m.fail_all_pending().is_empty());
    assert_eq!(m.allocate_stream(), Ok(0));
}

#[test]
fn event_frame_goes_to_event_channel() {
    let mut m = StreamMultiplexer::new(2);
    let id = m.allocate_stream().unwrap();
    let t = m.register_pending(id).unwrap();
    match m.dispatch_inbound(frame(-1, Opcode::Event, vec![1])) {
        Ok(Dispatch::Event(f)) => assert_eq!(f.body, vec![1]),
        _ => panic!("expected an event"),
    }
    match m.dispatch_inbound(frame(0, Opcode::Event, vec![])) {
        Ok(Dispatch::Event(_)) => {}
        _ => panic!("expected an event"),
    }
    assert_eq!(m.fail_all_pending(), vec![t]);
}

#[test]
fn response_delivered_to_pending() {
    let mut m = StreamMultiplexer::new(2);
    let id = m.allocate_stream().unwrap();
    let t = m.register_pending(id).unwrap();
    match m.dispatch_inbound(frame(id, Opcode::Result, vec![5])) {
        Ok(Dispatch::Deliver(u, f)) => {
            assert_eq!(u, t);
            assert_eq!(f.body, vec![5]);
        }
        _ => panic!("expected a delivery"),
    }
    assert!(m.fail_all_pending().is_empty());
}

#[test]
fn unsolicited_response_closes_connection() {
    let mut c = ready_connection();
    let (t, _) = c.start_request(Opcode::Query, 0).unwrap();
    match c.on_inbound(frame(5, Opcode::Result, vec![])) {
        Err(td) => {
            assert_eq!(td.error, MuxError::UnsolicitedResponse(5));
            assert_eq!(td.failed, vec![t]);
        }
        Ok(_) => panic!("expected a teardown"),
    }
    assert_eq!(c.current(), ConnState::Closed);
    assert_eq!(c.start_request(Opcode::Query, 0).unwrap_err(), ConnError::NotReady);
}

#[test]
fn unsolicited_response_in_multiplexer() {
    let mut m = StreamMultiplexer::new(2);
    assert_eq!(m.dispatch_inbound(frame(1, Opcode::Result, vec![])).unwrap_err(), MuxError::UnsolicitedResponse(1));
    assert_eq!(m.dispatch_inbound(frame(9, Opcode::Result, vec![])).unwrap_err(), MuxError::UnsolicitedResponse(9));
}

#[test]
fn ready_with_stream_seven_completes_handshake() {
    let mut h = Handshake::new(3, 7);
    let start = h.start(0).unwrap();
    assert_eq!(start, Header { version: 0x04, flags: 0, stream: 7, opcode: Opcode::Startup, length: 0 });
    assert_eq!(h.current(), HandshakeState::AwaitingReady);
    let ready = header(7, Opcode::Ready, 0);
    assert_eq!(h.on_response(ready.opcode), Action::Done);
    assert_eq!(h.current(), HandshakeState::Ready);
    assert!(h.is_ready());
}

#[test]
fn authenticate_challenge_success() {
    let mut h = Handshake::new(3, 7);
    h.start(0);
    let mut responses = 0;
    assert_eq!(h.on_response(Opcode::Authenticate), Action::Authenticate);
    assert_eq!(h.current(), HandshakeState::AwaitingAuthResponse);
    assert_eq!(h.send_auth_response(4).unwrap().opcode, Opcode::AuthResponse);
    responses += 1;
    assert_eq!(h.current(), HandshakeState::AwaitingAuthSuccess);
    assert_eq!(h.on_response(Opcode::AuthChallenge), Action::Authenticate);
    assert_eq!(h.current(), HandshakeState::AwaitingAuthResponse);
    let resp = h.send_auth_response(2).unwrap();
    assert_eq!(resp, Header { version: 0x04, flags: 0, stream: 7, opcode: Opcode::AuthResponse, length: 2 });
    responses += 1;
    assert!(h.send_auth_response(2).is_none());
    assert_eq!(h.current(), HandshakeState::AwaitingAuthSuccess);
    assert_eq!(h.on_response(Opcode::AuthSuccess), Action::Done);
    assert_eq!(h.current(), HandshakeState::Ready);
    assert_eq!(responses, 2);
}

#[test]
fn auth_round_limit() {
    let mut h = Handshake::new(1, 0);
    h.start(0);
    h.on_response(Opcode::Authenticate);
    h.send_auth_response(0);
    assert_eq!(h.on_response(Opcode::AuthChallenge), Action::Authenticate);
    h.send_auth_response(0);
    assert_eq!(h.on_response(Opcode::AuthChallenge), Action::Fail(HandshakeError::AuthExhausted));
    assert_eq!(h.current(), HandshakeState::Failed(HandshakeError::AuthExhausted));
}

#[test]
fn handshake_failures() {
    let mut h = Handshake::new(1, 0);
    h.start(0);
    assert_eq!(h.on_response(Opcode::Error), Action::Fail(HandshakeError::ServerError));
    let mut h = Handshake::new(1, 0);
    h.start(0);
    assert_eq!(h.on_response(Opcode::Result), Action::Fail(HandshakeError::ProtocolViolation(Opcode::Result)));
    let mut h = Handshake::new(1, 0);
    assert!(h.start(0).is_some());
    assert!(h.start(0).is_none());
}

fn step(c: &mut Connection, stream: i16, op: Opcode) -> Action {
    match c.on_negotiation(frame(stream, op, vec![])) {
        Ok(Negotiation::Step(a)) => a,
        _ => panic!("expected a handshake step"),
    }
}

fn ready_connection() -> Connection {
    let mut c = Connection::new(4, 2, 0);
    assert!(c.begin(0).is_some());
    assert_eq!(c.current(), ConnState::Negotiating);
    assert_eq!(step(&mut c, 0, Opcode::Ready), Action::Done);
    assert_eq!(c.current(), ConnState::Ready);
    c
}

#[test]
fn connection_ready_on_negotiation_stream_seven() {
    let mut c = Connection::new(4, 2, 7);
    let start = c.begin(0).unwrap();
    assert_eq!(encode_header(&start), vec![0x04, 0x00, 0x00, 0x07, 0x01, 0x00, 0x00, 0x00, 0x00]);
    assert_eq!(step(&mut c, 7, Opcode::Ready), Action::Done);
    assert_eq!(c.current(), ConnState::Ready);
}

#[test]
fn event_during_negotiation_goes_to_event_channel() {
    let mut c = Connection::new(4, 2, 7);
    c.begin(0);
    match c.on_negotiation(frame(-1, Opcode::Event, vec![3])) {
        Ok(Negotiation::Event(f)) => assert_eq!(f.body, vec![3]),
        _ => panic!("expected an event"),
    }
    match c.on_negotiation(frame(7, Opcode::Event, vec![])) {
        Ok(Negotiation::Event(_)) => {}
        _ => panic!("expected an event"),
    }
    assert_eq!(c.current(), ConnState::Negotiating);
    assert_eq!(step(&mut c, 7, Opcode::Ready), Action::Done);
    assert_eq!(c.current(), ConnState::Ready);
}

#[test]
fn negotiation_answer_on_wrong_stream_is_unsolicited() {
    let mut c = Connection::new(4, 2, 7);
    c.begin(0);
    match c.on_negotiation(frame(5, Opcode::Ready, vec![])) {
        Err(td) => {
            assert_eq!(td.error, MuxError::UnsolicitedResponse(5));
            assert!(td.failed.is_empty());
        }
        Ok(_) => panic!("expected a teardown"),
    }
    assert_eq!(c.current(), ConnState::Closed);
}

#[test]
fn server_error_during_negotiation_carries_body() {
    let mut c = Connection::new(4, 2, 0);
    c.begin(0);
    let body = vec![0x00, 0x00, 0x01, 0x00, 0x00, 0x02, b'n', b'o'];
    match c.on_negotiation(frame(0, Opcode::Error, body.clone())) {
        Ok(Negotiation::Refused(b)) => assert_eq!(b, body),
        _ => panic!("expected a refusal"),
    }
    assert_eq!(c.current(), ConnState::Closed);
}


#[test]
fn connection_request_cycle() {
    let mut c = Connection::new(2, 1, 0);
    assert_eq!(c.start_request(Opcode::Query, 0).unwrap_err(), ConnError::NotReady);
    c.begin(0);
    assert_eq!(step(&mut c, 0, Opcode::Authenticate), Action::Authenticate);
    assert!(c.answer_challenge(3).is_some());
    assert_eq!(step(&mut c, 0, Opcode::AuthSuccess), Action::Done);
    let (t0, h0) = c.start_request(Opcode::Query, 10).unwrap();
    assert_eq!(h0, Header { version: 0x04, flags: 0, stream: 0, opcode: Opcode::Query, length: 10 });
    let (t1, _) = c.start_request(Opcode::Prepare, 1).unwrap();
    assert_eq!(t1.stream, 1);
    assert_eq!(c.start_request(Opcode::Query, 0).unwrap_err(), ConnError::Mux(MuxError::Busy));
    match c.on_inbound(frame(1, Opcode::Result, vec![])) {
        Ok(Dispatch::Deliver(t, _)) => assert_eq!(t, t1),
        _ => panic!("expected a delivery"),
    }
    assert_eq!(c.close(), vec![t0]);
    assert_eq!(c.current(), ConnState::Closed);
}

#[test]
fn negotiation_failure_closes() {
    let mut c = Connection::new(2, 1, 0);
    c.begin(0);
    assert_eq!(step(&mut c, 0, Opcode::Result), Action::Fail(HandshakeError::ProtocolViolation(Opcode::Result)));
    assert_eq!(c.current(), ConnState::Closed);
}
