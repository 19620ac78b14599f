use vstd::prelude::*;

verus! {

/// Errors raised while decoding a header.
#[derive(Debug, Clone, Copy, PartialEq, Eq, Structural)]
pub enum DecodeError {
    /// The opcode byte names no message kind.
    UnknownOpcode(u8),
    /// The version byte is not one this engine speaks.
    UnsupportedVersion(u8),
    /// Fewer bytes than a header needs.
    Truncated,
}

/// The closed set of message kinds.
#[derive(Debug, Clone, Copy, PartialEq, Eq, Structural)]
pub enum Opcode {
    Error,
    Startup,
    Ready,
    Authenticate,
    Options,
    Supported,
    Query,
    Result,
    Prepare,
    Execute,
    Register,
    Event,
    Batch,
    AuthChallenge,
    AuthResponse,
    AuthSuccess,
}

/// The wire byte of each message kind.
pub open spec fn wire_of(op: Opcode) -> u8 {
    match op {
        Opcode::Error => 0x00,
        Opcode::Startup => 0x01,
        Opcode::Ready => 0x02,
        Opcode::Authenticate => 0x03,
        Opcode::Options => 0x05,
        Opcode::Supported => 0x06,
        Opcode::Query => 0x07,
        Opcode::Result => 0x08,
        Opcode::Prepare => 0x09,
        Opcode::Execute => 0x0A,
        Opcode::Register => 0x0B,
        Opcode::Event => 0x0C,
        Opcode::Batch => 0x0D,
        Opcode::AuthChallenge => 0x0E,
        Opcode::AuthResponse => 0x0F,
        Opcode::AuthSuccess => 0x10,
    }
}

/// The message kind that a wire byte names, if any.
pub open spec fn opcode_of(b: u8) -> Option<Opcode> {
    if b == 0x00 { Some(Opcode::Error) }
    else if b == 0x01 { Some(Opcode::Startup) }
    else if b == 0x02 { Some(Opcode::Ready) }
    else if b == 0x03 { Some(Opcode::Authenticate) }
    else if b == 0x05 { Some(Opcode::Options) }
    else if b == 0x06 { Some(Opcode::Supported) }
    else if b == 0x07 { Some(Opcode::Query) }
    else if b == 0x08 { Some(Opcode::Result) }
    else if b == 0x09 { Some(Opcode::Prepare) }
    else if b == 0x0A { Some(Opcode::Execute) }
    else if b == 0x0B { Some(Opcode::Register) }
    else if b == 0x0C { Some(Opcode::Event) }
    else if b == 0x0D { Some(Opcode::Batch) }
    else if b == 0x0E { Some(Opcode::AuthChallenge) }
    else if b == 0x0F { Some(Opcode::AuthResponse) }
    else if b == 0x10 { Some(Opcode::AuthSuccess) }
    else { None }
}

/// A byte is a known opcode: 0x00 to 0x10, except the reserved 0x04.
pub open spec fn is_known_wire(b: u8) -> bool {
    b <= 0x10 && b != 0x04
}

impl Opcode {
    pub fn to_wire(self) -> (r: u8)
        ensures
            r == wire_of(self),
    {
        match self {
            Opcode::Error => 0x00,
            Opcode::Startup => 0x01,
            Opcode::Ready => 0x02,
            Opcode::Authenticate => 0x03,
            Opcode::Options => 0x05,
            Opcode::Supported => 0x06,
            Opcode::Query => 0x07,
            Opcode::Result => 0x08,
            Opcode::Prepare => 0x09,
            Opcode::Execute => 0x0A,
            Opcode::Register => 0x0B,
            Opcode::Event => 0x0C,
            Opcode::Batch => 0x0D,
            Opcode::AuthChallenge => 0x0E,
            Opcode::AuthResponse => 0x0F,
            Opcode::AuthSuccess => 0x10,
        }
    }

    pub fn from_wire(b: u8) -> (r: Result<Opcode, DecodeError>)
        ensures
            r == match opcode_of(b) {
                Some(op) => Ok::<Opcode, DecodeError>(op),
                None => Err(DecodeError::UnknownOpcode(b)),
            },
            !is_known_wire(b) ==> r == Err::<Opcode, DecodeError>(DecodeError::UnknownOpcode(b)),
            r matches Ok(op) ==> is_known_wire(b) && wire_of(op) == b,
    {
        match b {
            0x00 => Ok(Opcode::Error),
            0x01 => Ok(Opcode::Startup),
            0x02 => Ok(Opcode::Ready),
            0x03 => Ok(Opcode::Authenticate),
            0x05 => Ok(Opcode::Options),
            0x06 => Ok(Opcode::Supported),
            0x07 => Ok(Opcode::Query),
            0x08 => Ok(Opcode::Result),
            0x09 => Ok(Opcode::Prepare),
            0x0A => Ok(Opcode::Execute),
            0x0B => Ok(Opcode::Register),
            0x0C => Ok(Opcode::Event),
            0x0D => Ok(Opcode::Batch),
            0x0E => Ok(Opcode::AuthChallenge),
            0x0F => Ok(Opcode::AuthResponse),
            0x10 => Ok(Opcode::AuthSuccess),
            _ => Err(DecodeError::UnknownOpcode(b)),
        }
    }
}

impl From<Opcode> for u8 {
    fn from(op: Opcode) -> (r: u8)
        ensures
            r == wire_of(op),
    {
        op.to_wire()
    }
}

impl vstd::std_specs::convert::FromSpecImpl<Opcode> for u8 {
    open spec fn obeys_from_spec() -> bool {
        true
    }

    open spec fn from_spec(op: Opcode) -> u8 {
        wire_of(op)
    }
}

/// Decoding the wire byte of a message kind gives that message kind back.
pub proof fn lemma_opcode_round_trip(op: Opcode)
    ensures
        opcode_of(wire_of(op)) == Some(op),
{
}

/// Decoding the wire byte of a message kind gives that message kind back,
/// and a byte outside 0x00..=0x03, 0x05..=0x10 names no message kind.
pub proof fn lemma_opcode_bijection(op: Opcode, b: u8)
    ensures
        opcode_of(wire_of(op)) == Some(op),
        !is_known_wire(b) ==> opcode_of(b) is None,
        opcode_of(b) matches Some(o) ==> wire_of(o) == b,
{
}

} // verus!
